//! A three-component vector value type, generic in its scalar.
//!
//! `Vector3<T>` represents a point, a direction, or an RGB color,
//! depending on call-site convention; the type carries no tag telling
//! these uses apart. Component access by position is only valid for
//! positions 0, 1 and 2: the checked accessors return `None` outside
//! that range, and the unchecked ones require it of the caller.

use vstd::prelude::*;

verus! {

/// Three independent scalar components. Arithmetic on the components is
/// the caller's business, supplied through the closure-taking operations
/// (`map`, `combine`, `dot_with`, `cross_with`); this type owns the
/// structure: which component sits at which position, how positional
/// reads and writes relate to the named fields, and which components
/// feed which scalar operation.
#[derive(Debug, Clone, Copy, PartialEq)]
pub struct Vector3<T> {
    pub x: T,
    pub y: T,
    pub z: T,
}

impl<T> Vector3<T> {
    /// The component at position `i`: 0 is `x`, 1 is `y`, 2 is `z`.
    pub open spec fn spec_get(self, i: int) -> T {
        if i == 0 {
            self.x
        } else if i == 1 {
            self.y
        } else {
            self.z
        }
    }

    /// The vector with the component at position `i` replaced by `v`.
    pub open spec fn spec_store(self, i: int, v: T) -> Self {
        if i == 0 {
            Vector3 { x: v, ..self }
        } else if i == 1 {
            Vector3 { y: v, ..self }
        } else {
            Vector3 { z: v, ..self }
        }
    }
}

impl<T: Copy> Vector3<T> {
    /// Constructs a vector from its three components; no validation.
    pub fn new(x: T, y: T, z: T) -> (v: Self)
        ensures
            v.x == x,
            v.y == y,
            v.z == z,
    {
        Vector3 { x, y, z }
    }

    /// Read accessor for the first component.
    pub fn x(&self) -> (r: T)
        ensures
            r == self.x,
    {
        self.x
    }

    /// Read accessor for the second component.
    pub fn y(&self) -> (r: T)
        ensures
            r == self.y,
    {
        self.y
    }

    /// Read accessor for the third component.
    pub fn z(&self) -> (r: T)
        ensures
            r == self.z,
    {
        self.z
    }

    /// The component at position `i`, for `i` in `{0, 1, 2}`.
    ///
    /// Positions outside that range are a caller error and are excluded
    /// here; `get_checked` reports them as `None` instead.
    pub fn get(&self, i: usize) -> (r: T)
        requires
            i < 3,
        ensures
            r == self.spec_get(i as int),
    {
        if i == 0 {
            self.x
        } else if i == 1 {
            self.y
        } else {
            self.z
        }
    }

    /// The component at position `i`, or `None` when `i` is not a valid
    /// position.
    pub fn get_checked(&self, i: usize) -> (r: Option<T>)
        ensures
            i < 3 ==> r == Some(self.spec_get(i as int)),
            i >= 3 ==> r is None,
    {
        if i < 3 {
            Some(self.get(i))
        } else {
            None
        }
    }

    /// Overwrites the component at position `i` with `v`, for `i` in
    /// `{0, 1, 2}`; the other two components are unchanged.
    pub fn store(&mut self, i: usize, v: T)
        requires
            i < 3,
        ensures
            *final(self) == old(self).spec_store(i as int, v),
    {
        if i == 0 {
            self.x = v;
        } else if i == 1 {
            self.y = v;
        } else {
            self.z = v;
        }
    }

    /// Overwrites the component at position `i` with `v` and reports
    /// whether `i` was a valid position; an invalid position leaves the
    /// vector unchanged.
    pub fn store_checked(&mut self, i: usize, v: T) -> (ok: bool)
        ensures
            ok <==> i < 3,
            i < 3 ==> *final(self) == old(self).spec_store(i as int, v),
            i >= 3 ==> *final(self) == *old(self),
    {
        if i < 3 {
            self.store(i, v);
            true
        } else {
            false
        }
    }

    /// Applies `f` to each component: the result's component at each
    /// position is an output of `f` on the input's component there.
    pub fn map<F: Fn(T) -> T>(&self, f: F) -> (r: Self)
        requires
            call_requires(f, (self.x,)),
            call_requires(f, (self.y,)),
            call_requires(f, (self.z,)),
        ensures
            call_ensures(f, (self.x,), r.x),
            call_ensures(f, (self.y,), r.y),
            call_ensures(f, (self.z,), r.z),
    {
        Vector3 { x: f(self.x), y: f(self.y), z: f(self.z) }
    }

    /// Combines two vectors component by component with `f`: the result's
    /// component at each position is an output of `f` on the two inputs'
    /// components at that same position.
    pub fn combine<F: Fn(T, T) -> T>(&self, other: &Self, f: F) -> (r: Self)
        requires
            call_requires(f, (self.x, other.x)),
            call_requires(f, (self.y, other.y)),
            call_requires(f, (self.z, other.z)),
        ensures
            call_ensures(f, (self.x, other.x), r.x),
            call_ensures(f, (self.y, other.y), r.y),
            call_ensures(f, (self.z, other.z), r.z),
    {
        Vector3 { x: f(self.x, other.x), y: f(self.y, other.y), z: f(self.z, other.z) }
    }

    /// The scalar (inner) product's structure: matching components are
    /// multiplied with `prod`, and the three products are folded left to
    /// right with `plus` — `plus(plus(prod(x1, x2), prod(y1, y2)), prod(z1, z2))`.
    pub fn dot_with<F: Fn(T, T) -> T, G: Fn(T, T) -> T>(&self, other: &Self, prod: F, plus: G) -> (r:
        T)
        requires
            call_requires(prod, (self.x, other.x)),
            call_requires(prod, (self.y, other.y)),
            call_requires(prod, (self.z, other.z)),
            forall|p: T, q: T|
                call_ensures(prod, (self.x, other.x), p) && call_ensures(prod, (self.y, other.y), q)
                    ==> call_requires(plus, (p, q)),
            forall|p: T, q: T, s: T, t: T|
                call_ensures(prod, (self.x, other.x), p) && call_ensures(prod, (self.y, other.y), q)
                    && call_ensures(plus, (p, q), s) && call_ensures(prod, (self.z, other.z), t)
                    ==> call_requires(plus, (s, t)),
        ensures
            exists|p: T, q: T, s: T, t: T|
                call_ensures(prod, (self.x, other.x), p) && call_ensures(prod, (self.y, other.y), q)
                    && call_ensures(plus, (p, q), s) && call_ensures(prod, (self.z, other.z), t)
                    && call_ensures(plus, (s, t), r),
    {
        let p = prod(self.x, other.x);
        let q = prod(self.y, other.y);
        let s = plus(p, q);
        let t = prod(self.z, other.z);
        plus(s, t)
    }

    /// The vector (outer) product's structure, right-hand rule: each
    /// result component is `minus` of two `prod` products of the inputs'
    /// other two components — `(minus(prod(y1, z2), prod(z1, y2)),
    /// minus(prod(z1, x2), prod(x1, z2)), minus(prod(x1, y2), prod(y1, x2)))`.
    pub fn cross_with<F: Fn(T, T) -> T, G: Fn(T, T) -> T>(
        &self,
        other: &Self,
        prod: F,
        minus: G,
    ) -> (r: Self)
        requires
            call_requires(prod, (self.y, other.z)),
            call_requires(prod, (self.z, other.y)),
            call_requires(prod, (self.z, other.x)),
            call_requires(prod, (self.x, other.z)),
            call_requires(prod, (self.x, other.y)),
            call_requires(prod, (self.y, other.x)),
            forall|p: T, q: T|
                call_ensures(prod, (self.y, other.z), p) && call_ensures(prod, (self.z, other.y), q)
                    ==> call_requires(minus, (p, q)),
            forall|p: T, q: T|
                call_ensures(prod, (self.z, other.x), p) && call_ensures(prod, (self.x, other.z), q)
                    ==> call_requires(minus, (p, q)),
            forall|p: T, q: T|
                call_ensures(prod, (self.x, other.y), p) && call_ensures(prod, (self.y, other.x), q)
                    ==> call_requires(minus, (p, q)),
        ensures
            exists|p: T, q: T|
                call_ensures(prod, (self.y, other.z), p) && call_ensures(prod, (self.z, other.y), q)
                    && call_ensures(minus, (p, q), r.x),
            exists|p: T, q: T|
                call_ensures(prod, (self.z, other.x), p) && call_ensures(prod, (self.x, other.z), q)
                    && call_ensures(minus, (p, q), r.y),
            exists|p: T, q: T|
                call_ensures(prod, (self.x, other.y), p) && call_ensures(prod, (self.y, other.x), q)
                    && call_ensures(minus, (p, q), r.z),
    {
        let px = prod(self.y, other.z);
        let qx = prod(self.z, other.y);
        let x = minus(px, qx);
        let py = prod(self.z, other.x);
        let qy = prod(self.x, other.z);
        let y = minus(py, qy);
        let pz = prod(self.x, other.y);
        let qz = prod(self.y, other.x);
        let z = minus(pz, qz);
        let r = Vector3 { x, y, z };
        proof {
            assert(exists|p: T, q: T|
                call_ensures(prod, (self.y, other.z), p) && call_ensures(prod, (self.z, other.y), q)
                    && call_ensures(minus, (p, q), r.x)) by {
                assert(call_ensures(minus, (px, qx), r.x));
            }
            assert(exists|p: T, q: T|
                call_ensures(prod, (self.z, other.x), p) && call_ensures(prod, (self.x, other.z), q)
                    && call_ensures(minus, (p, q), r.y)) by {
                assert(call_ensures(minus, (py, qy), r.y));
            }
            assert(exists|p: T, q: T|
                call_ensures(prod, (self.x, other.y), p) && call_ensures(prod, (self.y, other.x), q)
                    && call_ensures(minus, (p, q), r.z)) by {
                assert(call_ensures(minus, (pz, qz), r.z));
            }
        }
        r
    }
}

/// Positional access agrees with the named accessors: position 0 is `x`,
/// position 1 is `y`, position 2 is `z`.
pub proof fn lemma_get_matches_fields<T>(v: Vector3<T>)
    ensures
        v.spec_get(0) == v.x,
        v.spec_get(1) == v.y,
        v.spec_get(2) == v.z,
{
}

/// A positional write is immediately visible to every read: after storing
/// `t` at position `i`, reading position `i` yields `t`, and every other
/// position yields what it held before.
pub proof fn lemma_store_then_get<T>(v: Vector3<T>, i: int, t: T)
    requires
        0 <= i < 3,
    ensures
        v.spec_store(i, t).spec_get(i) == t,
        forall|j: int| 0 <= j < 3 && j != i ==> v.spec_store(i, t).spec_get(j) == v.spec_get(j),
{
}

} // verus!

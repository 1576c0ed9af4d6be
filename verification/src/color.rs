//! Text form of a color: three decimal integers separated by single
//! spaces, followed by a line terminator — the one line the PPM (`P3`)
//! body holds per pixel.
//!
//! The quantization of a `[0, 1]` intensity to a byte value is
//! floating-point work and stays with the caller; this module owns the
//! exact decimal text of whatever channel values the caller computed
//! (negative values included: channels are not clamped).

use vstd::prelude::*;
use vstd::string::*;

verus! {

/// The decimal digit character for `d` in `{0, ..., 9}`.
pub open spec fn digit_char(d: nat) -> char {
    if d == 0 {
        '0'
    } else if d == 1 {
        '1'
    } else if d == 2 {
        '2'
    } else if d == 3 {
        '3'
    } else if d == 4 {
        '4'
    } else if d == 5 {
        '5'
    } else if d == 6 {
        '6'
    } else if d == 7 {
        '7'
    } else if d == 8 {
        '8'
    } else {
        '9'
    }
}

/// The usual decimal numeral of `n`: most significant digit first, no
/// leading zeros (except the numeral of 0 itself, which is `"0"`).
pub open spec fn spec_decimal_nat(n: nat) -> Seq<char>
    decreases n,
{
    if n < 10 {
        seq![digit_char(n)]
    } else {
        spec_decimal_nat(n / 10).push(digit_char(n % 10))
    }
}

/// The decimal numeral of `i`, with a leading minus sign when `i` is
/// negative.
pub open spec fn spec_decimal(i: int) -> Seq<char> {
    if i < 0 {
        seq!['-'] + spec_decimal_nat((-i) as nat)
    } else {
        spec_decimal_nat(i as nat)
    }
}

/// One pixel's line: the three channel numerals separated by single
/// spaces, then a line feed.
pub open spec fn spec_triplet_line(r: int, g: int, b: int) -> Seq<char> {
    spec_decimal(r) + seq![' '] + spec_decimal(g) + seq![' '] + spec_decimal(b) + seq!['\n']
}

fn digit_str(d: u8) -> (s: &'static str)
    requires
        d < 10,
    ensures
        s@ == seq![digit_char(d as nat)],
{
    if d == 0 {
        proof {
            reveal_strlit("0");
            assert("0"@ =~= seq![digit_char(d as nat)]);
        }
        "0"
    } else if d == 1 {
        proof {
            reveal_strlit("1");
            assert("1"@ =~= seq![digit_char(d as nat)]);
        }
        "1"
    } else if d == 2 {
        proof {
            reveal_strlit("2");
            assert("2"@ =~= seq![digit_char(d as nat)]);
        }
        "2"
    } else if d == 3 {
        proof {
            reveal_strlit("3");
            assert("3"@ =~= seq![digit_char(d as nat)]);
        }
        "3"
    } else if d == 4 {
        proof {
            reveal_strlit("4");
            assert("4"@ =~= seq![digit_char(d as nat)]);
        }
        "4"
    } else if d == 5 {
        proof {
            reveal_strlit("5");
            assert("5"@ =~= seq![digit_char(d as nat)]);
        }
        "5"
    } else if d == 6 {
        proof {
            reveal_strlit("6");
            assert("6"@ =~= seq![digit_char(d as nat)]);
        }
        "6"
    } else if d == 7 {
        proof {
            reveal_strlit("7");
            assert("7"@ =~= seq![digit_char(d as nat)]);
        }
        "7"
    } else if d == 8 {
        proof {
            reveal_strlit("8");
            assert("8"@ =~= seq![digit_char(d as nat)]);
        }
        "8"
    } else {
        proof {
            reveal_strlit("9");
            assert("9"@ =~= seq![digit_char(d as nat)]);
        }
        "9"
    }
}

fn decimal_nat(n: u32) -> (s: String)
    ensures
        s@ == spec_decimal_nat(n as nat),
    decreases n,
{
    if n < 10 {
        String::from_str(digit_str(n as u8))
    } else {
        let mut s = decimal_nat(n / 10);
        s.append(digit_str((n % 10) as u8));
        proof {
            assert(s@ =~= spec_decimal_nat(n as nat));
        }
        s
    }
}

/// The decimal numeral of `n` as text, sign included.
pub fn decimal_string(n: i32) -> (s: String)
    ensures
        s@ == spec_decimal(n as int),
{
    if n >= 0 {
        decimal_nat(n as u32)
    } else {
        let mut s = String::new();
        proof {
            reveal_strlit("-");
        }
        s.append("-");
        let m: u32 = (-(n as i64)) as u32;
        proof {
            assert(0 < -(n as int) <= 0x8000_0000int);
            assert(m as nat == (-(n as int)) as nat);
        }
        let digits = decimal_nat(m);
        s.append(digits.as_str());
        proof {
            assert(s@ =~= spec_decimal(n as int));
        }
        s
    }
}

/// One pixel's line of PPM body text: `"<r> <g> <b>\n"` with each
/// channel in decimal. Channels outside `[0, 255]` are written as they
/// come: this layer does not clamp.
pub fn triplet_line(r: i32, g: i32, b: i32) -> (s: String)
    ensures
        s@ == spec_triplet_line(r as int, g as int, b as int),
{
    let mut s = decimal_string(r);
    proof {
        reveal_strlit(" ");
        reveal_strlit("\n");
    }
    s.append(" ");
    let gs = decimal_string(g);
    s.append(gs.as_str());
    s.append(" ");
    let bs = decimal_string(b);
    s.append(bs.as_str());
    s.append("\n");
    proof {
        assert(s@ =~= spec_triplet_line(r as int, g as int, b as int));
    }
    s
}

} // verus!

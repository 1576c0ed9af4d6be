//! The fixed text around the pixel lines of a plain-text PPM (`P3`)
//! image: the header giving width, height and the maximum channel
//! value, and the row-major concatenation of pixel lines.
//!
//! The driver decides the pixel values (typically from floating-point
//! intensities); this module owns the exact text that a given sequence
//! of channel triplets produces.

use vstd::prelude::*;
use vstd::string::*;
use crate::color::spec_decimal;
use crate::color::spec_triplet_line;
use crate::color::decimal_string;
use crate::color::triplet_line;

verus! {

/// The image header: `"P3\n <width> <height> \n255\n"`.
pub open spec fn spec_ppm_header(width: int, height: int) -> Seq<char> {
    seq!['P', '3', '\n', ' '] + spec_decimal(width) + seq![' '] + spec_decimal(height) + seq![
        ' ',
        '\n',
        '2',
        '5',
        '5',
        '\n',
    ]
}

/// The body text of an image: one line per pixel, in the order given
/// (row-major, top row first, by the format's convention).
pub open spec fn spec_body_lines(pixels: Seq<(i32, i32, i32)>) -> Seq<char>
    decreases pixels.len(),
{
    if pixels.len() == 0 {
        Seq::empty()
    } else {
        spec_body_lines(pixels.drop_last()) + spec_triplet_line(
            pixels.last().0 as int,
            pixels.last().1 as int,
            pixels.last().2 as int,
        )
    }
}

/// The `P3` header for an image of the given dimensions.
pub fn ppm_header(width: i32, height: i32) -> (s: String)
    ensures
        s@ == spec_ppm_header(width as int, height as int),
{
    let mut s = String::new();
    proof {
        reveal_strlit("P3\n ");
        reveal_strlit(" ");
        reveal_strlit(" \n255\n");
    }
    s.append("P3\n ");
    let ws = decimal_string(width);
    s.append(ws.as_str());
    s.append(" ");
    let hs = decimal_string(height);
    s.append(hs.as_str());
    s.append(" \n255\n");
    proof {
        assert(s@ =~= spec_ppm_header(width as int, height as int));
    }
    s
}

/// The body of an image: the pixel lines of `pixels`, concatenated in
/// order.
pub fn body_lines(pixels: &Vec<(i32, i32, i32)>) -> (s: String)
    ensures
        s@ == spec_body_lines(pixels@),
{
    let mut s = String::new();
    let mut k: usize = 0;
    while k < pixels.len()
        invariant
            k <= pixels.len(),
            s@ == spec_body_lines(pixels@.take(k as int)),
        decreases pixels.len() - k,
    {
        let (r, g, b) = pixels[k];
        let line = triplet_line(r, g, b);
        s.append(line.as_str());
        proof {
            assert(pixels@.take(k + 1int).drop_last() =~= pixels@.take(k as int));
            assert(pixels@.take(k + 1int).last() == pixels@[k as int]);
        }
        k = k + 1;
    }
    proof {
        assert(pixels@.take(pixels@.len() as int) =~= pixels@);
    }
    s
}

} // verus!

//! What is computed around the rendering of icons.

use vstd::prelude::*;
use vstd::string::*;
use crate::text::{replace_all, str_replace};

verus! {

/// The SVG text with its current colour written out: every `currentColor`
/// between double quotes, then every one between single quotes, then every
/// one left, is replaced by the colour.
pub open spec fn current_color_replaced(svg: Seq<char>, color: Seq<char>) -> Seq<char> {
    replace_all(
        replace_all(
            replace_all(svg, "\"currentColor\""@, "\""@ + color + "\""@),
            "'currentColor'"@,
            "'"@ + color + "'"@,
        ),
        "currentColor"@,
        color,
    )
}

/// Writes the colour `color_hex` in place of `currentColor`. The result is
/// the text to hand to the SVG parser.
pub fn parse_svg_with_current_color_replace(svg: &str, color_hex: &str) -> (out: String)
    ensures
        out@ == current_color_replaced(svg@, color_hex@),
{
    proof {
        reveal_strlit("\"currentColor\"");
        reveal_strlit("'currentColor'");
        reveal_strlit("currentColor");
    }
    let mut double = String::from_str("\"");
    double.append(color_hex);
    double.append("\"");
    let mut single = String::from_str("'");
    single.append(color_hex);
    single.append("'");
    let first = str_replace(svg, "\"currentColor\"", double.as_str());
    let second = str_replace(first.as_str(), "'currentColor'", single.as_str());
    str_replace(second.as_str(), "currentColor", color_hex)
}

/// A pixel: red, green, blue, alpha.
#[derive(Clone, Copy, Debug, PartialEq, Eq, Structural)]
pub struct Pixel {
    pub red: u8,
    pub green: u8,
    pub blue: u8,
    pub alpha: u8,
}

/// The bytes of an image whose pixels are `pixels`: four per pixel, in the
/// order red, green, blue, alpha.
pub open spec fn rgba_bytes(pixels: Seq<Pixel>) -> Seq<u8> {
    Seq::new(
        4 * pixels.len(),
        |i: int|
            {
                let pixel = pixels[i / 4];
                if i % 4 == 0 {
                    pixel.red
                } else if i % 4 == 1 {
                    pixel.green
                } else if i % 4 == 2 {
                    pixel.blue
                } else {
                    pixel.alpha
                }
            },
    )
}

/// Lays the pixels of a rendered icon out as the bytes of an RGBA image.
pub fn into_egui_image(pixels: &Vec<Pixel>) -> (data: Vec<u8>)
    ensures
        data@ == rgba_bytes(pixels@),
{
    let mut data: Vec<u8> = Vec::new();
    let mut i: usize = 0;
    while i < pixels.len()
        invariant
            i <= pixels.len(),
            data@ =~= rgba_bytes(pixels@.subrange(0, i as int)),
        decreases pixels.len() - i,
    {
        let pixel = pixels[i];
        let ghost before = data@;
        data.push(pixel.red);
        data.push(pixel.green);
        data.push(pixel.blue);
        data.push(pixel.alpha);
        proof {
            let done = pixels@.subrange(0, i as int);
            let next = pixels@.subrange(0, i as int + 1);
            assert(next.len() == done.len() + 1);
            assert forall|k: int| 0 <= k < data@.len() implies data@[k] == rgba_bytes(next)[k] by {
                if k < 4 * i {
                    assert(before[k] == rgba_bytes(done)[k]);
                    assert(done[k / 4] == next[k / 4]);
                } else {
                    assert(k / 4 == i);
                    assert(next[k / 4] == pixel);
                }
            }
            assert(data@ =~= rgba_bytes(next));
        }
        i += 1;
    }
    assert(pixels@.subrange(0, pixels.len() as int) =~= pixels@);
    data
}

} // verus!

//! RGBA conversion of sensor images for on-screen previews: every pixel
//! becomes red, green, blue and an opaque alpha byte.
use vstd::prelude::*;

use crate::encode::{channel, segmentation_color, segmentation_colors};
use crate::image::{RgbImage, SegmentationImage};

verus! {

/// RGBA bytes of packed `0x00RRGGBB` pixels, alpha always 255.
pub open spec fn rgba_bytes(pixels: Seq<u32>) -> Seq<u8> {
    Seq::new(4 * pixels.len(), |i: int| if i % 4 == 3 { 255u8 } else { channel(pixels[i / 4], i % 4) })
}

/// RGBA bytes of grey levels: each level on red, green and blue, alpha 255.
pub open spec fn grey_rgba_bytes(levels: Seq<u8>) -> Seq<u8> {
    Seq::new(4 * levels.len(), |i: int| if i % 4 == 3 { 255u8 } else { levels[i / 4] })
}

/// Four bytes per pixel appended, each following `rgba_bytes`.
fn push_rgba(out: &mut Vec<u8>, pixels: &Vec<u32>)
    ensures
        final(out)@ == old(out)@ + rgba_bytes(pixels@),
{
    let ghost start = out@;
    let mut i: usize = 0;
    while i < pixels.len()
        invariant
            i <= pixels@.len(),
            out@ == start + rgba_bytes(pixels@.take(i as int)),
        decreases pixels@.len() - i,
    {
        let pixel = pixels[i];
        out.push(((pixel >> 16) & 0xff) as u8);
        out.push(((pixel >> 8) & 0xff) as u8);
        out.push((pixel & 0xff) as u8);
        out.push(255);
        proof {
            let before = rgba_bytes(pixels@.take(i as int));
            let after = rgba_bytes(pixels@.take(i + 1));
            let tail = seq![channel(pixel, 0), channel(pixel, 1), channel(pixel, 2), 255u8];
            assert forall|j: int| 0 <= j < after.len() implies #[trigger] after[j] == (before
                + tail)[j] by {
                if j < 4 * i {
                    assert(j / 4 < i);
                } else {
                    assert(j / 4 == i);
                }
            }
            assert(after =~= before + tail);
        }
        i = i + 1;
    }
    assert(pixels@.take(i as int) =~= pixels@);
}

/// RGBA preview of an RGB image.
pub fn rgb_to_rgba(image: &RgbImage) -> (rgba: Vec<u8>)
    ensures
        rgba@ == rgba_bytes(image.pixels@),
{
    let mut rgba = Vec::new();
    push_rgba(&mut rgba, &image.pixels);
    assert(rgba@ =~= rgba_bytes(image.pixels@));
    rgba
}

/// RGBA preview of a segmentation image, each object ID in its preview
/// colour.
pub fn segmentation_to_rgba(image: &SegmentationImage) -> (rgba: Vec<u8>)
    ensures
        rgba@ == rgba_bytes(segmentation_colors(image.pixels@)),
{
    let mut colors: Vec<u32> = Vec::new();
    let mut i: usize = 0;
    while i < image.pixels.len()
        invariant
            i <= image.pixels@.len(),
            colors@ == segmentation_colors(image.pixels@.take(i as int)),
        decreases image.pixels@.len() - i,
    {
        colors.push(segmentation_color(image.pixels[i]));
        assert(colors@ =~= segmentation_colors(image.pixels@.take(i + 1)));
        i = i + 1;
    }
    assert(image.pixels@.take(i as int) =~= image.pixels@);
    let mut rgba = Vec::new();
    push_rgba(&mut rgba, &colors);
    assert(rgba@ =~= rgba_bytes(segmentation_colors(image.pixels@)));
    rgba
}

/// RGBA preview of grey levels.
pub fn grey_to_rgba(levels: &Vec<u8>) -> (rgba: Vec<u8>)
    ensures
        rgba@ == grey_rgba_bytes(levels@),
{
    let mut rgba: Vec<u8> = Vec::new();
    let mut i: usize = 0;
    while i < levels.len()
        invariant
            i <= levels@.len(),
            rgba@ == grey_rgba_bytes(levels@.take(i as int)),
        decreases levels@.len() - i,
    {
        let level = levels[i];
        rgba.push(level);
        rgba.push(level);
        rgba.push(level);
        rgba.push(255);
        proof {
            let before = grey_rgba_bytes(levels@.take(i as int));
            let after = grey_rgba_bytes(levels@.take(i + 1));
            let tail = seq![level, level, level, 255u8];
            assert forall|j: int| 0 <= j < after.len() implies #[trigger] after[j] == (before
                + tail)[j] by {
                if j < 4 * i {
                    assert(j / 4 < i);
                } else {
                    assert(j / 4 == i);
                }
            }
            assert(after =~= before + tail);
        }
        i = i + 1;
    }
    assert(levels@.take(i as int) =~= levels@);
    rgba
}

} // verus!

//! Byte encodings of the dataset's image files: binary PPM (`P6`) for RGB,
//! binary PGM (`P5`) for grey previews, raw little-endian `u32` for
//! segmentation IDs, and the colour map of segmentation previews.
//!
//! Each writer appends its file's bytes to a buffer; putting the buffer on
//! disk is left to the caller.
use vstd::prelude::*;

use crate::image::{invalid_image_message, DatasetError, RgbImage, SegmentationImage};
use crate::text::{decimal_digits, decimal_text, lemma_decimal_digits_are_digits, lemma_decimal_text_value, push_decimal, text_value};

verus! {

/// Colour of a segmentation object ID in previews: fixed colours for the
/// built-in IDs `0..=4`, and for any other ID a colour hashed from the ID
/// whose channels each lie in `48..=175`.
pub open spec fn segmentation_color_of(object_id: u32) -> u32 {
    if object_id == 0 {
        0x0000_0000
    } else if object_id == 1 {
        0x0080_8080
    } else if object_id == 2 {
        0x00e6_1f1a
    } else if object_id == 3 {
        0x001a_9e38
    } else if object_id == 4 {
        0x001a_47e6
    } else {
        let hash = ((object_id as nat * 0x45d9_f3b) % 0x1_0000_0000) as u32;
        let red = (48 + (hash & 0x7f)) as u32;
        let green = (48 + ((hash >> 8u32) & 0x7f)) as u32;
        let blue = (48 + ((hash >> 16u32) & 0x7f)) as u32;
        (red << 16u32) | (green << 8u32) | blue
    }
}

/// Preview colour of a segmentation object ID, packed as `0x00RRGGBB`.
pub fn segmentation_color(object_id: u32) -> (color: u32)
    ensures
        color == segmentation_color_of(object_id),
        object_id >= 5 ==> {
            &&& color >> 24u32 == 0
            &&& 48 <= (color >> 16u32) & 0xff <= 175
            &&& 48 <= (color >> 8u32) & 0xff <= 175
            &&& 48 <= color & 0xff <= 175
        },
{
    match object_id {
        0 => 0x0000_0000,
        1 => 0x0080_8080,
        2 => 0x00e6_1f1a,
        3 => 0x001a_9e38,
        4 => 0x001a_47e6,
        other => {
            let hash = other.wrapping_mul(0x45d9_f3b);
            assert(hash & 0x7f <= 0x7f && (hash >> 8u32) & 0x7f <= 0x7f && (hash >> 16u32) & 0x7f
                <= 0x7f) by (bit_vector);
            let red = 48 + (hash & 0x7f);
            let green = 48 + ((hash >> 8) & 0x7f);
            let blue = 48 + ((hash >> 16) & 0x7f);
            let color = (red << 16) | (green << 8) | blue;
            assert({
                &&& color >> 24u32 == 0
                &&& 48 <= (color >> 16u32) & 0xff <= 175
                &&& 48 <= (color >> 8u32) & 0xff <= 175
                &&& 48 <= color & 0xff <= 175
            }) by (bit_vector)
                requires
                    red == 48 + (hash & 0x7f),
                    green == 48 + ((hash >> 8u32) & 0x7f),
                    blue == 48 + ((hash >> 16u32) & 0x7f),
                    color == (red << 16u32) | (green << 8u32) | blue,
            ;
            color
        },
    }
}

/// Header of a binary PPM image: `P6\n{width} {height}\n255\n`.
pub open spec fn ppm_header(width: u32, height: u32) -> Seq<u8> {
    seq![80u8, 54u8, 10u8] + decimal_digits(width as nat) + seq![32u8] + decimal_digits(
        height as nat,
    ) + seq![10u8, 50u8, 53u8, 53u8, 10u8]
}

/// Header of a binary PGM image: `P5\n{width} {height}\n255\n`.
pub open spec fn pgm_header(width: u32, height: u32) -> Seq<u8> {
    seq![80u8, 53u8, 10u8] + decimal_digits(width as nat) + seq![32u8] + decimal_digits(
        height as nat,
    ) + seq![10u8, 50u8, 53u8, 53u8, 10u8]
}

/// Channel `k` (0 red, 1 green, 2 blue) of a packed `0x00RRGGBB` pixel.
pub open spec fn channel(pixel: u32, k: int) -> u8 {
    if k == 0 {
        ((pixel >> 16u32) & 0xffu32) as u8
    } else if k == 1 {
        ((pixel >> 8u32) & 0xffu32) as u8
    } else {
        (pixel & 0xffu32) as u8
    }
}

/// Red, green and blue byte of each pixel in turn.
pub open spec fn rgb_bytes(pixels: Seq<u32>) -> Seq<u8> {
    Seq::new(3 * pixels.len(), |i: int| channel(pixels[i / 3], i % 3))
}

/// The bytes of a binary PPM file for the given dimensions and pixels.
pub open spec fn ppm_bytes(width: u32, height: u32, pixels: Seq<u32>) -> Seq<u8> {
    ppm_header(width, height) + rgb_bytes(pixels)
}

/// Byte `k` (0 least significant) of a `u32`.
pub open spec fn le_byte(value: u32, k: int) -> u8 {
    if k == 0 {
        (value & 0xffu32) as u8
    } else if k == 1 {
        ((value >> 8u32) & 0xffu32) as u8
    } else if k == 2 {
        ((value >> 16u32) & 0xffu32) as u8
    } else {
        ((value >> 24u32) & 0xffu32) as u8
    }
}

/// Each value as four little-endian bytes, in turn.
pub open spec fn le_u32_bytes(values: Seq<u32>) -> Seq<u8> {
    Seq::new(4 * values.len(), |i: int| le_byte(values[i / 4], i % 4))
}

/// Reading a PPM body back: the three bytes written for pixel `i` rebuild
/// its 24 colour bits.
pub proof fn lemma_rgb_bytes_roundtrip(pixels: Seq<u32>, i: int)
    requires
        0 <= i < pixels.len(),
    ensures
        ((rgb_bytes(pixels)[3 * i] as u32) << 16u32) | ((rgb_bytes(pixels)[3 * i + 1] as u32)
            << 8u32) | (rgb_bytes(pixels)[3 * i + 2] as u32) == pixels[i] & 0x00ff_ffffu32,
{
    assert((3 * i) / 3 == i && (3 * i) % 3 == 0);
    assert((3 * i + 1) / 3 == i && (3 * i + 1) % 3 == 1);
    assert((3 * i + 2) / 3 == i && (3 * i + 2) % 3 == 2);
    let p = pixels[i];
    let r = ((p >> 16u32) & 0xffu32) as u8;
    let g = ((p >> 8u32) & 0xffu32) as u8;
    let b = (p & 0xffu32) as u8;
    assert(((r as u32) << 16u32) | ((g as u32) << 8u32) | (b as u32) == p & 0x00ff_ffffu32)
        by (bit_vector)
        requires
            r == ((p >> 16u32) & 0xffu32) as u8,
            g == ((p >> 8u32) & 0xffu32) as u8,
            b == (p & 0xffu32) as u8,
    ;
}

/// Reading a raw `u32` file back: the four bytes written for value `i`
/// rebuild it exactly.
pub proof fn lemma_le_u32_bytes_roundtrip(values: Seq<u32>, i: int)
    requires
        0 <= i < values.len(),
    ensures
        (le_u32_bytes(values)[4 * i] as u32) | ((le_u32_bytes(values)[4 * i + 1] as u32) << 8u32)
            | ((le_u32_bytes(values)[4 * i + 2] as u32) << 16u32) | ((le_u32_bytes(values)[4 * i
            + 3] as u32) << 24u32) == values[i],
{
    assert((4 * i) / 4 == i && (4 * i) % 4 == 0);
    assert((4 * i + 1) / 4 == i && (4 * i + 1) % 4 == 1);
    assert((4 * i + 2) / 4 == i && (4 * i + 2) % 4 == 2);
    assert((4 * i + 3) / 4 == i && (4 * i + 3) % 4 == 3);
    let v = values[i];
    let b0 = (v & 0xffu32) as u8;
    let b1 = ((v >> 8u32) & 0xffu32) as u8;
    let b2 = ((v >> 16u32) & 0xffu32) as u8;
    let b3 = ((v >> 24u32) & 0xffu32) as u8;
    assert((b0 as u32) | ((b1 as u32) << 8u32) | ((b2 as u32) << 16u32) | ((b3 as u32) << 24u32)
        == v) by (bit_vector)
        requires
            b0 == (v & 0xffu32) as u8,
            b1 == ((v >> 8u32) & 0xffu32) as u8,
            b2 == ((v >> 16u32) & 0xffu32) as u8,
            b3 == ((v >> 24u32) & 0xffu32) as u8,
    ;
}

/// Appends the header line `{magic}\n{width} {height}\n255\n`, where
/// `magic` is the two-byte format tag.
fn push_header(out: &mut Vec<u8>, tag: u8, width: u32, height: u32)
    ensures
        final(out)@ == old(out)@ + seq![80u8, tag, 10u8] + decimal_digits(width as nat) + seq![
            32u8,
        ] + decimal_digits(height as nat) + seq![10u8, 50u8, 53u8, 53u8, 10u8],
{
    out.push(80);
    out.push(tag);
    out.push(10);
    push_decimal(out, width as u64);
    out.push(32);
    push_decimal(out, height as u64);
    out.push(10);
    out.push(50);
    out.push(53);
    out.push(53);
    out.push(10);
    assert(out@ =~= old(out)@ + seq![80u8, tag, 10u8] + decimal_digits(width as nat) + seq![32u8]
        + decimal_digits(height as nat) + seq![10u8, 50u8, 53u8, 53u8, 10u8]);
}

/// Appends the red, green and blue bytes of each pixel.
fn push_rgb_bytes(out: &mut Vec<u8>, pixels: &Vec<u32>)
    ensures
        final(out)@ == old(out)@ + rgb_bytes(pixels@),
{
    let ghost start = out@;
    let mut i: usize = 0;
    while i < pixels.len()
        invariant
            i <= pixels@.len(),
            out@ == start + rgb_bytes(pixels@.take(i as int)),
        decreases pixels@.len() - i,
    {
        let pixel = pixels[i];
        out.push(((pixel >> 16) & 0xff) as u8);
        out.push(((pixel >> 8) & 0xff) as u8);
        out.push((pixel & 0xff) as u8);
        proof {
            let before = rgb_bytes(pixels@.take(i as int));
            let after = rgb_bytes(pixels@.take(i + 1));
            assert forall|j: int| 0 <= j < after.len() implies #[trigger] after[j] == (before
                + seq![channel(pixel, 0), channel(pixel, 1), channel(pixel, 2)])[j] by {
                if j < 3 * i {
                    assert(j / 3 < i);
                } else {
                    assert(j / 3 == i);
                }
            }
            assert(after =~= before + seq![channel(pixel, 0), channel(pixel, 1), channel(pixel, 2)]);
        }
        i = i + 1;
    }
    assert(pixels@.take(i as int) =~= pixels@);
}

/// Appends the four little-endian bytes of each value.
fn push_le_u32_bytes(out: &mut Vec<u8>, values: &Vec<u32>)
    ensures
        final(out)@ == old(out)@ + le_u32_bytes(values@),
{
    let ghost start = out@;
    let mut i: usize = 0;
    while i < values.len()
        invariant
            i <= values@.len(),
            out@ == start + le_u32_bytes(values@.take(i as int)),
        decreases values@.len() - i,
    {
        let value = values[i];
        out.push((value & 0xff) as u8);
        out.push(((value >> 8) & 0xff) as u8);
        out.push(((value >> 16) & 0xff) as u8);
        out.push(((value >> 24) & 0xff) as u8);
        proof {
            let before = le_u32_bytes(values@.take(i as int));
            let after = le_u32_bytes(values@.take(i + 1));
            let tail = seq![le_byte(value, 0), le_byte(value, 1), le_byte(value, 2), le_byte(value, 3)];
            assert forall|j: int| 0 <= j < after.len() implies #[trigger] after[j] == (before
                + tail)[j] by {
                if j < 4 * i {
                    assert(j / 4 < i);
                } else {
                    assert(j / 4 == i);
                }
            }
            assert(after =~= before + tail);
        }
        i = i + 1;
    }
    assert(values@.take(i as int) =~= values@);
}

/// Writes `image` as a binary PPM file into `out`: the header, then the red,
/// green and blue byte of every pixel in row-major order.
pub fn write_ppm(out: &mut Vec<u8>, image: &RgbImage)
    ensures
        final(out)@ == old(out)@ + ppm_bytes(image.width, image.height, image.pixels@),
{
    push_header(out, 54, image.width, image.height);
    push_rgb_bytes(out, &image.pixels);
    assert(out@ =~= old(out)@ + ppm_bytes(image.width, image.height, image.pixels@));
}

/// Writes a grey preview as a binary PGM file into `out`: the header, then
/// one byte per pixel.
pub fn write_pgm(out: &mut Vec<u8>, width: u32, height: u32, levels: &Vec<u8>)
    ensures
        final(out)@ == old(out)@ + pgm_header(width, height) + levels@,
{
    push_header(out, 53, width, height);
    let ghost start = out@;
    let mut i: usize = 0;
    while i < levels.len()
        invariant
            i <= levels@.len(),
            out@ == start + levels@.take(i as int),
        decreases levels@.len() - i,
    {
        out.push(levels[i]);
        assert(levels@.take(i + 1) =~= levels@.take(i as int).push(levels@[i as int]));
        assert(out@ =~= start + levels@.take(i + 1));
        i = i + 1;
    }
    assert(levels@.take(i as int) =~= levels@);
    assert(out@ =~= old(out)@ + pgm_header(width, height) + levels@);
}

/// Writes the raw segmentation file into `out`: every object ID as four
/// little-endian bytes, row-major, with no header.
pub fn write_segmentation_u32(out: &mut Vec<u8>, image: &SegmentationImage)
    ensures
        final(out)@ == old(out)@ + le_u32_bytes(image.pixels@),
{
    push_le_u32_bytes(out, &image.pixels);
}

/// The preview colour of every object ID in turn.
pub open spec fn segmentation_colors(ids: Seq<u32>) -> Seq<u32> {
    ids.map_values(|id: u32| segmentation_color_of(id))
}

/// Writes the colour preview of a segmentation image into `out` as a binary
/// PPM file. The image must hold `width * height` IDs; otherwise nothing is
/// written and the error says so.
pub fn write_segmentation_preview_ppm(out: &mut Vec<u8>, image: &SegmentationImage) -> (result: Result<(), DatasetError>)
    ensures
        result is Ok <==> image.pixels@.len() == image.width * image.height,
        result is Ok ==> final(out)@ == old(out)@ + ppm_bytes(
            image.width,
            image.height,
            segmentation_colors(image.pixels@),
        ),
        result matches Err(DatasetError::InvalidImage(m)) ==> final(out)@ == old(out)@ && m@
            == invalid_image_message("pixels"@, image.width, image.height, image.pixels@.len()),
{
    let mut colors: Vec<u32> = Vec::new();
    let mut i: usize = 0;
    while i < image.pixels.len()
        invariant
            i <= image.pixels@.len(),
            colors@ == segmentation_colors(image.pixels@.take(i as int)),
        decreases image.pixels@.len() - i,
    {
        colors.push(segmentation_color(image.pixels[i]));
        assert(colors@ =~= segmentation_colors(image.pixels@.take(i + 1)));
        i = i + 1;
    }
    assert(image.pixels@.take(i as int) =~= image.pixels@);
    let preview = RgbImage::new(image.width, image.height, colors)?;
    write_ppm(out, &preview);
    Ok(())
}

} // verus!

verus! {

/// The hash behind a hashed colour is the ID times `0x45d9f3b`, wrapped to
/// 32 bits.
proof fn lemma_colour_hash(a: u32)
    ensures
        ((a as nat * 0x45d9_f3b) % 0x1_0000_0000) as u32 == (a * 0x45d9_f3bu32) as u32,
{
    let x: u64 = (a as u64 * 0x45d9_f3bu64) as u64;
    assert(x == a as nat * 0x45d9_f3b);
    let h: u32 = ((a as nat * 0x45d9_f3b) % 0x1_0000_0000) as u32;
    assert(h as int == x % 0x1_0000_0000);
    assert(x & 0xffff_ffffu64 == x % 0x1_0000_0000u64) by (bit_vector);
    assert(h as u64 == x & 0xffff_ffffu64);
    assert(h as u64 == x & 0xffff_ffffu64 ==> h == (a * 0x45d9_f3bu32) as u32) by (bit_vector)
        requires
            x == (a as u64 * 0x45d9_f3bu64) as u64,
    ;
}

/// Hashed colours keep object IDs apart: two IDs from 5 on with one colour
/// agree in their low seven bits, and distinct IDs from 5 up to 65535
/// never share a colour, so neighbouring objects stay distinguishable in a
/// segmentation preview.
#[verifier::rlimit(100)]
pub proof fn lemma_hashed_colours_distinct(a: u32, b: u32)
    requires
        5 <= a,
        5 <= b,
    ensures
        segmentation_color_of(a) == segmentation_color_of(b) ==> a % 128 == b % 128,
        a <= 0xffff && b <= 0xffff && a != b ==> segmentation_color_of(a) != segmentation_color_of(b),
{
    lemma_colour_hash(a);
    lemma_colour_hash(b);
    let ha: u32 = (a * 0x45d9_f3bu32) as u32;
    let hb: u32 = (b * 0x45d9_f3bu32) as u32;
    let ca: u32 = segmentation_color_of(a);
    let cb: u32 = segmentation_color_of(b);
    assert(ca == (((48 + (ha & 0x7f)) as u32) << 16u32) | (((48 + ((ha >> 8u32) & 0x7f)) as u32)
        << 8u32) | ((48 + ((ha >> 16u32) & 0x7f)) as u32));
    assert(cb == (((48 + (hb & 0x7f)) as u32) << 16u32) | (((48 + ((hb >> 8u32) & 0x7f)) as u32)
        << 8u32) | ((48 + ((hb >> 16u32) & 0x7f)) as u32));
    assert(ca == cb ==> a & 0x7fu32 == b & 0x7fu32) by (bit_vector)
        requires
            ha == (a * 0x45d9_f3bu32) as u32,
            hb == (b * 0x45d9_f3bu32) as u32,
            ca == (((48 + (ha & 0x7f)) as u32) << 16u32) | (((48 + ((ha >> 8u32) & 0x7f)) as u32)
                << 8u32) | ((48 + ((ha >> 16u32) & 0x7f)) as u32),
            cb == (((48 + (hb & 0x7f)) as u32) << 16u32) | (((48 + ((hb >> 8u32) & 0x7f)) as u32)
                << 8u32) | ((48 + ((hb >> 16u32) & 0x7f)) as u32),
    ;
    assert(a & 0x7fu32 == a % 128) by (bit_vector);
    assert(b & 0x7fu32 == b % 128) by (bit_vector);
    assert(a <= 0xffff && b <= 0xffff && a != b ==> ca != cb) by (bit_vector)
        requires
            ha == (a * 0x45d9_f3bu32) as u32,
            hb == (b * 0x45d9_f3bu32) as u32,
            ca == (((48 + (ha & 0x7f)) as u32) << 16u32) | (((48 + ((ha >> 8u32) & 0x7f)) as u32)
                << 8u32) | ((48 + ((ha >> 16u32) & 0x7f)) as u32),
            cb == (((48 + (hb & 0x7f)) as u32) << 16u32) | (((48 + ((hb >> 8u32) & 0x7f)) as u32)
                << 8u32) | ((48 + ((hb >> 16u32) & 0x7f)) as u32),
    ;
}

} // verus!

verus! {

/// Bytes read as ASCII characters.
pub open spec fn ascii(bytes: Seq<u8>) -> Seq<char> {
    bytes.map_values(|b: u8| b as char)
}

/// `file` reads back as a binary PNM image with format tag `tag`: after
/// `P`, the tag and a newline come the decimal digits of `width`, one space,
/// the decimal digits of `height`, a newline, `255`, a newline, and then
/// `body`.
pub open spec fn reads_back_as(file: Seq<u8>, tag: u8, width: u32, height: u32, body: Seq<u8>) -> bool {
    exists|space: int, newline: int|
        #![trigger file[space], file[newline]]
        {
            &&& 3 < space < newline
            &&& newline + 5 <= file.len()
            &&& file.take(3) == seq![80u8, tag, 10u8]
            &&& (forall|i: int| 3 <= i < space ==> 48 <= #[trigger] file[i] <= 57)
            &&& file[space] == 32
            &&& file[newline] == 10
            &&& (forall|i: int| space < i < newline ==> 48 <= #[trigger] file[i] <= 57)
            &&& text_value(ascii(file.subrange(3, space))) == width
            &&& text_value(ascii(file.subrange(space + 1, newline))) == height
            &&& file.subrange(newline, newline + 5) == seq![10u8, 50u8, 53u8, 53u8, 10u8]
            &&& file.skip(newline + 5) == body
        }
}

proof fn lemma_header_reads_back(tag: u8, width: u32, height: u32, body: Seq<u8>)
    ensures
        reads_back_as(
            seq![80u8, tag, 10u8] + decimal_digits(width as nat) + seq![32u8] + decimal_digits(
                height as nat,
            ) + seq![10u8, 50u8, 53u8, 53u8, 10u8] + body,
            tag,
            width,
            height,
            body,
        ),
{
    let dw = decimal_digits(width as nat);
    let dh = decimal_digits(height as nat);
    let file = seq![80u8, tag, 10u8] + dw + seq![32u8] + dh + seq![10u8, 50u8, 53u8, 53u8, 10u8]
        + body;
    lemma_decimal_digits_are_digits(width as nat);
    lemma_decimal_digits_are_digits(height as nat);
    lemma_decimal_text_value(width as nat);
    lemma_decimal_text_value(height as nat);
    let space: int = 3 + dw.len() as int;
    let newline: int = space + 1 + dh.len();
    assert(file.take(3) =~= seq![80u8, tag, 10u8]);
    assert(file.subrange(3, space) =~= dw);
    assert(ascii(dw) =~= decimal_text(width as nat));
    assert(file.subrange(space + 1, newline) =~= dh);
    assert(ascii(dh) =~= decimal_text(height as nat));
    assert(file.subrange(newline, newline + 5) =~= seq![10u8, 50u8, 53u8, 53u8, 10u8]);
    assert(file.skip(newline + 5) =~= body);
    assert(file[space] == 32);
    assert(file[newline] == 10);
    assert forall|i: int| 3 <= i < space implies 48 <= #[trigger] file[i] <= 57 by {
        assert(file[i] == dw[i - 3]);
    }
    assert forall|i: int| space < i < newline implies 48 <= #[trigger] file[i] <= 57 by {
        assert(file[i] == dh[i - space - 1]);
    }
}

/// A PPM file reads back with its width first and its height second, for
/// every pair of dimensions, followed by the pixel bytes.
pub proof fn lemma_ppm_reads_back(width: u32, height: u32, pixels: Seq<u32>)
    ensures
        reads_back_as(ppm_bytes(width, height, pixels), 54, width, height, rgb_bytes(pixels)),
{
    lemma_header_reads_back(54, width, height, rgb_bytes(pixels));
    assert(ppm_bytes(width, height, pixels) =~= seq![80u8, 54u8, 10u8] + decimal_digits(
        width as nat,
    ) + seq![32u8] + decimal_digits(height as nat) + seq![10u8, 50u8, 53u8, 53u8, 10u8]
        + rgb_bytes(pixels));
}

/// A PGM file reads back with its width first and its height second, for
/// every pair of dimensions, followed by the grey levels.
pub proof fn lemma_pgm_reads_back(width: u32, height: u32, levels: Seq<u8>)
    ensures
        reads_back_as(pgm_header(width, height) + levels, 53, width, height, levels),
{
    lemma_header_reads_back(53, width, height, levels);
    assert(pgm_header(width, height) + levels =~= seq![80u8, 53u8, 10u8] + decimal_digits(
        width as nat,
    ) + seq![32u8] + decimal_digits(height as nat) + seq![10u8, 50u8, 53u8, 53u8, 10u8]
        + levels);
}

} // verus!


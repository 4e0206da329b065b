//! Host image buffers: packed RGB, depth samples and segmentation IDs, each a
//! row-major `width * height` buffer, and the deterministic CPU previews used
//! when no GPU renderer is available.
use vstd::prelude::*;
use vstd::arithmetic::div_mod::{lemma_div_is_ordered, lemma_fundamental_div_mod_converse};

use crate::text::{append_decimal, decimal_text};

verus! {

/// Errors raised while assembling dataset images.
#[derive(Debug)]
pub enum DatasetError {
    /// The pixel buffer does not hold `width * height` samples; the text
    /// says how many were expected and how many were given.
    InvalidImage(String),
}

/// The message of a rejected image: the expected count, what was counted,
/// the dimensions and the count that was given.
pub open spec fn invalid_image_message(samples: Seq<char>, width: u32, height: u32, got: nat) -> Seq<char> {
    "expected "@ + decimal_text((width * height) as nat) + " "@ + samples + " for "@
        + decimal_text(width as nat) + "x"@ + decimal_text(height as nat) + ", got "@
        + decimal_text(got)
}

/// `width * height` in 64 bits, where it always fits.
fn area(width: u32, height: u32) -> (n: u64)
    ensures
        n == width * height,
{
    assert((width as u64) * (height as u64) <= u64::MAX) by (nonlinear_arith)
        requires
            width <= u32::MAX,
            height <= u32::MAX,
    ;
    (width as u64) * (height as u64)
}

fn invalid_image(samples: &str, width: u32, height: u32, got: usize) -> (e: DatasetError)
    ensures
        e matches DatasetError::InvalidImage(m) && m@ == invalid_image_message(
            samples@,
            width,
            height,
            got as nat,
        ),
{
    let mut message = String::from_str("expected ");
    append_decimal(&mut message, area(width, height));
    message.append(" ");
    message.append(samples);
    message.append(" for ");
    append_decimal(&mut message, width as u64);
    message.append("x");
    append_decimal(&mut message, height as u64);
    message.append(", got ");
    append_decimal(&mut message, got as u64);
    DatasetError::InvalidImage(message)
}

/// Host RGB image in packed `0x00RRGGBB` format.
#[derive(Debug, Clone, PartialEq, Eq)]
pub struct RgbImage {
    pub width: u32,
    pub height: u32,
    pub pixels: Vec<u32>,
}

/// Host depth image: linear camera ray distance per pixel, `0` for a miss.
/// The sample type is left to the caller.
#[derive(Debug, Clone)]
pub struct DepthImage<S> {
    pub width: u32,
    pub height: u32,
    pub pixels: Vec<S>,
}

/// Host segmentation image holding a stable object ID per pixel, `0` for
/// background.
#[derive(Debug, Clone, PartialEq, Eq)]
pub struct SegmentationImage {
    pub width: u32,
    pub height: u32,
    pub pixels: Vec<u32>,
}

/// `value.max(1)`.
pub open spec fn at_least_one(value: u32) -> u32 {
    if value == 0 {
        1
    } else {
        value
    }
}

fn max_one(value: u32) -> (r: u32)
    ensures
        r == at_least_one(value),
{
    if value == 0 {
        1
    } else {
        value
    }
}

/// Object ID at column `x`, row `y` of the segmentation preview: the image is
/// cut into four columns and three rows of bands, and the band index shifted
/// by the frame picks one of the five built-in IDs.
pub open spec fn segmentation_preview_id(x: int, y: int, width: u32, height: u32, frame_index: u64) -> u32 {
    (((x * 4) / (width as int) + (y * 3) / (height as int) + (frame_index as u32)) % 5) as u32
}

/// The preview's arithmetic stays within `u32`.
pub open spec fn segmentation_preview_fits(width: u32, height: u32, frame_index: u64) -> bool {
    let w = at_least_one(width) as int;
    let h = at_least_one(height) as int;
    &&& 4 * (w - 1) <= u32::MAX
    &&& 3 * (h - 1) <= u32::MAX
    &&& (frame_index as u32) + (4 * (w - 1)) / w + (3 * (h - 1)) / h <= u32::MAX
    &&& w * h <= usize::MAX
}

/// Blue channel of the RGB preview: a 32-pixel checkerboard whose phase
/// flips with the frame index.
pub open spec fn checker_blue(x: int, y: int, frame_index: u64) -> u32 {
    if ((x / 32 + y / 32 + (frame_index as u32)) as u32) & 1u32 == 0 {
        210
    } else {
        120
    }
}

/// `value.min(255)`.
pub open spec fn at_most_255(value: u32) -> u32 {
    if value > 255 {
        255
    } else {
        value
    }
}

/// Packed preview pixel from a red level, a green level and the blue checker.
pub open spec fn preview_pixel(red: u32, green: u32, blue: u32) -> u32 {
    (at_most_255(red) << 16u32) | (at_most_255(green) << 8u32) | blue
}

/// The bytes of an RGB preview pixel: nothing above the 24 colour bits, red
/// and green the ramp levels capped at 255, whatever the frame, and blue the
/// checker's level.
pub proof fn lemma_preview_pixel_bytes(red: u32, green: u32, blue: u32)
    requires
        blue == 120 || blue == 210,
    ensures
        preview_pixel(red, green, blue) >> 24u32 == 0,
        (preview_pixel(red, green, blue) >> 16u32) & 0xffu32 == at_most_255(red),
        (preview_pixel(red, green, blue) >> 8u32) & 0xffu32 == at_most_255(green),
        preview_pixel(red, green, blue) & 0xffu32 == blue,
{
    let r = at_most_255(red);
    let g = at_most_255(green);
    let p = preview_pixel(red, green, blue);
    assert(p == (r << 16u32) | (g << 8u32) | blue);
    assert({
        &&& ((r << 16u32) | (g << 8u32) | blue) >> 24u32 == 0
        &&& (((r << 16u32) | (g << 8u32) | blue) >> 16u32) & 0xffu32 == r
        &&& (((r << 16u32) | (g << 8u32) | blue) >> 8u32) & 0xffu32 == g
        &&& ((r << 16u32) | (g << 8u32) | blue) & 0xffu32 == blue
    }) by (bit_vector)
        requires
            r <= 255,
            g <= 255,
            blue == 120 || blue == 210,
    ;
}

/// The checkerboard flips from one frame to the next: each pixel's blue
/// level is 120 or 210, and differs between frames `f` and `f + 1` while the
/// checker sum of frame `f + 1` stays within `u32`.
pub proof fn lemma_checker_flips(x: int, y: int, f: u64)
    requires
        0 <= x,
        0 <= y,
        f < u64::MAX,
        x / 32 + y / 32 + (f as u32) + 1 <= u32::MAX,
    ensures
        checker_blue(x, y, f) == 120 || checker_blue(x, y, f) == 210,
        checker_blue(x, y, f) != checker_blue(x, y, (f + 1) as u64),
{
    let a: int = x / 32 + y / 32;
    let g: u64 = (f + 1) as u64;
    let low: u32 = f as u32;
    assert(low < 0xffff_ffffu32);
    assert((g as u32) == low + 1) by (bit_vector)
        requires
            g == f + 1,
            low == f as u32,
            low < 0xffff_ffffu32,
    ;
    let n: u32 = (a + low) as u32;
    assert(n == a + low);
    assert(((a + (g as u32)) as u32) == n + 1);
    let m: u32 = (n + 1) as u32;
    assert((n & 1u32 == 0) != (m & 1u32 == 0)) by (bit_vector)
        requires
            n < 0xffff_ffffu32,
            m == n + 1,
    ;
}

/// The RGB preview's arithmetic stays within `u32`.
pub open spec fn rgb_preview_fits(width: u32, height: u32, frame_index: u64) -> bool {
    let w = at_least_one(width) as int;
    let h = at_least_one(height) as int;
    &&& (frame_index as u32) + (w - 1) / 32 + (h - 1) / 32 <= u32::MAX
    &&& w * h <= usize::MAX
}

/// Whether pixel `(x, y)` of the depth preview is a miss: the image is cut
/// into 80-pixel squares, and every seventh square, counted along the
/// diagonals and shifted by the frame, holds no surface.
pub open spec fn depth_preview_miss(x: int, y: int, frame_index: u64) -> bool {
    ((x / 80 + y / 80 + (frame_index as u32)) as u32) % 7 == 0
}

/// The depth preview's arithmetic stays within `u32`.
pub open spec fn depth_preview_fits(width: u32, height: u32, frame_index: u64) -> bool {
    let w = at_least_one(width) as int;
    let h = at_least_one(height) as int;
    &&& (frame_index as u32) + (w - 1) / 80 + (h - 1) / 80 <= u32::MAX
    &&& w * h <= usize::MAX
}

/// Row-major position `i` of a `width`-wide image lies at column `i % width`
/// and row `i / width`; the position of `(x, y)` is `y * width + x`.
proof fn lemma_row_major(x: int, y: int, width: int)
    requires
        0 <= x < width,
        0 <= y,
    ensures
        (y * width + x) % width == x,
        (y * width + x) / width == y,
{
    lemma_fundamental_div_mod_converse(y * width + x, width, y, x);
}

impl RgbImage {
    /// Wraps a pixel buffer, which must hold exactly `width * height` pixels.
    pub fn new(width: u32, height: u32, pixels: Vec<u32>) -> (result: Result<RgbImage, DatasetError>)
        ensures
            result is Ok <==> pixels@.len() == width * height,
            result matches Ok(image) ==> image.width == width && image.height == height
                && image.pixels@ == pixels@,
            result matches Err(DatasetError::InvalidImage(m)) ==> m@ == invalid_image_message(
                "pixels"@,
                width,
                height,
                pixels@.len(),
            ),
    {
        let expected = area(width, height);
        if pixels.len() as u64 != expected {
            return Err(invalid_image("pixels", width, height, pixels.len()));
        }
        Ok(RgbImage { width, height, pixels })
    }

    /// Deterministic CPU preview for machines without the GPU renderer. The
    /// dimensions are raised to at least one. Column `x` takes its red level
    /// from `red_ramp[x]` and row `y` its green level from `green_ramp[y]`
    /// (both capped at 255); blue follows a 32-pixel checkerboard whose phase
    /// flips with `frame_index`.
    pub fn synthetic_preview(
        width: u32,
        height: u32,
        frame_index: u64,
        red_ramp: &Vec<u32>,
        green_ramp: &Vec<u32>,
    ) -> (image: RgbImage)
        requires
            rgb_preview_fits(width, height, frame_index),
            red_ramp@.len() == at_least_one(width),
            green_ramp@.len() == at_least_one(height),
        ensures
            image.width == at_least_one(width),
            image.height == at_least_one(height),
            image.pixels@.len() == image.width * image.height,
            forall|i: int|
                0 <= i < image.pixels@.len() ==> #[trigger] image.pixels@[i] == preview_pixel(
                    red_ramp@[i % image.width as int],
                    green_ramp@[i / image.width as int],
                    checker_blue(i % image.width as int, i / image.width as int, frame_index),
                ),
    {
        let width = max_one(width);
        let height = max_one(height);
        let mut pixels: Vec<u32> = Vec::new();
        let mut y: u32 = 0;
        while y < height
            invariant
                width == red_ramp@.len(),
                height == green_ramp@.len(),
                1 <= width,
                y <= height,
                rgb_preview_fits(width, height, frame_index),
                pixels@.len() == y * width,
                forall|i: int|
                    0 <= i < pixels@.len() ==> #[trigger] pixels@[i] == preview_pixel(
                        red_ramp@[i % width as int],
                        green_ramp@[i / width as int],
                        checker_blue(i % width as int, i / width as int, frame_index),
                    ),
            decreases height - y,
        {
            let mut x: u32 = 0;
            while x < width
                invariant
                    width == red_ramp@.len(),
                    height == green_ramp@.len(),
                    1 <= width,
                    y < height,
                    x <= width,
                    rgb_preview_fits(width, height, frame_index),
                    pixels@.len() == y * width + x,
                    forall|i: int|
                        0 <= i < pixels@.len() ==> #[trigger] pixels@[i] == preview_pixel(
                            red_ramp@[i % width as int],
                            green_ramp@[i / width as int],
                            checker_blue(i % width as int, i / width as int, frame_index),
                        ),
                decreases width - x,
            {
                proof {
                    lemma_div_is_ordered(x as int, (width - 1) as int, 32);
                    lemma_div_is_ordered(y as int, (height - 1) as int, 32);
                    assert(y * width + x < height * width) by (nonlinear_arith)
                        requires
                            y < height,
                            x < width,
                    ;
                    assert(height * width <= usize::MAX) by (nonlinear_arith)
                        requires
                            width * height <= usize::MAX,
                    ;
                }
                let checker = (x / 32 + y / 32 + (#[verifier::truncate] (frame_index as u32))) & 1;
                let red = if red_ramp[x as usize] > 255 {
                    255
                } else {
                    red_ramp[x as usize]
                };
                let green = if green_ramp[y as usize] > 255 {
                    255
                } else {
                    green_ramp[y as usize]
                };
                let blue: u32 = if checker == 0 {
                    210
                } else {
                    120
                };
                let ghost index = pixels@.len() as int;
                pixels.push((red << 16) | (green << 8) | blue);
                proof {
                    lemma_row_major(x as int, y as int, width as int);
                    assert(index % width as int == x);
                    assert(index / width as int == y);
                }
                x = x + 1;
            }
            proof {
                assert((y + 1) * width == y * width + width) by (nonlinear_arith);
            }
            y = y + 1;
        }
        assert(pixels@.len() == width * height) by (nonlinear_arith)
            requires
                pixels@.len() == y * width,
                y == height,
        ;
        RgbImage { width, height, pixels }
    }
}

impl<S> DepthImage<S> {
    /// Wraps a depth buffer, which must hold exactly `width * height`
    /// samples.
    pub fn new(width: u32, height: u32, pixels: Vec<S>) -> (result: Result<DepthImage<S>, DatasetError>)
        ensures
            result is Ok <==> pixels@.len() == width * height,
            result matches Ok(image) ==> image.width == width && image.height == height
                && image.pixels@ == pixels@,
            result matches Err(DatasetError::InvalidImage(m)) ==> m@ == invalid_image_message(
                "depth samples"@,
                width,
                height,
                pixels@.len(),
            ),
    {
        let expected = area(width, height);
        if pixels.len() as u64 != expected {
            return Err(invalid_image("depth samples", width, height, pixels.len()));
        }
        Ok(DepthImage { width, height, pixels })
    }
}

impl<S: Copy> DepthImage<S> {
    /// Deterministic CPU preview for machines without the GPU renderer. The
    /// dimensions are raised to at least one. A pixel where
    /// `depth_preview_miss` holds is `miss`; any other takes its depth from
    /// `depths`, the row-major ramp of distances the caller computed.
    pub fn synthetic_preview(width: u32, height: u32, frame_index: u64, miss: S, depths: &Vec<S>) -> (image: DepthImage<S>)
        requires
            depth_preview_fits(width, height, frame_index),
            depths@.len() == at_least_one(width) * at_least_one(height),
        ensures
            image.width == at_least_one(width),
            image.height == at_least_one(height),
            image.pixels@.len() == image.width * image.height,
            forall|i: int|
                0 <= i < image.pixels@.len() ==> #[trigger] image.pixels@[i] == if depth_preview_miss(
                    i % image.width as int,
                    i / image.width as int,
                    frame_index,
                ) {
                    miss
                } else {
                    depths@[i]
                },
    {
        let width = max_one(width);
        let height = max_one(height);
        let mut pixels: Vec<S> = Vec::new();
        let mut y: u32 = 0;
        while y < height
            invariant
                1 <= width,
                y <= height,
                depth_preview_fits(width, height, frame_index),
                depths@.len() == width * height,
                pixels@.len() == y * width,
                forall|i: int|
                    0 <= i < pixels@.len() ==> #[trigger] pixels@[i] == if depth_preview_miss(
                        i % width as int,
                        i / width as int,
                        frame_index,
                    ) {
                        miss
                    } else {
                        depths@[i]
                    },
            decreases height - y,
        {
            let mut x: u32 = 0;
            while x < width
                invariant
                    1 <= width,
                    y < height,
                    x <= width,
                    depth_preview_fits(width, height, frame_index),
                    depths@.len() == width * height,
                    pixels@.len() == y * width + x,
                    forall|i: int|
                        0 <= i < pixels@.len() ==> #[trigger] pixels@[i] == if depth_preview_miss(
                            i % width as int,
                            i / width as int,
                            frame_index,
                        ) {
                            miss
                        } else {
                            depths@[i]
                        },
                decreases width - x,
            {
                proof {
                    lemma_div_is_ordered(x as int, (width - 1) as int, 80);
                    lemma_div_is_ordered(y as int, (height - 1) as int, 80);
                    assert(y * width + x < height * width) by (nonlinear_arith)
                        requires
                            y < height,
                            x < width,
                    ;
                    assert(height * width <= usize::MAX) by (nonlinear_arith)
                        requires
                            width * height <= usize::MAX,
                    ;
                }
                let index = pixels.len();
                assert(height * width == width * height) by (nonlinear_arith);
                let band = x / 80 + y / 80 + (#[verifier::truncate] (frame_index as u32));
                let sample = if band % 7 == 0 {
                    miss
                } else {
                    depths[index]
                };
                pixels.push(sample);
                proof {
                    lemma_row_major(x as int, y as int, width as int);
                    assert(index as int % width as int == x);
                    assert(index as int / width as int == y);
                }
                x = x + 1;
            }
            proof {
                assert((y + 1) * width == y * width + width) by (nonlinear_arith);
            }
            y = y + 1;
        }
        assert(pixels@.len() == width * height) by (nonlinear_arith)
            requires
                pixels@.len() == y * width,
                y == height,
        ;
        DepthImage { width, height, pixels }
    }
}

impl SegmentationImage {
    /// Wraps an object-ID buffer, which must hold exactly `width * height`
    /// samples.
    pub fn new(width: u32, height: u32, pixels: Vec<u32>) -> (result: Result<SegmentationImage, DatasetError>)
        ensures
            result is Ok <==> pixels@.len() == width * height,
            result matches Ok(image) ==> image.width == width && image.height == height
                && image.pixels@ == pixels@,
            result matches Err(DatasetError::InvalidImage(m)) ==> m@ == invalid_image_message(
                "segmentation samples"@,
                width,
                height,
                pixels@.len(),
            ),
    {
        let expected = area(width, height);
        if pixels.len() as u64 != expected {
            return Err(invalid_image("segmentation samples", width, height, pixels.len()));
        }
        Ok(SegmentationImage { width, height, pixels })
    }

    /// Deterministic CPU preview: the image, with its dimensions raised to at
    /// least one, is cut into bands whose index, shifted by the frame, picks
    /// one of the object IDs `0..=4` (see `segmentation_preview_id`).
    pub fn synthetic_preview(width: u32, height: u32, frame_index: u64) -> (image: SegmentationImage)
        requires
            segmentation_preview_fits(width, height, frame_index),
        ensures
            image.width == at_least_one(width),
            image.height == at_least_one(height),
            image.pixels@.len() == image.width * image.height,
            forall|i: int|
                0 <= i < image.pixels@.len() ==> #[trigger] image.pixels@[i]
                    == segmentation_preview_id(
                    i % image.width as int,
                    i / image.width as int,
                    image.width,
                    image.height,
                    frame_index,
                ),
            forall|i: int| 0 <= i < image.pixels@.len() ==> #[trigger] image.pixels@[i] < 5,
    {
        let width = max_one(width);
        let height = max_one(height);
        let mut pixels: Vec<u32> = Vec::new();
        let mut y: u32 = 0;
        while y < height
            invariant
                1 <= width,
                1 <= height,
                y <= height,
                segmentation_preview_fits(width, height, frame_index),
                pixels@.len() == y * width,
                forall|i: int|
                    0 <= i < pixels@.len() ==> #[trigger] pixels@[i] == segmentation_preview_id(
                        i % width as int,
                        i / width as int,
                        width,
                        height,
                        frame_index,
                    ),
            decreases height - y,
        {
            let mut x: u32 = 0;
            while x < width
                invariant
                    1 <= width,
                    1 <= height,
                    y < height,
                    x <= width,
                    segmentation_preview_fits(width, height, frame_index),
                    pixels@.len() == y * width + x,
                    forall|i: int|
                        0 <= i < pixels@.len() ==> #[trigger] pixels@[i]
                            == segmentation_preview_id(
                            i % width as int,
                            i / width as int,
                            width,
                            height,
                            frame_index,
                        ),
                decreases width - x,
            {
                proof {
                    lemma_div_is_ordered(x as int * 4, (width as int - 1) * 4, width as int);
                    lemma_div_is_ordered(y as int * 3, (height as int - 1) * 3, height as int);
                    assert(y * width + x < height * width) by (nonlinear_arith)
                        requires
                            y < height,
                            x < width,
                    ;
                    assert(height * width <= usize::MAX) by (nonlinear_arith)
                        requires
                            width * height <= usize::MAX,
                    ;
                }
                let band = x * 4 / width + y * 3 / height + (#[verifier::truncate] (frame_index as u32));
                let id = band % 5;
                let ghost index = pixels@.len() as int;
                pixels.push(id);
                proof {
                    lemma_row_major(x as int, y as int, width as int);
                    assert(index % width as int == x);
                    assert(index / width as int == y);
                }
                x = x + 1;
            }
            proof {
                assert((y + 1) * width == y * width + width) by (nonlinear_arith);
            }
            y = y + 1;
        }
        assert(pixels@.len() == width * height) by (nonlinear_arith)
            requires
                pixels@.len() == y * width,
                y == height,
        ;
        SegmentationImage { width, height, pixels }
    }
}

/// The three images of one camera capture.
#[derive(Debug, Clone)]
pub struct SensorImageSet<S> {
    pub rgb: RgbImage,
    pub depth: DepthImage<S>,
    pub segmentation: SegmentationImage,
}

impl<S> SensorImageSet<S> {
    /// Wraps the three buffers of a capture, each given with its width and
    /// height. The first buffer, in the order RGB, depth, segmentation, that
    /// does not hold `width * height` samples is reported.
    pub fn from_buffers(
        rgb: (u32, u32, Vec<u32>),
        depth: (u32, u32, Vec<S>),
        segmentation: (u32, u32, Vec<u32>),
    ) -> (result: Result<SensorImageSet<S>, DatasetError>)
        ensures
            result is Ok <==> rgb.2@.len() == rgb.0 * rgb.1 && depth.2@.len() == depth.0 * depth.1
                && segmentation.2@.len() == segmentation.0 * segmentation.1,
            result matches Ok(set) ==> {
                &&& set.rgb.width == rgb.0 && set.rgb.height == rgb.1 && set.rgb.pixels@ == rgb.2@
                &&& set.depth.width == depth.0 && set.depth.height == depth.1
                    && set.depth.pixels@ == depth.2@
                &&& set.segmentation.width == segmentation.0 && set.segmentation.height
                    == segmentation.1 && set.segmentation.pixels@ == segmentation.2@
            },
            result matches Err(DatasetError::InvalidImage(m)) ==> if rgb.2@.len() != rgb.0 * rgb.1 {
                m@ == invalid_image_message("pixels"@, rgb.0, rgb.1, rgb.2@.len())
            } else if depth.2@.len() != depth.0 * depth.1 {
                m@ == invalid_image_message("depth samples"@, depth.0, depth.1, depth.2@.len())
            } else {
                m@ == invalid_image_message(
                    "segmentation samples"@,
                    segmentation.0,
                    segmentation.1,
                    segmentation.2@.len(),
                )
            },
    {
        let rgb = RgbImage::new(rgb.0, rgb.1, rgb.2)?;
        let depth = DepthImage::new(depth.0, depth.1, depth.2)?;
        let segmentation = SegmentationImage::new(segmentation.0, segmentation.1, segmentation.2)?;
        Ok(SensorImageSet { rgb, depth, segmentation })
    }
}

} // verus!

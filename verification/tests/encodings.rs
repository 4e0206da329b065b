use rocm_oxide_sim::{
    grey_to_rgba, rgb_to_rgba, segmentation_color, segmentation_to_rgba, write_pgm, write_ppm,
    write_segmentation_preview_ppm, write_segmentation_u32, DatasetError, DepthImage, RgbImage,
    SegmentationImage, SensorImageSet,
};

#[test]
fn ppm_has_header_then_rgb_triples() {
    let image = RgbImage::new(2, 1, vec![0x00ff_0000, 0x0012_3456]).unwrap();
    let mut out = Vec::new();
    write_ppm(&mut out, &image);
    let mut expected = b"P6\n2 1\n255\n".to_vec();
    expected.extend_from_slice(&[0xff, 0x00, 0x00, 0x12, 0x34, 0x56]);
    assert_eq!(out, expected);
}

#[test]
fn ppm_header_prints_multi_digit_dimensions() {
    let image = RgbImage::new(640, 10, vec![0; 6400]).unwrap();
    let mut out = vec![7u8];
    write_ppm(&mut out, &image);
    assert_eq!(&out[..15], b"\x07P6\n640 10\n255\n");
    assert_eq!(out.len(), 15 + 3 * 6400);
}

#[test]
fn pgm_has_header_then_levels() {
    let mut out = Vec::new();
    write_pgm(&mut out, 3, 1, &vec![0, 128, 255]);
    assert_eq!(out, b"P5\n3 1\n255\n\x00\x80\xff".to_vec());
}

#[test]
fn raw_segmentation_is_little_endian() {
    let image = SegmentationImage::new(2, 1, vec![2, 0x0102_0304]).unwrap();
    let mut out = Vec::new();
    write_segmentation_u32(&mut out, &image);
    assert_eq!(out, vec![2, 0, 0, 0, 4, 3, 2, 1]);
}

#[test]
fn segmentation_preview_is_a_ppm_of_the_id_colours() {
    let image = SegmentationImage::new(2, 1, vec![2, 0]).unwrap();
    let mut out = Vec::new();
    write_segmentation_preview_ppm(&mut out, &image).unwrap();
    let mut expected = b"P6\n2 1\n255\n".to_vec();
    expected.extend_from_slice(&[0xe6, 0x1f, 0x1a, 0, 0, 0]);
    assert_eq!(out, expected);
}

#[test]
fn segmentation_preview_of_a_malformed_image_writes_nothing() {
    let image = SegmentationImage { width: 2, height: 2, pixels: vec![1, 2, 3] };
    let mut out = vec![9u8];
    let DatasetError::InvalidImage(message) = write_segmentation_preview_ppm(&mut out, &image).unwrap_err();
    assert_eq!(message, "expected 4 pixels for 2x2, got 3");
    assert_eq!(out, vec![9u8]);
}

#[test]
fn hashed_colours_keep_channels_in_range() {
    for id in [5u32, 6, 99, 12345, u32::MAX] {
        let color = segmentation_color(id);
        assert_eq!(color >> 24, 0);
        for shift in [0, 8, 16] {
            let channel = (color >> shift) & 0xff;
            assert!((48..=175).contains(&channel));
        }
    }
    let hash = 5u32.wrapping_mul(0x45d9_f3b);
    let expected = ((48 + (hash & 0x7f)) << 16) | ((48 + ((hash >> 8) & 0x7f)) << 8) | (48 + ((hash >> 16) & 0x7f));
    assert_eq!(segmentation_color(5), expected);
}

#[test]
fn image_constructors_reject_wrong_sample_counts() {
    let DatasetError::InvalidImage(m) = RgbImage::new(3, 2, vec![0; 5]).unwrap_err();
    assert_eq!(m, "expected 6 pixels for 3x2, got 5");
    let DatasetError::InvalidImage(m) = DepthImage::<f32>::new(4, 1, vec![1.0]).unwrap_err();
    assert_eq!(m, "expected 4 depth samples for 4x1, got 1");
    let DatasetError::InvalidImage(m) = SegmentationImage::new(0, 7, vec![1]).unwrap_err();
    assert_eq!(m, "expected 0 segmentation samples for 0x7, got 1");
    assert!(SegmentationImage::new(0, 7, vec![]).is_ok());
}

#[test]
fn image_set_reports_the_first_malformed_buffer() {
    let set = SensorImageSet::from_buffers((1, 1, vec![0]), (1, 1, vec![2.5f32]), (1, 1, vec![2]));
    assert!(set.is_ok());
    let err = SensorImageSet::from_buffers((1, 1, vec![0]), (2, 1, vec![2.5f32]), (1, 1, vec![]));
    let Err(DatasetError::InvalidImage(m)) = err else { panic!("expected an error") };
    assert_eq!(m, "expected 2 depth samples for 2x1, got 1");
}

#[test]
fn segmentation_preview_bands_cycle_through_builtin_ids() {
    let image = SegmentationImage::synthetic_preview(4, 3, 0);
    assert_eq!(image.pixels, vec![0, 1, 2, 3, 1, 2, 3, 4, 2, 3, 4, 0]);
    let shifted = SegmentationImage::synthetic_preview(4, 3, 1);
    assert_eq!(shifted.pixels[0], 1);
    let empty = SegmentationImage::synthetic_preview(0, 0, 0);
    assert_eq!((empty.width, empty.height, empty.pixels.len()), (1, 1, 1));
}

#[test]
fn rgb_preview_combines_ramps_and_checkerboard() {
    let width = 40u32;
    let red: Vec<u32> = (0..width).map(|x| x * 10).collect();
    let green = vec![55u32, 300];
    let image = RgbImage::synthetic_preview(width, 2, 0, &red, &green);
    assert_eq!(image.pixels.len(), 80);
    assert_eq!(image.pixels[0], (0 << 16) | (55 << 8) | 210);
    assert_eq!(image.pixels[33], (255 << 16) | (55 << 8) | 120);
    assert_eq!(image.pixels[40 + 1], (10 << 16) | (255 << 8) | 210);
    let next = RgbImage::synthetic_preview(width, 2, 1, &red, &green);
    assert_eq!(next.pixels[0] & 0xff, 120);
}

#[test]
fn rgb_depth_and_segmentation_convert_to_rgba() {
    let images = SensorImageSet {
        rgb: RgbImage::new(1, 1, vec![0x0012_3456]).unwrap(),
        depth: DepthImage::new(2, 1, vec![0.0f32, 4.0]).unwrap(),
        segmentation: SegmentationImage::new(1, 1, vec![2]).unwrap(),
    };

    assert_eq!(rgb_to_rgba(&images.rgb), vec![0x12, 0x34, 0x56, 255]);
    // The grey levels of a depth preview are normalised in floating point by
    // the programs around the library; with a single finite depth they are
    // black for the miss and white for that depth.
    let levels: Vec<u8> = images
        .depth
        .pixels
        .iter()
        .map(|&depth| if depth > 0.0 { 255 } else { 0 })
        .collect();
    assert_eq!(grey_to_rgba(&levels), vec![0, 0, 0, 255, 255, 255, 255, 255]);
    assert_eq!(
        segmentation_to_rgba(&images.segmentation),
        vec![0xe6, 0x1f, 0x1a, 255]
    );
}

#[test]
fn depth_preview_places_misses_on_every_seventh_square() {
    let width = 200u32;
    let height = 100u32;
    let depths: Vec<f32> = (0..width * height).map(|i| 1.0 + i as f32).collect();
    let image = DepthImage::synthetic_preview(width, height, 0, 0.0, &depths);
    assert_eq!(image.width, 200);
    assert_eq!(image.height, 100);
    assert_eq!(image.pixels.len(), 20_000);
    // Square (0, 0) is a miss in frame 0, square (1, 0) is not.
    assert_eq!(image.pixels[0], 0.0);
    assert_eq!(image.pixels[79], 0.0);
    assert_eq!(image.pixels[80], depths[80]);
    // In frame 6 the first square is not a miss, the second one is.
    let shifted = DepthImage::synthetic_preview(width, height, 6, 0.0, &depths);
    assert_eq!(shifted.pixels[0], depths[0]);
    assert_eq!(shifted.pixels[80], 0.0);
    // Zero dimensions are raised to one.
    let tiny = DepthImage::synthetic_preview(0, 0, 1, -1.0f32, &vec![2.5]);
    assert_eq!((tiny.width, tiny.height), (1, 1));
    assert_eq!(tiny.pixels, vec![2.5]);
}

#[test]
fn rgb_preview_blue_flips_between_frames_and_ramps_stay() {
    let red: Vec<u32> = (0..70).map(|x| 40 + x * 3).collect();
    let green: Vec<u32> = (0..40).map(|y| 300 + y).collect();
    let a = RgbImage::synthetic_preview(70, 40, 5, &red, &green);
    let b = RgbImage::synthetic_preview(70, 40, 6, &red, &green);
    for (p, q) in a.pixels.iter().zip(&b.pixels) {
        assert_eq!(p >> 24, 0);
        assert_eq!(p >> 8, q >> 8);
        assert!(matches!(p & 0xff, 120 | 210));
        assert_ne!(p & 0xff, q & 0xff);
    }
    // Green levels above 255 are capped.
    assert_eq!((a.pixels[0] >> 8) & 0xff, 255);
    assert_eq!(a, RgbImage::synthetic_preview(70, 40, 5, &red, &green));
}

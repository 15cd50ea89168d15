use ascii_art::{convert, ramp_chars, Charset, Raster};
use image::{GenericImageView, Pixel};

fn gray(levels: &[u8]) -> Vec<u8> {
    let mut data = Vec::new();
    for l in levels {
        data.extend_from_slice(&[*l, *l, *l, 255]);
    }
    data
}

#[test]
fn two_pixels_black_and_white_small_ramp() {
    let img = Raster::from_rgba(2, 1, gray(&[0, 255])).unwrap();
    assert_eq!(convert(&img, Charset::Small), "@ \n");
}

#[test]
fn one_black_pixel_large_ramp() {
    let img = Raster::from_rgba(1, 1, gray(&[0])).unwrap();
    assert_eq!(convert(&img, Charset::Large), "$\n");
}

#[test]
fn one_white_pixel_large_ramp() {
    let img = Raster::from_rgba(1, 1, gray(&[255])).unwrap();
    assert_eq!(convert(&img, Charset::Large), " \n");
}

#[test]
fn rows_follow_the_image() {
    let img = Raster::from_rgba(3, 2, gray(&[0, 128, 255, 29, 85, 170])).unwrap();
    assert_eq!(convert(&img, Charset::Small), "@+ \n%*-\n");
}

#[test]
fn colours_are_reduced_to_luminance() {
    let data = vec![255, 0, 0, 255, 0, 255, 0, 255, 0, 0, 255, 255];
    let img = Raster::from_rgba(3, 1, data).unwrap();
    assert_eq!(convert(&img, Charset::Small), "%-@\n");
}

#[test]
fn output_has_one_line_per_row() {
    let width = 7u32;
    let height = 5u32;
    let levels: Vec<u8> = (0..width * height).map(|i| (i * 7 % 256) as u8).collect();
    let img = Raster::from_rgba(width, height, gray(&levels)).unwrap();
    for charset in [Charset::Small, Charset::Large] {
        let text = convert(&img, charset);
        assert!(text.ends_with('\n'));
        let lines: Vec<&str> = text.lines().collect();
        assert_eq!(lines.len(), height as usize);
        for line in lines {
            assert_eq!(line.chars().count(), width as usize);
        }
        assert_eq!(text.chars().count(), (height * (width + 1)) as usize);
    }
}

#[test]
fn empty_image_gives_empty_text() {
    let img = Raster::from_rgba(0, 0, Vec::new()).unwrap();
    assert_eq!(convert(&img, Charset::Small), "");
    let img = Raster::from_rgba(5, 0, Vec::new()).unwrap();
    assert_eq!(convert(&img, Charset::Large), "");
}

#[test]
fn zero_width_image_gives_empty_rows() {
    let img = Raster::from_rgba(0, 3, Vec::new()).unwrap();
    assert_eq!(convert(&img, Charset::Small), "\n\n\n");
}

#[test]
fn from_rgba_wants_four_bytes_a_pixel() {
    assert!(Raster::from_rgba(2, 2, vec![0; 16]).is_some());
    assert!(Raster::from_rgba(2, 2, vec![0; 15]).is_none());
    assert!(Raster::from_rgba(2, 2, vec![0; 17]).is_none());
    assert!(Raster::from_rgba(0, 2, vec![0; 4]).is_none());
    assert!(Raster::from_rgba(u32::MAX, u32::MAX, vec![0; 4]).is_none());
}

#[test]
fn raster_accessors() {
    let data: Vec<u8> = (0..24).collect();
    let img = Raster::from_rgba(3, 2, data.clone()).unwrap();
    assert_eq!(img.width(), 3);
    assert_eq!(img.height(), 2);
    assert_eq!(img.as_bytes(), &data);
    assert_eq!(img.pixel(0, 0), (0, 1, 2, 3));
    assert_eq!(img.pixel(2, 0), (8, 9, 10, 11));
    assert_eq!(img.pixel(1, 1), (16, 17, 18, 19));
}

#[test]
fn convert_agrees_with_a_scan_of_the_decoded_image() {
    let width = 13u32;
    let height = 9u32;
    let mut state = 12345u32;
    let mut data = Vec::new();
    for _ in 0..width * height * 4 {
        state = state.wrapping_mul(1664525).wrapping_add(1013904223);
        data.push((state >> 24) as u8);
    }
    let decoded =
        image::DynamicImage::ImageRgba8(image::RgbaImage::from_raw(width, height, data.clone()).unwrap());
    let img = Raster::from_rgba(width, height, data).unwrap();
    for charset in [Charset::Small, Charset::Large] {
        let ramp = ramp_chars(charset);
        let mut expected = String::new();
        for y in 0..decoded.height() {
            for x in 0..decoded.width() {
                let luma = decoded.get_pixel(x, y).to_luma().0[0] as f32;
                let light = (luma / 255.0 * ((ramp.len() - 1) as f32)) as usize;
                expected.push(ramp[light]);
            }
            expected.push('\n');
        }
        assert_eq!(convert(&img, charset), expected);
    }
}

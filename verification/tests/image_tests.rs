use pathtracer::image::{quantize, viewport_row, Image, Pixel};

fn px(r: u8, g: u8, b: u8) -> Pixel {
    Pixel { r, g, b }
}

#[test]
fn quantize_keeps_levels_in_range() {
    assert_eq!(quantize(0), 0);
    assert_eq!(quantize(1), 1);
    assert_eq!(quantize(128), 128);
    assert_eq!(quantize(254), 254);
    assert_eq!(quantize(255), 255);
}

#[test]
fn quantize_clamps_levels_out_of_range() {
    assert_eq!(quantize(256), 255);
    assert_eq!(quantize(1000), 255);
    assert_eq!(quantize(i64::MAX), 255);
    assert_eq!(quantize(-1), 0);
    assert_eq!(quantize(i64::MIN), 0);
}

#[test]
fn pixel_from_levels_clamps_each_channel() {
    assert_eq!(Pixel::from_levels(12, 300, -7), px(12, 255, 0));
    assert_eq!(Pixel::from_levels(0, 255, 256), px(0, 255, 255));
}

#[test]
fn viewport_rows_count_from_the_bottom() {
    assert_eq!(viewport_row(2, 0), 1);
    assert_eq!(viewport_row(2, 1), 0);
    assert_eq!(viewport_row(720, 0), 719);
    assert_eq!(viewport_row(720, 719), 0);
    assert_eq!(viewport_row(1, 0), 0);
}

#[test]
fn image_needs_one_pixel_for_each_place() {
    assert!(Image::new(2, 2, vec![px(0, 0, 0); 4]).is_some());
    assert!(Image::new(2, 2, vec![px(0, 0, 0); 3]).is_none());
    assert!(Image::new(2, 2, vec![px(0, 0, 0); 5]).is_none());
    assert!(Image::new(0, 0, Vec::new()).is_some());
    assert!(Image::new(0, 7, Vec::new()).is_some());
    assert!(Image::new(1, 0, vec![px(0, 0, 0)]).is_none());
    assert!(Image::new(usize::MAX, usize::MAX, vec![px(0, 0, 0)]).is_none());
    assert!(Image::new(usize::MAX, 2, Vec::new()).is_none());
}

#[test]
fn pixels_are_found_by_row_and_column() {
    let pixels = vec![px(1, 0, 0), px(2, 0, 0), px(3, 0, 0), px(4, 0, 0), px(5, 0, 0), px(6, 0, 0)];
    let image = Image::new(3, 2, pixels).unwrap();
    assert_eq!(image.width, 3);
    assert_eq!(image.height, 2);
    assert_eq!(image.get(0, 0), px(1, 0, 0));
    assert_eq!(image.get(0, 2), px(3, 0, 0));
    assert_eq!(image.get(1, 0), px(4, 0, 0));
    assert_eq!(image.get(1, 2), px(6, 0, 0));
}

#[test]
fn encode_writes_the_plain_pixmap() {
    let pixels = vec![px(255, 0, 0), px(0, 255, 0), px(0, 0, 255), px(12, 100, 9)];
    let image = Image::new(2, 2, pixels).unwrap();
    let text = String::from_utf8(image.encode()).unwrap();
    assert_eq!(text, "P3\n2 2\n255\n255 0 0\n0 255 0\n0 0 255\n12 100 9\n");
}

#[test]
fn encode_writes_sizes_of_any_length() {
    let image = Image::new(1280, 0, Vec::new()).unwrap();
    assert_eq!(image.encode(), b"P3\n1280 0\n255\n".to_vec());
    let image = Image::new(0, 720, Vec::new()).unwrap();
    assert_eq!(image.encode(), b"P3\n0 720\n255\n".to_vec());
    let image = Image::new(10, 1, vec![px(10, 99, 101); 10]).unwrap();
    let text = String::from_utf8(image.encode()).unwrap();
    assert_eq!(text, format!("P3\n10 1\n255\n{}", "10 99 101\n".repeat(10)));
}

#[test]
fn encode_writes_every_level_in_decimal() {
    let mut pixels = Vec::new();
    let mut expected = String::from("P3\n256 1\n255\n");
    for level in 0..=255u8 {
        pixels.push(px(level, 255 - level, level / 2));
        expected.push_str(&format!("{} {} {}\n", level, 255 - level, level / 2));
    }
    let image = Image::new(256, 1, pixels).unwrap();
    assert_eq!(String::from_utf8(image.encode()).unwrap(), expected);
}

#[test]
fn encode_gives_the_same_bytes_each_time() {
    let image = Image::new(2, 1, vec![px(1, 2, 3), px(4, 5, 6)]).unwrap();
    assert_eq!(image.encode(), image.encode());
}

use heart::image::Image;

fn encode(width: u32, height: u32, color: png::ColorType, data: &[u8]) -> Vec<u8> {
    let mut bytes = Vec::new();
    {
        let mut encoder = png::Encoder::new(&mut bytes, width, height);
        encoder.set_color(color);
        encoder.set_depth(png::BitDepth::Eight);
        let mut writer = encoder.write_header().unwrap();
        writer.write_image_data(data).unwrap();
    }
    bytes
}

#[test]
fn from_data_keeps_what_it_was_given() {
    let data: Vec<u8> = (0..24).collect();
    let image = Image::from_data(data.clone(), 3, 2);
    assert_eq!(image.data(), &data[..]);
    assert_eq!(image.width(), 3);
    assert_eq!(image.height(), 2);
    let (parts, width, height) = image.into_parts();
    assert_eq!((parts, width, height), (data, 3, 2));
}

#[test]
fn data_fits_counts_four_bytes_a_pixel() {
    assert!(Image::data_fits(24, 3, 2));
    assert!(Image::data_fits(0, 0, 7));
    assert!(!Image::data_fits(23, 3, 2));
    assert!(!Image::data_fits(25, 3, 2));
    assert!(!Image::data_fits(0, 0x8000_0000, 0x8000_0000));
}

#[test]
fn from_frame_checks_the_size() {
    assert!(Image::from_frame(vec![0; 8], 2, 1).is_some());
    assert!(Image::from_frame(vec![0; 6], 2, 1).is_none());
}

#[test]
fn png_decodes_to_its_pixels() {
    let pixels: Vec<u8> = (0..2 * 3 * 4).map(|i| (i * 9 + 1) as u8).collect();
    let bytes = encode(2, 3, png::ColorType::Rgba, &pixels);
    assert_ne!(bytes, pixels);
    let image = Image::from_png(&bytes).unwrap();
    assert_eq!(image.width(), 2);
    assert_eq!(image.height(), 3);
    assert_eq!(image.data(), &pixels[..]);
}

#[test]
fn png_without_alpha_is_refused() {
    let pixels: Vec<u8> = (0..2 * 2 * 3).collect();
    let bytes = encode(2, 2, png::ColorType::Rgb, &pixels);
    assert!(Image::from_png(&bytes).is_none());
}

#[test]
fn bytes_that_are_no_png_are_refused() {
    assert!(Image::from_png(&[]).is_none());
    assert!(Image::from_png(b"not a png at all").is_none());
    let pixels = vec![255u8; 16];
    let mut bytes = encode(2, 2, png::ColorType::Rgba, &pixels);
    bytes.truncate(bytes.len() / 2);
    assert!(Image::from_png(&bytes).is_none());
}

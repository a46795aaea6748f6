use rt_2::pixels::decode::LoadError;
use rt_2::pixels::image::Image;

fn png_bytes(width: u32, height: u32, data: Vec<u8>) -> Vec<u8> {
    let img = image::RgbImage::from_raw(width, height, data).unwrap();
    let mut out = std::io::Cursor::new(Vec::new());
    img.write_to(&mut out, image::ImageFormat::Png).unwrap();
    out.into_inner()
}

#[test]
fn from_rgb8_groups_bytes_into_pixels() {
    let data = vec![1u8, 2, 3, 4, 5, 6];
    let img = Image::from_rgb8(2, 1, &data).unwrap();
    assert_eq!(img.width, 2);
    assert_eq!(img.height, 1);
    assert_eq!(img.pixels, vec![(1, 2, 3), (4, 5, 6)]);
}

#[test]
fn from_rgb8_rejects_wrong_length() {
    assert!(Image::from_rgb8(2, 1, &vec![1u8, 2, 3, 4, 5]).is_none());
    assert!(Image::from_rgb8(1, 1, &vec![1u8, 2, 3, 4, 5, 6]).is_none());
    assert!(Image::from_rgb8(0, 3, &Vec::new()).is_some());
}

#[test]
fn decode_reads_png_pixels() {
    let bytes = png_bytes(2, 2, vec![255, 0, 0, 0, 255, 0, 0, 0, 255, 9, 8, 7]);
    let img = match Image::decode(&bytes) {
        Ok(img) => img,
        Err(_) => panic!("a valid PNG was refused"),
    };
    assert_eq!(img.width, 2);
    assert_eq!(img.height, 2);
    assert_eq!(img.pixels, vec![(255, 0, 0), (0, 255, 0), (0, 0, 255), (9, 8, 7)]);
    assert_eq!(img.get_pixel(1, 1), (9, 8, 7));
}

#[test]
fn decode_refuses_bytes_that_are_no_image() {
    match Image::decode(b"definitely not an image") {
        Err(LoadError::Decode(message)) => assert!(!message.is_empty()),
        Err(LoadError::Malformed) => panic!("expected a decoder error"),
        Ok(_) => panic!("garbage was decoded"),
    }
}

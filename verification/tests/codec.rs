use termpage::codec::{ensure_encodable, normalize_channels, process_decoded, RgbaImage, RgbImage};
use termpage::error::AppError;

fn png_of(buffer: &picto::buffer::Rgb) -> Vec<u8> {
    let mut bytes: Vec<u8> = Vec::new();
    picto::write::to(&mut bytes, buffer).unwrap();
    bytes
}

/// The decode step as the surrounding program performs it: picto, then the
/// grid as plain values.
fn decode(bytes: &[u8]) -> RgbImage {
    let buffer = picto::read::from_memory::<picto::color::Rgb, u8, _>(bytes).unwrap();
    let width = buffer.width();
    let height = buffer.height();
    RgbImage { data: buffer.into_raw(), width, height }
}

#[test]
fn solid_color_survives_decode_and_remap() {
    // A solid-colour bitmap goes through the lossless decode path and comes
    // back as the same colour, not inverted and not byte-identical to the
    // compressed input.
    let solid = picto::buffer::Rgb::from_pixel(4, 2, &picto::color::Rgb::new_u8(10, 20, 30));
    let bytes = png_of(&solid);
    let frame = process_decoded(&decode(&bytes)).unwrap();
    assert_eq!(frame.width, 4);
    assert_eq!(frame.height, 2);
    assert_eq!(frame.data.len(), 4 * 4 * 2);
    for pixel in 0..8 {
        // decoded (r, g, b) = (10, 20, 30); normalized layout is (r, g, b, 255)
        assert_eq!(frame.data[4 * pixel], 10);
        assert_eq!(frame.data[4 * pixel + 1], 20);
        assert_eq!(frame.data[4 * pixel + 2], 30);
        assert_eq!(frame.data[4 * pixel + 3], 255);
    }
}

#[test]
fn red_and_blue_pixels_are_not_swapped_into_each_other() {
    // Two saturated pixels: a decode or conversion that rotated or swapped
    // channels would turn one colour into another and fail this.
    let two = picto::buffer::Rgb::from_raw(2, 1, vec![255, 0, 0, 0, 0, 255]).unwrap();
    let bytes = png_of(&two);
    let frame = process_decoded(&decode(&bytes)).unwrap();
    assert_eq!((frame.width, frame.height), (2, 1));
    // red stays red, blue stays blue
    assert_eq!(&frame.data[0..4], &[255, 0, 0, 255]);
    assert_eq!(&frame.data[4..8], &[0, 0, 255, 255]);
}

#[test]
fn identical_bytes_give_identical_frames() {
    // The codec carries no state from one call to the next: the whole
    // outcome is a function of the decoded grid.
    let solid = picto::buffer::Rgb::from_pixel(3, 3, &picto::color::Rgb::new_u8(7, 8, 9));
    let bytes = png_of(&solid);
    let first = process_decoded(&decode(&bytes)).unwrap();
    let second = process_decoded(&decode(&bytes)).unwrap();
    assert_eq!(first.data, second.data);
    assert_eq!((first.width, first.height), (second.width, second.height));
}

#[test]
fn empty_grid_is_an_encode_error() {
    let empty = RgbImage { data: Vec::new(), width: 0, height: 0 };
    assert_eq!(process_decoded(&empty).unwrap_err(), AppError::Encode);
}

#[test]
fn empty_frame_is_an_encode_error() {
    let frame = RgbaImage { data: Vec::new(), width: 0, height: 0 };
    assert_eq!(ensure_encodable(&frame).unwrap_err(), AppError::Encode);
}

#[test]
fn non_empty_frame_is_encodable() {
    let frame = RgbaImage { data: vec![1, 2, 3, 255], width: 1, height: 1 };
    assert!(ensure_encodable(&frame).is_ok());
}

#[test]
fn normalize_keeps_channel_order_and_adds_alpha() {
    let src = RgbImage { data: vec![1, 2, 3, 4, 5, 6], width: 2, height: 1 };
    let dst = normalize_channels(&src);
    assert_eq!((dst.width, dst.height), (2, 1));
    assert_eq!(dst.data, vec![1, 2, 3, 255, 4, 5, 6, 255]);
}

#[test]
fn normalize_of_nothing_is_nothing() {
    let src = RgbImage { data: Vec::new(), width: 0, height: 0 };
    let dst = normalize_channels(&src);
    assert_eq!(dst.data.len(), 0);
}

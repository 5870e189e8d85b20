use decode_pipeline::frame::{FrameInfo, PixelFormat};
use decode_pipeline::ppm::{encode_file_name, encode_header, push_decimal, Image, ImageError, RasterFile};

fn digits(n: u64) -> Vec<u8> {
    let mut out = Vec::new();
    push_decimal(&mut out, n);
    out
}

#[test]
fn decimal_digits_of_chosen_numbers() {
    assert_eq!(digits(0), b"0");
    assert_eq!(digits(7), b"7");
    assert_eq!(digits(9), b"9");
    assert_eq!(digits(10), b"10");
    assert_eq!(digits(64), b"64");
    assert_eq!(digits(100), b"100");
    assert_eq!(digits(1_000_000), b"1000000");
    assert_eq!(digits(4_294_967_295), b"4294967295");
    assert_eq!(digits(u64::MAX), b"18446744073709551615");
}

#[test]
fn decimal_digits_read_back_as_the_number() {
    let mut n: u64 = 1;
    for _ in 0..40 {
        let text = String::from_utf8(digits(n)).unwrap();
        assert_eq!(text.parse::<u64>().unwrap(), n);
        assert_eq!(text, n.to_string());
        n = n.wrapping_mul(3).wrapping_add(n >> 3) ^ 0x55;
    }
}

#[test]
fn decimal_digits_are_appended() {
    let mut out = b"x=".to_vec();
    push_decimal(&mut out, 305);
    push_decimal(&mut out, 0);
    assert_eq!(out, b"x=3050");
}

#[test]
fn header_is_bit_exact() {
    assert_eq!(encode_header(64, 64), b"P6\n64 64\n255\n");
    assert_eq!(encode_header(640, 480), b"P6\n640 480\n255\n");
    assert_eq!(encode_header(1, 1), b"P6\n1 1\n255\n");
    assert_eq!(encode_header(0, 0), b"P6\n0 0\n255\n");
    assert_eq!(encode_header(u32::MAX, 7), b"P6\n4294967295 7\n255\n");
}

#[test]
fn file_is_named_by_the_frame_index() {
    assert_eq!(encode_file_name(0), b"frame0.ppm");
    assert_eq!(encode_file_name(9), b"frame9.ppm");
    assert_eq!(encode_file_name(10), b"frame10.ppm");
    assert_eq!(encode_file_name(1234), b"frame1234.ppm");
    assert_eq!(encode_file_name(u64::MAX), b"frame18446744073709551615.ppm");
}

#[test]
fn packed_image_is_header_then_samples() {
    let image = Image { format: PixelFormat::Rgb24, width: 2, height: 2, stride: 6, data: (1..=12).collect() };
    assert_eq!(image.validate(), Ok(()));
    let mut expected = b"P6\n2 2\n255\n".to_vec();
    expected.extend(1..=12u8);
    assert_eq!(image.encode(), Ok(expected));
}

#[test]
fn row_padding_is_left_out() {
    let data = vec![
        1, 2, 3, 4, 5, 6, 0xAA, 0xBB, //
        7, 8, 9, 10, 11, 12, 0xCC, 0xDD, //
        13, 14, 15, 16, 17, 18, 0xEE, 0xFF,
    ];
    let image = Image { format: PixelFormat::Rgb24, width: 2, height: 3, stride: 8, data };
    let mut expected = b"P6\n2 3\n255\n".to_vec();
    expected.extend(1..=18u8);
    assert_eq!(image.encode(), Ok(expected));
}

#[test]
fn bytes_after_the_last_row_are_left_out() {
    let image = Image { format: PixelFormat::Rgb24, width: 1, height: 2, stride: 4, data: vec![1, 2, 3, 0, 4, 5, 6, 0, 9, 9, 9] };
    let mut expected = b"P6\n1 2\n255\n".to_vec();
    expected.extend([1, 2, 3, 4, 5, 6]);
    assert_eq!(image.encode(), Ok(expected));
}

#[test]
fn image_of_64_by_64_has_12288_samples() {
    let image = Image { format: PixelFormat::Rgb24, width: 64, height: 64, stride: 192, data: vec![0x7F; 192 * 64] };
    let bytes = image.encode().unwrap();
    assert_eq!(&bytes[..13], b"P6\n64 64\n255\n");
    assert_eq!(bytes.len(), 13 + 64 * 64 * 3);
    assert!(bytes[13..].iter().all(|b| *b == 0x7F));
}

#[test]
fn empty_pictures_have_only_a_header() {
    let none = Image { format: PixelFormat::Rgb24, width: 0, height: 0, stride: 0, data: Vec::new() };
    assert_eq!(none.encode(), Ok(b"P6\n0 0\n255\n".to_vec()));
    let flat = Image { format: PixelFormat::Rgb24, width: 5, height: 0, stride: 15, data: Vec::new() };
    assert_eq!(flat.encode(), Ok(b"P6\n5 0\n255\n".to_vec()));
    let thin = Image { format: PixelFormat::Rgb24, width: 0, height: 3, stride: 4, data: vec![0; 12] };
    assert_eq!(thin.encode(), Ok(b"P6\n0 3\n255\n".to_vec()));
}

#[test]
fn row_that_cannot_hold_the_pixels_is_refused() {
    let image = Image { format: PixelFormat::Rgb24, width: 2, height: 1, stride: 5, data: vec![0; 64] };
    assert_eq!(image.validate(), Err(ImageError::RowTooShort));
    assert_eq!(image.encode(), Err(ImageError::RowTooShort));
    let wide = Image { format: PixelFormat::Rgb24, width: u32::MAX, height: 1, stride: 8, data: vec![0; 8] };
    assert_eq!(wide.encode(), Err(ImageError::RowTooShort));
}

#[test]
fn buffer_that_cannot_hold_the_rows_is_refused() {
    let image = Image { format: PixelFormat::Rgb24, width: 2, height: 2, stride: 6, data: vec![0; 11] };
    assert_eq!(image.validate(), Err(ImageError::BufferTooShort));
    assert_eq!(image.encode(), Err(ImageError::BufferTooShort));
    let tall = Image { format: PixelFormat::Rgb24, width: 1, height: u32::MAX, stride: usize::MAX, data: vec![0; 16] };
    assert_eq!(tall.encode(), Err(ImageError::BufferTooShort));
    let padded = Image { format: PixelFormat::Rgb24, width: 1, height: 2, stride: 4, data: vec![0; 7] };
    assert_eq!(padded.encode(), Err(ImageError::BufferTooShort));
}

#[test]
fn encoding_twice_gives_identical_bytes() {
    let data: Vec<u8> = (0..240u32).map(|k| (k * 7 % 251) as u8).collect();
    let image = Image { format: PixelFormat::Rgb24, width: 5, height: 12, stride: 20, data };
    let first = image.encode().unwrap();
    let second = image.encode().unwrap();
    let third = image.clone().encode().unwrap();
    assert_eq!(first, second);
    assert_eq!(first, third);
    assert_eq!(first.len(), 12 + 5 * 12 * 3);
}

#[test]
fn image_that_is_not_packed_rgb_is_refused() {
    let image = Image { format: PixelFormat::Native { code: 0 }, width: 2, height: 2, stride: 6, data: vec![0; 12] };
    assert_eq!(image.validate(), Err(ImageError::NotRgb24));
    assert_eq!(image.encode(), Err(ImageError::NotRgb24));
    assert_eq!(image.to_file(0), Err(ImageError::NotRgb24));
    let worse = Image { format: PixelFormat::Native { code: 2 }, width: 2, height: 2, stride: 1, data: Vec::new() };
    assert_eq!(worse.validate(), Err(ImageError::NotRgb24));
}

#[test]
fn first_defect_is_reported() {
    let image = Image { format: PixelFormat::Rgb24, width: 2, height: 2, stride: 5, data: Vec::new() };
    assert_eq!(image.validate(), Err(ImageError::RowTooShort));
}

#[test]
fn file_of_a_frame_has_its_name_and_its_encoding() {
    let image = Image { format: PixelFormat::Rgb24, width: 1, height: 1, stride: 4, data: vec![10, 20, 30, 0] };
    let file = image.to_file(42).unwrap();
    assert_eq!(file, RasterFile { name: b"frame42.ppm".to_vec(), bytes: b"P6\n1 1\n255\n\x0a\x14\x1e".to_vec() });
    assert_eq!(file.bytes, image.encode().unwrap());
    let broken = Image { format: PixelFormat::Rgb24, width: 1, height: 1, stride: 4, data: vec![10, 20, 30] };
    assert_eq!(broken.to_file(42), Err(ImageError::BufferTooShort));
}

#[test]
fn image_describes_its_format_and_size() {
    let image = Image { format: PixelFormat::Rgb24, width: 7, height: 5, stride: 24, data: vec![0; 120] };
    assert_eq!(image.describe(), FrameInfo { format: PixelFormat::Rgb24, width: 7, height: 5 });
}

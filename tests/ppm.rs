use raytracer::image::Image;
use raytracer::ppm::{encode_plain, encode_raw};

fn two_by_two_with_red_corner() -> Image<(u8, u8, u8)> {
    let mut image = Image::init(2, 2, (0, 0, 0));
    image.set(1, 1, (255, 0, 0));
    image
}

#[test]
fn plain_file_of_two_by_two_image() {
    let bytes = encode_plain(&two_by_two_with_red_corner());
    let expected = "P3
2 2
255
0 0 0
0 0 0
0 0 0
255 0 0
";
    assert_eq!(String::from_utf8(bytes).unwrap(), expected);
}

#[test]
fn raw_file_of_two_by_two_image() {
    let bytes = encode_raw(&two_by_two_with_red_corner());
    let mut expected = "P6\n2 2\n255\n".as_bytes().to_vec();
    expected.extend_from_slice(&[0, 0, 0, 0, 0, 0, 0, 0, 0, 255, 0, 0]);
    assert_eq!(bytes, expected);
}

#[test]
fn header_gives_width_before_height() {
    let image = Image::init(1, 12, (1, 20, 3));
    let bytes = encode_plain(&image);
    let text = String::from_utf8(bytes).unwrap();
    assert!(text.starts_with("P3\n12 1\n255\n1 20 3\n"));
    assert_eq!(text.lines().count(), 3 + 12);
}

#[test]
fn empty_image_is_only_a_header() {
    let image: Image<(u8, u8, u8)> = Image::init(0, 0, (0, 0, 0));
    assert_eq!(encode_raw(&image), b"P6\n0 0\n255\n".to_vec());
    assert_eq!(encode_plain(&image), b"P3\n0 0\n255\n".to_vec());
}

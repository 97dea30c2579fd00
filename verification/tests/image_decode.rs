use game::decode::{load_texture_image, texture_image, ImageLoadError, RgbaImage};
use game::layout::TextureLayout;
use std::io::Cursor;

fn png_bytes(img: image::DynamicImage) -> Vec<u8> {
    let mut bytes: Vec<u8> = Vec::new();
    img.write_to(&mut Cursor::new(&mut bytes), image::ImageOutputFormat::Png).unwrap();
    bytes
}

#[test]
fn decodes_rgba_png() {
    let texels = vec![1, 2, 3, 4, 5, 6, 7, 8, 9, 10, 11, 12];
    let buf = image::RgbaImage::from_raw(3, 1, texels.clone()).unwrap();
    let bytes = png_bytes(image::DynamicImage::ImageRgba8(buf));
    let t = load_texture_image(&bytes).unwrap();
    assert_eq!(
        t.layout,
        TextureLayout { width: 3, height: 1, depth_or_array_layers: 1, bytes_per_row: 12, rows_per_image: 1 }
    );
    assert_eq!(t.pixels, texels);
}

#[test]
fn decodes_gray_png_to_rgba() {
    let buf = image::GrayImage::from_raw(1, 2, vec![0x80, 0x10]).unwrap();
    let bytes = png_bytes(image::DynamicImage::ImageLuma8(buf));
    let t = load_texture_image(&bytes).unwrap();
    assert_eq!((t.layout.width, t.layout.height, t.layout.bytes_per_row), (1, 2, 4));
    assert_eq!(t.pixels, vec![0x80, 0x80, 0x80, 0xff, 0x10, 0x10, 0x10, 0xff]);
}

#[test]
fn garbage_does_not_decode() {
    let r = load_texture_image(&[0u8, 1, 2, 3, 4, 5, 6, 7]);
    assert!(matches!(r, Err(ImageLoadError::Decode(_))));
}

#[test]
fn overlong_rows_are_refused() {
    let r = texture_image(RgbaImage { width: 0x4000_0000, height: 0, pixels: vec![] });
    assert!(matches!(r, Err(ImageLoadError::RowTooLong)));
    let t = texture_image(RgbaImage { width: 0x3fff_ffff, height: 0, pixels: vec![] }).unwrap();
    assert_eq!(t.layout.bytes_per_row, 0xffff_fffc);
}

#[test]
fn texture_image_keeps_texels() {
    let t = texture_image(RgbaImage { width: 2, height: 1, pixels: vec![9, 8, 7, 6, 5, 4, 3, 2] }).unwrap();
    assert_eq!(t.pixels, vec![9, 8, 7, 6, 5, 4, 3, 2]);
    assert_eq!(t.layout.rows_per_image, 1);
    assert_eq!(t.layout.bytes_per_row, 8);
}

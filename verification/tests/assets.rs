use std::io::Cursor;

use rusty_live2d::assets::{DecodedTexture, decode_texture};

fn png_bytes(image: image::DynamicImage) -> Vec<u8> {
    let mut bytes = Vec::new();
    image
        .write_to(&mut Cursor::new(&mut bytes), image::ImageFormat::Png)
        .unwrap();
    bytes
}

#[test]
fn decodes_rgba_png_textures() {
    let pixels = vec![255, 0, 0, 255, 0, 255, 0, 128, 0, 0, 255, 0, 9, 8, 7, 6];
    let image = image::RgbaImage::from_raw(2, 2, pixels.clone()).unwrap();
    let texture = decode_texture("png", &png_bytes(image::DynamicImage::ImageRgba8(image))).unwrap();

    assert_eq!(texture.width(), 2);
    assert_eq!(texture.height(), 2);
    assert_eq!(texture.rgba(), &pixels[..]);
}

#[test]
fn converts_grayscale_textures_to_rgba() {
    let image = image::GrayImage::from_raw(2, 1, vec![10, 200]).unwrap();
    let texture = decode_texture("png", &png_bytes(image::DynamicImage::ImageLuma8(image))).unwrap();

    assert_eq!(texture, DecodedTexture::new(2, 1, vec![10, 10, 10, 255, 200, 200, 200, 255]));
}

#[test]
fn rejects_bytes_that_are_no_image() {
    assert!(decode_texture("png", b"not an image").is_err());
    assert!(decode_texture("png", &[]).is_err());
}

#[test]
fn decoded_texture_keeps_its_parts() {
    let texture = DecodedTexture::new(1, 1, vec![1, 2, 3, 4]);
    assert_eq!(texture.width(), 1);
    assert_eq!(texture.height(), 1);
    assert_eq!(texture.rgba(), &[1, 2, 3, 4]);
}

#[test]
fn takes_the_format_from_the_extension() {
    let image = image::GrayImage::from_raw(1, 1, vec![7]).unwrap();
    let bytes = png_bytes(image::DynamicImage::ImageLuma8(image));

    assert_eq!(decode_texture("PNG", &bytes).unwrap(), DecodedTexture::new(1, 1, vec![7, 7, 7, 255]));
    assert!(decode_texture("jpg", &bytes).is_err());
    assert!(decode_texture("txt", &bytes).is_err());
    assert!(decode_texture("", &bytes).is_err());
}

#[test]
fn textures_are_their_parts() {
    assert_eq!(DecodedTexture::new(2, 2, vec![]), DecodedTexture::new(2, 2, vec![]));
    assert_ne!(DecodedTexture::new(2, 2, vec![]), DecodedTexture::new(2, 1, vec![]));
    assert_ne!(DecodedTexture::new(1, 1, vec![1]), DecodedTexture::new(1, 1, vec![2]));
}

use std::io::Cursor;

use image::{ImageOutputFormat, RgbImage, RgbaImage};
use window_bridge::icon::{load_icon, IconError, IconImage};

fn sample_rgba(width: u32, height: u32) -> Vec<u8> {
    let mut rgba = Vec::new();
    for i in 0..(width * height) {
        rgba.push((i * 7 % 256) as u8);
        rgba.push((i * 13 % 256) as u8);
        rgba.push((255 - i % 256) as u8);
        rgba.push(if i % 2 == 0 { 0xff } else { 0x7f });
    }
    rgba
}

fn encoded(width: u32, height: u32, rgba: &[u8], format: ImageOutputFormat) -> Vec<u8> {
    let image = RgbaImage::from_raw(width, height, rgba.to_vec()).unwrap();
    let mut bytes = Vec::new();
    image.write_to(&mut Cursor::new(&mut bytes), format).unwrap();
    bytes
}

#[test]
fn decoded_png_reads_back_width_and_height() {
    let rgba = sample_rgba(5, 3);
    let file = encoded(5, 3, &rgba, ImageOutputFormat::Png);
    let image = IconImage::decode("assets/icon.png", &file).unwrap();
    assert_eq!(image.width(), 5);
    assert_eq!(image.height(), 3);
    assert_eq!(image.rgba(), &rgba);
}

#[test]
fn decoded_bmp_reads_back_width_and_height() {
    let rgba = sample_rgba(2, 4);
    let file = encoded(2, 4, &rgba, ImageOutputFormat::Bmp);
    let image = IconImage::decode("icon.bmp", &file).unwrap();
    assert_eq!(image.width(), 2);
    assert_eq!(image.height(), 4);
    assert_eq!(image.rgba().len(), 32);
}

#[test]
fn image_without_alpha_is_decoded_to_opaque_rgba() {
    let rgb = RgbImage::from_raw(2, 1, vec![10, 20, 30, 40, 50, 60]).unwrap();
    let mut file = Vec::new();
    rgb.write_to(&mut Cursor::new(&mut file), ImageOutputFormat::Png).unwrap();
    let image = IconImage::decode("plain.png", &file).unwrap();
    assert_eq!(image.width(), 2);
    assert_eq!(image.height(), 1);
    assert_eq!(image.rgba(), &vec![10, 20, 30, 255, 40, 50, 60, 255]);
}

#[test]
fn format_is_taken_from_the_extension() {
    let rgba = sample_rgba(2, 2);
    let file = encoded(2, 2, &rgba, ImageOutputFormat::Png);
    assert!(IconImage::decode("icon.PNG", &file).is_ok());
    assert_eq!(IconImage::decode("icon.bmp", &file), Err(IconError::Undecodable));
    assert_eq!(IconImage::decode("icon", &file), Err(IconError::Undecodable));
    assert_eq!(IconImage::decode("icon.nothing", &file), Err(IconError::Undecodable));
}

#[test]
fn bytes_that_are_no_image_are_undecodable() {
    assert_eq!(IconImage::decode("icon.png", &[]), Err(IconError::Undecodable));
    assert_eq!(
        IconImage::decode("icon.png", b"this is not a picture"),
        Err(IconError::Undecodable)
    );
    let rgba = sample_rgba(4, 4);
    let file = encoded(4, 4, &rgba, ImageOutputFormat::Png);
    assert_eq!(IconImage::decode("icon.png", &file[..20]), Err(IconError::Undecodable));
}

#[test]
fn decoding_is_not_the_identity_on_bytes() {
    let rgba = sample_rgba(3, 3);
    let file = encoded(3, 3, &rgba, ImageOutputFormat::Png);
    let image = IconImage::decode("icon.png", &file).unwrap();
    assert_ne!(image.rgba(), &file);
    assert_eq!(image.rgba(), &rgba);
}

#[test]
fn icon_file_becomes_a_window_icon() {
    let rgba = sample_rgba(8, 8);
    let file = encoded(8, 8, &rgba, ImageOutputFormat::Png);
    assert!(load_icon("icon.png", &file).is_ok());
}

#[test]
fn undecodable_icon_file_is_refused() {
    assert_eq!(load_icon("icon.png", &[1, 2, 3]).err(), Some(IconError::Undecodable));
    assert_eq!(load_icon("icon.txt", b"text").err(), Some(IconError::Undecodable));
}

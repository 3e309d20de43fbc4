use clippy_core::decimal::push_decimal_i32;
use clippy_core::export::{export_clipboard_image, export_file_name_of, ClipboardImage, ImageExportError};
use image::{DynamicImage, ImageFormat, RgbImage};
use std::io::Cursor;

fn encoded(format: ImageFormat) -> Vec<u8> {
    let img = DynamicImage::ImageRgb8(RgbImage::from_fn(3, 2, |x, y| image::Rgb([x as u8 * 40, y as u8 * 90, 7])));
    let mut out = Cursor::new(Vec::new());
    img.write_to(&mut out, format).unwrap();
    out.into_inner()
}

fn decimal(n: i32) -> String {
    let mut s = String::new();
    push_decimal_i32(&mut s, n);
    s
}

#[test]
fn decimal_notation_matches_display() {
    for n in [0, 7, 10, 99, 100, 12345, -1, -10, -2147483648, 2147483647] {
        assert_eq!(decimal(n), n.to_string());
    }
}

#[test]
fn file_name_uses_stored_extension_or_png() {
    assert_eq!(export_file_name_of(42, &None), "clipboard-42.png");
    assert_eq!(export_file_name_of(42, &Some("jpg".to_string())), "clipboard-42.jpg");
    assert_eq!(export_file_name_of(-7, &None), "clipboard--7.png");
    assert_eq!(export_file_name_of(0, &Some(String::new())), "clipboard-0.");
}

#[test]
fn missing_image_is_reported() {
    assert!(matches!(export_clipboard_image(1, None), Err(ImageExportError::NoImageData)));
}

#[test]
fn undecodable_image_is_reported() {
    let img = ClipboardImage { data: vec![1, 2, 3, 4], extension: None };
    assert!(matches!(export_clipboard_image(1, Some(&img)), Err(ImageExportError::Decode(_))));
}

#[test]
fn bmp_image_is_exported_as_png() {
    let data = encoded(ImageFormat::Bmp);
    let img = ClipboardImage { data: data.clone(), extension: Some("bmp".to_string()) };
    let export = export_clipboard_image(5, Some(&img)).unwrap();
    assert_eq!(export.file_name, "clipboard-5.bmp");
    assert_ne!(export.png, data);
    assert_eq!(&export.png[..8], &[0x89, b'P', b'N', b'G', 0x0d, 0x0a, 0x1a, 0x0a]);
    let back = image::load_from_memory_with_format(&export.png, ImageFormat::Png).unwrap();
    let orig = image::load_from_memory(&data).unwrap();
    assert_eq!(back.to_rgb8(), orig.to_rgb8());
}

#[test]
fn png_image_round_trips() {
    let data = encoded(ImageFormat::Png);
    let img = ClipboardImage { data: data.clone(), extension: None };
    let export = export_clipboard_image(9, Some(&img)).unwrap();
    assert_eq!(export.file_name, "clipboard-9.png");
    let back = image::load_from_memory(&export.png).unwrap();
    assert_eq!(back.to_rgb8(), image::load_from_memory(&data).unwrap().to_rgb8());
}

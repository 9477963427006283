use ajazz_sdk::{convert_image, convert_image_with_format, ImageFormat, ImageMirroring, ImageMode, ImageRect, ImageRotation, Kind, Raster};

fn gradient(width: u32, height: u32) -> Raster {
    let mut data = Vec::new();
    for y in 0..height {
        for x in 0..width {
            data.push((x * 255 / width.max(1)) as u8);
            data.push((y * 255 / height.max(1)) as u8);
            data.push(((x + y) % 7 * 30) as u8);
        }
    }
    Raster { width, height, data }
}

fn format(size: (usize, usize), rotation: ImageRotation, mirror: ImageMirroring) -> ImageFormat {
    ImageFormat { mode: ImageMode::JPEG, size, rotation, mirror }
}

fn decode(bytes: &[u8]) -> image::RgbImage {
    image::load_from_memory_with_format(bytes, image::ImageFormat::Jpeg).unwrap().into_rgb8()
}

#[test]
fn no_image_mode_gives_no_bytes() {
    let r = convert_image_with_format(ImageFormat::default(), &gradient(4, 4)).ok().unwrap();
    assert!(r.is_empty());
}

#[test]
fn jpeg_output_has_target_size() {
    let bytes = convert_image_with_format(format((16, 8), ImageRotation::Rot0, ImageMirroring::NoMirror), &gradient(32, 32))
        .ok()
        .unwrap();
    assert_eq!(&bytes[0..2], &[0xFF, 0xD8]);
    let img = decode(&bytes);
    assert_eq!(img.dimensions(), (16, 8));
}

#[test]
fn rotations_change_the_encoding() {
    let src = gradient(16, 16);
    let plain = convert_image_with_format(format((16, 16), ImageRotation::Rot0, ImageMirroring::NoMirror), &src).ok().unwrap();
    for rotation in [ImageRotation::Rot90, ImageRotation::Rot180, ImageRotation::Rot270] {
        let turned = convert_image_with_format(format((16, 16), rotation, ImageMirroring::NoMirror), &src).ok().unwrap();
        assert_ne!(plain, turned);
    }
}

#[test]
fn mirrors_change_the_encoding() {
    let src = gradient(16, 16);
    let plain = convert_image_with_format(format((16, 16), ImageRotation::Rot0, ImageMirroring::NoMirror), &src).ok().unwrap();
    for mirror in [ImageMirroring::X, ImageMirroring::Y, ImageMirroring::Both] {
        let flipped = convert_image_with_format(format((16, 16), ImageRotation::Rot0, mirror), &src).ok().unwrap();
        assert_ne!(plain, flipped);
    }
    let both = convert_image_with_format(format((16, 16), ImageRotation::Rot0, ImageMirroring::Both), &src).ok().unwrap();
    let half = convert_image_with_format(format((16, 16), ImageRotation::Rot180, ImageMirroring::NoMirror), &src).ok().unwrap();
    assert_eq!(both, half);
}

#[test]
fn rotation_keeps_pixel_positions() {
    let mut src = Raster { width: 16, height: 8, data: vec![0; 16 * 8 * 3] };
    for y in 0..8 {
        for x in 0..8 {
            let i = 3 * (y * 16 + x);
            src.data[i] = 255;
            src.data[i + 1] = 255;
            src.data[i + 2] = 255;
        }
    }
    let bytes = convert_image_with_format(format((8, 16), ImageRotation::Rot90, ImageMirroring::NoMirror), &src).ok().unwrap();
    let img = decode(&bytes);
    assert_eq!(img.dimensions(), (8, 16));
    assert!(img.get_pixel(4, 4)[0] > 200);
    assert!(img.get_pixel(4, 12)[0] < 50);
}

#[test]
fn resize_changes_dimensions_and_zero_size_fails() {
    let src = gradient(10, 10);
    let a = convert_image_with_format(format((10, 10), ImageRotation::Rot0, ImageMirroring::NoMirror), &src).ok().unwrap();
    let b = convert_image_with_format(format((5, 5), ImageRotation::Rot0, ImageMirroring::NoMirror), &src).ok().unwrap();
    assert_ne!(a, b);
    assert_eq!(decode(&b).dimensions(), (5, 5));
    assert!(convert_image_with_format(format((0, 5), ImageRotation::Rot0, ImageMirroring::NoMirror), &src).is_err());
}

#[test]
fn encoding_is_deterministic() {
    let src = gradient(20, 12);
    let f = format((12, 12), ImageRotation::Rot270, ImageMirroring::Y);
    let a = convert_image_with_format(f, &src).ok().unwrap();
    let b = convert_image_with_format(f, &src).ok().unwrap();
    assert_eq!(a, b);
}

#[test]
fn key_conversion_uses_key_format() {
    let src = gradient(30, 20);
    let f = Kind::Akp153.key_image_format();
    let a = convert_image_with_format(f, &src).ok().unwrap();
    let c = convert_image(Kind::Akp153, &src).ok().unwrap();
    assert_eq!(a, c);
    assert_eq!(decode(&c).dimensions(), (85, 85));
}

#[test]
fn raster_from_longer_buffer_keeps_pixels_only() {
    let buf = image::RgbImage::from_raw(1, 1, vec![9u8; 6]).unwrap();
    let img = image::DynamicImage::ImageRgb8(buf).into_rgb8();
    let (w, h) = img.dimensions();
    let raw = img.into_raw();
    assert_eq!(raw.len(), 6);
    let r = Raster::from_buffer(w, h, raw).unwrap();
    assert_eq!(r.data, vec![9u8; 3]);
    assert!(Raster::from_buffer(2, 2, vec![0u8; 11]).is_none());
    let r = Raster::from_buffer(2, 2, vec![1u8; 12]).unwrap();
    assert_eq!((r.width, r.height, r.data.len()), (2, 2, 12));
}

#[test]
fn image_rect_from_image() {
    let src = gradient(72, 72);
    let rect = ImageRect::from_image(&src).ok().unwrap();
    assert_eq!((rect.w, rect.h), (72, 72));
    assert_eq!(&rect.data[0..2], &[0xFF, 0xD8]);
    assert_eq!(decode(&rect.data).dimensions(), (72, 72));
    let empty = Raster { width: 0, height: 3, data: vec![] };
    assert!(matches!(ImageRect::from_image(&empty), Err(ajazz_sdk::AjazzError::ImageError(_))));
}

#[test]
fn reencoding_a_decoded_image_stays_close() {
    let f = format((32, 32), ImageRotation::Rot0, ImageMirroring::NoMirror);
    let first = convert_image_with_format(f, &gradient(32, 32)).ok().unwrap();
    let decoded = decode(&first);
    let again = Raster { width: 32, height: 32, data: decoded.clone().into_raw() };
    let second = convert_image_with_format(f, &again).ok().unwrap();
    let redecoded = decode(&second);
    let worst = decoded
        .as_raw()
        .iter()
        .zip(redecoded.as_raw().iter())
        .map(|(a, b)| (*a as i32 - *b as i32).abs())
        .max()
        .unwrap();
    assert!(worst <= 24, "largest channel difference {worst}");
}

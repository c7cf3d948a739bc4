use menyoki::edit::{ColorSettings, Flip, ImageOps, Rotation, TransformSettings};
use menyoki::error::Error;
use menyoki::geometry::Padding;
use menyoki::pixels::PixelBuffer;

fn settings_with(
    resize: Option<(u32, u32)>,
    ratio: u32,
    crop: Padding,
    flip: Option<Flip>,
    rotate: Rotation,
) -> TransformSettings {
    TransformSettings::new(resize, ratio, crop, flip, rotate, 0, ColorSettings::default())
}

#[test]
fn test_init_geometry() {
    // resize target (100, 50), ratio 2.0, rotation 90 degrees:
    // scaled to (200, 100), then swapped to (100, 200)
    let mut ops = ImageOps::new(settings_with(
        Some((100, 50)),
        200,
        Padding::new(0, 0, 0, 0),
        None,
        Rotation::Deg90,
    ));
    ops.init((640, 480)).unwrap();
    assert_eq!(0, ops.geometry.x);
    assert_eq!(0, ops.geometry.y);
    assert_eq!(100, ops.geometry.width);
    assert_eq!(200, ops.geometry.height);
}

#[test]
fn test_init_padding_errors() {
    let mut ops = ImageOps::new(settings_with(
        None,
        0,
        Padding::new(0, 5, 0, 0),
        None,
        Rotation::Deg0,
    ));
    assert!(matches!(ops.init((2, 2)), Err(Error::PaddingTooLarge)));
    let mut ops = ImageOps::new(settings_with(
        None,
        0,
        Padding::new(0, 1, 0, 1),
        None,
        Rotation::Deg0,
    ));
    assert!(matches!(ops.init((2, 2)), Err(Error::EmptyGeometry)));
}

#[test]
fn test_invalid_rotation() {
    assert!(matches!(
        Rotation::from_degrees(45),
        Err(Error::InvalidRotation(45))
    ));
    assert!(matches!(Rotation::from_degrees(270), Ok(Rotation::Deg270)));
}

#[test]
fn test_process_neutral_identity() {
    let bytes: Vec<u8> = (0u8..16).collect();
    let buffer = PixelBuffer::from_raw(2, 2, bytes.clone()).unwrap();
    let ops = ImageOps::new(TransformSettings::default());
    let out = ops.process(buffer);
    assert_eq!((2, 2), out.dimensions());
    assert_eq!(bytes, out.into_raw());
}

#[test]
fn test_process_rotate_dims() {
    let buffer = PixelBuffer::from_raw(2, 1, vec![0; 8]).unwrap();
    let ops = ImageOps::new(settings_with(
        None,
        0,
        Padding::new(0, 0, 0, 0),
        None,
        Rotation::Deg90,
    ));
    let out = ops.process(buffer);
    assert_eq!((1, 2), out.dimensions());
}

#[test]
fn test_process_resize_dims() {
    let buffer = PixelBuffer::from_raw(2, 2, vec![9; 16]).unwrap();
    let mut ops = ImageOps::new(settings_with(
        None,
        200,
        Padding::new(0, 0, 0, 0),
        None,
        Rotation::Deg0,
    ));
    ops.init((2, 2)).unwrap();
    assert_eq!(4, ops.geometry.width);
    assert_eq!(4, ops.geometry.height);
    let out = ops.process(buffer);
    assert_eq!((4, 4), out.dimensions());
    assert_eq!(64, out.into_raw().len());
}

#[test]
fn test_process_crop_dims() {
    let buffer = PixelBuffer::from_raw(4, 4, (0u8..64).collect()).unwrap();
    let mut ops = ImageOps::new(settings_with(
        None,
        0,
        Padding::new(1, 1, 1, 1),
        None,
        Rotation::Deg0,
    ));
    ops.init((4, 4)).unwrap();
    let out = ops.process(buffer);
    assert_eq!((2, 2), out.dimensions());
}

#[test]
fn test_process_flip_moves_pixels() {
    // two distinct pixels side by side; a horizontal flip exchanges them
    let left: [u8; 4] = [1, 2, 3, 4];
    let right: [u8; 4] = [9, 8, 7, 6];
    let mut bytes = Vec::new();
    bytes.extend_from_slice(&left);
    bytes.extend_from_slice(&right);
    let buffer = PixelBuffer::from_raw(2, 1, bytes).unwrap();
    let ops = ImageOps::new(settings_with(
        None,
        0,
        Padding::new(0, 0, 0, 0),
        Some(Flip::Horizontal),
        Rotation::Deg0,
    ));
    let out = ops.process(buffer).into_raw();
    assert_eq!(&out[0..4], &right);
    assert_eq!(&out[4..8], &left);
}

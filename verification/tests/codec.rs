use menyoki::app::{App, AppSettings};
use menyoki::decode::{fps_from_delay, trim_frames, AnimFormat, Decoder};
use menyoki::edit::{ImageOps, TransformSettings};
use menyoki::encode::gif_speed;
use menyoki::error::Error;
use menyoki::frame::Image;
use menyoki::geometry::Geometry;
use menyoki::record::{CancelSource, TestWindow};
use menyoki::settings::AnimSettings;

fn synthetic_frames(count: usize, width: u32, height: u32) -> Vec<Image> {
    let mut images = Vec::new();
    for i in 0..count {
        let mut data = Vec::new();
        for p in 0..(width * height) {
            let shade = ((i as u32 * 40 + p * 16) % 256) as u8;
            data.extend_from_slice(&[shade, 255 - shade, shade / 2, 255]);
        }
        images.push(Image::new(
            data,
            true,
            Geometry::new(0, 0, width, height),
        ));
    }
    images
}

fn app_with_fps(fps: u32) -> App<TestWindow> {
    let anim = AnimSettings::new(fps, (0, 0), -1, 75, 100, false);
    App::new(None, AppSettings::new(anim, TransformSettings::default()))
}

#[test]
fn test_trim_bounds() {
    // fps 10 means a 100 ms frame delay: a (0.5 s, 0.2 s) cut removes
    // five frames from the front and two from the back of fifty
    let frames: Vec<u32> = (0..50).collect();
    let kept = trim_frames(frames, 10, (500, 200));
    assert_eq!(43, kept.len());
    assert_eq!(5, kept[0]);
    assert_eq!(47, kept[42]);
    let untouched = trim_frames((0..50).collect::<Vec<u32>>(), 10, (0, 0));
    assert_eq!(50, untouched.len());
    // the cut never removes more frames than exist
    let drained = trim_frames((0..3).collect::<Vec<u32>>(), 10, (5000, 5000));
    assert_eq!(0, drained.len());
}

#[test]
fn test_fps_derivation() {
    assert_eq!(25, fps_from_delay(40, 100));
    assert_eq!(50, fps_from_delay(40, 200));
    assert_eq!(10, fps_from_delay(100, 100));
}

#[test]
fn test_quality_speed_mapping() {
    let s1 = gif_speed(1);
    let s50 = gif_speed(50);
    let s100 = gif_speed(100);
    assert!(s50 <= s1);
    assert!(s100 <= s50);
    assert_eq!(30, s1);
    assert_eq!(16, s50);
    assert_eq!(1, s100);
}

#[test]
fn test_gif_round_trip() {
    let images = synthetic_frames(3, 2, 2);
    let app = app_with_fps(20);
    let bytes = app
        .save_gif(&(images, 20), &mut CancelSource::Never)
        .unwrap();
    let decoder = Decoder::new(
        &bytes,
        AnimFormat::Gif,
        ImageOps::new(TransformSettings::default()),
        AnimSettings::default(),
    )
    .unwrap();
    let (frames, fps) = decoder.update_frames().unwrap();
    assert_eq!(3, frames.len());
    assert_eq!(20, fps);
    assert_eq!(2, frames[0].geometry.width);
    assert_eq!(2, frames[0].geometry.height);
}

#[test]
fn test_apng_round_trip() {
    let images = synthetic_frames(4, 2, 2);
    let app = app_with_fps(20);
    let bytes = app
        .save_apng(&(images, 20), &mut CancelSource::Never)
        .unwrap();
    let decoder = Decoder::new(
        &bytes,
        AnimFormat::Apng,
        ImageOps::new(TransformSettings::default()),
        AnimSettings::default(),
    )
    .unwrap();
    let (frames, fps) = decoder.update_frames().unwrap();
    assert_eq!(4, frames.len());
    assert_eq!(20, fps);
}

#[test]
fn test_encode_completes_with_quiet_signal() {
    // a scripted source with no positive flag lets the encode finish
    let images = synthetic_frames(3, 1, 1);
    let app = app_with_fps(10);
    let mut cancel = CancelSource::Scripted {
        flags: vec![false; 10],
        pos: 0,
    };
    assert!(app.save_gif(&(images, 10), &mut cancel).is_ok());
}

#[test]
fn test_cancellation_during_encoding() {
    // observed before the second of five frames: the encode fails and no
    // more than the one already-written frame was emitted
    let images = synthetic_frames(5, 1, 1);
    let app = app_with_fps(10);
    let mut cancel = CancelSource::Scripted {
        flags: vec![false, true],
        pos: 0,
    };
    let result = app.save_gif(&(images, 10), &mut cancel);
    match result {
        Err(Error::Cancelled { written }) => assert!(written <= 1),
        other => panic!("expected a cancelled encode, got {:?}", other),
    }
}

#[test]
fn test_cancellation_during_apng_encoding() {
    let images = synthetic_frames(5, 1, 1);
    let app = app_with_fps(10);
    let mut cancel = CancelSource::Scripted {
        flags: vec![true],
        pos: 0,
    };
    let result = app.save_apng(&(images, 10), &mut cancel);
    match result {
        Err(Error::Cancelled { written }) => assert_eq!(0, written),
        other => panic!("expected a cancelled encode, got {:?}", other),
    }
}

#[test]
fn test_empty_frames_rejected() {
    let app = app_with_fps(10);
    assert!(matches!(
        app.save_gif(&(Vec::new(), 10), &mut CancelSource::Never),
        Err(Error::NoFrames)
    ));
    assert!(matches!(
        app.save_apng(&(Vec::new(), 10), &mut CancelSource::Never),
        Err(Error::NoFrames)
    ));
}

#[test]
fn test_size_mismatch_rejected() {
    let mut images = synthetic_frames(1, 1, 1);
    images.extend(synthetic_frames(1, 2, 2));
    let app = app_with_fps(10);
    assert!(matches!(
        app.save_gif(&(images, 10), &mut CancelSource::Never),
        Err(Error::SizeMismatch)
    ));
}

#[test]
fn test_record_without_window() {
    let app = app_with_fps(10);
    assert!(matches!(
        app.record(&mut CancelSource::Never, 3),
        Err(Error::Capture)
    ));
}

#[test]
fn test_oversized_geometry_rejected() {
    // the GIF container's size fields are sixteen bits wide
    let wide = Image::new(
        vec![0; 4 * 70_000],
        true,
        Geometry::new(0, 0, 70_000, 1),
    );
    let app = app_with_fps(10);
    assert!(matches!(
        app.save_gif(&(vec![wide], 10), &mut CancelSource::Never),
        Err(Error::TooLarge)
    ));
}

#[test]
fn test_decode_malformed_container() {
    let garbage = vec![1u8, 2, 3, 4, 5];
    let result = Decoder::new(
        &garbage,
        AnimFormat::Gif,
        ImageOps::new(TransformSettings::default()),
        AnimSettings::default(),
    );
    assert!(matches!(result, Err(Error::Decode(_))));
}

#[test]
fn test_decode_trims_frames() {
    // ten frames at 10 fps, cut (0.3 s, 0.2 s): five survive
    let images = synthetic_frames(10, 2, 2);
    let app = app_with_fps(10);
    let bytes = app
        .save_gif(&(images, 10), &mut CancelSource::Never)
        .unwrap();
    let settings = AnimSettings::new(10, (300, 200), -1, 75, 100, false);
    let decoder = Decoder::new(
        &bytes,
        AnimFormat::Gif,
        ImageOps::new(TransformSettings::default()),
        settings,
    )
    .unwrap();
    let (frames, fps) = decoder.update_frames().unwrap();
    assert_eq!(10, fps);
    assert_eq!(5, frames.len());
}

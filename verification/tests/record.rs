use menyoki::frame::Image;
use menyoki::geometry::Geometry;
use menyoki::record::{CancelSource, Capture, FpsClock, Recorder, TestWindow};

#[test]
fn test_fps_interval() {
    let fps_clock = FpsClock::new(100);
    assert_eq!(10_000_000, fps_clock.interval_nanos());
    assert_eq!(8_000_000, fps_clock.remaining_nanos(2_000_000));
    assert_eq!(-10_000_000, fps_clock.remaining_nanos(20_000_000));
}

#[test]
fn test_cancellation_during_recording() {
    // observed immediately after the first captured frame: a one-frame
    // sequence comes back, not an error
    let mut recorder = Recorder::new(TestWindow::default(), 10);
    let mut cancel = CancelSource::Scripted {
        flags: vec![true],
        pos: 0,
    };
    let frames = recorder.record_sync(&mut cancel, 1000).unwrap();
    assert_eq!(1, frames.len());
}

#[test]
fn test_recording_until_cancel() {
    let mut recorder = Recorder::new(TestWindow::default(), 10);
    let mut cancel = CancelSource::Scripted {
        flags: vec![false, false, true],
        pos: 0,
    };
    let frames = recorder.record_sync(&mut cancel, 1000).unwrap();
    assert_eq!(3, frames.len());
}

#[test]
fn test_recording_frame_bound() {
    let mut recorder = Recorder::new(TestWindow::default(), 10);
    let frames = recorder.record_sync(&mut CancelSource::Never, 5).unwrap();
    assert_eq!(5, frames.len());
}

#[test]
fn test_scripted_cancel_source() {
    let mut cancel = CancelSource::Scripted {
        flags: vec![false, true],
        pos: 0,
    };
    assert!(!cancel.observed());
    assert!(cancel.observed());
    // past the end of the script nothing is observed
    assert!(!cancel.observed());
    assert!(!CancelSource::Never.observed());
}

#[test]
fn test_flag_cancel_source() {
    let flag = std::sync::Arc::new(std::sync::atomic::AtomicBool::new(false));
    let mut cancel = CancelSource::Flag {
        flag: std::sync::Arc::clone(&flag),
    };
    assert!(!cancel.observed());
    flag.store(true, std::sync::atomic::Ordering::Relaxed);
    assert!(cancel.observed());
    // a set flag stops the recording loop at the first poll
    let mut recorder = Recorder::new(TestWindow::default(), 10);
    let frames = recorder.record_sync(&mut cancel, 1000).unwrap();
    assert_eq!(1, frames.len());
}

#[test]
fn test_window_image() {
    let window = TestWindow::new(Geometry::new(0, 0, 2, 3));
    let image = window.get_image().unwrap();
    assert_eq!(2, image.geometry.width);
    assert_eq!(3, image.geometry.height);
    assert_eq!(24, image.data.len());
    assert!(!image.alpha_channel);
    // white pixels in reversed-channel order, transparent alpha
    assert_eq!(&image.data[0..4], &[255, 255, 255, 0]);
}

#[test]
fn test_rgba_conversion() {
    let image = Image::new(vec![1, 2, 3, 4], true, Geometry::new(0, 0, 1, 1));
    assert_eq!(vec![3, 2, 1, 4], image.get_rgba_data());
    let opaque = Image::new(vec![1, 2, 3, 4], false, Geometry::new(0, 0, 1, 1));
    assert_eq!(vec![3, 2, 1, 255], opaque.get_rgba_data());
}

#[test]
fn test_rgb_conversion() {
    let image = Image::new(
        vec![1, 2, 3, 4, 5, 6, 7, 8],
        true,
        Geometry::new(0, 0, 2, 1),
    );
    assert_eq!(vec![3, 2, 1, 7, 6, 5], image.get_rgb_data());
}

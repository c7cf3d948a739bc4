//! The application layer: holds the capture source and the settings, and
//! ties recording, transforming, and encoding together.

use crate::apng::ApngEncoder;
use crate::edit::TransformSettings;
use crate::encode::{EncoderConfig, GifEncoder};
use crate::error::Error;
use crate::frame::Frames;
use crate::frame::Image;
use crate::record::{CancelSource, Capture, Recorder};
use crate::settings::AnimSettings;
use vstd::prelude::*;

verus! {

/// The application-level settings: the animation configuration and the
/// transform configuration.
#[derive(Clone, Copy, Debug)]
pub struct AppSettings {
    /// Frame rate, cut window, repeat, quality, speed, backend selection.
    pub anim: AnimSettings,
    /// The per-frame transform chain configuration.
    pub edit: TransformSettings,
}

impl AppSettings {
    /// Build the application settings.
    pub fn new(anim: AnimSettings, edit: TransformSettings) -> (s: AppSettings)
        ensures
            s.anim == anim,
            s.edit == edit,
    {
        AppSettings { anim, edit }
    }
}

/// The application: an optional capture source and the settings of one
/// run.
pub struct App<W: Capture> {
    /// The capture source, when one is available.
    pub window: Option<W>,
    /// The settings of this run.
    pub settings: AppSettings,
}

impl<W: Capture + Copy> App<W> {
    /// Build an application over a capture source and its settings.
    pub fn new(window: Option<W>, settings: AppSettings) -> (app: App<W>)
        ensures
            app.window == window,
            app.settings == settings,
    {
        App { window, settings }
    }

    /// Capture one still image: show the pre-capture countdown, then
    /// snapshot.  Without a capture source there is no image.
    pub fn get_image(&self) -> (r: Option<Image>)
        ensures
            self.window is None ==> r is None,
    {
        match &self.window {
            Some(w) => {
                w.show_countdown();
                w.get_image()
            },
            None => None,
        }
    }

    /// Record frames at the configured rate until the cancel signal or the
    /// caller's frame bound stops the loop; a missing capture source is a
    /// capture error.
    pub fn record(&self, cancel: &mut CancelSource, max_frames: usize) -> (r: Result<
        Vec<Image>,
        Error,
    >)
        ensures
            self.window is None ==> (r matches Err(e) && e is Capture),
            self.window is Some && max_frames == 0 ==> r is Ok,
            (match r {
                Ok(frames) => {
                    &&& frames@.len() <= max_frames
                    &&& (*old(cancel) is Never ==> frames@.len() == max_frames)
                    &&& (match *old(cancel) {
                        CancelSource::Scripted { flags, pos } => {
                            &&& *final (cancel) matches CancelSource::Scripted {
                                flags: f2,
                                pos: p2,
                            } && f2 == flags && pos <= p2 && ((p2 > pos && p2 <= flags@.len()
                                && flags@[p2 - 1] == true && frames@.len() == p2 - pos && (
                            forall|k: int| pos <= k < p2 - 1 ==> flags@[k] == false)) || (
                            frames@.len() == max_frames && (p2 <= flags@.len() || p2 == pos) && p2
                                - pos <= frames@.len() && (p2 < flags@.len() ==> p2 - pos
                                == frames@.len()) && (forall|k: int|
                                pos <= k < p2 ==> flags@[k] == false)))
                        },
                        _ => true,
                    })
                },
                Err(e) => e is Capture,
            }),
    {
        match &self.window {
            Some(w) => {
                let mut recorder = Recorder::new(*w, self.settings.anim.fps);
                recorder.record_sync(cancel, max_frames)
            },
            None => Err(Error::Capture),
        }
    }

    /// Encode frames into a GIF container with the baseline backend and
    /// hand back its bytes; an empty frame list has nothing to save.  The
    /// declared geometry is the first frame's.  (The adaptive-quality
    /// backend, when selected, is driven by the embedding program.)
    pub fn save_gif(&self, frames: &Frames, cancel: &mut CancelSource) -> (r: Result<
        Vec<u8>,
        Error,
    >)
        requires
            1 <= self.settings.anim.quality <= 100,
            frames.1 > 0,
            forall|i: int| 0 <= i < frames.0@.len() ==> (#[trigger] frames.0@[i]).well_formed(),
        ensures
            (r matches Err(e) && e is NoFrames) <==> frames.0@.len() == 0,
            r is Ok ==> forall|i: int|
                0 <= i < frames.0@.len() ==> (#[trigger] frames.0@[i]).geometry.width
                    == frames.0@[0].geometry.width && frames.0@[i].geometry.height
                    == frames.0@[0].geometry.height,
            r matches Err(e) ==> (e is NoFrames || e is TooLarge || e is Cancelled
                || e is SizeMismatch),
            r is Ok ==> (match *old(cancel) {
                CancelSource::Never => *final (cancel) is Never,
                CancelSource::Scripted { flags, pos } => *final (cancel)
                    matches CancelSource::Scripted { flags: f2, pos: p2 } && f2 == flags && pos
                    <= p2 && (p2 <= flags@.len() || p2 == pos) && p2 - pos <= frames.0@.len() && (
                p2 < flags@.len() ==> p2 - pos == frames.0@.len()) && (forall|k: int|
                    pos <= k < p2 ==> flags@[k] == false),
                _ => true,
            }),
            ({
                let imgs = frames.0@;
                let fits = imgs.len() > 0 && imgs[0].geometry.width <= u16::MAX
                    && imgs[0].geometry.height <= u16::MAX;
                let all_match = forall|i: int|
                    0 <= i < imgs.len() ==> (#[trigger] imgs[i]).geometry.width
                        == imgs[0].geometry.width && imgs[i].geometry.height
                        == imgs[0].geometry.height;
                match *old(cancel) {
                    CancelSource::Never => fits && all_match ==> r is Ok,
                    CancelSource::Scripted { flags, pos } => (fits && all_match && (forall|k: int|
                        pos <= k < pos + imgs.len() && k < flags@.len()
                            ==> flags@[k] == false)) ==> r is Ok,
                    _ => true,
                }
            }),
    {
        if frames.0.len() == 0 {
            return Err(Error::NoFrames);
        }
        let geometry = frames.0[0].geometry;
        let config = EncoderConfig::new(frames.1, geometry, &self.settings.anim);
        let enc = match GifEncoder::new(config) {
            Ok(e) => e,
            Err(e) => {
                return Err(e);
            },
        };
        enc.save(&frames.0, cancel)
    }

    /// Encode frames into an animated-PNG container and hand back its
    /// bytes; an empty frame list has nothing to save, and a frame count
    /// beyond the container's field is a configuration-size error.  The
    /// declared geometry is the first frame's.
    pub fn save_apng(&self, frames: &Frames, cancel: &mut CancelSource) -> (r: Result<
        Vec<u8>,
        Error,
    >)
        requires
            1 <= self.settings.anim.fps <= u16::MAX,
            forall|i: int| 0 <= i < frames.0@.len() ==> (#[trigger] frames.0@[i]).well_formed(),
        ensures
            (r matches Err(e) && e is NoFrames) <==> frames.0@.len() == 0,
            frames.0@.len() > u32::MAX ==> (r matches Err(e) && e is TooLarge),
            r is Ok ==> forall|i: int|
                0 <= i < frames.0@.len() ==> (#[trigger] frames.0@[i]).geometry.width
                    == frames.0@[0].geometry.width && frames.0@[i].geometry.height
                    == frames.0@[0].geometry.height,
            r matches Err(e) ==> (e is NoFrames || e is TooLarge || e is Cancelled
                || e is SizeMismatch || e is Encode),
            r matches Err(e) && e is Encode ==> frames.0@.len() > 0 && (
            frames.0@[0].geometry.width == 0 || frames.0@[0].geometry.height == 0),
            r is Ok ==> (match *old(cancel) {
                CancelSource::Never => *final (cancel) is Never,
                CancelSource::Scripted { flags, pos } => *final (cancel)
                    matches CancelSource::Scripted { flags: f2, pos: p2 } && f2 == flags && pos
                    <= p2 && (p2 <= flags@.len() || p2 == pos) && p2 - pos <= frames.0@.len() && (
                p2 < flags@.len() ==> p2 - pos == frames.0@.len()) && (forall|k: int|
                    pos <= k < p2 ==> flags@[k] == false),
                _ => true,
            }),
            ({
                let imgs = frames.0@;
                let fits = imgs.len() > 0 && imgs.len() <= u32::MAX && imgs[0].geometry.width > 0
                    && imgs[0].geometry.height > 0;
                let all_match = forall|i: int|
                    0 <= i < imgs.len() ==> (#[trigger] imgs[i]).geometry.width
                        == imgs[0].geometry.width && imgs[i].geometry.height
                        == imgs[0].geometry.height;
                match *old(cancel) {
                    CancelSource::Never => fits && all_match ==> r is Ok,
                    CancelSource::Scripted { flags, pos } => (fits && all_match && (forall|k: int|
                        pos <= k < pos + imgs.len() && k < flags@.len()
                            ==> flags@[k] == false)) ==> r is Ok,
                    _ => true,
                }
            }),
    {
        if frames.0.len() == 0 {
            return Err(Error::NoFrames);
        }
        if frames.0.len() > 0xffff_ffffusize {
            return Err(Error::TooLarge);
        }
        let count = frames.0.len() as u32;
        let enc = ApngEncoder::new(count, frames.0[0].geometry, &self.settings.anim);
        enc.save(&frames.0, cancel)
    }
}

} // verus!

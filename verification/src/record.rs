//! The recorder: a timed capture loop that appends one image per tick and
//! stops, without error, the moment the shared cancel signal reports the
//! configured key combination observed.

use crate::error::Error;
use crate::frame::Image;
use crate::geometry::Geometry;
use crate::keys::ActionKeys;
use device_query::DeviceQuery;
use vstd::prelude::*;

verus! {

/// The fixed-interval pacing primitive: holds the target rate and derives
/// the nanosecond budget of one frame.  Whoever runs the capture loop
/// measures the elapsed time, asks for the remaining budget, and sleeps it
/// off.
#[derive(Clone, Copy, Debug)]
pub struct FpsClock {
    /// The target frames per second.
    pub fps: u32,
}

impl FpsClock {
    /// Build a clock for a target rate.
    pub fn new(fps: u32) -> (c: FpsClock)
        ensures
            c.fps == fps,
    {
        FpsClock { fps }
    }

    /// The nanosecond budget of one frame interval.
    pub fn interval_nanos(&self) -> (n: u32)
        requires
            self.fps > 0,
        ensures
            n == 1_000_000_000u32 / self.fps,
    {
        1_000_000_000 / self.fps
    }

    /// The signed remaining budget after `elapsed` nanoseconds of work:
    /// negative when the previous iteration overran the frame interval.
    pub fn remaining_nanos(&self, elapsed: u64) -> (r: i64)
        requires
            self.fps > 0,
            elapsed <= i64::MAX,
        ensures
            r == 1_000_000_000int / (self.fps as int) - elapsed,
    {
        (1_000_000_000i64 / (self.fps as i64)) - (elapsed as i64)
    }
}

#[verifier::external_type_specification]
#[verifier::external_body]
pub struct ExDeviceState(device_query::DeviceState);

/// Relies on `device_query::DeviceState::get_keys`: the names of the keys
/// pressed at this instant.  What comes back depends on the keyboard, so
/// nothing is promised of it.
#[verifier::external_body]
fn poll_pressed_keys(state: &device_query::DeviceState) -> (keys: Vec<String>) {
    state.get_keys().into_iter().map(|k| format!("{:?}", k)).collect()
}

/// The shared cancel signal: whether the configured cancel combination has
/// been observed since the last check.  Polled between frames, never
/// blocking; read-only from the pipeline's side.
pub enum CancelSource {
    /// No cancel key is configured; never observed.
    Never,
    /// A preset observation sequence, for deterministic runs: each poll
    /// reports the flag under the cursor and advances it.
    Scripted { flags: Vec<bool>, pos: usize },
    /// The keyboard, polled for a cancel-key combination.
    Keys { device: device_query::DeviceState, keys: ActionKeys },
    /// A shared stop flag, set by a collaborator on another thread (for
    /// instance when a trigger command finishes); every poll reads its
    /// current value.
    Flag { flag: std::sync::Arc<std::sync::atomic::AtomicBool> },
}

impl CancelSource {
    /// Poll the signal once.  A preset source reports the flag under its
    /// cursor, or nothing past the end; the keyboard source reports
    /// whatever combination is down at this instant.
    pub fn observed(&mut self) -> (r: bool)
        ensures
            *old(self) is Never ==> r == false && *final (self) is Never,
            (match *old(self) {
                CancelSource::Scripted { flags, pos } => {
                    &&& r == (pos < flags@.len() && flags@[pos as int])
                    &&& *final (self) matches CancelSource::Scripted { flags: f2, pos: p2 } && f2
                        == flags && p2 as int == (if (pos as int) < flags@.len() {
                        pos as int + 1
                    } else {
                        pos as int
                    })
                },
                _ => true,
            }),
            (match *old(self) {
                CancelSource::Keys { device, keys } => *final (self) matches CancelSource::Keys {
                    device: d2,
                    keys: k2,
                } && k2 == keys && d2 == device,
                _ => true,
            }),
            (match *old(self) {
                CancelSource::Flag { flag } => *final (self) matches CancelSource::Flag {
                    flag: g2,
                } && g2 == flag,
                _ => true,
            }),
    {
        match self {
            CancelSource::Never => false,
            CancelSource::Scripted { flags, pos } => {
                if *pos < flags.len() {
                    let r = flags[*pos];
                    *pos += 1;
                    r
                } else {
                    false
                }
            },
            CancelSource::Keys { device, keys } => {
                let pressed = poll_pressed_keys(device);
                keys.check(pressed)
            },
            CancelSource::Flag { flag } => flag.load(std::sync::atomic::Ordering::Relaxed),
        }
    }
}

/// The capture capability: yields one raw image per call, with a blocking
/// pre-capture countdown and an idempotent release hook.
pub trait Capture {
    /// Capture one image; `None` when the source cannot produce one.
    fn get_image(&self) -> Option<Image>;

    /// Render the configured pre-capture countdown, blocking.
    fn show_countdown(&self);

    /// Release the capture source; idempotent, called once after all
    /// output of a run has been produced.
    fn release(&self);
}

/// A capture source for deterministic runs: yields a white, fully
/// transparent image of its configured geometry.
#[derive(Clone, Copy, Debug)]
pub struct TestWindow {
    /// The geometry of the images this window yields.
    pub geometry: Geometry,
}

impl TestWindow {
    /// Build a test window with the given geometry.
    pub fn new(geometry: Geometry) -> (w: TestWindow)
        ensures
            w.geometry == geometry,
    {
        TestWindow { geometry }
    }
}

impl core::default::Default for TestWindow {
    /// A one-by-one test window at the origin.
    fn default() -> (w: TestWindow)
        ensures
            w.geometry == (Geometry { x: 0, y: 0, width: 1, height: 1 }),
    {
        TestWindow { geometry: Geometry { x: 0, y: 0, width: 1, height: 1 } }
    }
}

impl Capture for TestWindow {
    /// A white image of the configured geometry, with no alpha channel.
    fn get_image(&self) -> Option<Image> {
        let w = self.geometry.width;
        let h = self.geometry.height;
        proof {
            assert((4 * (w as int)) * (h as int) <= 0x4_0000_0000 * 0xffff_ffff)
                by (nonlinear_arith)
                requires
                    w <= 0xffff_ffffu32,
                    h <= 0xffff_ffffu32,
            ;
        }
        let total128: u128 = 4u128 * (w as u128) * (h as u128);
        if total128 > (usize::MAX as u128) {
            return None;
        }
        proof {
            assert(4u128 * (w as u128) * (h as u128) == 4 * ((w as int) * (h as int)))
                by (nonlinear_arith);
        }
        let total = total128 as usize;
        let mut data: Vec<u8> = Vec::new();
        let mut i: usize = 0;
        while i < total
            invariant
                i <= total,
                data@.len() == i,
            decreases total - i,
        {
            if i % 4 == 3 {
                data.push(0);
            } else {
                data.push(255);
            }
            i += 1;
        }
        Some(Image::new(data, false, self.geometry))
    }

    fn show_countdown(&self) {
    }

    fn release(&self) {
    }
}

/// The recorder: drives a capture source and accumulates frames.
pub struct Recorder<W: Capture> {
    /// The capture source.
    pub window: W,
    /// The pacing clock for the target rate.
    pub clock: FpsClock,
}

impl<W: Capture> Recorder<W> {
    /// Build a recorder over a capture source and a target rate.
    pub fn new(window: W, fps: u32) -> (r: Recorder<W>)
        ensures
            r.clock.fps == fps,
    {
        Recorder { window, clock: FpsClock::new(fps) }
    }

    /// Synchronous recording: capture one image, append it, poll the
    /// cancel signal, and stop without error the moment it reports the
    /// combination observed.  A capture failure is fatal; the check is
    /// advisory and runs only between captures.  `max_frames` is the
    /// caller's external stop condition: the loop also stops, without
    /// error, once that many frames have been captured.  On cancellation
    /// the frames captured so far are returned: one frame per poll of the
    /// signal.
    pub fn record_sync(&mut self, cancel: &mut CancelSource, max_frames: usize) -> (r: Result<
        Vec<Image>,
        Error,
    >)
        ensures
            max_frames == 0 ==> r is Ok,
            (match r {
                Ok(frames) => {
                    &&& frames@.len() <= max_frames
                    &&& (*old(cancel) is Never ==> frames@.len() == max_frames && *final (cancel)
                        is Never)
                    &&& (match *old(cancel) {
                        CancelSource::Scripted { flags, pos } => {
                            &&& *final (cancel) matches CancelSource::Scripted {
                                flags: f2,
                                pos: p2,
                            } && f2 == flags && pos <= p2 && ((p2 > pos && p2 <= flags@.len()
                                && flags@[p2 - 1] == true && frames@.len() == p2 - pos && (
                            forall|k: int| pos <= k < p2 - 1 ==> flags@[k] == false)) || (
                            frames@.len() == max_frames && (p2 <= flags@.len() || p2 == pos) && p2
                                - pos <= frames@.len() && (p2 < flags@.len() ==> p2 - pos
                                == frames@.len()) && (forall|k: int|
                                pos <= k < p2 ==> flags@[k] == false)))
                        },
                        _ => true,
                    })
                },
                Err(e) => e is Capture,
            }),
    {
        let mut frames: Vec<Image> = Vec::new();
        while frames.len() < max_frames
            invariant
                frames@.len() <= max_frames,
                *old(cancel) is Never ==> *cancel == *old(cancel),
                (match *old(cancel) {
                    CancelSource::Scripted { flags, pos } => {
                        &&& *cancel matches CancelSource::Scripted { flags: f2, pos: p2 } && f2
                            == flags && pos <= p2 && (p2 <= flags@.len() || p2 == pos) && p2 - pos
                            <= frames@.len() && (p2 < flags@.len() ==> frames@.len() == p2 - pos)
                            && (forall|k: int| pos <= k < p2 ==> flags@[k] == false)
                    },
                    _ => true,
                }),
                (match *old(cancel) {
                    CancelSource::Keys { device, keys } => *cancel matches CancelSource::Keys {
                        device: d2,
                        keys: k2,
                    } && k2 == keys && d2 == device,
                    _ => true,
                }),
            decreases max_frames - frames@.len(),
        {
            match self.window.get_image() {
                Some(img) => frames.push(img),
                None => {
                    return Err(Error::Capture);
                },
            }
            if cancel.observed() {
                return Ok(frames);
            }
        }
        Ok(frames)
    }
}

} // verus!

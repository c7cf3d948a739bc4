//! The animation settings: target frame rate, cut window, repeat count,
//! quality, playback speed, and the encoder backend selection.

use vstd::prelude::*;

verus! {

/// The configuration of one animation run, constructed once and read-only
/// for its duration.
#[derive(Clone, Copy, Debug)]
pub struct AnimSettings {
    /// The target frames per second.
    pub fps: u32,
    /// Milliseconds cut from the front and from the back of a decoded
    /// animation; `(0, 0)` means no trimming.
    pub cut: (u32, u32),
    /// How often the animation repeats; negative means forever.
    pub repeat: i32,
    /// The quality, `1` to `100`.
    pub quality: u8,
    /// The playback-speed multiplier, in hundredths; `100` is unchanged.
    pub speed: u32,
    /// Whether the adaptive-quality backend is selected.
    pub gifski: bool,
}

impl AnimSettings {
    /// Build an animation configuration.
    pub fn new(fps: u32, cut: (u32, u32), repeat: i32, quality: u8, speed: u32, gifski: bool) -> (
        s: AnimSettings)
        ensures
            s.fps == fps,
            s.cut == cut,
            s.repeat == repeat,
            s.quality == quality,
            s.speed == speed,
            s.gifski == gifski,
    {
        AnimSettings { fps, cut, repeat, quality, speed, gifski }
    }
}

impl core::default::Default for AnimSettings {
    /// Ten frames per second, no trimming, infinite repeat, quality 75,
    /// unchanged speed, baseline backend.
    fn default() -> (s: AnimSettings)
        ensures
            s.fps == 10,
            s.cut == (0u32, 0u32),
            s.repeat == -1,
            s.quality == 75,
            s.speed == 100,
            s.gifski == false,
    {
        AnimSettings { fps: 10, cut: (0, 0), repeat: -1, quality: 75, speed: 100, gifski: false }
    }
}

} // verus!

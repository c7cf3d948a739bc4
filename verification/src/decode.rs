//! The animation decoder: turns an encoded animation into a frame list
//! with an effective frame rate, applies the time-based cut window, and
//! runs every retained frame through the transform chain.

use crate::edit::{process_dims, process_pixels, ImageOps};
use crate::error::Error;
use crate::frame::{swap_channel_bytes, swapped_channels, Frames, Image};
use crate::geometry::Geometry;
use crate::pixels::{
    apng_frame_count, apng_parses, decode_apng, decode_gif, gif_frame_count, gif_parses,
    img_dims, img_pixels, well_sized, RawFrame,
};
use crate::settings::AnimSettings;
use vstd::prelude::*;
use vstd::string::StringExecFns;

verus! {

/// The container format of an encoded animation.
#[derive(Clone, Copy, Debug, PartialEq, Eq, Structural)]
pub enum AnimFormat {
    Gif,
    Apng,
}

/// The effective frame rate of a decoded animation:
/// `round(1000 / delay_ms * speed)`, the speed given in hundredths, and the
/// largest representable rate when the delay is zero or the value is out of
/// range.
pub open spec fn fps_of(delay_ms: u32, speed: u32) -> u32 {
    if delay_ms == 0 {
        u32::MAX
    } else {
        let v = (2 * 10 * (speed as int) + (delay_ms as int)) / (2 * (delay_ms as int));
        if v > u32::MAX {
            u32::MAX
        } else {
            v as u32
        }
    }
}

/// Derive the effective frame rate from a frame delay in milliseconds and
/// a playback speed in hundredths.
pub fn fps_from_delay(delay_ms: u32, speed: u32) -> (fps: u32)
    ensures
        fps == fps_of(delay_ms, speed),
{
    if delay_ms == 0 {
        return u32::MAX;
    }
    let v: u64 = (20 * (speed as u64) + (delay_ms as u64)) / (2 * (delay_ms as u64));
    if v > 0xffff_ffffu64 {
        u32::MAX
    } else {
        v as u32
    }
}

/// How many frames the cut window removes from the front and from the back
/// of a sequence of `len` frames: each bound in milliseconds divided by the
/// per-frame delay `1000 / fps`, clamped so that no more frames are removed
/// than exist.  When the per-frame delay rounds to zero milliseconds the
/// window is treated as empty.
pub open spec fn trim_counts(len: int, fps: u32, cut: (u32, u32)) -> (int, int) {
    if fps == 0 {
        (0, 0)
    } else {
        let fd = 1000int / (fps as int);
        if fd == 0 {
            (0, 0)
        } else {
            let front0 = (cut.0 as int) / fd;
            let front = if front0 <= len {
                front0
            } else {
                len
            };
            let back0 = (cut.1 as int) / fd;
            let back = if back0 <= len - front {
                back0
            } else {
                len - front
            };
            (front, back)
        }
    }
}

/// Remove the cut window from a frame sequence: the kept frames are a
/// contiguous run, in their original order.
pub fn trim_frames<T>(frames: Vec<T>, fps: u32, cut: (u32, u32)) -> (r: Vec<T>)
    ensures
        ({
            let (front, back) = trim_counts(frames@.len() as int, fps, cut);
            r@ == frames@.subrange(front, frames@.len() - back)
        }),
{
    let len = frames.len();
    let mut front: usize = 0;
    let mut back: usize = 0;
    if fps != 0 {
        let fd = 1000 / fps;
        if fd != 0 {
            let f0 = cut.0 / fd;
            front = if (f0 as usize) <= len {
                f0 as usize
            } else {
                len
            };
            let b0 = cut.1 / fd;
            back = if (b0 as usize) <= len - front {
                b0 as usize
            } else {
                len - front
            };
        }
    }
    let mut v = frames;
    v.truncate(len - back);
    let kept = v.split_off(front);
    kept
}

/// The animation decoder: the decoded frame list, the transform chain to
/// run on it, and the animation settings.
pub struct Decoder {
    /// The decoded frames, in container order.
    pub frames: Vec<RawFrame>,
    /// The transform chain applied to every retained frame.
    pub imageops: ImageOps,
    /// The cut window and playback speed.
    pub settings: AnimSettings,
}

impl Decoder {
    /// Decode an animation container into its frame list; a malformed
    /// container is a decode error.
    pub fn new(input: &Vec<u8>, format: AnimFormat, imageops: ImageOps, settings: AnimSettings)
        -> (r: Result<Decoder, Error>)
        ensures
            r is Ok <==> (match format {
                AnimFormat::Gif => gif_parses(input@),
                AnimFormat::Apng => apng_parses(input@),
            }),
            r matches Ok(d) ==> d.imageops == imageops && d.settings == settings
                && d.frames@.len() == (match format {
                AnimFormat::Gif => gif_frame_count(input@),
                AnimFormat::Apng => apng_frame_count(input@),
            }) && (forall|i: int|
                0 <= i < d.frames@.len() ==> well_sized(#[trigger] d.frames@[i].buffer)),
            r matches Err(e) ==> e is Decode,
    {
        let decoded = match format {
            AnimFormat::Gif => decode_gif(input),
            AnimFormat::Apng => decode_apng(input),
        };
        match decoded {
            Ok(frames) => Ok(Decoder { frames, imageops, settings }),
            Err(msg) => Err(Error::Decode(msg)),
        }
    }

    /// Update and return the frames: derive the effective frame rate from
    /// the first frame's declared delay and the playback speed, drop the
    /// cut window, set up the transform chain from the first frame's size,
    /// and run every retained frame through it, in order.
    pub fn update_frames(self) -> (r: Result<Frames, Error>)
        requires
            forall|i: int|
                0 <= i < self.frames@.len() ==> well_sized(#[trigger] self.frames@[i].buffer),
        ensures
            r is Ok <==> self.frames@.len() > 0 && ImageOps::init_ok(
                self.imageops.settings,
                img_dims(self.frames@[0].buffer),
            ),
            r matches Err(e) ==> if self.frames@.len() == 0 {
                e is Decode
            } else {
                e is PaddingTooLarge || e is EmptyGeometry
            },
            r matches Ok(out) ==> ({
                let fps = fps_of(self.frames@[0].delay_ms, self.settings.speed);
                let (front, back) = trim_counts(self.frames@.len() as int, fps, self.settings.cut);
                let g = ImageOps::init_geometry(
                    self.imageops.settings,
                    img_dims(self.frames@[0].buffer),
                );
                &&& out.1 == fps
                &&& out.0@.len() == self.frames@.len() - front - back
                &&& forall|j: int|
                    0 <= j < out.0@.len() ==> {
                        let d = process_dims(
                            self.imageops.settings,
                            g,
                            img_dims(self.frames@[front + j].buffer),
                        );
                        (#[trigger] out.0@[j]).geometry == (Geometry {
                            x: 0u32,
                            y: 0u32,
                            width: d.0,
                            height: d.1,
                        }) && out.0@[j].well_formed() && out.0@[j].alpha_channel && out.0@[j].data@
                            == swapped_channels(
                            process_pixels(
                                self.imageops.settings,
                                g,
                                img_pixels(self.frames@[front + j].buffer),
                                img_dims(self.frames@[front + j].buffer),
                            ),
                            true,
                        )
                    }
            }),
    {
        let Decoder { frames, mut imageops, settings } = self;
        if frames.len() == 0 {
            return Err(Error::Decode(String::from_str("no frames found to process")));
        }
        let first_delay = frames[0].delay_ms;
        let fps = fps_from_delay(first_delay, settings.speed);
        let first_dims = frames[0].buffer.dimensions();
        match imageops.init(first_dims) {
            Ok(()) => {},
            Err(e) => {
                return Err(e);
            },
        }
        let ghost all = frames@;
        let ghost front = trim_counts(all.len() as int, fps, settings.cut).0;
        let mut kept = trim_frames(frames, fps, settings.cut);
        let ghost kept0 = kept@;
        let mut images: Vec<Image> = Vec::new();
        let ghost g = imageops.geometry;
        while kept.len() > 0
            invariant
                imageops.settings == self.imageops.settings,
                imageops.geometry == g,
                0 <= front,
                kept0.len() + front <= all.len(),
                forall|i: int| 0 <= i < all.len() ==> well_sized(#[trigger] all[i].buffer),
                forall|i: int| 0 <= i < kept0.len() ==> kept0[i] == all[front + i],
                images@.len() + kept@.len() == kept0.len(),
                kept@ == kept0.subrange(images@.len() as int, kept0.len() as int),
                forall|j: int|
                    0 <= j < images@.len() ==> {
                        let d = process_dims(
                            imageops.settings,
                            g,
                            img_dims(all[front + j].buffer),
                        );
                        (#[trigger] images@[j]).geometry == (Geometry {
                            x: 0u32,
                            y: 0u32,
                            width: d.0,
                            height: d.1,
                        }) && images@[j].well_formed() && images@[j].alpha_channel && images@[j].data@
                            == swapped_channels(
                            process_pixels(
                                imageops.settings,
                                g,
                                img_pixels(all[front + j].buffer),
                                img_dims(all[front + j].buffer),
                            ),
                            true,
                        )
                    },
            decreases kept@.len(),
        {
            let frame = kept.remove(0);
            proof {
                assert(frame == all[front + images@.len() as int]);
            }
            let processed = imageops.process(frame.buffer);
            let (w, h) = processed.dimensions();
            let data = processed.into_raw();
            proof {
                assert(0 <= front + images@.len() < all.len());
                assert(well_sized(all[front + images@.len() as int].buffer));
                assert(well_sized(frame.buffer));
                assert(well_sized(processed));
                assert(data@.len() == 4 * (w as int) * (h as int));
                assert(4 * (w as int) * (h as int) == 4 * ((w as int) * (h as int)))
                    by (nonlinear_arith);
                assert(data@.len() % 4 == 0);
            }
            let bgra = swap_channel_bytes(&data, true);
            proof {
                assert(swapped_channels(data@, true).len() == data@.len());
            }
            let img = Image::new(bgra, true, Geometry::new(0, 0, w, h));
            images.push(img);
            proof {
                assert(kept@ =~= kept0.subrange(images@.len() as int, kept0.len() as int));
            }
        }
        Ok((images, fps))
    }
}

} // verus!

//! The still-animation encoder: writes the same frame sequence into an
//! animated-PNG container, with the same cancellation and dimension rules
//! as the baseline backend.

use crate::error::Error;
use crate::frame::{swapped_channels, Image};
use crate::geometry::Geometry;
use crate::record::CancelSource;
use crate::settings::AnimSettings;
use vstd::prelude::*;

verus! {

/// How often an animated PNG plays: `0` means forever in this container,
/// so a negative configured count maps to `0` and a non-negative one is
/// kept exactly.
pub open spec fn plays_of(repeat: i32) -> u32 {
    if repeat < 0 {
        0
    } else {
        repeat as u32
    }
}

/// Map a configured repeat count to the container's play count.
pub fn repeat_plays(repeat: i32) -> (r: u32)
    ensures
        r == plays_of(repeat),
{
    if repeat < 0 {
        0
    } else {
        repeat as u32
    }
}

/// The PNG library's frame writer, borrowing its in-memory sink, held
/// opaquely.
#[verifier::external_body]
pub struct ApngWriter<'a> {
    inner: png::Writer<&'a mut Vec<u8>>,
}

/// The RGBA byte rows of the frames a writer has been handed so far, in
/// writing order.
pub uninterp spec fn apng_written(w: ApngWriter<'_>) -> Seq<Seq<u8>>;

/// The image size a writer was created with.
pub uninterp spec fn apng_size(w: ApngWriter<'_>) -> (u32, u32);

/// Relies on `png::Encoder::{new, set_color, set_depth, set_animated,
/// set_frame_delay}` and `write_header`: configures an eight-bit RGBA
/// animation of `frames` frames playing `plays` times (zero meaning
/// forever) at `1 / delay_den` seconds per frame, and writes the header.
/// The failure paths are a zero frame count, a zero width or height, and
/// sink I/O, which the in-memory sink cannot raise; for a positive size
/// and frame count the call succeeds.
#[verifier::external_body]
fn apng_writer_new<'a>(
    out: &'a mut Vec<u8>,
    width: u32,
    height: u32,
    frames: u32,
    plays: u32,
    delay_den: u16,
) -> (r: Result<ApngWriter<'a>, String>)
    ensures
        width > 0 && height > 0 && frames > 0 ==> r is Ok,
        r matches Ok(w) ==> apng_size(w) == (width, height) && apng_written(w).len() == 0,
{
    let mut enc = png::Encoder::new(out, width, height);
    enc.set_color(png::ColorType::Rgba);
    enc.set_depth(png::BitDepth::Eight);
    enc.set_animated(frames, plays).map_err(|e| format!("{}", e))?;
    enc.set_frame_delay(1, delay_den).map_err(|e| format!("{}", e))?;
    match enc.write_header() {
        Ok(inner) => Ok(ApngWriter { inner }),
        Err(e) => Err(format!("{}", e)),
    }
}

/// Relies on `png::Writer::write_image_data`: appends one frame's RGBA
/// bytes.  For an eight-bit RGBA animation its failure paths are a data
/// length other than four bytes per pixel of the declared size, and sink
/// I/O, which the in-memory sink cannot raise; the frame count is not
/// checked here.
#[verifier::external_body]
fn apng_write_frame(w: &mut ApngWriter<'_>, data: &Vec<u8>) -> (r: Result<(), String>)
    ensures
        data@.len() == 4 * (apng_size(*old(w)).0 as int) * (apng_size(*old(w)).1 as int)
            ==> r is Ok,
        apng_size(*final (w)) == apng_size(*old(w)),
        r is Ok ==> apng_written(*final (w)) == apng_written(*old(w)).push(data@),
{
    w.inner.write_image_data(data.as_slice()).map_err(|e| format!("{}", e))
}

/// Relies on `png::Writer::finish`: writes the container's trailer and
/// flushes the sink.  Sequence validation is off by default in this
/// library version, and the in-memory sink cannot raise I/O errors, so
/// the call succeeds.
#[verifier::external_body]
fn apng_finish(w: ApngWriter<'_>) -> (r: Result<(), String>)
    ensures
        r is Ok,
{
    w.inner.finish().map_err(|e| format!("{}", e))
}

/// The still-animation encoder: the same frames, an animated-PNG container.
#[derive(Clone, Copy, Debug)]
pub struct ApngEncoder {
    /// How many frames the container will declare.
    pub frame_count: u32,
    /// The declared output geometry.
    pub geometry: Geometry,
    /// The target frames per second.
    pub fps: u32,
    /// How often the animation repeats; negative means forever.
    pub repeat: i32,
}

impl ApngEncoder {
    /// Create the still-animation encoder for a declared frame count,
    /// geometry, and the animation settings.
    pub fn new(frame_count: u32, geometry: Geometry, settings: &AnimSettings) -> (enc:
        ApngEncoder)
        ensures
            enc.frame_count == frame_count,
            enc.geometry == geometry,
            enc.fps == settings.fps,
            enc.repeat == settings.repeat,
    {
        ApngEncoder { frame_count, geometry, fps: settings.fps, repeat: settings.repeat }
    }

    /// Encode the images into an animated-PNG container and hand back its
    /// bytes.  The per-frame delay is `1 / fps` seconds.  Before every
    /// frame the shared cancel signal is polled; on a positive signal the
    /// whole encode aborts and reports how many frames had been written.
    /// A frame whose dimensions differ from the declared geometry is
    /// fatal; the images handed in must number exactly the declared frame
    /// count, which the container's trailer check enforces.
    pub fn save(self, images: &Vec<Image>, cancel: &mut CancelSource) -> (r: Result<
        Vec<u8>,
        Error,
    >)
        requires
            1 <= self.fps <= u16::MAX,
            images@.len() > 0,
            images@.len() == self.frame_count,
            forall|i: int| 0 <= i < images@.len() ==> (#[trigger] images@[i]).well_formed(),
        ensures
            (match r {
                Ok(_) => {
                    &&& (forall|i: int|
                        0 <= i < images@.len() ==> (#[trigger] images@[i]).geometry.width
                            == self.geometry.width && images@[i].geometry.height
                            == self.geometry.height)
                    &&& (*old(cancel) is Never ==> *final (cancel) is Never)
                    &&& (match *old(cancel) {
                        CancelSource::Scripted { flags, pos } => *final (cancel)
                            matches CancelSource::Scripted { flags: f2, pos: p2 } && f2 == flags
                            && pos <= p2 && (p2 <= flags@.len() || p2 == pos) && p2 - pos
                            <= images@.len() && (p2 < flags@.len() ==> p2 - pos == images@.len())
                            && (forall|k: int| pos <= k < p2 ==> flags@[k] == false),
                        _ => true,
                    })
                },
                Err(e) => {
                    &&& (e is Cancelled || e is SizeMismatch || e is Encode)
                    &&& (e is Encode ==> self.geometry.width == 0 || self.geometry.height == 0)
                    &&& (e matches Error::Cancelled { written } ==> written < images@.len() && !(
                    *old(cancel) is Never) && (match *old(cancel) {
                        CancelSource::Scripted { flags, pos } => *final (cancel)
                            matches CancelSource::Scripted { flags: f2, pos: p2 } && f2 == flags
                            && p2 == pos + written + 1 && p2 <= flags@.len() && flags@[p2 - 1]
                            == true && (forall|k: int| pos <= k < p2 - 1 ==> flags@[k] == false),
                        _ => true,
                    }))
                    &&& (e is SizeMismatch ==> exists|i: int|
                        0 <= i < images@.len() && ((#[trigger] images@[i]).geometry.width
                            != self.geometry.width || images@[i].geometry.height
                            != self.geometry.height))
                },
            }),
            ({
                let all_match = forall|i: int|
                    0 <= i < images@.len() ==> (#[trigger] images@[i]).geometry.width
                        == self.geometry.width && images@[i].geometry.height
                        == self.geometry.height;
                let nonzero = self.geometry.width > 0 && self.geometry.height > 0;
                match *old(cancel) {
                    CancelSource::Never => all_match && nonzero ==> r is Ok,
                    CancelSource::Scripted { flags, pos } => (all_match && nonzero && (forall|
                        k: int|
                        pos <= k < pos + images@.len() && k < flags@.len()
                            ==> flags@[k] == false)) ==> r is Ok,
                    _ => true,
                }
            }),
    {
        let count = self.frame_count;
        let plays = repeat_plays(self.repeat);
        let delay_den = self.fps as u16;
        let geometry = self.geometry;
        let mut out: Vec<u8> = Vec::new();
        let mut writer = match apng_writer_new(
            &mut out,
            geometry.width,
            geometry.height,
            count,
            plays,
            delay_den,
        ) {
            Ok(w) => w,
            Err(msg) => {
                return Err(Error::Encode(msg));
            },
        };
        let mut i: usize = 0;
        while i < images.len()
            invariant
                i <= images@.len(),
                apng_size(writer) == (geometry.width, geometry.height),
                apng_written(writer) == Seq::new(
                    i as nat,
                    |j: int| swapped_channels(images@[j].data@, images@[j].alpha_channel),
                ),
                forall|j: int|
                    0 <= j < i ==> (#[trigger] images@[j]).geometry.width == geometry.width
                        && images@[j].geometry.height == geometry.height,
                forall|j: int| 0 <= j < images@.len() ==> (#[trigger] images@[j]).well_formed(),
                geometry == self.geometry,
                *old(cancel) is Never ==> *cancel == *old(cancel),
                (match *old(cancel) {
                    CancelSource::Scripted { flags, pos } => {
                        &&& *cancel matches CancelSource::Scripted { flags: f2, pos: p2 } && f2
                            == flags && pos <= p2 && (p2 <= flags@.len() || p2 == pos) && p2 - pos
                            <= i && (p2 < flags@.len() ==> i == p2 - pos) && (forall|k: int|
                            pos <= k < p2 ==> flags@[k] == false)
                    },
                    _ => true,
                }),
            decreases images@.len() - i,
        {
            if cancel.observed() {
                return Err(Error::Cancelled { written: i });
            }
            let img = &images[i];
            if img.geometry.width != geometry.width || img.geometry.height != geometry.height {
                return Err(Error::SizeMismatch);
            }
            let data = img.get_rgba_data();
            proof {
                assert(data@.len() == 4 * (apng_size(writer).0 as int) * (apng_size(writer).1
                    as int));
            }
            match apng_write_frame(&mut writer, &data) {
                Ok(()) => {},
                Err(msg) => {
                    return Err(Error::Encode(msg));
                },
            }
            proof {
                assert(Seq::new(
                    (i + 1) as nat,
                    |j: int| swapped_channels(images@[j].data@, images@[j].alpha_channel),
                ) =~= Seq::new(
                    i as nat,
                    |j: int| swapped_channels(images@[j].data@, images@[j].alpha_channel),
                ).push(swapped_channels(images@[i as int].data@, images@[i as int].alpha_channel)));
            }
            i += 1;
        }
        match apng_finish(writer) {
            Ok(()) => Ok(out),
            Err(msg) => Err(Error::Encode(msg)),
        }
    }
}

} // verus!

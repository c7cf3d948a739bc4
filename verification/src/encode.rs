//! The baseline animation encoder: writes frames one at a time into an
//! animated-GIF container, mapping the configured quality to the codec's
//! speed/fidelity trade-off, polling the shared cancel signal before every
//! frame, and failing fast on a positive signal.

use crate::error::Error;
use crate::frame::{swapped_channels, Image};
use crate::geometry::Geometry;
use crate::record::CancelSource;
use crate::settings::AnimSettings;
use vstd::arithmetic::div_mod::lemma_div_is_ordered;
use vstd::prelude::*;

verus! {

/// How often an animation repeats.
#[derive(Clone, Copy, Debug, PartialEq, Eq, Structural)]
pub enum RepeatMode {
    /// Exactly this many repetitions.
    Finite(u16),
    /// Loop forever.
    Infinite,
}

/// The repeat mode of a configured count: negative means forever; a count
/// beyond the container's sixteen-bit field saturates.
pub open spec fn repeat_of(repeat: i32) -> RepeatMode {
    if repeat < 0 {
        RepeatMode::Infinite
    } else if repeat > u16::MAX {
        RepeatMode::Finite(u16::MAX)
    } else {
        RepeatMode::Finite(repeat as u16)
    }
}

/// Map a configured repeat count to the container's repeat mode.
pub fn repeat_mode(repeat: i32) -> (r: RepeatMode)
    ensures
        r == repeat_of(repeat),
{
    if repeat < 0 {
        RepeatMode::Infinite
    } else if repeat > 0xffff {
        RepeatMode::Finite(u16::MAX)
    } else {
        RepeatMode::Finite(repeat as u16)
    }
}

/// The codec speed derived from a quality of `1` to `100`:
/// `30 - round(29 * (quality - 1) / 99)`.  Quality `100` maps to the
/// slowest, highest-fidelity setting `1`; quality `1` to the fastest,
/// lowest-fidelity `30`.
pub open spec fn speed_of(quality: u8) -> int {
    30 - (2 * 29 * (quality - 1) + 99) / (2 * 99int)
}

/// Derive the codec speed from the configured quality.
pub fn gif_speed(quality: u8) -> (r: i32)
    requires
        1 <= quality <= 100,
    ensures
        r == speed_of(quality),
        1 <= r <= 30,
{
    let scaled: u32 = (2 * 29 * ((quality as u32) - 1) + 99) / (2 * 99);
    30 - (scaled as i32)
}

/// The quality-to-speed mapping is monotone: a higher quality never maps
/// to a faster, lower-fidelity setting, quality `100` maps to the minimum
/// speed and quality `1` to the maximum.
pub proof fn lemma_speed_monotonic(q1: u8, q2: u8)
    requires
        1 <= q1 <= q2 <= 100,
    ensures
        speed_of(q2) <= speed_of(q1),
        1 <= speed_of(q2) <= 30,
        speed_of(100) == 1,
        speed_of(1) == 30,
{
    assert(2 * 29 * (q1 - 1) + 99 <= 2 * 29 * (q2 - 1) + 99) by (nonlinear_arith)
        requires
            q1 <= q2,
    ;
    assert(2 * 29 * (q2 - 1) + 99 <= 2 * 29 * 99int + 99) by (nonlinear_arith)
        requires
            q2 <= 100,
    ;
    lemma_div_is_ordered(2 * 29 * (q1 - 1) + 99, 2 * 29 * (q2 - 1) + 99, 2 * 99int);
    lemma_div_is_ordered(0, 2 * 29 * (q2 - 1) + 99, 2 * 99int);
    lemma_div_is_ordered(2 * 29 * (q2 - 1) + 99, 2 * 29 * 99int + 99, 2 * 99int);
}

/// The configuration of one save operation: target rate, output geometry,
/// and the encoder-specific settings.
#[derive(Clone, Copy, Debug)]
pub struct EncoderConfig {
    /// The target frames per second.
    pub fps: u32,
    /// The declared output geometry every frame must match.
    pub geometry: Geometry,
    /// How often the animation repeats; negative means forever.
    pub repeat: i32,
    /// The quality, `1` to `100`.
    pub quality: u8,
}

impl EncoderConfig {
    /// Build a configuration from the target rate, the finalized geometry,
    /// and the animation settings.
    pub fn new(fps: u32, geometry: Geometry, settings: &AnimSettings) -> (c: EncoderConfig)
        ensures
            c.fps == fps,
            c.geometry == geometry,
            c.repeat == settings.repeat,
            c.quality == settings.quality,
    {
        EncoderConfig { fps, geometry, repeat: settings.repeat, quality: settings.quality }
    }
}

/// The GIF library's encoder, bound to an in-memory sink, held opaquely.
#[verifier::external_body]
pub struct GifWriter {
    inner: gif::Encoder<Vec<u8>>,
}

/// The frames a writer has been handed so far, in writing order: each
/// frame's declared width and height, its RGBA bytes, the palettization
/// speed, and the delay in centiseconds.
pub uninterp spec fn gif_written(w: GifWriter) -> Seq<(u16, u16, Seq<u8>, i32, u16)>;

/// The logical screen size a writer was created with.
pub uninterp spec fn gif_screen(w: GifWriter) -> (u16, u16);

/// Relies on `gif::Encoder::new`: writes the screen descriptor for the
/// given size to a fresh in-memory sink.  Every failure path there is
/// sink I/O or an over-long palette; with the in-memory sink and the
/// empty palette neither can occur, so the call succeeds.
#[verifier::external_body]
fn gif_writer_new(width: u16, height: u16) -> (r: Result<GifWriter, String>)
    ensures
        r is Ok,
        r matches Ok(w) ==> gif_screen(w) == (width, height) && gif_written(w).len() == 0,
{
    match gif::Encoder::new(Vec::new(), width, height, &[]) {
        Ok(inner) => Ok(GifWriter { inner }),
        Err(e) => Err(format!("{}", e)),
    }
}

/// Relies on `gif::Encoder::set_repeat`: writes the repeat extension
/// block, finite or infinite as given.  Its only failure path is sink
/// I/O, which the in-memory sink cannot raise.
#[verifier::external_body]
fn gif_set_repeat(w: &mut GifWriter, repeat: RepeatMode) -> (r: Result<(), String>)
    ensures
        r is Ok,
        gif_screen(*final (w)) == gif_screen(*old(w)),
        gif_written(*final (w)) == gif_written(*old(w)),
{
    let rep = match repeat {
        RepeatMode::Finite(n) => gif::Repeat::Finite(n),
        RepeatMode::Infinite => gif::Repeat::Infinite,
    };
    w.inner.set_repeat(rep).map_err(|e| format!("{}", e))
}

/// Relies on `gif::Frame::from_rgba_speed` and `gif::Encoder::write_frame`:
/// palettizes one RGBA frame and appends it with the given delay in
/// centiseconds.  `from_rgba_speed` demands exactly `4 * width * height`
/// bytes and a speed in `1 ..= 30`, and panics otherwise; it always
/// produces a palette of at most 256 colors, so `write_frame`'s only
/// remaining failure path is sink I/O, which the in-memory sink cannot
/// raise.
#[verifier::external_body]
fn gif_write_frame(
    w: &mut GifWriter,
    width: u16,
    height: u16,
    data: &mut Vec<u8>,
    speed: i32,
    delay: u16,
) -> (r: Result<(), String>)
    requires
        old(data)@.len() == 4 * (width as int) * (height as int),
        1 <= speed <= 30,
    ensures
        r is Ok,
        gif_screen(*final (w)) == gif_screen(*old(w)),
        gif_written(*final (w)) == gif_written(*old(w)).push(
            (width, height, old(data)@, speed, delay),
        ),
{
    let mut frame = gif::Frame::from_rgba_speed(width, height, data.as_mut_slice(), speed);
    frame.delay = delay;
    w.inner.write_frame(&frame).map_err(|e| format!("{}", e))
}

/// Relies on `gif::Encoder::into_inner`: writes the trailer and hands back
/// the encoded bytes.  Its only failure path is sink I/O, which the
/// in-memory sink cannot raise.
#[verifier::external_body]
fn gif_finish(w: GifWriter) -> (r: Result<Vec<u8>, String>)
    ensures
        r is Ok,
{
    w.inner.into_inner().map_err(|e| format!("{}", e))
}

/// The frame records that writing the first `n` of `images` hands the
/// container: each image's dimensions, its bytes in RGBA order, and the
/// shared speed and delay.
pub open spec fn gif_frame_seq(images: Seq<Image>, n: int, speed: i32, delay: u16) -> Seq<
    (u16, u16, Seq<u8>, i32, u16),
> {
    Seq::new(
        n as nat,
        |i: int|
            (
                images[i].geometry.width as u16,
                images[i].geometry.height as u16,
                swapped_channels(images[i].data@, images[i].alpha_channel),
                speed,
                delay,
            ),
    )
}

/// The baseline encoder: one GIF frame per image, constant delay.
pub struct GifEncoder {
    /// The target frames per second.
    pub fps: u32,
    /// The declared output geometry.
    pub geometry: Geometry,
    /// The quality, `1` to `100`.
    pub quality: u8,
    /// The container writer the frames go into.
    pub writer: GifWriter,
}

impl GifEncoder {
    /// Create the baseline encoder: writes the container's screen
    /// descriptor for the configured geometry and its repeat extension.
    /// A geometry beyond the container's sixteen-bit size fields is a
    /// configuration-size error.
    pub fn new(config: EncoderConfig) -> (r: Result<GifEncoder, Error>)
        ensures
            r is Ok <==> config.geometry.width <= u16::MAX && config.geometry.height <= u16::MAX,
            r matches Ok(enc) ==> enc.fps == config.fps && enc.geometry == config.geometry
                && enc.quality == config.quality && config.geometry.width <= u16::MAX
                && config.geometry.height <= u16::MAX && gif_screen(enc.writer) == (
            config.geometry.width as u16, config.geometry.height as u16) && gif_written(
                enc.writer,
            ).len() == 0,
            r matches Err(e) ==> e is TooLarge,
    {
        if config.geometry.width > 0xffff || config.geometry.height > 0xffff {
            return Err(Error::TooLarge);
        }
        let mut writer = match gif_writer_new(
            config.geometry.width as u16,
            config.geometry.height as u16,
        ) {
            Ok(w) => w,
            Err(msg) => {
                return Err(Error::Encode(msg));
            },
        };
        match gif_set_repeat(&mut writer, repeat_mode(config.repeat)) {
            Ok(()) => {},
            Err(msg) => {
                return Err(Error::Encode(msg));
            },
        }
        Ok(
            GifEncoder {
                fps: config.fps,
                geometry: config.geometry,
                quality: config.quality,
                writer,
            },
        )
    }

    /// Encode the images one frame at a time and hand back the container's
    /// bytes.  The per-frame delay is `100 / fps` centiseconds.  Before
    /// every frame the shared cancel signal is polled; on a positive
    /// signal the whole encode aborts and reports how many frames had been
    /// written.  A frame whose dimensions differ from the declared
    /// geometry is fatal.
    pub fn save(self, images: &Vec<Image>, cancel: &mut CancelSource) -> (r: Result<
        Vec<u8>,
        Error,
    >)
        requires
            1 <= self.quality <= 100,
            self.fps > 0,
            self.geometry.width <= u16::MAX,
            self.geometry.height <= u16::MAX,
            images@.len() > 0,
            forall|i: int| 0 <= i < images@.len() ==> (#[trigger] images@[i]).well_formed(),
        ensures
            (match r {
                Ok(_) => {
                    &&& (forall|i: int|
                        0 <= i < images@.len() ==> (#[trigger] images@[i]).geometry.width
                            == self.geometry.width && images@[i].geometry.height
                            == self.geometry.height)
                    &&& (*old(cancel) is Never ==> *final (cancel) is Never)
                    &&& (match *old(cancel) {
                        CancelSource::Scripted { flags, pos } => *final (cancel)
                            matches CancelSource::Scripted { flags: f2, pos: p2 } && f2 == flags
                            && pos <= p2 && (p2 <= flags@.len() || p2 == pos) && p2 - pos
                            <= images@.len() && (p2 < flags@.len() ==> p2 - pos == images@.len())
                            && (forall|k: int| pos <= k < p2 ==> flags@[k] == false),
                        _ => true,
                    })
                },
                Err(e) => {
                    &&& (e is Cancelled || e is SizeMismatch)
                    &&& (e matches Error::Cancelled { written } ==> written < images@.len() && !(
                    *old(cancel) is Never) && (match *old(cancel) {
                        CancelSource::Scripted { flags, pos } => *final (cancel)
                            matches CancelSource::Scripted { flags: f2, pos: p2 } && f2 == flags
                            && p2 == pos + written + 1 && p2 <= flags@.len() && flags@[p2 - 1]
                            == true && (forall|k: int| pos <= k < p2 - 1 ==> flags@[k] == false),
                        _ => true,
                    }))
                    &&& (e is SizeMismatch ==> exists|i: int|
                        0 <= i < images@.len() && ((#[trigger] images@[i]).geometry.width
                            != self.geometry.width || images@[i].geometry.height
                            != self.geometry.height))
                },
            }),
            ({
                let all_match = forall|i: int|
                    0 <= i < images@.len() ==> (#[trigger] images@[i]).geometry.width
                        == self.geometry.width && images@[i].geometry.height
                        == self.geometry.height;
                match *old(cancel) {
                    CancelSource::Never => all_match ==> r is Ok,
                    CancelSource::Scripted { flags, pos } => (all_match && (forall|k: int|
                        pos <= k < pos + images@.len() && k < flags@.len()
                            ==> flags@[k] == false)) ==> r is Ok,
                    _ => true,
                }
            }),
    {
        let speed = gif_speed(self.quality);
        let delay = (100 / self.fps) as u16;
        let GifEncoder { fps: _, geometry, quality: _, mut writer } = self;
        match write_gif_frames(&mut writer, images, cancel, speed, delay, geometry) {
            Ok(()) => {},
            Err(e) => {
                return Err(e);
            },
        }
        match gif_finish(writer) {
            Ok(bytes) => Ok(bytes),
            Err(msg) => Err(Error::Encode(msg)),
        }
        }
}

/// Write every image as one frame, in order, with the shared speed and
/// delay, polling the cancel signal before each: on success the writer
/// has been handed exactly the images' frame records, in input order.
fn write_gif_frames(
    writer: &mut GifWriter,
    images: &Vec<Image>,
    cancel: &mut CancelSource,
    speed: i32,
    delay: u16,
    geometry: Geometry,
) -> (r: Result<(), Error>)
    requires
        1 <= speed <= 30,
        geometry.width <= u16::MAX,
        geometry.height <= u16::MAX,
        forall|i: int| 0 <= i < images@.len() ==> (#[trigger] images@[i]).well_formed(),
    ensures
        gif_screen(*final (writer)) == gif_screen(*old(writer)),
        (match r {
            Ok(_) => {
                &&& gif_written(*final (writer)) == gif_written(*old(writer)) + gif_frame_seq(
                    images@,
                    images@.len() as int,
                    speed,
                    delay,
                )
                &&& (forall|i: int|
                    0 <= i < images@.len() ==> (#[trigger] images@[i]).geometry.width
                        == geometry.width && images@[i].geometry.height == geometry.height)
                &&& (*old(cancel) is Never ==> *final (cancel) is Never)
                &&& (match *old(cancel) {
                    CancelSource::Scripted { flags, pos } => *final (cancel)
                        matches CancelSource::Scripted { flags: f2, pos: p2 } && f2 == flags
                        && pos <= p2 && (p2 <= flags@.len() || p2 == pos) && p2 - pos
                        <= images@.len() && (p2 < flags@.len() ==> p2 - pos == images@.len()) && (
                    forall|k: int| pos <= k < p2 ==> flags@[k] == false),
                    _ => true,
                })
            },
            Err(e) => {
                &&& (e is Cancelled || e is SizeMismatch)
                &&& (e matches Error::Cancelled { written } ==> written < images@.len() && !(
                *old(cancel) is Never) && (match *old(cancel) {
                    CancelSource::Scripted { flags, pos } => *final (cancel)
                        matches CancelSource::Scripted { flags: f2, pos: p2 } && f2 == flags && p2
                        == pos + written + 1 && p2 <= flags@.len() && flags@[p2 - 1] == true && (
                    forall|k: int| pos <= k < p2 - 1 ==> flags@[k] == false),
                    _ => true,
                }))
                &&& (e is SizeMismatch ==> exists|i: int|
                    0 <= i < images@.len() && ((#[trigger] images@[i]).geometry.width
                        != geometry.width || images@[i].geometry.height != geometry.height))
            },
        }),
        ({
            let all_match = forall|i: int|
                0 <= i < images@.len() ==> (#[trigger] images@[i]).geometry.width
                    == geometry.width && images@[i].geometry.height == geometry.height;
            match *old(cancel) {
                CancelSource::Never => all_match ==> r is Ok,
                CancelSource::Scripted { flags, pos } => (all_match && (forall|k: int|
                    pos <= k < pos + images@.len() && k < flags@.len() ==> flags@[k] == false))
                    ==> r is Ok,
                _ => true,
            }
        }),
{
    let ghost w0 = *writer;
    let mut i: usize = 0;
    while i < images.len()
        invariant
            i <= images@.len(),
            geometry.width <= 0xffff,
            geometry.height <= 0xffff,
            1 <= speed <= 30,
            gif_screen(*writer) == gif_screen(w0),
            gif_written(*writer) == gif_written(w0) + gif_frame_seq(
                images@,
                i as int,
                speed,
                delay,
            ),
            forall|j: int|
                0 <= j < i ==> (#[trigger] images@[j]).geometry.width == geometry.width
                    && images@[j].geometry.height == geometry.height,
            forall|j: int| 0 <= j < images@.len() ==> (#[trigger] images@[j]).well_formed(),
            *old(cancel) is Never ==> *cancel == *old(cancel),
            (match *old(cancel) {
                CancelSource::Scripted { flags, pos } => {
                    &&& *cancel matches CancelSource::Scripted { flags: f2, pos: p2 } && f2
                        == flags && pos <= p2 && (p2 <= flags@.len() || p2 == pos) && p2 - pos <= i
                        && (p2 < flags@.len() ==> i == p2 - pos) && (forall|k: int|
                        pos <= k < p2 ==> flags@[k] == false)
                },
                _ => true,
            }),
            w0 == *old(writer),
        decreases images@.len() - i,
    {
        if cancel.observed() {
            return Err(Error::Cancelled { written: i });
        }
        let img = &images[i];
        if img.geometry.width != geometry.width || img.geometry.height != geometry.height {
            return Err(Error::SizeMismatch);
        }
        let mut data = img.get_rgba_data();
        let w16 = img.geometry.width as u16;
        let h16 = img.geometry.height as u16;
        proof {
            assert(w16 as int == img.geometry.width as int);
            assert(h16 as int == img.geometry.height as int);
            assert(data@.len() == img.data@.len());
            assert(data@.len() == 4 * (w16 as int) * (h16 as int));
        }
        match gif_write_frame(writer, w16, h16, &mut data, speed, delay) {
            Ok(()) => {},
            Err(msg) => {
                return Err(Error::Encode(msg));
            },
        }
        proof {
            assert(gif_written(w0) + gif_frame_seq(images@, i + 1, speed, delay) =~= (gif_written(
                w0,
            ) + gif_frame_seq(images@, i as int, speed, delay)).push(
                (
                    w16,
                    h16,
                    swapped_channels(images@[i as int].data@, images@[i as int].alpha_channel),
                    speed,
                    delay,
                ),
            ));
        }
        i += 1;
    }
    Ok(())
}

} // verus!

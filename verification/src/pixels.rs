//! The boundary to the pixel-processing library: an opaque holder for its
//! RGBA buffer, names for what a buffer holds, and one trusted wrapper per
//! operation the transform chain calls.  The pixel algorithms themselves
//! (resampling, blurring, color mapping) are the outside library's work;
//! this module states only what their documentation and source promise
//! about dimensions and buffers.

use image::AnimationDecoder;
use vstd::prelude::*;

verus! {

/// The pixel-processing library's RGBA image buffer, held opaquely.
#[verifier::external_body]
pub struct PixelBuffer {
    inner: image::RgbaImage,
}

/// The raw bytes a buffer holds.
pub uninterp spec fn img_pixels(img: PixelBuffer) -> Seq<u8>;

/// The width and height a buffer was made with.
pub uninterp spec fn img_dims(img: PixelBuffer) -> (u32, u32);

/// Whether a buffer holds exactly four bytes per pixel of its dimensions.
/// Every image the outside library itself builds is sized this way.
pub open spec fn well_sized(img: PixelBuffer) -> bool {
    img_pixels(img).len() == 4 * (img_dims(img).0 as int) * (img_dims(img).1 as int)
}

/// What each pixel operation yields on a buffer of the given bytes and
/// dimensions: the outside library computes these from their arguments
/// alone, so each result carries a name that the wrappers' contracts and
/// the transform chain's contract share.
pub uninterp spec fn cropped_pixels(
    pixels: Seq<u8>,
    dims: (u32, u32),
    x: u32,
    y: u32,
    w: u32,
    h: u32,
) -> Seq<u8>;

/// The bytes of the horizontally mirrored buffer.
pub uninterp spec fn hflipped_pixels(pixels: Seq<u8>, dims: (u32, u32)) -> Seq<u8>;

/// The bytes of the vertically mirrored buffer.
pub uninterp spec fn vflipped_pixels(pixels: Seq<u8>, dims: (u32, u32)) -> Seq<u8>;

/// The bytes of the buffer turned a quarter turn clockwise.
pub uninterp spec fn rot90_pixels(pixels: Seq<u8>, dims: (u32, u32)) -> Seq<u8>;

/// The bytes of the buffer turned a half turn.
pub uninterp spec fn rot180_pixels(pixels: Seq<u8>, dims: (u32, u32)) -> Seq<u8>;

/// The bytes of the buffer turned three quarter turns clockwise.
pub uninterp spec fn rot270_pixels(pixels: Seq<u8>, dims: (u32, u32)) -> Seq<u8>;

/// The bytes of the buffer resampled to `(w, h)` with the Lanczos filter.
pub uninterp spec fn resized_pixels(pixels: Seq<u8>, dims: (u32, u32), w: u32, h: u32) -> Seq<
    u8,
>;

/// The bytes of the Gaussian-blurred buffer.
pub uninterp spec fn blurred_pixels(pixels: Seq<u8>, dims: (u32, u32), sigma: u16) -> Seq<u8>;

/// The bytes of the buffer with every pixel's luma spread over its
/// channels.
pub uninterp spec fn grayscale_pixels(pixels: Seq<u8>, dims: (u32, u32)) -> Seq<u8>;

/// The bytes of the buffer with every channel inverted.
pub uninterp spec fn inverted_pixels(pixels: Seq<u8>, dims: (u32, u32)) -> Seq<u8>;

/// The bytes of the buffer with every channel moved by `value`.
pub uninterp spec fn brightened_pixels(pixels: Seq<u8>, dims: (u32, u32), value: i32) -> Seq<
    u8,
>;

/// The bytes of the buffer with every pixel's hue rotated by `value`
/// degrees.
pub uninterp spec fn huerotated_pixels(pixels: Seq<u8>, dims: (u32, u32), value: i32) -> Seq<
    u8,
>;

/// The bytes of the buffer with the contrast adjusted by `value`.
pub uninterp spec fn contrasted_pixels(pixels: Seq<u8>, dims: (u32, u32), value: i16) -> Seq<
    u8,
>;

/// The dimensions that cropping an `(iw, ih)` image at `(x, y)` with target
/// size `(w, h)` yields: the rectangle is clamped to the image bounds.
pub open spec fn clamped_crop_dims(iw: u32, ih: u32, x: u32, y: u32, w: u32, h: u32) -> (
    u32,
    u32,
) {
    let cx = if x < iw {
        x
    } else {
        iw
    };
    let cy = if y < ih {
        y
    } else {
        ih
    };
    let cw = if w < iw - cx {
        w
    } else {
        (iw - cx) as u32
    };
    let ch = if h < ih - cy {
        h
    } else {
        (ih - cy) as u32
    };
    (cw, ch)
}

impl PixelBuffer {
    /// Relies on `image::ImageBuffer::from_raw`: yields a buffer exactly
    /// when the data holds at least `4 * width * height` bytes, keeping the
    /// data.
    #[verifier::external_body]
    pub fn from_raw(width: u32, height: u32, data: Vec<u8>) -> (r: Option<PixelBuffer>)
        ensures
            r is Some <==> 4 * (width as int) * (height as int) <= data@.len(),
            r matches Some(img) ==> img_dims(img) == (width, height) && img_pixels(img) == data@,
    {
        image::RgbaImage::from_raw(width, height, data).map(|inner| PixelBuffer { inner })
    }

    /// Relies on `image::ImageBuffer::into_raw`: hands back the held bytes.
    #[verifier::external_body]
    pub fn into_raw(self) -> (r: Vec<u8>)
        ensures
            r@ == img_pixels(self),
    {
        self.inner.into_raw()
    }

    /// Relies on `image::ImageBuffer::dimensions`: the stored width and
    /// height.
    #[verifier::external_body]
    pub fn dimensions(&self) -> (d: (u32, u32))
        ensures
            d == img_dims(*self),
    {
        self.inner.dimensions()
    }
}

/// One decoded animation frame: its pixel buffer and the delay the
/// container declared for it, in milliseconds.
pub struct RawFrame {
    /// The frame's pixels.
    pub buffer: PixelBuffer,
    /// The numerator of the declared delay's millisecond ratio.
    pub delay_ms: u32,
}

/// Whether the GIF decoder accepts a byte stream; decoding is a function
/// of the bytes alone.
pub uninterp spec fn gif_parses(data: Seq<u8>) -> bool;

/// How many frames the GIF decoder reads from a byte stream it accepts.
pub uninterp spec fn gif_frame_count(data: Seq<u8>) -> int;

/// Whether the animated-PNG decoder accepts a byte stream; decoding is a
/// function of the bytes alone.
pub uninterp spec fn apng_parses(data: Seq<u8>) -> bool;

/// How many frames the animated-PNG decoder reads from a byte stream it
/// accepts.
pub uninterp spec fn apng_frame_count(data: Seq<u8>) -> int;

/// Relies on `image::codecs::gif::GifDecoder`, `into_frames` and
/// `collect_frames`: all frames of a GIF stream in order, each with the
/// numerator of its declared delay's millisecond ratio (the denominator,
/// one for GIF delays, is dropped), or the container error's message.
#[verifier::external_body]
pub(crate) fn decode_gif(data: &Vec<u8>) -> (r: Result<Vec<RawFrame>, String>)
    ensures
        r is Ok <==> gif_parses(data@),
        r matches Ok(frames) ==> frames@.len() == gif_frame_count(data@) && (forall|i: int|
            0 <= i < frames@.len() ==> well_sized(#[trigger] frames@[i].buffer)),
{
    let cursor = std::io::Cursor::new(data.as_slice());
    let decoder = image::codecs::gif::GifDecoder::new(cursor).map_err(|e| format!("{}", e))?;
    let frames = decoder.into_frames().collect_frames().map_err(|e| format!("{}", e))?;
    Ok(
        frames.into_iter().map(
            |f| RawFrame {
                delay_ms: f.delay().numer_denom_ms().0,
                buffer: PixelBuffer { inner: f.into_buffer() },
            },
        ).collect(),
    )
}

/// Relies on `image::codecs::png::PngDecoder`, `apng`, `into_frames` and
/// `collect_frames`: all frames of an animated-PNG stream in order, each
/// with the numerator of its declared delay's millisecond ratio (the
/// denominator is dropped, as for a delay of a thirtieth of a second), or
/// the container error's message.
#[verifier::external_body]
pub(crate) fn decode_apng(data: &Vec<u8>) -> (r: Result<Vec<RawFrame>, String>)
    ensures
        r is Ok <==> apng_parses(data@),
        r matches Ok(frames) ==> frames@.len() == apng_frame_count(data@) && (forall|i: int|
            0 <= i < frames@.len() ==> well_sized(#[trigger] frames@[i].buffer)),
{
    let cursor = std::io::Cursor::new(data.as_slice());
    let decoder = image::codecs::png::PngDecoder::new(cursor).map_err(|e| format!("{}", e))?;
    let frames = decoder.apng().into_frames().collect_frames().map_err(|e| format!("{}", e))?;
    Ok(
        frames.into_iter().map(
            |f| RawFrame {
                delay_ms: f.delay().numer_denom_ms().0,
                buffer: PixelBuffer { inner: f.into_buffer() },
            },
        ).collect(),
    )
}

/// Relies on `image::imageops::crop_imm` and `to_image`: the sub-rectangle
/// at `(x, y)` of size `(w, h)`, clamped to the image bounds.
#[verifier::external_body]
pub(crate) fn crop_image(img: &PixelBuffer, x: u32, y: u32, w: u32, h: u32) -> (r: PixelBuffer)
    ensures
        ({
            let d = img_dims(*img);
            img_dims(r) == clamped_crop_dims(d.0, d.1, x, y, w, h)
        }),
        well_sized(r),
        img_pixels(r) == cropped_pixels(img_pixels(*img), img_dims(*img), x, y, w, h),
{
    PixelBuffer { inner: image::imageops::crop_imm(&img.inner, x, y, w, h).to_image() }
}

/// Relies on `image::imageops::flip_horizontal_in_place`: pixels move, the
/// buffer and its dimensions stay.
#[verifier::external_body]
pub(crate) fn flip_horizontal(img: &mut PixelBuffer)
    ensures
        img_dims(*final (img)) == img_dims(*old(img)),
        img_pixels(*final (img)).len() == img_pixels(*old(img)).len(),
        img_pixels(*final (img)) == hflipped_pixels(img_pixels(*old(img)), img_dims(*old(img))),
{
    image::imageops::flip_horizontal_in_place(&mut img.inner)
}

/// Relies on `image::imageops::flip_vertical_in_place`: pixels move, the
/// buffer and its dimensions stay.
#[verifier::external_body]
pub(crate) fn flip_vertical(img: &mut PixelBuffer)
    ensures
        img_dims(*final (img)) == img_dims(*old(img)),
        img_pixels(*final (img)).len() == img_pixels(*old(img)).len(),
        img_pixels(*final (img)) == vflipped_pixels(img_pixels(*old(img)), img_dims(*old(img))),
{
    image::imageops::flip_vertical_in_place(&mut img.inner)
}

/// Relies on `image::imageops::rotate90`: a new buffer with the dimensions
/// exchanged.
#[verifier::external_body]
pub(crate) fn rotate_90(img: &PixelBuffer) -> (r: PixelBuffer)
    ensures
        img_dims(r) == (img_dims(*img).1, img_dims(*img).0),
        well_sized(r),
        img_pixels(r) == rot90_pixels(img_pixels(*img), img_dims(*img)),
{
    PixelBuffer { inner: image::imageops::rotate90(&img.inner) }
}

/// Relies on `image::imageops::rotate180`: a new buffer with the same
/// dimensions.
#[verifier::external_body]
pub(crate) fn rotate_180(img: &PixelBuffer) -> (r: PixelBuffer)
    ensures
        img_dims(r) == img_dims(*img),
        well_sized(r),
        img_pixels(r) == rot180_pixels(img_pixels(*img), img_dims(*img)),
{
    PixelBuffer { inner: image::imageops::rotate180(&img.inner) }
}

/// Relies on `image::imageops::rotate270`: a new buffer with the dimensions
/// exchanged.
#[verifier::external_body]
pub(crate) fn rotate_270(img: &PixelBuffer) -> (r: PixelBuffer)
    ensures
        img_dims(r) == (img_dims(*img).1, img_dims(*img).0),
        well_sized(r),
        img_pixels(r) == rot270_pixels(img_pixels(*img), img_dims(*img)),
{
    PixelBuffer { inner: image::imageops::rotate270(&img.inner) }
}

/// Relies on `image::imageops::resize` with the `Lanczos3` filter: a new
/// buffer of exactly the requested dimensions.
#[verifier::external_body]
pub(crate) fn resize_image(img: &PixelBuffer, w: u32, h: u32) -> (r: PixelBuffer)
    ensures
        img_dims(r) == (w, h),
        well_sized(r),
        img_pixels(r) == resized_pixels(img_pixels(*img), img_dims(*img), w, h),
{
    PixelBuffer {
        inner: image::imageops::resize(&img.inner, w, h, image::imageops::FilterType::Lanczos3),
    }
}

/// Relies on `image::imageops::blur`: a Gaussian blur of the given sigma,
/// keeping the dimensions.
#[verifier::external_body]
pub(crate) fn blur_image(img: &PixelBuffer, sigma: u16) -> (r: PixelBuffer)
    ensures
        img_dims(r) == img_dims(*img),
        well_sized(r),
        img_pixels(r) == blurred_pixels(img_pixels(*img), img_dims(*img), sigma),
{
    PixelBuffer { inner: image::imageops::blur(&img.inner, sigma.into()) }
}

/// Relies on `image::imageops::colorops::grayscale` and
/// `DynamicImage::to_rgba8`: the luma of every pixel, spread back over four
/// channels, keeping the dimensions.
#[verifier::external_body]
pub(crate) fn grayscale_image(img: &PixelBuffer) -> (r: PixelBuffer)
    ensures
        img_dims(r) == img_dims(*img),
        well_sized(r),
        img_pixels(r) == grayscale_pixels(img_pixels(*img), img_dims(*img)),
{
    PixelBuffer {
        inner: image::DynamicImage::ImageLuma8(
            image::imageops::colorops::grayscale(&img.inner),
        ).to_rgba8(),
    }
}

/// Relies on `image::imageops::colorops::invert`: every channel inverted in
/// place, the buffer and its dimensions kept.
#[verifier::external_body]
pub(crate) fn invert_image(img: &mut PixelBuffer)
    ensures
        img_dims(*final (img)) == img_dims(*old(img)),
        img_pixels(*final (img)).len() == img_pixels(*old(img)).len(),
        img_pixels(*final (img)) == inverted_pixels(img_pixels(*old(img)), img_dims(*old(img))),
{
    image::imageops::colorops::invert(&mut img.inner)
}

/// Relies on `image::imageops::colorops::brighten`: every channel moved by
/// the given amount, keeping the dimensions.
#[verifier::external_body]
pub(crate) fn brighten_image(img: &PixelBuffer, value: i32) -> (r: PixelBuffer)
    ensures
        img_dims(r) == img_dims(*img),
        well_sized(r),
        img_pixels(r) == brightened_pixels(img_pixels(*img), img_dims(*img), value),
{
    PixelBuffer { inner: image::imageops::colorops::brighten(&img.inner, value) }
}

/// Relies on `image::imageops::colorops::huerotate`: the hue of every pixel
/// rotated by the given degrees, keeping the dimensions.
#[verifier::external_body]
pub(crate) fn huerotate_image(img: &PixelBuffer, value: i32) -> (r: PixelBuffer)
    ensures
        img_dims(r) == img_dims(*img),
        well_sized(r),
        img_pixels(r) == huerotated_pixels(img_pixels(*img), img_dims(*img), value),
{
    PixelBuffer { inner: image::imageops::colorops::huerotate(&img.inner, value) }
}

/// Relies on `image::imageops::colorops::contrast`: the contrast adjusted
/// by the given amount, keeping the dimensions.
#[verifier::external_body]
pub(crate) fn contrast_image(img: &PixelBuffer, value: i16) -> (r: PixelBuffer)
    ensures
        img_dims(r) == img_dims(*img),
        well_sized(r),
        img_pixels(r) == contrasted_pixels(img_pixels(*img), img_dims(*img), value),
{
    PixelBuffer { inner: image::imageops::colorops::contrast(&img.inner, value.into()) }
}

} // verus!

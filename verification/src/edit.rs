//! The frame transform pipeline: an ordered, parameterized chain that turns
//! one captured image into the form to be stored or encoded.  The chain
//! applies crop, flip, rotation, resize, blur, and color adjustments, in
//! that fixed order, each step a no-op at its default setting.

use crate::error::Error;
use crate::geometry::{Geometry, Padding};
use crate::pixels::{
    blur_image, blurred_pixels, brighten_image, brightened_pixels, clamped_crop_dims,
    contrast_image, contrasted_pixels, crop_image, cropped_pixels, flip_horizontal,
    flip_vertical, grayscale_image, grayscale_pixels, hflipped_pixels, huerotate_image,
    huerotated_pixels, img_dims, img_pixels, invert_image, inverted_pixels, resize_image,
    resized_pixels, rot180_pixels, rot270_pixels, rot90_pixels, rotate_180, rotate_270,
    rotate_90, vflipped_pixels, well_sized, PixelBuffer,
};
use vstd::prelude::*;

verus! {

/// The axis an image is flipped over.
#[derive(Clone, Copy, Debug, PartialEq, Eq, Structural)]
pub enum Flip {
    Horizontal,
    Vertical,
}

/// A rotation restricted to quarter turns.
#[derive(Clone, Copy, Debug, PartialEq, Eq, Structural)]
pub enum Rotation {
    Deg0,
    Deg90,
    Deg180,
    Deg270,
}

impl Rotation {
    /// Map an angle in degrees to a quarter turn; any other angle is a
    /// configuration error.
    pub fn from_degrees(deg: u32) -> (r: Result<Rotation, Error>)
        ensures
            r is Ok <==> (deg == 0 || deg == 90 || deg == 180 || deg == 270),
            r matches Ok(rot) ==> (rot is Deg0 <==> deg == 0) && (rot is Deg90 <==> deg == 90) && (
            rot is Deg180 <==> deg == 180) && (rot is Deg270 <==> deg == 270),
            r matches Err(e) ==> e matches Error::InvalidRotation(d) && d == deg,
    {
        if deg == 0 {
            Ok(Rotation::Deg0)
        } else if deg == 90 {
            Ok(Rotation::Deg90)
        } else if deg == 180 {
            Ok(Rotation::Deg180)
        } else if deg == 270 {
            Ok(Rotation::Deg270)
        } else {
            Err(Error::InvalidRotation(deg))
        }
    }
}

/// The color adjustments, applied in this sub-order: grayscale, invert,
/// brightness, hue rotation, contrast.
#[derive(Clone, Copy, Debug, PartialEq, Eq, Structural)]
pub struct ColorSettings {
    /// Convert to grayscale before anything else.
    pub grayscale: bool,
    /// Invert every channel.
    pub invert: bool,
    /// A brightness delta; `0` is neutral.
    pub brightness: i32,
    /// A hue rotation in degrees; `0` is neutral.
    pub hue: i32,
    /// A contrast delta; `0` is neutral.
    pub contrast: i16,
}

impl ColorSettings {
    /// Whether every adjustment is at its neutral value.
    pub open spec fn is_neutral(self) -> bool {
        !self.grayscale && !self.invert && self.brightness == 0 && self.hue == 0 && self.contrast
            == 0
    }

    /// Build a color adjustment set.
    pub fn new(grayscale: bool, invert: bool, brightness: i32, hue: i32, contrast: i16) -> (c:
        ColorSettings)
        ensures
            c == (ColorSettings { grayscale, invert, brightness, hue, contrast }),
    {
        ColorSettings { grayscale, invert, brightness, hue, contrast }
    }
}

impl core::default::Default for ColorSettings {
    /// The neutral adjustment set.
    fn default() -> (c: ColorSettings)
        ensures
            c.is_neutral(),
    {
        ColorSettings { grayscale: false, invert: false, brightness: 0, hue: 0, contrast: 0 }
    }
}

/// The configuration of the transform chain, constructed once and read-only
/// for the duration of one run.
#[derive(Clone, Copy, Debug)]
pub struct TransformSettings {
    /// The resize target, or `None` when unset.
    pub resize: Option<(u32, u32)>,
    /// A scale ratio in hundredths; `100` is unit scale and `0` is unset.
    pub ratio: u32,
    /// The crop padding; all-zero is a no-op.
    pub crop: Padding,
    /// The flip axis, or `None`.
    pub flip: Option<Flip>,
    /// The rotation.
    pub rotate: Rotation,
    /// The Gaussian blur sigma, in pixels; `0` is off.
    pub blur: u16,
    /// The color adjustments.
    pub color: ColorSettings,
}

impl TransformSettings {
    /// Whether the scale ratio takes effect: set, and not unit scale.
    pub open spec fn ratio_active(self) -> bool {
        self.ratio > 0 && self.ratio != 100
    }

    /// Whether the resize step runs: an explicit target or an active ratio.
    pub open spec fn resize_applied(self) -> bool {
        self.resize is Some || self.ratio_active()
    }

    /// Whether every step of the chain is a no-op.
    pub open spec fn is_neutral(self) -> bool {
        self.resize is None && !self.ratio_active() && self.crop.spec_is_zero() && self.flip
            is None && self.rotate is Deg0 && self.blur == 0 && self.color.is_neutral()
    }

    /// Build a transform configuration.
    pub fn new(
        resize: Option<(u32, u32)>,
        ratio: u32,
        crop: Padding,
        flip: Option<Flip>,
        rotate: Rotation,
        blur: u16,
        color: ColorSettings,
    ) -> (s: TransformSettings)
        ensures
            s.resize == resize,
            s.ratio == ratio,
            s.crop == crop,
            s.flip == flip,
            s.rotate == rotate,
            s.blur == blur,
            s.color == color,
    {
        TransformSettings { resize, ratio, crop, flip, rotate, blur, color }
    }
}

impl core::default::Default for TransformSettings {
    /// The all-neutral configuration: every step of the chain is a no-op.
    fn default() -> (s: TransformSettings)
        ensures
            s.is_neutral(),
    {
        TransformSettings {
            resize: None,
            ratio: 100,
            crop: Padding { top: 0, right: 0, bottom: 0, left: 0 },
            flip: None,
            rotate: Rotation::Deg0,
            blur: 0,
            color: ColorSettings {
                grayscale: false,
                invert: false,
                brightness: 0,
                hue: 0,
                contrast: 0,
            },
        }
    }
}

/// One dimension scaled by a ratio in hundredths, truncating, saturating at
/// the largest representable value.
pub open spec fn scale_dim(d: u32, ratio: u32) -> u32 {
    let v = (d as int) * (ratio as int) / 100;
    if v > u32::MAX {
        u32::MAX
    } else {
        v as u32
    }
}

/// Scale one dimension by a ratio in hundredths.
fn scale_value(d: u32, ratio: u32) -> (r: u32)
    ensures
        r == scale_dim(d, ratio),
{
    proof {
        assert((d as int) * (ratio as int) <= 0xffff_ffff * 0xffff_ffff) by (nonlinear_arith)
            requires
                d <= 0xffff_ffff,
                ratio <= 0xffff_ffff,
        ;
        assert((d as int) * (ratio as int) >= 0) by (nonlinear_arith)
            requires
                d >= 0,
                ratio >= 0,
        ;
    }
    let v: u64 = (d as u64) * (ratio as u64) / 100;
    if v > 0xffff_ffffu64 {
        u32::MAX
    } else {
        v as u32
    }
}

/// The size that the resize and rotation settings produce from a native
/// size, before the crop padding is applied: the resize target if set, else
/// the native size; scaled by the ratio when one is active; the sides
/// exchanged when the rotation is a quarter turn.
pub open spec fn pre_crop_size(s: TransformSettings, native: (u32, u32)) -> (u32, u32) {
    let base = match s.resize {
        Some(t) => t,
        None => native,
    };
    let scaled = if s.ratio_active() {
        (scale_dim(base.0, s.ratio), scale_dim(base.1, s.ratio))
    } else {
        base
    };
    if s.rotate is Deg90 || s.rotate is Deg270 {
        (scaled.1, scaled.0)
    } else {
        scaled
    }
}

/// The dimensions each image comes out with when the chain runs on an image
/// of dimensions `d` with geometry `g`: the crop clamps to the image, a
/// quarter-turn rotation exchanges the sides, and the resize step lands on
/// the geometry.
pub open spec fn process_dims(s: TransformSettings, g: Geometry, d: (u32, u32)) -> (u32, u32) {
    let after_crop = if !s.crop.spec_is_zero() {
        clamped_crop_dims(d.0, d.1, g.x, g.y, g.width, g.height)
    } else {
        d
    };
    let after_rot = if s.rotate is Deg90 || s.rotate is Deg270 {
        (after_crop.1, after_crop.0)
    } else {
        after_crop
    };
    if s.resize_applied() {
        (g.width, g.height)
    } else {
        after_rot
    }
}

/// The bytes each image comes out with when the chain runs on a buffer of
/// bytes `pixels` and dimensions `d` with geometry `g`: the named results
/// of the outside pixel operations, composed in the fixed order crop,
/// flip, rotate, resize, blur, then grayscale, invert, brightness, hue
/// rotation and contrast, each step skipped at its default setting.
pub open spec fn process_pixels(
    s: TransformSettings,
    g: Geometry,
    pixels: Seq<u8>,
    d: (u32, u32),
) -> Seq<u8> {
    let crop_on = !s.crop.spec_is_zero();
    let p1 = if crop_on {
        cropped_pixels(pixels, d, g.x, g.y, g.width, g.height)
    } else {
        pixels
    };
    let d1 = if crop_on {
        clamped_crop_dims(d.0, d.1, g.x, g.y, g.width, g.height)
    } else {
        d
    };
    let p2 = match s.flip {
        Some(Flip::Horizontal) => hflipped_pixels(p1, d1),
        Some(Flip::Vertical) => vflipped_pixels(p1, d1),
        None => p1,
    };
    let p3 = match s.rotate {
        Rotation::Deg90 => rot90_pixels(p2, d1),
        Rotation::Deg180 => rot180_pixels(p2, d1),
        Rotation::Deg270 => rot270_pixels(p2, d1),
        Rotation::Deg0 => p2,
    };
    let d3 = if s.rotate is Deg90 || s.rotate is Deg270 {
        (d1.1, d1.0)
    } else {
        d1
    };
    let p4 = if s.resize_applied() {
        resized_pixels(p3, d3, g.width, g.height)
    } else {
        p3
    };
    let d4 = if s.resize_applied() {
        (g.width, g.height)
    } else {
        d3
    };
    let p5 = if s.blur > 0 {
        blurred_pixels(p4, d4, s.blur)
    } else {
        p4
    };
    let p6 = if s.color.grayscale {
        grayscale_pixels(p5, d4)
    } else {
        p5
    };
    let p7 = if s.color.invert {
        inverted_pixels(p6, d4)
    } else {
        p6
    };
    let p8 = if s.color.brightness != 0 {
        brightened_pixels(p7, d4, s.color.brightness)
    } else {
        p7
    };
    let p9 = if s.color.hue != 0 {
        huerotated_pixels(p8, d4, s.color.hue)
    } else {
        p8
    };
    if s.color.contrast != 0 {
        contrasted_pixels(p9, d4, s.color.contrast)
    } else {
        p9
    }
}

/// The transform chain with its running geometry: reusable across many
/// images that share one native size.
#[derive(Clone, Copy, Debug)]
pub struct ImageOps {
    /// The read-only configuration.
    pub settings: TransformSettings,
    /// The output geometry computed by `init`.
    pub geometry: Geometry,
    /// The native size `init` was given.
    pub native: (u32, u32),
}

impl ImageOps {
    /// Whether `init` accepts a native size: the crop padding fits inside
    /// the pre-crop size and leaves a non-empty rectangle.
    pub open spec fn init_ok(s: TransformSettings, native: (u32, u32)) -> bool {
        let (w, h) = pre_crop_size(s, native);
        s.crop.left + s.crop.right <= w && s.crop.top + s.crop.bottom <= h && w - (s.crop.left
            + s.crop.right) > 0 && h - (s.crop.top + s.crop.bottom) > 0
    }

    /// The geometry `init` computes: origin at the crop's top-left corner,
    /// size the pre-crop size less the padding.
    pub open spec fn init_geometry(s: TransformSettings, native: (u32, u32)) -> Geometry {
        let (w, h) = pre_crop_size(s, native);
        Geometry {
            x: s.crop.left,
            y: s.crop.top,
            width: (w - (s.crop.left + s.crop.right)) as u32,
            height: (h - (s.crop.top + s.crop.bottom)) as u32,
        }
    }

    /// Build a chain from its configuration; the geometry is computed later
    /// by `init`.
    pub fn new(settings: TransformSettings) -> (ops: ImageOps)
        ensures
            ops.settings == settings,
            ops.geometry == (Geometry { x: 0, y: 0, width: 0, height: 0 }),
            ops.native == (0u32, 0u32),
    {
        ImageOps {
            settings,
            geometry: Geometry { x: 0, y: 0, width: 0, height: 0 },
            native: (0, 0),
        }
    }

    /// Compute the output geometry from the native size, before any pixel
    /// is touched: the resize target (or the native size) is scaled by the
    /// ratio, the sides are exchanged for a quarter-turn rotation, and the
    /// crop padding is applied.  A padding that does not fit, or one that
    /// leaves nothing, is a configuration error.
    pub fn init(&mut self, size: (u32, u32)) -> (r: Result<(), Error>)
        ensures
            final (self).settings == old(self).settings,
            r is Ok <==> Self::init_ok(old(self).settings, size),
            r is Ok ==> final (self).geometry == Self::init_geometry(old(self).settings, size)
                && final (self).native == size,
            r is Err ==> *final (self) == *old(self),
            r matches Err(e) ==> ({
                let (w, h) = pre_crop_size(old(self).settings, size);
                let s = old(self).settings;
                if s.crop.left + s.crop.right <= w && s.crop.top + s.crop.bottom <= h {
                    e is EmptyGeometry
                } else {
                    e is PaddingTooLarge
                }
            }),
    {
        let (mut width, mut height) = match self.settings.resize {
            Some(t) => t,
            None => size,
        };
        if self.settings.ratio > 0 && self.settings.ratio != 100 {
            width = scale_value(width, self.settings.ratio);
            height = scale_value(height, self.settings.ratio);
        }
        match self.settings.rotate {
            Rotation::Deg90 | Rotation::Deg270 => {
                let t = width;
                width = height;
                height = t;
            },
            _ => {},
        }
        let c = self.settings.crop;
        if (c.left as u64) + (c.right as u64) > (width as u64) || (c.top as u64) + (c.bottom
            as u64) > (height as u64) {
            return Err(Error::PaddingTooLarge);
        }
        let g = Geometry::new(0, 0, width, height).with_padding(c);
        if g.width == 0 || g.height == 0 {
            return Err(Error::EmptyGeometry);
        }
        self.geometry = g;
        self.native = size;
        Ok(())
    }

    /// Run one image through the chain, in the fixed order crop, flip,
    /// rotate, resize, blur, color adjustments; each step is skipped at its
    /// default setting, so an all-neutral configuration returns the image
    /// unchanged.
    pub fn process(&self, image: PixelBuffer) -> (r: PixelBuffer)
        ensures
            self.settings.is_neutral() ==> r == image,
            img_dims(r) == process_dims(self.settings, self.geometry, img_dims(image)),
            img_pixels(r) == process_pixels(
                self.settings,
                self.geometry,
                img_pixels(image),
                img_dims(image),
            ),
            well_sized(image) ==> well_sized(r),
    {
        let mut img = image;
        if !self.settings.crop.is_zero() {
            img = crop_image(
                &img,
                self.geometry.x,
                self.geometry.y,
                self.geometry.width,
                self.geometry.height,
            );
        }
        match self.settings.flip {
            Some(Flip::Horizontal) => flip_horizontal(&mut img),
            Some(Flip::Vertical) => flip_vertical(&mut img),
            None => {},
        }
        match self.settings.rotate {
            Rotation::Deg90 => {
                img = rotate_90(&img);
            },
            Rotation::Deg180 => {
                img = rotate_180(&img);
            },
            Rotation::Deg270 => {
                img = rotate_270(&img);
            },
            Rotation::Deg0 => {},
        }
        let resize_on = match self.settings.resize {
            Some(_) => true,
            None => (self.settings.ratio > 0 && self.settings.ratio != 100),
        };
        if resize_on {
            img = resize_image(&img, self.geometry.width, self.geometry.height);
        }
        if self.settings.blur > 0 {
            img = blur_image(&img, self.settings.blur);
        }
        if self.settings.color.grayscale {
            img = grayscale_image(&img);
        }
        if self.settings.color.invert {
            invert_image(&mut img);
        }
        if self.settings.color.brightness != 0 {
            img = brighten_image(&img, self.settings.color.brightness);
        }
        if self.settings.color.hue != 0 {
            img = huerotate_image(&img, self.settings.color.hue);
        }
        if self.settings.color.contrast != 0 {
            img = contrast_image(&img, self.settings.color.contrast);
        }
        img
    }
}

} // verus!

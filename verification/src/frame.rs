//! The image data model: a pixel buffer in reversed-channel (BGRA) order, a
//! flag for whether the source carried an alpha channel, and a geometry.

use crate::geometry::Geometry;
use vstd::prelude::*;

verus! {

/// An ordered frame sequence together with the single frame rate that
/// applies to the whole of it.
pub type Frames = (Vec<Image>, u32);

/// The bytes of `data` with the first and third channel of every 4-byte
/// pixel exchanged; the fourth byte is kept when `alpha` holds and forced to
/// `255` otherwise.  Applied to a BGRA buffer this yields RGBA bytes, and
/// the other way round.
pub open spec fn swapped_channels(data: Seq<u8>, alpha: bool) -> Seq<u8> {
    Seq::new(
        data.len(),
        |i: int|
            {
                let p = i - i % 4;
                if i % 4 == 0 {
                    data[p + 2]
                } else if i % 4 == 2 {
                    data[p]
                } else if i % 4 == 3 {
                    if alpha {
                        data[i]
                    } else {
                        255
                    }
                } else {
                    data[i]
                }
            },
    )
}

/// The bytes of `data` reduced to three RGB bytes per four-byte BGRA
/// pixel: the first and third channel exchanged, the fourth dropped.
pub open spec fn rgb_channels(data: Seq<u8>) -> Seq<u8> {
    Seq::new(
        (data.len() / 4) * 3,
        |i: int|
            {
                let p = 4 * (i / 3);
                if i % 3 == 0 {
                    data[p + 2]
                } else if i % 3 == 1 {
                    data[p + 1]
                } else {
                    data[p]
                }
            },
    )
}

/// One captured or decoded image: a BGRA pixel buffer and its geometry.
#[derive(Clone, Debug)]
pub struct Image {
    /// Reversed-channel (BGRA) pixel bytes, four per pixel, row-major.
    pub data: Vec<u8>,
    /// Whether the source provided a meaningful alpha channel.
    pub alpha_channel: bool,
    /// The image's position and size.
    pub geometry: Geometry,
}

impl Image {
    /// Whether the buffer holds exactly four bytes for every pixel of the
    /// geometry.
    pub open spec fn well_formed(self) -> bool {
        self.data@.len() == 4 * (self.geometry.width as int) * (self.geometry.height as int)
    }

    /// Build an image from its BGRA bytes, alpha flag, and geometry.
    pub fn new(data: Vec<u8>, alpha_channel: bool, geometry: Geometry) -> (img: Image)
        requires
            data@.len() == 4 * (geometry.width as int) * (geometry.height as int),
        ensures
            img.data == data,
            img.alpha_channel == alpha_channel,
            img.geometry == geometry,
            img.well_formed(),
    {
        Image { data, alpha_channel, geometry }
    }

    /// The pixel bytes in RGB order, three per pixel, the alpha channel
    /// dropped.
    pub fn get_rgb_data(&self) -> (r: Vec<u8>)
        requires
            self.well_formed(),
        ensures
            r@ == rgb_channels(self.data@),
    {
        proof {
            let w = self.geometry.width as int;
            let h = self.geometry.height as int;
            assert(4 * w * h == 4 * (w * h)) by (nonlinear_arith);
            assert((4 * (w * h)) % 4 == 0);
        }
        let ghost target = rgb_channels(self.data@);
        let n = self.data.len();
        let mut out: Vec<u8> = Vec::new();
        let mut px: usize = 0;
        while px < n / 4
            invariant
                n == self.data@.len(),
                n % 4 == 0,
                px <= n / 4,
                target == rgb_channels(self.data@),
                out@.len() == 3 * px,
                forall|j: int| 0 <= j < 3 * px ==> out@[j] == target[j],
            decreases n / 4 - px,
        {
            let base = 4 * px;
            out.push(self.data[base + 2]);
            out.push(self.data[base + 1]);
            out.push(self.data[base]);
            proof {
                assert forall|j: int| 3 * px <= j < 3 * (px + 1) implies out@[j] == target[j] by {
                    assert(j % 3 == j - 3 * (px as int));
                    assert(j / 3 == px as int);
                }
            }
            px += 1;
        }
        proof {
            assert(out@ =~= target);
        }
        out
    }

    /// The pixel bytes in RGBA order, with the alpha byte forced to fully
    /// opaque when the source had no alpha channel.
    pub fn get_rgba_data(&self) -> (r: Vec<u8>)
        requires
            self.well_formed(),
        ensures
            r@ == swapped_channels(self.data@, self.alpha_channel),
    {
        proof {
            let w = self.geometry.width as int;
            let h = self.geometry.height as int;
            assert(4 * w * h == 4 * (w * h)) by (nonlinear_arith);
            assert((4 * (w * h)) % 4 == 0);
        }
        swap_channel_bytes(&self.data, self.alpha_channel)
    }
}

/// Exchange the first and third channel of every 4-byte pixel of `data`;
/// keep the fourth byte when `alpha` holds, force it to `255` otherwise.
pub fn swap_channel_bytes(data: &Vec<u8>, alpha: bool) -> (r: Vec<u8>)
    requires
        data@.len() % 4 == 0,
    ensures
        r@ == swapped_channels(data@, alpha),
{
    let ghost target = swapped_channels(data@, alpha);
    let n = data.len();
    let mut out: Vec<u8> = Vec::new();
    let mut px: usize = 0;
    while px < n / 4
        invariant
            n == data@.len(),
            n % 4 == 0,
            px <= n / 4,
            target == swapped_channels(data@, alpha),
            out@.len() == 4 * px,
            forall|j: int| 0 <= j < 4 * px ==> out@[j] == target[j],
        decreases n / 4 - px,
    {
        let base = 4 * px;
        out.push(data[base + 2]);
        out.push(data[base + 1]);
        out.push(data[base]);
        if alpha {
            out.push(data[base + 3]);
        } else {
            out.push(255);
        }
        proof {
            assert forall|j: int| 4 * px <= j < 4 * (px + 1) implies out@[j] == target[j] by {
                assert(j % 4 == j - 4 * (px as int));
            }
        }
        px += 1;
    }
    proof {
        assert(out@ =~= target);
    }
    out
}

} // verus!

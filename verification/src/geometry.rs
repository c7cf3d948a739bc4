//! The geometry of captured and encoded images: a rectangle with an origin,
//! and the four-sided crop padding that can be applied to it.

use crate::text::{parse_u32, parse_u32_spec, split_spec, split_str};
use vstd::prelude::*;

verus! {

/// Four-sided crop padding, in pixels.
#[derive(Clone, Copy, Debug, PartialEq, Eq, Structural)]
pub struct Padding {
    pub top: u32,
    pub right: u32,
    pub bottom: u32,
    pub left: u32,
}

impl Padding {
    /// What `parse` yields: the string is split on `:` and the first four
    /// segments are read as decimal numbers, a missing or malformed segment
    /// counting as `0`.
    pub open spec fn parse_spec(s: Seq<char>) -> Padding {
        let parts = split_spec(s, ':');
        Padding {
            top: Self::part_val(parts, 0),
            right: Self::part_val(parts, 1),
            bottom: Self::part_val(parts, 2),
            left: Self::part_val(parts, 3),
        }
    }

    /// The value of segment `i`, or `0` when there is no such segment.
    pub open spec fn part_val(parts: Seq<Seq<char>>, i: int) -> u32 {
        if i < parts.len() {
            parse_u32_spec(parts[i])
        } else {
            0
        }
    }

    /// Build a padding from its four sides.
    pub fn new(top: u32, right: u32, bottom: u32, left: u32) -> (p: Padding)
        ensures
            p == (Padding { top, right, bottom, left }),
    {
        Padding { top, right, bottom, left }
    }

    /// Parse a `top:right:bottom:left` string; malformed or missing parts
    /// read as `0`.
    pub fn parse(padding: &str) -> (p: Padding)
        ensures
            p == Self::parse_spec(padding@),
    {
        let parts = split_str(padding, ':');
        let top = if parts.len() > 0 {
            parse_u32(parts[0].as_str())
        } else {
            0
        };
        let right = if parts.len() > 1 {
            parse_u32(parts[1].as_str())
        } else {
            0
        };
        let bottom = if parts.len() > 2 {
            parse_u32(parts[2].as_str())
        } else {
            0
        };
        let left = if parts.len() > 3 {
            parse_u32(parts[3].as_str())
        } else {
            0
        };
        Padding { top, right, bottom, left }
    }

    /// Whether all four sides are zero, i.e. the padding is a no-op.
    pub open spec fn spec_is_zero(self) -> bool {
        self.top == 0 && self.right == 0 && self.bottom == 0 && self.left == 0
    }

    /// Whether all four sides are zero, i.e. the padding is a no-op.
    pub fn is_zero(&self) -> (r: bool)
        ensures
            r == self.spec_is_zero(),
    {
        self.top == 0 && self.right == 0 && self.bottom == 0 && self.left == 0
    }
}

/// A rectangle: an origin and a size, in pixels.
#[derive(Clone, Copy, Debug, PartialEq, Eq, Structural)]
pub struct Geometry {
    pub x: u32,
    pub y: u32,
    pub width: u32,
    pub height: u32,
}

impl Geometry {
    /// Build a geometry from its origin and size.
    pub fn new(x: u32, y: u32, width: u32, height: u32) -> (g: Geometry)
        ensures
            g == (Geometry { x, y, width, height }),
    {
        Geometry { x, y, width, height }
    }

    /// Shrink this rectangle by a crop padding: the origin moves right by
    /// `left` and down by `top`, and the size loses all four sides.
    pub fn with_padding(self, p: Padding) -> (g: Geometry)
        requires
            p.left + p.right <= self.width,
            p.top + p.bottom <= self.height,
            self.x + p.left <= u32::MAX,
            self.y + p.top <= u32::MAX,
        ensures
            g.x == self.x + p.left,
            g.y == self.y + p.top,
            g.width == self.width - (p.left + p.right),
            g.height == self.height - (p.top + p.bottom),
    {
        Geometry {
            x: self.x + p.left,
            y: self.y + p.top,
            width: self.width - (p.left + p.right),
            height: self.height - (p.top + p.bottom),
        }
    }
}

} // verus!

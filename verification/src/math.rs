//! Integer points, rectangles and exact texture coordinates.

use vstd::prelude::*;

verus! {

/// A position in caller space.
#[derive(Clone, Copy, Debug, PartialEq, Eq)]
pub struct Point {
    pub x: i32,
    pub y: i32,
}

/// A rectangle of texels inside a texture: `w` columns from `x`, `h` rows
/// from `y`.
#[derive(Clone, Copy, Debug, PartialEq, Eq)]
pub struct Rect {
    pub x: u32,
    pub y: u32,
    pub w: u32,
    pub h: u32,
}

impl Rect {
    /// The first column to the right of the rectangle.
    pub open spec fn right(self) -> int {
        self.x + self.w
    }

    /// The first row below the rectangle.
    pub open spec fn bottom(self) -> int {
        self.y + self.h
    }

    /// The rectangle lies inside a texture of the given extent.
    pub open spec fn within(self, width: int, height: int) -> bool {
        self.right() <= width && self.bottom() <= height
    }

    /// The two rectangles have no texel in common.
    pub open spec fn disjoint(self, other: Rect) -> bool {
        ||| self.w == 0
        ||| self.h == 0
        ||| other.w == 0
        ||| other.h == 0
        ||| self.right() <= other.x
        ||| other.right() <= self.x
        ||| self.bottom() <= other.y
        ||| other.bottom() <= self.y
    }
}

/// A texture coordinate along one axis, kept as the fraction `num / den` of
/// the texture's extent.
#[derive(Clone, Copy, Debug, PartialEq, Eq)]
pub struct TexCoord {
    pub num: u32,
    pub den: u32,
}

impl TexCoord {
    /// The fraction names a place from 0 to 1.
    pub open spec fn normalized(self) -> bool {
        0 < self.den && self.num <= self.den
    }

    /// The start of the axis.
    pub fn zero() -> (t: TexCoord)
        ensures
            t == (TexCoord { num: 0, den: 1 }),
    {
        TexCoord { num: 0, den: 1 }
    }

    /// The end of the axis.
    pub fn one() -> (t: TexCoord)
        ensures
            t == (TexCoord { num: 1, den: 1 }),
    {
        TexCoord { num: 1, den: 1 }
    }
}

} // verus!

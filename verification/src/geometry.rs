//! Integer geometry for the grid: sizes, points, rectangles, box constraints,
//! and the major/minor axis abstraction.
//!
//! All coordinates are unsigned machine integers. Additions that could exceed
//! the machine range saturate at `u64::MAX`; the contracts state this
//! explicitly through [`sat_add`].

use vstd::prelude::*;

verus! {

/// Which geometric dimension is the major axis of the grid.
///
/// The major axis is the direction in which the grid grows row by row (the
/// wrap/scroll direction); the minor axis is the cross direction along which
/// the items of one row are laid side by side.
#[derive(Clone, Copy, PartialEq, Eq, Structural, Debug)]
pub enum Axis {
    Vertical,
    Horizontal,
}

/// A width and a height.
#[derive(Clone, Copy, PartialEq, Eq, Structural, Debug)]
pub struct Size {
    pub width: u64,
    pub height: u64,
}

/// A point, used as the origin of a child widget.
#[derive(Clone, Copy, PartialEq, Eq, Structural, Debug)]
pub struct Point {
    pub x: u64,
    pub y: u64,
}

/// An axis-aligned rectangle given by its two corners.
#[derive(Clone, Copy, PartialEq, Eq, Structural, Debug)]
pub struct Rect {
    pub x0: u64,
    pub y0: u64,
    pub x1: u64,
    pub y1: u64,
}

/// Non-negative overflow beyond a box, one amount per edge.
#[derive(Clone, Copy, PartialEq, Eq, Structural, Debug)]
pub struct Insets {
    pub x0: u64,
    pub y0: u64,
    pub x1: u64,
    pub y1: u64,
}

/// A minimum and a maximum size handed down by a container.
#[derive(Clone, Copy, PartialEq, Eq, Structural, Debug)]
pub struct BoxConstraints {
    pub min: Size,
    pub max: Size,
}

/// Addition on `u64` values, saturating at the top of the range.
pub open spec fn sat_add(a: int, b: int) -> int {
    if a + b > u64::MAX {
        u64::MAX as int
    } else {
        a + b
    }
}

/// Executable counterpart of [`sat_add`].
pub fn sat_add_u64(a: u64, b: u64) -> (r: u64)
    ensures
        r == sat_add(a as int, b as int),
{
    if a > u64::MAX - b {
        u64::MAX
    } else {
        a + b
    }
}

/// The larger of two `u64` values.
pub fn max_u64(a: u64, b: u64) -> (r: u64)
    ensures
        r == if a >= b { a } else { b },
{
    if a >= b {
        a
    } else {
        b
    }
}

/// The smaller of two `u64` values.
pub fn min_u64(a: u64, b: u64) -> (r: u64)
    ensures
        r == if a <= b { a } else { b },
{
    if a <= b {
        a
    } else {
        b
    }
}

impl Axis {
    /// The extent of `s` along this axis.
    pub open spec fn spec_major(self, s: Size) -> u64 {
        match self {
            Axis::Vertical => s.height,
            Axis::Horizontal => s.width,
        }
    }

    /// The extent of `s` across this axis.
    pub open spec fn spec_minor(self, s: Size) -> u64 {
        match self {
            Axis::Vertical => s.width,
            Axis::Horizontal => s.height,
        }
    }

    /// A point with the given position along the major and the minor axis.
    pub open spec fn spec_pack(self, major: u64, minor: u64) -> Point {
        match self {
            Axis::Vertical => Point { x: minor, y: major },
            Axis::Horizontal => Point { x: major, y: minor },
        }
    }

    /// The extent of `s` along this axis.
    pub fn major(self, s: Size) -> (r: u64)
        ensures
            r == self.spec_major(s),
    {
        match self {
            Axis::Vertical => s.height,
            Axis::Horizontal => s.width,
        }
    }

    /// The extent of `s` across this axis.
    pub fn minor(self, s: Size) -> (r: u64)
        ensures
            r == self.spec_minor(s),
    {
        match self {
            Axis::Vertical => s.width,
            Axis::Horizontal => s.height,
        }
    }

    /// Maps a (major, minor) position onto an (x, y) point.
    pub fn pack(self, major: u64, minor: u64) -> (p: Point)
        ensures
            p == self.spec_pack(major, minor),
    {
        match self {
            Axis::Vertical => Point { x: minor, y: major },
            Axis::Horizontal => Point { x: major, y: minor },
        }
    }
}

impl Size {
    /// Whether both extents are zero.
    pub open spec fn spec_is_zero(self) -> bool {
        self.width == 0 && self.height == 0
    }
}

impl Rect {
    /// The empty rectangle at the origin.
    pub fn zero() -> (r: Rect)
        ensures
            r == (Rect { x0: 0, y0: 0, x1: 0, y1: 0 }),
    {
        Rect { x0: 0, y0: 0, x1: 0, y1: 0 }
    }

    /// The size of the rectangle; a corner ordering defect yields zero rather
    /// than wrapping around.
    pub open spec fn spec_size(self) -> Size {
        Size {
            width: if self.x0 <= self.x1 {
                (self.x1 - self.x0) as u64
            } else {
                0
            },
            height: if self.y0 <= self.y1 {
                (self.y1 - self.y0) as u64
            } else {
                0
            },
        }
    }

    /// The size of the rectangle.
    pub fn size(self) -> (s: Size)
        ensures
            s == self.spec_size(),
    {
        Size {
            width: if self.x0 <= self.x1 {
                self.x1 - self.x0
            } else {
                0
            },
            height: if self.y0 <= self.y1 {
                self.y1 - self.y0
            } else {
                0
            },
        }
    }

    /// The smallest rectangle containing both `self` and `other`.
    pub open spec fn spec_union(self, other: Rect) -> Rect {
        Rect {
            x0: if self.x0 <= other.x0 {
                self.x0
            } else {
                other.x0
            },
            y0: if self.y0 <= other.y0 {
                self.y0
            } else {
                other.y0
            },
            x1: if self.x1 >= other.x1 {
                self.x1
            } else {
                other.x1
            },
            y1: if self.y1 >= other.y1 {
                self.y1
            } else {
                other.y1
            },
        }
    }

    /// The smallest rectangle containing both `self` and `other`.
    pub fn union(self, other: Rect) -> (r: Rect)
        ensures
            r == self.spec_union(other),
    {
        Rect {
            x0: min_u64(self.x0, other.x0),
            y0: min_u64(self.y0, other.y0),
            x1: max_u64(self.x1, other.x1),
            y1: max_u64(self.y1, other.y1),
        }
    }

    /// The rectangle covered by a child of size `s` placed with its origin at
    /// `o`; the far corner saturates at the machine range.
    pub open spec fn spec_from_origin_size(o: Point, s: Size) -> Rect {
        Rect {
            x0: o.x,
            y0: o.y,
            x1: sat_add(o.x as int, s.width as int) as u64,
            y1: sat_add(o.y as int, s.height as int) as u64,
        }
    }

    /// The rectangle covered by a child of size `s` placed with its origin at
    /// `o`.
    pub fn from_origin_size(o: Point, s: Size) -> (r: Rect)
        ensures
            r == Rect::spec_from_origin_size(o, s),
    {
        Rect {
            x0: o.x,
            y0: o.y,
            x1: sat_add_u64(o.x, s.width),
            y1: sat_add_u64(o.y, s.height),
        }
    }
}

impl BoxConstraints {
    /// `s` clamped into the constraints, dimension by dimension; the lower
    /// bound is applied first, so when `min` exceeds `max` the upper bound
    /// wins.
    pub open spec fn spec_constrain(self, s: Size) -> Size {
        let w = if s.width >= self.min.width {
            s.width
        } else {
            self.min.width
        };
        let h = if s.height >= self.min.height {
            s.height
        } else {
            self.min.height
        };
        Size {
            width: if w <= self.max.width {
                w
            } else {
                self.max.width
            },
            height: if h <= self.max.height {
                h
            } else {
                self.max.height
            },
        }
    }

    /// `s` clamped into the constraints.
    pub fn constrain(self, s: Size) -> (r: Size)
        ensures
            r == self.spec_constrain(s),
    {
        Size {
            width: min_u64(max_u64(s.width, self.min.width), self.max.width),
            height: min_u64(max_u64(s.height, self.min.height), self.max.height),
        }
    }
}

/// How far `r` sticks out beyond a box of size `s` whose origin is at (0, 0),
/// one non-negative amount per edge.
///
/// With unsigned coordinates nothing can stick out to the left of or above the
/// origin, so the leading insets are always zero.
pub open spec fn spec_overflow_insets(r: Rect, s: Size) -> Insets {
    Insets {
        x0: 0,
        y0: 0,
        x1: if r.x1 >= s.width {
            (r.x1 - s.width) as u64
        } else {
            0
        },
        y1: if r.y1 >= s.height {
            (r.y1 - s.height) as u64
        } else {
            0
        },
    }
}

/// How far `r` sticks out beyond a box of size `s` placed at the origin.
pub fn overflow_insets(r: Rect, s: Size) -> (ins: Insets)
    ensures
        ins == spec_overflow_insets(r, s),
{
    Insets {
        x0: 0,
        y0: 0,
        x1: if r.x1 >= s.width {
            r.x1 - s.width
        } else {
            0
        },
        y1: if r.y1 >= s.height {
            r.y1 - s.height
        } else {
            0
        },
    }
}

} // verus!

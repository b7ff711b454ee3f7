use vstd::prelude::*;

use crate::geom::{Margins, Size};

verus! {

/// Content is centered within its container.
pub const CENTER: u8 = 0x01;

/// The left or top edge is pulled to the container's.
pub const PULL_BEFORE: u8 = 0x02;

/// The right or bottom edge is pulled to the container's.
pub const PULL_AFTER: u8 = 0x04;

/// The right or bottom edge is clipped to the container's.
pub const CLIP: u8 = 0x08;

/// The bits of the gravity of one axis.
pub const MASK: u8 = 0x0f;

/// Where the horizontal gravity sits in a `Gravity`.
pub const SHIFT_HOR: u8 = 0;

/// Where the vertical gravity sits in a `Gravity`.
pub const SHIFT_VER: u8 = 4;

/// The direction in which a layout places its children.
#[derive(Copy, Clone, Debug, PartialEq, Eq, Structural)]
pub enum Orientation {
    Horizontal,
    Vertical,
}

impl Orientation {
    /// The other orientation.
    pub fn ortho(self) -> (r: Orientation)
        ensures
            r != self,
    {
        match self {
            Orientation::Horizontal => Orientation::Vertical,
            Orientation::Vertical => Orientation::Horizontal,
        }
    }
}

impl Margins<i32> {
    /// The sum of the margins along `orientation`.
    pub fn along(self, orientation: Orientation) -> (r: i32)
        requires
            i32::MIN <= self.0 + self.2 <= i32::MAX,
            i32::MIN <= self.1 + self.3 <= i32::MAX,
        ensures
            r == match orientation {
                Orientation::Horizontal => self.0 + self.2,
                Orientation::Vertical => self.1 + self.3,
            },
    {
        match orientation {
            Orientation::Horizontal => self.horizontal(),
            Orientation::Vertical => self.vertical(),
        }
    }

    /// The left or top margin, depending on `orientation`.
    pub fn along_before(self, orientation: Orientation) -> (r: i32)
        ensures
            r == match orientation {
                Orientation::Horizontal => self.0,
                Orientation::Vertical => self.1,
            },
    {
        match orientation {
            Orientation::Horizontal => self.left(),
            Orientation::Vertical => self.top(),
        }
    }

    /// The right or bottom margin, depending on `orientation`.
    pub fn along_after(self, orientation: Orientation) -> (r: i32)
        ensures
            r == match orientation {
                Orientation::Horizontal => self.2,
                Orientation::Vertical => self.3,
            },
    {
        match orientation {
            Orientation::Horizontal => self.right(),
            Orientation::Vertical => self.bottom(),
        }
    }
}

impl<T: Copy> Size<T> {
    /// The width or the height, depending on `orientation`.
    pub fn along(self, orientation: Orientation) -> (r: T)
        ensures
            r == match orientation {
                Orientation::Horizontal => self.0,
                Orientation::Vertical => self.1,
            },
    {
        match orientation {
            Orientation::Horizontal => self.width(),
            Orientation::Vertical => self.height(),
        }
    }
}

/// The gravity of one axis: a set of the `CENTER`, `PULL_BEFORE`,
/// `PULL_AFTER` and `CLIP` bits.
#[derive(Copy, Clone, Debug, PartialEq, Eq, Structural)]
pub struct AxisGravity {
    pub bits: u8,
}

/// How a child is placed in its container: the horizontal gravity in the low
/// four bits, the vertical one in the high four bits.
#[derive(Copy, Clone, Debug, PartialEq, Eq, Structural)]
pub struct Gravity {
    pub bits: u8,
}

/// Left and top edges pulled to the container's.
pub const TOP_LEFT: u8 = (PULL_BEFORE << SHIFT_HOR) | (PULL_BEFORE << SHIFT_VER);

impl Gravity {
    /// The horizontal gravity.
    pub fn horizontal(self) -> (r: AxisGravity)
        ensures
            r.bits == (self.bits >> SHIFT_HOR) & MASK,
    {
        AxisGravity { bits: (self.bits >> SHIFT_HOR) & MASK }
    }

    /// The vertical gravity.
    pub fn vertical(self) -> (r: AxisGravity)
        ensures
            r.bits == (self.bits >> SHIFT_VER) & MASK,
    {
        AxisGravity { bits: (self.bits >> SHIFT_VER) & MASK }
    }

    /// The gravity along `orientation`.
    pub fn along(self, orientation: Orientation) -> (r: AxisGravity)
        ensures
            r.bits == match orientation {
                Orientation::Horizontal => (self.bits >> SHIFT_HOR) & MASK,
                Orientation::Vertical => (self.bits >> SHIFT_VER) & MASK,
            },
    {
        match orientation {
            Orientation::Horizontal => self.horizontal(),
            Orientation::Vertical => self.vertical(),
        }
    }
}

impl Default for Gravity {
    fn default() -> (r: Self)
        ensures
            r.bits == TOP_LEFT,
    {
        Gravity { bits: TOP_LEFT }
    }
}

} // verus!

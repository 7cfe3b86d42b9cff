//! Sizes and positions in physical pixels.

use vstd::prelude::*;

verus! {

/// A size in physical pixels.
#[derive(Clone, Copy, Debug, PartialEq, Eq, Structural)]
pub struct PhysicalSize {
    pub width: u32,
    pub height: u32,
}

/// A position in physical pixels.
#[derive(Clone, Copy, Debug, PartialEq, Eq, Structural)]
pub struct PhysicalPosition {
    pub x: i32,
    pub y: i32,
}

impl PhysicalSize {
    /// This size with both sides at least one pixel.
    pub open spec fn nonempty(self) -> PhysicalSize {
        PhysicalSize {
            width: if self.width == 0 {
                1
            } else {
                self.width
            },
            height: if self.height == 0 {
                1
            } else {
                self.height
            },
        }
    }

    /// This size with both sides at least one pixel: the size a surface is configured with.
    pub fn at_least_one(self) -> (size: PhysicalSize)
        ensures
            size == self.nonempty(),
    {
        PhysicalSize {
            width: if self.width == 0 {
                1
            } else {
                self.width
            },
            height: if self.height == 0 {
                1
            } else {
                self.height
            },
        }
    }
}

/// Each side counts at least one pixel, and one that does anyway is left as it is.
pub proof fn law_sides_count_at_least_one(size: PhysicalSize)
    ensures
        size.nonempty().width >= 1,
        size.nonempty().height >= 1,
        size.width >= 1 ==> size.nonempty().width == size.width,
        size.height >= 1 ==> size.nonempty().height == size.height,
        size.width == 0 ==> size.nonempty().width == 1,
        size.height == 0 ==> size.nonempty().height == 1,
{
}

} // verus!

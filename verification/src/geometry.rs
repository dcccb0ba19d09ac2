//! Positions and sizes.

use vstd::prelude::*;

verus! {

/// A position.
pub struct Point<C> {
    pub x: C,
    pub y: C,
}

/// A size in logical points.
pub struct LogicalSize<C> {
    pub width: C,
    pub height: C,
}

/// A size in physical pixels.
#[derive(Clone, Copy, Debug, PartialEq, Eq, Structural)]
pub struct PhysicalSize {
    pub width: u32,
    pub height: u32,
}

/// A window's size in both units, and the factor between them.
pub struct WindowSize<C> {
    pub physical: PhysicalSize,
    pub logical: LogicalSize<C>,
    pub scale_factor: C,
}

impl<C: Copy> Copy for Point<C> {

}

impl<C: Copy> Clone for Point<C> {
    fn clone(&self) -> (copy: Self)
        ensures
            copy == *self,
    {
        *self
    }
}

impl<C: Copy> Copy for LogicalSize<C> {

}

impl<C: Copy> Clone for LogicalSize<C> {
    fn clone(&self) -> (copy: Self)
        ensures
            copy == *self,
    {
        *self
    }
}

impl<C: Copy> Copy for WindowSize<C> {

}

impl<C: Copy> Clone for WindowSize<C> {
    fn clone(&self) -> (copy: Self)
        ensures
            copy == *self,
    {
        *self
    }
}

/// The extent of a surface asked to be `extent` pixels long: a surface has at
/// least one pixel in each direction.
pub open spec fn clamped(extent: u32) -> u32 {
    if extent == 0 {
        1
    } else {
        extent
    }
}

impl PhysicalSize {
    /// This size with each extent raised to at least one pixel.
    pub open spec fn spec_at_least_one(self) -> PhysicalSize {
        PhysicalSize { width: clamped(self.width), height: clamped(self.height) }
    }

    /// Raises each extent to at least one pixel.
    pub fn at_least_one(self) -> (size: PhysicalSize)
        ensures
            size.width >= 1 && size.height >= 1,
            self.width >= 1 ==> size.width == self.width,
            self.height >= 1 ==> size.height == self.height,
            self.width == 0 ==> size.width == 1,
            self.height == 0 ==> size.height == 1,
            size == self.spec_at_least_one(),
    {
        PhysicalSize {
            width: if self.width < 1 { 1 } else { self.width },
            height: if self.height < 1 { 1 } else { self.height },
        }
    }
}

/// Raising a size to at least one pixel gives the least size that has one and is
/// nowhere smaller, each extent by itself; a size that has a pixel stays as it is.
pub proof fn law_raised_size_is_the_least(size: PhysicalSize, other: PhysicalSize)
    ensures
        ({
            let raised = size.spec_at_least_one();
            &&& raised.width >= 1 && raised.height >= 1
            &&& raised.width >= size.width && raised.height >= size.height
            &&& other.width >= 1 && other.width >= size.width ==> other.width >= raised.width
            &&& other.height >= 1 && other.height >= size.height ==> other.height >= raised.height
            &&& size.width >= 1 && size.height >= 1 ==> raised == size
        }),
{
}

} // verus!

//! Plain values for what the window system measures.

use vstd::prelude::*;

verus! {

/// The edges of a rectangle, in pixels.
#[derive(Clone, Copy, Debug, PartialEq, Eq, Structural)]
pub struct Rect {
    pub left: i32,
    pub top: i32,
    pub right: i32,
    pub bottom: i32,
}

/// A position, in pixels.
#[derive(Clone, Copy, Debug, PartialEq, Eq, Structural)]
pub struct Point {
    pub x: i32,
    pub y: i32,
}

/// A width and a height, in pixels.
#[derive(Clone, Copy, Debug, PartialEq, Eq, Structural)]
pub struct Size {
    pub width: i32,
    pub height: i32,
}

impl Rect {
    /// Both extents of the rectangle are representable.
    pub open spec fn measurable(self) -> bool {
        &&& i32::MIN <= self.right - self.left <= i32::MAX
        &&& i32::MIN <= self.bottom - self.top <= i32::MAX
    }

    /// The extents of the rectangle.
    pub open spec fn extents(self) -> Size {
        Size {
            width: (self.right - self.left) as i32,
            height: (self.bottom - self.top) as i32,
        }
    }

    /// Whether both extents of the rectangle are representable, which is what
    /// [`Rect::size`] asks for.
    pub fn is_measurable(&self) -> (yes: bool)
        ensures
            yes == self.measurable(),
    {
        self.right.checked_sub(self.left).is_some() && self.bottom.checked_sub(self.top).is_some()
    }

    /// The distance between the left and the right edge, and between the top
    /// and the bottom edge.
    pub fn size(&self) -> (size: Size)
        requires
            self.measurable(),
        ensures
            size.width == self.right - self.left,
            size.height == self.bottom - self.top,
            size == self.extents(),
    {
        Size { width: self.right - self.left, height: self.bottom - self.top }
    }
}

/// The client rectangle of a window, from what the window system answered when
/// it was asked for it: whether it succeeded, and what it wrote.
pub fn get_client_rect(succeeded: bool, written: Rect) -> (rect: Option<Rect>)
    ensures
        rect == (if succeeded {
            Some(written)
        } else {
            None
        }),
{
    if succeeded {
        Some(written)
    } else {
        None
    }
}

} // verus!

//! What the overlay has done to a window, and how it is undone.

use vstd::prelude::*;

use crate::geometry::Rect;
use crate::viewport::{compare_viewport, remembered, resized, SavedViewport};

verus! {

/// A window procedure and the window that it belongs to.
#[derive(Clone, Copy, Debug, PartialEq, Eq, Structural)]
pub struct WndProcBinding {
    /// The handle of the window.
    pub hwnd: isize,
    /// The address of the procedure.
    pub wnd_proc: isize,
}

/// A renderer of an overlay, which has put its own window procedure in the
/// place of the window's.
#[derive(Clone, Copy, Debug)]
pub struct WindowRenderer {
    /// The window and its own procedure.
    pub binding: WndProcBinding,
    /// What the renderer first saw of the window, once it was compared.
    pub resolution_and_rect: Option<SavedViewport>,
}

impl WindowRenderer {
    /// The renderer once it was shown `viewport` and `rect`.
    pub open spec fn shown(self, viewport: Seq<i32>, rect: Rect) -> WindowRenderer {
        WindowRenderer {
            resolution_and_rect: Some(remembered(self.resolution_and_rect, viewport, rect)),
            ..self
        }
    }

    /// `viewport` and `rect` are not what the renderer first saw.
    pub open spec fn outdated(self, viewport: Seq<i32>, rect: Rect) -> bool {
        resized(remembered(self.resolution_and_rect, viewport, rect), viewport, rect)
    }

    /// A renderer for a window.  It has not seen how large the window is.
    pub fn new(binding: WndProcBinding) -> (renderer: WindowRenderer)
        ensures
            renderer == (WindowRenderer { binding, resolution_and_rect: None }),
    {
        WindowRenderer { binding, resolution_and_rect: None }
    }

    /// What is put back when the renderer goes: the window's own procedure.
    pub fn cleanup(&self) -> (restore: WndProcBinding)
        ensures
            restore == self.binding,
    {
        self.binding
    }

    /// Compares what is on the screen now with what the renderer first saw.
    pub fn compare(&mut self, viewport: &[i32; 4], rect: Rect) -> (changed: bool)
        ensures
            *final(self) == old(self).shown(viewport@, rect),
            changed == old(self).outdated(viewport@, rect),
    {
        compare_viewport(&mut self.resolution_and_rect, viewport, rect)
    }
}

/// The renderer that is left of `slot` once it was shown `viewport` and `rect`:
/// none, if they are not what it first saw.
pub open spec fn left_after(
    slot: Option<WindowRenderer>,
    viewport: Seq<i32>,
    rect: Rect,
) -> Option<WindowRenderer> {
    match slot {
        Some(renderer) => if renderer.outdated(viewport, rect) {
            None
        } else {
            Some(renderer.shown(viewport, rect))
        },
        None => None,
    }
}

/// What is put back when `slot` is shown `viewport` and `rect`.
pub open spec fn put_back_after(
    slot: Option<WindowRenderer>,
    viewport: Seq<i32>,
    rect: Rect,
) -> Option<WndProcBinding> {
    match slot {
        Some(renderer) => if renderer.outdated(viewport, rect) {
            Some(renderer.binding)
        } else {
            None
        },
        None => None,
    }
}

/// The window and its own procedure, if there is a renderer.
pub open spec fn binding_of(slot: Option<WindowRenderer>) -> Option<WndProcBinding> {
    match slot {
        Some(renderer) => Some(renderer.binding),
        None => None,
    }
}

/// Compares the window with what the renderer in `slot` first saw of it.  If it
/// has changed, the renderer goes, and the result is what is put back.
pub fn reset_slot(slot: &mut Option<WindowRenderer>, viewport: &[i32; 4], rect: Rect) -> (restore:
    Option<WndProcBinding>)
    ensures
        *final(slot) == left_after(*old(slot), viewport@, rect),
        restore == put_back_after(*old(slot), viewport@, rect),
{
    match slot.take() {
        Some(mut renderer) => {
            if renderer.compare(viewport, rect) {
                Some(renderer.cleanup())
            } else {
                *slot = Some(renderer);
                None
            }
        },
        None => None,
    }
}

} // verus!

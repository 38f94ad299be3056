//! One frame of the overlay, as a conversation with the window system.
//!
//! A [`Frame`] says by its step what it wants to know next.  The host finds it
//! out and hands the answer to [`Frame::advance`], which says what to tell the
//! toolkit and moves on to the next step, until the frame is painted.  The
//! renderer is locked for as long as there is a frame of it.

use vstd::prelude::*;

use crate::clock::{elapsed, FrameClock};
use crate::geometry::{Point, Rect, Size};
use crate::lock::RendererGuard;
use crate::win32::{as_bool, flag_set, handle_invalid, handle_is_invalid};

verus! {

/// What a frame wants next.
#[derive(Clone, Copy, Debug, PartialEq, Eq, Structural)]
pub enum FrameStep {
    /// The client rectangle of the game's window.
    ClientRect,
    /// The window in the foreground.
    Foreground,
    /// Whether the game's window is a child of `active`.
    IsChild { active: isize },
    /// Where the mouse cursor is on the screen.
    CursorPos,
    /// Where `pos` on the screen is in the client area of the game's window.
    ScreenToClient { pos: Point },
    /// A first reading of the time, to count from.
    FirstClock,
    /// A reading of the time.
    Clock,
    /// That the toolkit begins a new frame.
    NewFrame,
    /// That the render loop draws in the new frame.
    RenderLoop,
    /// That the toolkit's renderer draws the frame in the window.
    DrawFrame,
    /// Nothing: the frame is painted.
    Done,
}

/// The answer to what a frame wanted.
#[derive(Clone, Copy, Debug, PartialEq, Eq, Structural)]
pub enum FrameReply {
    /// The client rectangle, if it could be had.
    ClientRect(Option<Rect>),
    /// The handle of the window in the foreground.
    Foreground(isize),
    /// A flag that is set if the game's window is a child of the other.
    IsChild(i32),
    /// The position of the cursor, if it could be had.
    CursorPos(Option<Point>),
    /// A flag that is set if the position could be translated, and the
    /// position afterwards.
    ScreenToClient(i32, Point),
    /// Nanoseconds since some fixed moment.
    Clock(u64),
    /// It was done.
    Done,
}

/// What the host does on account of an answer.
#[derive(Clone, Copy, Debug, PartialEq, Eq, Structural)]
pub enum FrameEffect {
    /// Nothing.
    Nothing,
    /// It reports that the client rectangle could not be had.
    RectUnavailable,
    /// It tells the toolkit how large the display is.
    DisplaySize(Size),
    /// It tells the toolkit where the mouse is.
    MousePos(Point),
    /// It tells the toolkit how many nanoseconds have passed since the last
    /// frame.
    DeltaTime(u64),
}

/// A frame that is being prepared for the window `game_hwnd`, with the lock of
/// its renderer held.
pub struct Frame<'a> {
    pub game_hwnd: isize,
    pub step: FrameStep,
    pub guard: RendererGuard<'a>,
}

/// `reply` answers `step`.
pub open spec fn answers(step: FrameStep, reply: FrameReply) -> bool {
    match step {
        FrameStep::ClientRect => reply matches FrameReply::ClientRect(rect) && (rect matches Some(
            r,
        ) ==> r.measurable()),
        FrameStep::Foreground => reply is Foreground,
        FrameStep::IsChild { .. } => reply is IsChild,
        FrameStep::CursorPos => reply is CursorPos,
        FrameStep::ScreenToClient { .. } => reply is ScreenToClient,
        FrameStep::FirstClock => reply is Clock,
        FrameStep::Clock => reply is Clock,
        FrameStep::NewFrame => reply is Done,
        FrameStep::RenderLoop => reply is Done,
        FrameStep::DrawFrame => reply is Done,
        FrameStep::Done => false,
    }
}

/// What comes when the mouse is dealt with: the time, and before it a reading
/// to count from if there was no frame yet.
pub open spec fn clock_step(last: Option<u64>) -> FrameStep {
    match last {
        Some(_) => FrameStep::Clock,
        None => FrameStep::FirstClock,
    }
}

/// What a frame for the window `game_hwnd` wants after `step` was answered by
/// `reply`.
pub open spec fn step_after(
    game_hwnd: isize,
    step: FrameStep,
    last: Option<u64>,
    reply: FrameReply,
) -> FrameStep {
    match reply {
        FrameReply::ClientRect(Some(_)) => FrameStep::Foreground,
        FrameReply::ClientRect(None) => clock_step(last),
        FrameReply::Foreground(active) => if handle_invalid(active) {
            clock_step(last)
        } else if active == game_hwnd {
            FrameStep::CursorPos
        } else {
            FrameStep::IsChild { active }
        },
        FrameReply::IsChild(flag) => if flag_set(flag) {
            FrameStep::CursorPos
        } else {
            clock_step(last)
        },
        FrameReply::CursorPos(Some(pos)) => FrameStep::ScreenToClient { pos },
        FrameReply::CursorPos(None) => clock_step(last),
        FrameReply::ScreenToClient(_, _) => clock_step(last),
        FrameReply::Clock(_) => if step == FrameStep::FirstClock {
            FrameStep::Clock
        } else {
            FrameStep::NewFrame
        },
        FrameReply::Done => match step {
            FrameStep::NewFrame => FrameStep::RenderLoop,
            FrameStep::RenderLoop => FrameStep::DrawFrame,
            _ => FrameStep::Done,
        },
    }
}

/// What the host does when `step` is answered by `reply`.
pub open spec fn effect_of(step: FrameStep, last: Option<u64>, reply: FrameReply) -> FrameEffect {
    match reply {
        FrameReply::ClientRect(Some(rect)) => FrameEffect::DisplaySize(rect.extents()),
        FrameReply::ClientRect(None) => FrameEffect::RectUnavailable,
        FrameReply::ScreenToClient(flag, pos) => if flag_set(flag) {
            FrameEffect::MousePos(pos)
        } else {
            FrameEffect::Nothing
        },
        FrameReply::Clock(now) => if step == FrameStep::Clock {
            FrameEffect::DeltaTime(elapsed(last->0, now))
        } else {
            FrameEffect::Nothing
        },
        _ => FrameEffect::Nothing,
    }
}

/// What the clock has last seen when `reply` is dealt with.
pub open spec fn last_after(last: Option<u64>, reply: FrameReply) -> Option<u64> {
    match reply {
        FrameReply::Clock(now) => Some(now),
        _ => last,
    }
}

/// The clock has been started if more of a frame is wanted than its first
/// reading, and has not if the first one is.
pub open spec fn clock_agrees(step: FrameStep, last: Option<u64>) -> bool {
    match step {
        FrameStep::FirstClock => last is None,
        FrameStep::Clock => last is Some,
        FrameStep::NewFrame => last is Some,
        FrameStep::RenderLoop => last is Some,
        FrameStep::DrawFrame => last is Some,
        FrameStep::Done => last is Some,
        _ => true,
    }
}

impl<'a> Frame<'a> {
    /// A frame for the window `game_hwnd`, of which nothing is known yet, under
    /// the lock of its renderer.
    pub(crate) fn new(game_hwnd: isize, guard: RendererGuard<'a>) -> (frame: Frame<'a>)
        ensures
            frame == (Frame { game_hwnd, step: FrameStep::ClientRect, guard }),
    {
        Frame { game_hwnd, step: FrameStep::ClientRect, guard }
    }

    /// What follows once the mouse is dealt with.
    fn to_clock(clock: &FrameClock) -> (step: FrameStep)
        ensures
            step == clock_step(clock@),
    {
        if clock.is_unset() {
            FrameStep::FirstClock
        } else {
            FrameStep::Clock
        }
    }

    /// Takes the answer to what the frame wanted.
    ///
    /// The mouse is only asked for while the game's window, or a window that it
    /// is a child of, is in the foreground.
    pub fn advance(&mut self, clock: &mut FrameClock, reply: FrameReply) -> (effect: FrameEffect)
        requires
            answers(old(self).step, reply),
            clock_agrees(old(self).step, old(clock)@),
        ensures
            final(self).game_hwnd == old(self).game_hwnd,
            final(self).step == step_after(
                old(self).game_hwnd,
                old(self).step,
                old(clock)@,
                reply,
            ),
            effect == effect_of(old(self).step, old(clock)@, reply),
            final(clock)@ == last_after(old(clock)@, reply),
            clock_agrees(final(self).step, final(clock)@),
            final(self).guard == old(self).guard,
    {
        match reply {
            FrameReply::ClientRect(Some(rect)) => {
                self.step = FrameStep::Foreground;
                FrameEffect::DisplaySize(rect.size())
            },
            FrameReply::ClientRect(None) => {
                self.step = Self::to_clock(clock);
                FrameEffect::RectUnavailable
            },
            FrameReply::Foreground(active) => {
                self.step = if handle_is_invalid(active) {
                    Self::to_clock(clock)
                } else if active == self.game_hwnd {
                    FrameStep::CursorPos
                } else {
                    FrameStep::IsChild { active }
                };
                FrameEffect::Nothing
            },
            FrameReply::IsChild(flag) => {
                self.step = if as_bool(flag) {
                    FrameStep::CursorPos
                } else {
                    Self::to_clock(clock)
                };
                FrameEffect::Nothing
            },
            FrameReply::CursorPos(Some(pos)) => {
                self.step = FrameStep::ScreenToClient { pos };
                FrameEffect::Nothing
            },
            FrameReply::CursorPos(None) => {
                self.step = Self::to_clock(clock);
                FrameEffect::Nothing
            },
            FrameReply::ScreenToClient(flag, pos) => {
                self.step = Self::to_clock(clock);
                if as_bool(flag) {
                    FrameEffect::MousePos(pos)
                } else {
                    FrameEffect::Nothing
                }
            },
            FrameReply::Clock(now) => {
                if self.step == FrameStep::FirstClock {
                    clock.start(now);
                    self.step = FrameStep::Clock;
                    FrameEffect::Nothing
                } else {
                    self.step = FrameStep::NewFrame;
                    FrameEffect::DeltaTime(clock.tick(now))
                }
            },
            FrameReply::Done => {
                self.step = match self.step {
                    FrameStep::NewFrame => FrameStep::RenderLoop,
                    FrameStep::RenderLoop => FrameStep::DrawFrame,
                    _ => FrameStep::Done,
                };
                FrameEffect::Nothing
            },
        }
    }
}

} // verus!

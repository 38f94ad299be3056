//! What holds of single calls, and of two calls one after the other, by what
//! goes in and what comes out.

use vstd::prelude::*;

use crate::clock::FrameClock;
use crate::frame::{Frame, FrameEffect, FrameReply, FrameStep};
use crate::geometry::{get_client_rect, Rect, Size};
use crate::hooks::{
    function_name, module_name, EguiOpenGl3Hooks, ImguiOpenGl3Hooks, MhHook, SetupError,
    SetupReply, SetupStep,
};
use crate::lock::{Access, LockRequest, RendererGuard, RendererLock};
use crate::once::SetOnce;
use crate::panel::{
    contents, texts, LabelColor, PanelInput, PanelPlan, PanelState, Widget, WindowPlan,
};
use crate::renderer::{reset_slot, WindowRenderer, WndProcBinding};
use crate::state::{
    route_message, DrawReply, DrawStep, EguiDraw, EguiInit, HookState, HookView, SwapStep,
    Unhooked, WndProcRoute,
};
use crate::text::{decimal, flag_text, push_decimal};
use crate::viewport::{compare_viewport, SavedViewport};

verus! {

// ---------------------------------------------------------------------------
// Who gets a renderer
// ---------------------------------------------------------------------------

/// A renderer that is there is held just when an attempt to lock its mutex gave
/// the guard, and is busy only when an attempt gave none.  One that is not there
/// is neither.
pub proof fn law_try_access<'a>(lock: &'a RendererLock, present: bool, access: Access<'a>)
    requires
        call_ensures(RendererLock::try_access, (lock, present), access),
    ensures
        match access {
            Access::Absent => !present,
            Access::Busy => present && lock.tried(None),
            Access::Held(guard) => present && lock.tried(Some(guard)) && guard.locks(*lock),
        },
{
}

/// A reference to a lock is a request for that lock and for no other.
pub proof fn law_reference_requests_its_lock<'a>(
    lock: &'a RendererLock,
    present: bool,
    access: Access<'a>,
)
    requires
        call_ensures(<&'a RendererLock as LockRequest<'a>>::try_access, (lock, present), access),
    ensures
        lock.lock() == *lock,
        call_ensures(RendererLock::try_access, (lock, present), access),
{
}

/// Waiting for a lock gives a guard of that lock, which stays the one it was.
pub proof fn law_access<'a>(lock: &'a mut RendererLock, guard: RendererGuard<'a>)
    requires
        call_ensures(RendererLock::access, (lock,), guard),
    ensures
        guard.locks(*old(lock)),
        *final(lock) == *old(lock),
{
}

/// An attempt that gave a guard gives that guard, and one that gave none leaves
/// the renderer busy.
pub proof fn law_from_attempt<'a>(attempt: Option<RendererGuard<'a>>, access: Access<'a>)
    requires
        call_ensures(Access::from_attempt, (attempt,), access),
    ensures
        attempt is None <==> access is Busy,
        attempt matches Some(guard) ==> access == Access::Held(guard),
{
}

/// Where there is a renderer, a window message goes to it just when one attempt
/// to take its lock gives a guard, which goes along, and the message finds it
/// busy only when that attempt gives none.  Nothing else decides.
pub proof fn law_message_follows_the_attempt<'a, L, R: LockRequest<'a>>(
    state: &'a HookState<L>,
    lock: R,
    route: WndProcRoute<'a, L>,
)
    requires
        state@.imgui is Some,
        lock.lock() == state@.imgui_lock,
        call_ensures(HookState::<L>::wnd_proc::<R>, (state, lock), route),
    ensures
        exists|access: Access<'a>| #[trigger]
            call_ensures(R::try_access, (lock, true), access) && match route {
                WndProcRoute::Unhooked => false,
                WndProcRoute::Busy => access is Busy,
                WndProcRoute::Handle { guard, .. } => access == Access::Held(guard),
            },
        match route {
            WndProcRoute::Unhooked => false,
            WndProcRoute::Busy => state@.imgui_lock.tried(None),
            WndProcRoute::Handle { guard, render_loop } => state@.imgui_lock.tried(Some(guard))
                && guard.locks(state@.imgui_lock) && state@.render_loop == Some(*render_loop),
        },
{
}

/// Only where there is a guard is there a route to the render loop, and it is the
/// guard and the render loop that were handed in.
pub proof fn law_route<'a, L>(
    access: Access<'a>,
    render_loop: Option<&'a L>,
    route: WndProcRoute<'a, L>,
)
    requires
        access is Held ==> render_loop is Some,
        call_ensures(route_message::<L>, (access, render_loop), route),
    ensures
        access is Absent <==> route is Unhooked,
        access is Busy <==> route is Busy,
        route matches WndProcRoute::Handle { guard, render_loop: used } ==> access == Access::Held(
            guard,
        ) && render_loop == Some(used),
{
}

/// Where there is no renderer, no window message goes to one.
pub proof fn law_message_without_renderer<'a, L, R: LockRequest<'a>>(
    state: &'a HookState<L>,
    lock: R,
    route: WndProcRoute<'a, L>,
)
    requires
        state@.imgui is None,
        lock.lock() == state@.imgui_lock,
        call_ensures(HookState::<L>::wnd_proc::<R>, (state, lock), route),
    ensures
        route is Unhooked,
{
}

/// Where there is an ImGui renderer, the window is compared just when one attempt
/// to take the renderer's lock gives a guard, whatever the renderer remembers of
/// the window.
pub proof fn law_reset_follows_the_attempt<'a, L, R: LockRequest<'a>>(
    state: &HookState<L>,
    lock: R,
    access: Access<'a>,
)
    requires
        lock.lock() == state@.imgui_lock,
        call_ensures(HookState::<L>::begin_reset::<R>, (state, lock), access),
    ensures
        state@.imgui is Some ==> call_ensures(R::try_access, (lock, true), access),
        match access {
            Access::Absent => state@.imgui is None,
            Access::Busy => state@.imgui is Some && state@.imgui_lock.tried(None),
            Access::Held(guard) => state@.imgui is Some && state@.imgui_lock.tried(Some(guard))
                && guard.locks(state@.imgui_lock),
        },
{
}

/// As [`law_reset_follows_the_attempt`], for the egui renderer.
pub proof fn law_egui_reset_follows_the_attempt<'a, L, R: LockRequest<'a>>(
    state: &HookState<L>,
    lock: R,
    access: Access<'a>,
)
    requires
        lock.lock() == state@.egui_lock,
        call_ensures(HookState::<L>::begin_egui_reset::<R>, (state, lock), access),
    ensures
        state@.egui is Some ==> call_ensures(R::try_access, (lock, true), access),
        match access {
            Access::Absent => state@.egui is None,
            Access::Busy => state@.egui is Some && state@.egui_lock.tried(None),
            Access::Held(guard) => state@.egui is Some && state@.egui_lock.tried(Some(guard))
                && guard.locks(state@.egui_lock),
        },
{
}

// ---------------------------------------------------------------------------
// Places that are filled once
// ---------------------------------------------------------------------------

/// A new place is empty.
pub proof fn law_new_place<T>(cell: SetOnce<T>, value: Option<&T>)
    requires
        call_ensures(SetOnce::<T>::new, (), cell),
        call_ensures(SetOnce::<T>::get, (&cell,), value),
    ensures
        value is None,
{
}

/// What is put in an empty place is what is found there, and a place that is
/// filled stays as it is.
pub proof fn law_place_is_filled_once<T>(
    cell: &mut SetOnce<T>,
    offered: T,
    before: Option<&T>,
    after: Option<&T>,
)
    requires
        call_ensures(SetOnce::<T>::get, (&*old(cell),), before),
        call_ensures(SetOnce::<T>::get_or_init, (cell, offered), ()),
        call_ensures(SetOnce::<T>::get, (&*final(cell),), after),
    ensures
        before is None ==> after == Some(&offered),
        before is Some ==> after == before,
{
}

/// What is taken out of a place is what was found there, and nothing is found
/// there afterwards.
pub proof fn law_place_is_emptied<T>(
    cell: &mut SetOnce<T>,
    before: Option<&T>,
    taken: Option<T>,
    after: Option<&T>,
)
    requires
        call_ensures(SetOnce::<T>::get, (&*old(cell),), before),
        call_ensures(SetOnce::<T>::take, (cell,), taken),
        call_ensures(SetOnce::<T>::get, (&*final(cell),), after),
    ensures
        before is Some <==> taken is Some,
        before matches Some(value) ==> taken == Some(*value),
        after is None,
{
}

/// What is written through the access to a place is what is found there.
pub proof fn law_place_is_written<T>(
    cell: &mut SetOnce<T>,
    before: Option<&T>,
    access: Option<&mut T>,
    after: Option<&T>,
)
    requires
        call_ensures(SetOnce::<T>::get, (&*old(cell),), before),
        call_ensures(SetOnce::<T>::get_mut, (cell,), access),
        call_ensures(SetOnce::<T>::get, (&*final(cell),), after),
    ensures
        access is Some <==> before is Some,
        access is Some <==> after is Some,
        access matches Some(value) ==> before == Some(&*value) && after == Some(&*final(value)),
{
}

// ---------------------------------------------------------------------------
// Resizing
// ---------------------------------------------------------------------------

/// The first that is seen of a window is remembered as it is seen, and is not a
/// change.  From there on what is remembered stays, and a change is another
/// width or height of the viewport or another right or bottom edge of the window.
pub proof fn law_compare_viewport(
    saved: &mut Option<SavedViewport>,
    viewport: &[i32; 4],
    rect: Rect,
    changed: bool,
)
    requires
        call_ensures(compare_viewport, (saved, viewport, rect), changed),
    ensures
        *old(saved) is None ==> !changed && *final(saved) == Some(
            SavedViewport {
                resolution: Size { width: viewport@[2], height: viewport@[3] },
                window_rect: rect,
            },
        ),
        *old(saved) matches Some(first) ==> {
            &&& *final(saved) == Some(first)
            &&& !changed <==> {
                &&& viewport@[2] == first.resolution.width
                &&& viewport@[3] == first.resolution.height
                &&& rect.right == first.window_rect.right
                &&& rect.bottom == first.window_rect.bottom
            }
        },
{
}

/// A new renderer belongs to the window that it is made for and has seen nothing
/// of it.  What is put back when a renderer goes is the procedure of its window.
pub proof fn law_renderer_keeps_its_window(
    binding: WndProcBinding,
    renderer: WindowRenderer,
    restore: WndProcBinding,
)
    requires
        call_ensures(WindowRenderer::new, (binding,), renderer),
        call_ensures(WindowRenderer::cleanup, (&renderer,), restore),
    ensures
        renderer.binding == binding,
        renderer.resolution_and_rect is None,
        restore == binding,
{
}

/// Putting back does not depend on what the renderer has seen of its window.
pub proof fn law_cleanup(renderer: WindowRenderer, restore: WndProcBinding)
    requires
        call_ensures(WindowRenderer::cleanup, (&renderer,), restore),
    ensures
        restore.hwnd == renderer.binding.hwnd,
        restore.wnd_proc == renderer.binding.wnd_proc,
{
}

/// A renderer compares its window with what it has seen first, and keeps the
/// window.
pub proof fn law_renderer_compares(
    renderer: &mut WindowRenderer,
    viewport: &[i32; 4],
    rect: Rect,
    changed: bool,
)
    requires
        call_ensures(WindowRenderer::compare, (renderer, viewport, rect), changed),
    ensures
        final(renderer).binding == old(renderer).binding,
        old(renderer).resolution_and_rect is None ==> !changed
            && final(renderer).resolution_and_rect == Some(
            SavedViewport {
                resolution: Size { width: viewport@[2], height: viewport@[3] },
                window_rect: rect,
            },
        ),
        old(renderer).resolution_and_rect matches Some(first) ==> {
            &&& final(renderer).resolution_and_rect == Some(first)
            &&& !changed <==> {
                &&& viewport@[2] == first.resolution.width
                &&& viewport@[3] == first.resolution.height
                &&& rect.right == first.window_rect.right
                &&& rect.bottom == first.window_rect.bottom
            }
        },
{
}

/// What is left of `before` and what is put back, when the window shows
/// `viewport` and `rect`: nothing happens without a renderer; one that has seen
/// nothing remembers what it sees; one that sees what it has seen first stays as
/// it is; and any other goes, and the procedure of its window is put back.
pub open spec fn is_reset(
    before: Option<WindowRenderer>,
    viewport: Seq<i32>,
    rect: Rect,
    after: Option<WindowRenderer>,
    restore: Option<WndProcBinding>,
) -> bool {
    &&& before is None ==> after is None && restore is None
    &&& before matches Some(renderer) ==> {
        &&& renderer.resolution_and_rect is None ==> restore is None && after == Some(
            WindowRenderer {
                binding: renderer.binding,
                resolution_and_rect: Some(
                    SavedViewport {
                        resolution: Size { width: viewport[2], height: viewport[3] },
                        window_rect: rect,
                    },
                ),
            },
        )
        &&& renderer.resolution_and_rect matches Some(first) ==> {
            let same = {
                &&& viewport[2] == first.resolution.width
                &&& viewport[3] == first.resolution.height
                &&& rect.right == first.window_rect.right
                &&& rect.bottom == first.window_rect.bottom
            };
            &&& same ==> restore is None && after == before
            &&& !same ==> restore == Some(renderer.binding) && after is None
        }
    }
}

/// A renderer goes just when the window is not what it has seen first.
pub proof fn law_reset_slot(
    slot: &mut Option<WindowRenderer>,
    viewport: &[i32; 4],
    rect: Rect,
    restore: Option<WndProcBinding>,
)
    requires
        call_ensures(reset_slot, (slot, viewport, rect), restore),
    ensures
        is_reset(*old(slot), viewport@, rect, *final(slot), restore),
{
}

/// The end of a comparison is that of the ImGui renderer, and nothing else
/// changes.
pub proof fn law_finish_reset<L>(
    state: &mut HookState<L>,
    guard: &RendererGuard<'_>,
    viewport: &[i32; 4],
    rect: Rect,
    restore: Option<WndProcBinding>,
)
    requires
        call_ensures(HookState::<L>::finish_reset, (state, guard, viewport, rect), restore),
    ensures
        is_reset(old(state)@.imgui, viewport@, rect, final(state)@.imgui, restore),
        final(state)@ == (HookView { imgui: final(state)@.imgui, ..old(state)@ }),
{
}

/// The end of a comparison is that of the egui renderer, and nothing else
/// changes.
pub proof fn law_finish_egui_reset<L>(
    state: &mut HookState<L>,
    guard: &RendererGuard<'_>,
    viewport: &[i32; 4],
    rect: Rect,
    restore: Option<WndProcBinding>,
)
    requires
        call_ensures(HookState::<L>::finish_egui_reset, (state, guard, viewport, rect), restore),
    ensures
        is_reset(old(state)@.egui, viewport@, rect, final(state)@.egui, restore),
        final(state)@ == (HookView { egui: final(state)@.egui, ..old(state)@ }),
{
}

// ---------------------------------------------------------------------------
// Hooking and unhooking
// ---------------------------------------------------------------------------

/// A new state has nothing in it and belongs to the locks that it is made with.
pub proof fn law_new_state<L>(
    imgui_lock: &RendererLock,
    egui_lock: &RendererLock,
    state: HookState<L>,
)
    requires
        call_ensures(HookState::<L>::new, (imgui_lock, egui_lock), state),
    ensures
        state@.render_loop is None,
        state@.trampoline is None,
        state@.imgui is None,
        state@.egui is None,
        state@.egui_init == EguiInit::New,
        state@.imgui_lock == *imgui_lock,
        state@.egui_lock == *egui_lock,
{
}

/// `after` is `before` with the render loop and the trampoline that were handed
/// in, each where there was none.
pub open spec fn is_installed<L>(
    before: HookView<L>,
    render_loop: L,
    trampoline: usize,
    after: HookView<L>,
) -> bool {
    &&& before.render_loop is None ==> after.render_loop == Some(render_loop)
    &&& before.render_loop is Some ==> after.render_loop == before.render_loop
    &&& before.trampoline is None ==> after.trampoline == Some(trampoline)
    &&& before.trampoline is Some ==> after.trampoline == before.trampoline
    &&& after == (HookView {
        render_loop: after.render_loop,
        trampoline: after.trampoline,
        ..before
    })
}

/// A hook sets the render loop and the trampoline where they are not set, to
/// exactly what was handed in, and leaves them alone where they are.  It changes
/// nothing else.
pub proof fn law_install<L>(state: &mut HookState<L>, render_loop: L, trampoline: usize)
    requires
        call_ensures(HookState::<L>::install, (state, render_loop, trampoline), ()),
    ensures
        is_installed(old(state)@, render_loop, trampoline, final(state)@),
{
}

/// After the first hook of a new state its trampoline is the one in use, it is
/// what the detour ends with, and the render loop is the one that was handed in.
pub proof fn law_first_hook_is_in_use<L>(
    imgui_lock: &RendererLock,
    egui_lock: &RendererLock,
    state: &mut HookState<L>,
    t: L,
    trampoline: usize,
    used: Option<usize>,
    render_loop: Option<&L>,
    last: SwapStep,
)
    requires
        call_ensures(HookState::<L>::new, (imgui_lock, egui_lock), *old(state)),
        call_ensures(HookState::<L>::install, (state, t, trampoline), ()),
        call_ensures(HookState::<L>::trampoline, (&*final(state),), used),
        call_ensures(HookState::<L>::render_loop, (&*final(state),), render_loop),
        call_ensures(HookState::<L>::next_swap_step, (&*final(state), SwapStep::Reset), last),
    ensures
        used == Some(trampoline),
        render_loop == Some(&t),
        last == (SwapStep::CallOriginal { trampoline }),
{
}

/// A second hook changes nothing that can be seen of the first.
pub proof fn law_second_hook_is_not_in_use<L>(
    state: &mut HookState<L>,
    t: L,
    trampoline: usize,
    trampolines: (Option<usize>, Option<usize>),
    render_loops: (Option<&L>, Option<&L>),
)
    requires
        old(state)@.render_loop is Some,
        old(state)@.trampoline is Some,
        call_ensures(HookState::<L>::trampoline, (&*old(state),), trampolines.0),
        call_ensures(HookState::<L>::render_loop, (&*old(state),), render_loops.0),
        call_ensures(HookState::<L>::install, (state, t, trampoline), ()),
        call_ensures(HookState::<L>::trampoline, (&*final(state),), trampolines.1),
        call_ensures(HookState::<L>::render_loop, (&*final(state),), render_loops.1),
    ensures
        final(state)@ == old(state)@,
        trampolines.0 == trampolines.1,
        render_loops.0 == render_loops.1,
{
}

/// What can be read of a state is what is in it.
pub proof fn law_state_is_read<L>(
    state: &HookState<L>,
    render_loop: Option<&L>,
    trampoline: Option<usize>,
    renderer: Option<WindowRenderer>,
    poisoned: bool,
)
    requires
        call_ensures(HookState::<L>::render_loop, (state,), render_loop),
        call_ensures(HookState::<L>::trampoline, (state,), trampoline),
        call_ensures(HookState::<L>::imgui, (state,), renderer),
        call_ensures(HookState::<L>::egui_poisoned, (state,), poisoned),
    ensures
        render_loop is Some <==> state@.render_loop is Some,
        render_loop matches Some(l) ==> state@.render_loop == Some(*l),
        trampoline == state@.trampoline,
        renderer == state@.imgui,
        poisoned <==> state@.egui_init is Poisoned,
{
}

/// What is written through the access to the render loop is the render loop from
/// then on, and nothing else changes.
pub proof fn law_render_loop_is_written<L>(state: &mut HookState<L>, render_loop: Option<&mut L>)
    requires
        call_ensures(HookState::<L>::render_loop_mut, (state,), render_loop),
    ensures
        render_loop is Some <==> old(state)@.render_loop is Some,
        render_loop is None ==> final(state)@ == old(state)@,
        render_loop matches Some(l) ==> {
            &&& old(state)@.render_loop == Some(*l)
            &&& final(state)@.render_loop == Some(*final(l))
            &&& final(state)@ == (HookView {
                render_loop: final(state)@.render_loop,
                ..old(state)@
            })
        },
{
}

/// `after` is `before` without the ImGui renderer and the render loop, and
/// `removed` is what they were: the procedure of the renderer's window, the
/// renderer's lock, and the render loop.
pub open spec fn is_unhooked<L>(
    before: HookView<L>,
    after: HookView<L>,
    removed: Unhooked<'_, L>,
) -> bool {
    &&& after == (HookView { imgui: None, render_loop: None, ..before })
    &&& removed.render_loop == before.render_loop
    &&& match before.imgui {
        Some(renderer) => {
            &&& removed.restore == Some(renderer.binding)
            &&& removed.guard matches Some(guard) && guard.locks(before.imgui_lock)
        },
        None => removed.restore is None && removed.guard is None,
    }
}

/// Removing the hook takes the ImGui renderer and the render loop away and leaves
/// everything else.  What is put back is the procedure of the renderer's window,
/// and its lock is held for that.
pub proof fn law_unhook<'a, L>(
    state: &mut HookState<L>,
    lock: &'a mut RendererLock,
    removed: Unhooked<'a, L>,
)
    requires
        *old(lock) == old(state)@.imgui_lock,
        call_ensures(HookState::<L>::unhook, (state, lock), removed),
    ensures
        is_unhooked(old(state)@, final(state)@, removed),
        *final(lock) == *old(lock),
{
}

// ---------------------------------------------------------------------------
// The detour
// ---------------------------------------------------------------------------

/// The detour starts with drawing, goes on with the comparison, then calls the
/// trampoline that is set, and then is done for good.
pub proof fn law_swap_steps<L>(
    state: &HookState<L>,
    first: SwapStep,
    second: SwapStep,
    third: SwapStep,
    fourth: SwapStep,
    fifth: SwapStep,
)
    requires
        state@.trampoline is Some,
        call_ensures(SwapStep::first, (), first),
        call_ensures(HookState::<L>::next_swap_step, (state, first), second),
        call_ensures(HookState::<L>::next_swap_step, (state, second), third),
        call_ensures(HookState::<L>::next_swap_step, (state, third), fourth),
        call_ensures(HookState::<L>::next_swap_step, (state, fourth), fifth),
    ensures
        first is Draw,
        second is Reset,
        third matches SwapStep::CallOriginal { trampoline } && state@.trampoline == Some(
            trampoline,
        ),
        fourth is Done,
        fifth is Done,
{
}

/// After any call of a detoured function, the detour is done.
pub proof fn law_swap_ends<L>(state: &HookState<L>, trampoline: usize, next: SwapStep)
    requires
        call_ensures(
            HookState::<L>::next_swap_step,
            (state, SwapStep::CallOriginal { trampoline }),
            next,
        ),
    ensures
        next is Done,
{
}

/// Drawing starts with a new context just when there is no renderer.
pub proof fn law_begin_draw<L>(state: &HookState<L>, step: DrawStep)
    requires
        call_ensures(HookState::<L>::begin_draw, (state,), step),
    ensures
        state@.imgui is None ==> step is CreateContext,
        state@.imgui is Some ==> step is Render,
{
}

/// A renderer is made in six steps.  The window that was found is the one whose
/// procedure is replaced, both that window and the procedure that it had are kept,
/// and only the last step changes anything.
pub proof fn law_advance_draw<L>(
    state: &mut HookState<L>,
    step: DrawStep,
    reply: DrawReply,
    next: DrawStep,
)
    requires
        old(state)@.imgui is None,
        step is CreateContext || old(state)@.render_loop is Some,
        call_ensures(HookState::<L>::advance_draw, (state, step, reply), next),
    ensures
        step is CreateContext ==> next is InitializeRenderLoop,
        step is InitializeRenderLoop ==> next is CreateRenderer,
        step is CreateRenderer ==> next is FindWindow,
        step is FindWindow && reply is Window ==> next == (DrawStep::ReplaceWndProc {
            hwnd: reply->Window_0,
        }),
        step is ReplaceWndProc && reply is PreviousWndProc ==> next == (DrawStep::SetUpIo {
            binding: WndProcBinding {
                hwnd: step->ReplaceWndProc_hwnd,
                wnd_proc: reply->PreviousWndProc_0,
            },
        }),
        step matches DrawStep::SetUpIo { binding } ==> {
            &&& next is Render
            &&& final(state)@.imgui matches Some(renderer) && renderer.binding == binding
                && renderer.resolution_and_rect is None
            &&& final(state)@ == (HookView { imgui: final(state)@.imgui, ..old(state)@ })
        },
        !(step is SetUpIo) ==> final(state)@ == old(state)@,
{
}

/// A frame is one of the renderer's window, begins with its client rectangle, and
/// is drawn under the renderer's lock.
pub proof fn law_begin_render<'a, L>(
    state: &HookState<L>,
    lock: &'a mut RendererLock,
    frame: Frame<'a>,
)
    requires
        state@.imgui is Some,
        *old(lock) == state@.imgui_lock,
        call_ensures(HookState::<L>::begin_render, (state, lock), frame),
    ensures
        state@.imgui matches Some(renderer) && frame.game_hwnd == renderer.binding.hwnd,
        frame.step is ClientRect,
        frame.guard.locks(state@.imgui_lock),
        *final(lock) == *old(lock),
{
}

/// The egui overlay is initialized by whoever draws it first; whoever draws it
/// meanwhile waits; and it is rendered from then on.
pub proof fn law_egui_draw<L>(state: &mut HookState<L>, draw: EguiDraw)
    requires
        !(old(state)@.egui_init is Poisoned),
        call_ensures(HookState::<L>::egui_draw, (state,), draw),
    ensures
        draw is Initialize <==> old(state)@.egui_init is New,
        draw is Wait <==> old(state)@.egui_init is Running,
        draw is Render <==> old(state)@.egui_init is Complete,
        draw is Initialize ==> final(state)@.egui_init is Running,
        !(draw is Initialize) ==> final(state)@ == old(state)@,
        final(state)@ == (HookView { egui_init: final(state)@.egui_init, ..old(state)@ }),
{
}

/// An initialization that is given up poisons the egui overlay, and one that is
/// finished does not.  Nothing else changes.
pub proof fn law_egui_init_ends<L>(state: &mut HookState<L>, finished: bool, poisoned: bool)
    requires
        old(state)@.egui_init is Running,
        call_ensures(HookState::<L>::finish_egui_init, (state, finished), ()),
        call_ensures(HookState::<L>::egui_poisoned, (&*final(state),), poisoned),
    ensures
        poisoned <==> !finished,
        final(state)@ == (HookView { egui_init: final(state)@.egui_init, ..old(state)@ }),
{
}

/// When its initialization is finished, the egui overlay is rendered by the next
/// drawing.
pub proof fn law_finished_egui_is_rendered<L>(
    state: &mut HookState<L>,
    next: &mut HookState<L>,
    draw: EguiDraw,
)
    requires
        old(state)@.egui_init is Running,
        call_ensures(HookState::<L>::finish_egui_init, (state, true), ()),
        *old(next) == *final(state),
        call_ensures(HookState::<L>::egui_draw, (next,), draw),
    ensures
        draw is Render,
{
}

// ---------------------------------------------------------------------------
// Installing a hook
// ---------------------------------------------------------------------------

/// The function is looked up in the module that was found, the detour is made
/// for the function that was found, and the hook is made of that function, of
/// what was to be called in its place, and of the trampoline.
pub proof fn law_setup_uses_what_was_found(
    hook_impl: usize,
    module: isize,
    addr: usize,
    trampoline: usize,
    first: SetupStep,
    second: SetupStep,
    third: SetupStep,
    last: SetupStep,
)
    requires
        call_ensures(SetupStep::first, (), first),
        call_ensures(
            SetupStep::advance,
            (first, hook_impl, SetupReply::Module(Some(module))),
            second,
        ),
        call_ensures(
            SetupStep::advance,
            (second, hook_impl, SetupReply::Function(Some(addr))),
            third,
        ),
        call_ensures(
            SetupStep::advance,
            (third, hook_impl, SetupReply::Trampoline(Some(trampoline))),
            last,
        ),
    ensures
        first is FindModule,
        second == (SetupStep::FindFunction { module }),
        third == (SetupStep::CreateHook { addr }),
        last matches SetupStep::Ready { hook } && hook.addr == addr && hook.hook_impl == hook_impl
            && hook.trampoline == trampoline,
{
}

/// Whatever came before: a module is what the function is looked up in, a
/// function is what the detour is made for, and a trampoline makes the hook of
/// that function ready.
pub proof fn law_setup_goes_on(
    step: SetupStep,
    hook_impl: usize,
    reply: SetupReply,
    next: SetupStep,
)
    requires
        call_ensures(SetupStep::advance, (step, hook_impl, reply), next),
    ensures
        step is FindModule ==> match reply {
            SetupReply::Module(Some(found)) => next == (SetupStep::FindFunction { module: found }),
            SetupReply::Module(None) => next == (SetupStep::Failed {
                error: SetupError::ModuleNotFound,
            }),
            _ => true,
        },
        step is FindFunction ==> match reply {
            SetupReply::Function(Some(found)) => next == (SetupStep::CreateHook { addr: found }),
            SetupReply::Function(None) => next == (SetupStep::Failed {
                error: SetupError::FunctionNotFound,
            }),
            _ => true,
        },
        step is CreateHook ==> match reply {
            SetupReply::Trampoline(Some(found)) => next == (SetupStep::Ready {
                hook: MhHook { addr: step->CreateHook_addr, hook_impl, trampoline: found },
            }),
            SetupReply::Trampoline(None) => next == (SetupStep::Failed {
                error: SetupError::HookNotCreated,
            }),
            _ => true,
        },
{
}

/// What is looked up is the buffer swap of OpenGL.
pub proof fn law_names(module: &'static str, function: &'static str)
    requires
        call_ensures(module_name, (), module),
        call_ensures(function_name, (), function),
    ensures
        module@ == "opengl32.dll"@,
        function@ == "wglSwapBuffers"@,
{
}

/// A failure is reported by a text of its own, but for a function that is not
/// found, which has none.
pub proof fn law_setup_message(error: SetupError, text: Option<&'static str>)
    requires
        call_ensures(SetupError::message, (&error,), text),
    ensures
        text is None <==> error is FunctionNotFound,
        error is ModuleNotFound ==> text->0@ == "failed finding opengl32.dll"@,
        error is HookNotCreated ==> text->0@ == "couldn't create opengl32.wglSwapBuffers hook"@,
{
}

/// The ImGui overlay keeps the hook that it was made with, and that hook's
/// trampoline and the render loop are in use if there were none before.
pub proof fn law_imgui_hooks<L>(
    state: &mut HookState<L>,
    t: L,
    hook: MhHook,
    hooks: ImguiOpenGl3Hooks,
    all: &[MhHook],
)
    requires
        call_ensures(ImguiOpenGl3Hooks::new::<L>, (state, t, hook), hooks),
        call_ensures(ImguiOpenGl3Hooks::hooks, (&hooks,), all),
    ensures
        all@.len() == 1,
        all@[0] == hook,
        is_installed(old(state)@, t, hook.trampoline, final(state)@),
{
}

/// As [`law_imgui_hooks`], on the heap.
pub proof fn law_imgui_hooks_from_render_loop<L>(
    state: &mut HookState<L>,
    t: L,
    hook: MhHook,
    hooks: Box<ImguiOpenGl3Hooks>,
    all: &[MhHook],
)
    requires
        call_ensures(ImguiOpenGl3Hooks::from_render_loop::<L>, (state, t, hook), hooks),
        call_ensures(ImguiOpenGl3Hooks::hooks, (&*hooks,), all),
    ensures
        all@.len() == 1,
        all@[0] == hook,
        is_installed(old(state)@, t, hook.trampoline, final(state)@),
{
}

/// The egui overlay keeps the hook that it was made with, and that hook's
/// trampoline and the render loop are in use if there were none before.
pub proof fn law_egui_hooks<L>(
    state: &mut HookState<L>,
    t: L,
    hook: MhHook,
    hooks: EguiOpenGl3Hooks,
    all: &[MhHook],
)
    requires
        call_ensures(EguiOpenGl3Hooks::new::<L>, (state, t, hook), hooks),
        call_ensures(EguiOpenGl3Hooks::hooks, (&hooks,), all),
    ensures
        all@.len() == 1,
        all@[0] == hook,
        is_installed(old(state)@, t, hook.trampoline, final(state)@),
{
}

/// As [`law_egui_hooks`], on the heap.
pub proof fn law_egui_hooks_from_render_loop<L>(
    state: &mut HookState<L>,
    t: L,
    hook: MhHook,
    hooks: Box<EguiOpenGl3Hooks>,
    all: &[MhHook],
)
    requires
        call_ensures(EguiOpenGl3Hooks::from_render_loop::<L>, (state, t, hook), hooks),
        call_ensures(EguiOpenGl3Hooks::hooks, (&*hooks,), all),
    ensures
        all@.len() == 1,
        all@[0] == hook,
        is_installed(old(state)@, t, hook.trampoline, final(state)@),
{
}

/// Removing the ImGui overlay takes the ImGui renderer and the render loop away,
/// leaves everything else and keeps the hook.
pub proof fn law_imgui_unhook<'a, L>(
    hooks: &mut ImguiOpenGl3Hooks,
    state: &mut HookState<L>,
    lock: &'a mut RendererLock,
    removed: Unhooked<'a, L>,
)
    requires
        *old(lock) == old(state)@.imgui_lock,
        call_ensures(ImguiOpenGl3Hooks::unhook::<L>, (hooks, state, lock), removed),
    ensures
        final(hooks)@ == old(hooks)@,
        is_unhooked(old(state)@, final(state)@, removed),
        *final(lock) == *old(lock),
{
}

/// As [`law_imgui_unhook`], for the hook of the egui overlay.
pub proof fn law_egui_unhook<'a, L>(
    hooks: &mut EguiOpenGl3Hooks,
    state: &mut HookState<L>,
    lock: &'a mut RendererLock,
    removed: Unhooked<'a, L>,
)
    requires
        *old(lock) == old(state)@.imgui_lock,
        call_ensures(EguiOpenGl3Hooks::unhook::<L>, (hooks, state, lock), removed),
    ensures
        final(hooks)@ == old(hooks)@,
        is_unhooked(old(state)@, final(state)@, removed),
        *final(lock) == *old(lock),
{
}

// ---------------------------------------------------------------------------
// One frame
// ---------------------------------------------------------------------------

/// A new clock is unset, and one that has been started or has seen a frame is not.
pub proof fn law_clock_is_set(
    fresh: FrameClock,
    started: &mut FrameClock,
    ticked: &mut FrameClock,
    readings: (u64, u64),
    delta: u64,
    unset: (bool, bool, bool),
)
    requires
        call_ensures(FrameClock::new, (), fresh),
        call_ensures(FrameClock::start, (started, readings.0), ()),
        old(ticked)@ is Some,
        call_ensures(FrameClock::tick, (ticked, readings.1), delta),
        call_ensures(FrameClock::is_unset, (&fresh,), unset.0),
        call_ensures(FrameClock::is_unset, (&*final(started),), unset.1),
        call_ensures(FrameClock::is_unset, (&*final(ticked),), unset.2),
    ensures
        unset == (true, false, false),
{
}

/// A clock that was unset counts from the reading that it is started with, and
/// not below zero.
pub proof fn law_clock_counts_from_its_start(
    clock: &mut FrameClock,
    started: &mut FrameClock,
    unset: bool,
    reading: u64,
    now: u64,
    delta: u64,
)
    requires
        call_ensures(FrameClock::is_unset, (&*old(clock),), unset),
        unset,
        call_ensures(FrameClock::start, (clock, reading), ()),
        *old(started) == *final(clock),
        call_ensures(FrameClock::tick, (started, now), delta),
    ensures
        reading <= now ==> reading + delta == now,
        reading > now ==> delta == 0,
{
}

/// Starting a clock that has been started changes nothing.
pub proof fn law_clock_is_started_once(clock: &mut FrameClock, unset: bool, reading: u64)
    requires
        call_ensures(FrameClock::is_unset, (&*old(clock),), unset),
        !unset,
        call_ensures(FrameClock::start, (clock, reading), ()),
    ensures
        final(clock)@ == old(clock)@,
{
}

/// What passes between two frames is the difference of their readings, and not
/// below zero, whatever the clock has seen before.
pub proof fn law_clock_counts_from_frame_to_frame(
    clock: &mut FrameClock,
    next: &mut FrameClock,
    earlier: u64,
    later: u64,
    deltas: (u64, u64),
)
    requires
        old(clock)@ is Some,
        call_ensures(FrameClock::tick, (clock, earlier), deltas.0),
        *old(next) == *final(clock),
        call_ensures(FrameClock::tick, (next, later), deltas.1),
    ensures
        earlier <= later ==> earlier + deltas.1 == later,
        earlier > later ==> deltas.1 == 0,
{
}

/// The size of a rectangle is how far its edges are apart.
pub proof fn law_size(rect: Rect, measurable: bool, size: Size)
    requires
        call_ensures(Rect::is_measurable, (&rect,), measurable),
        measurable,
        call_ensures(Rect::size, (&rect,), size),
    ensures
        rect.left + size.width == rect.right,
        rect.top + size.height == rect.bottom,
{
}

/// A rectangle is measurable just when there is a size that takes its left and
/// top edge to its right and bottom edge.
pub proof fn law_measurable(rect: Rect, measurable: bool)
    requires
        call_ensures(Rect::is_measurable, (&rect,), measurable),
    ensures
        measurable <==> exists|size: Size|
            rect.left + (#[trigger] size.width) == rect.right && rect.top + size.height
                == rect.bottom,
{
    if measurable {
        let size = Size {
            width: (rect.right - rect.left) as i32,
            height: (rect.bottom - rect.top) as i32,
        };
        assert(rect.left + size.width == rect.right && rect.top + size.height == rect.bottom);
    }
}

/// A client rectangle is what was written, if it was.
pub proof fn law_client_rect(succeeded: bool, written: Rect, rect: Option<Rect>)
    requires
        call_ensures(get_client_rect, (succeeded, written), rect),
    ensures
        succeeded ==> rect == Some(written),
        !succeeded ==> rect is None,
{
}

/// A frame stays one of its window, and under its lock.
pub proof fn law_frame_keeps_its_window<'a>(
    frame: &mut Frame<'a>,
    clock: &mut FrameClock,
    reply: FrameReply,
    effect: FrameEffect,
)
    requires
        call_ensures(Frame::<'a>::advance, (frame, clock, reply), effect),
    ensures
        final(frame).game_hwnd == old(frame).game_hwnd,
        final(frame).guard == old(frame).guard,
{
}

/// The toolkit is told the size of the client rectangle, and only of one that
/// can be had; the mouse position, and only one that could be translated; and the
/// time since the last reading, and only by a reading that is not the first.
/// Nothing else is told.
pub proof fn law_frame_effects<'a>(
    frame: &mut Frame<'a>,
    clock: &mut FrameClock,
    reply: FrameReply,
    effect: FrameEffect,
)
    requires
        call_ensures(Frame::<'a>::advance, (frame, clock, reply), effect),
    ensures
        reply matches FrameReply::ClientRect(Some(rect)) ==> {
            &&& effect is DisplaySize
            &&& i32::MIN <= rect.right - rect.left <= i32::MAX ==> rect.left
                + effect->DisplaySize_0.width == rect.right
            &&& i32::MIN <= rect.bottom - rect.top <= i32::MAX ==> rect.top
                + effect->DisplaySize_0.height == rect.bottom
        },
        reply matches FrameReply::ClientRect(None) ==> effect is RectUnavailable,
        reply matches FrameReply::ScreenToClient(flag, pos) ==> effect == (if flag == 0 {
            FrameEffect::Nothing
        } else {
            FrameEffect::MousePos(pos)
        }),
        reply matches FrameReply::Clock(now) ==> {
            &&& old(frame).step is FirstClock ==> effect is Nothing
            &&& old(frame).step is Clock ==> (old(clock)@ matches Some(last) ==> {
                &&& last <= now ==> effect is DeltaTime && last + effect->DeltaTime_0 == now
                &&& last > now ==> effect == FrameEffect::DeltaTime(0)
            })
        },
        reply is Foreground || reply is IsChild || reply is CursorPos || reply is Done ==> effect
            is Nothing,
{
}

/// The clock moves to every reading, and only by readings.
pub proof fn law_frame_moves_the_clock<'a>(
    frame: &mut Frame<'a>,
    clock: &mut FrameClock,
    reply: FrameReply,
    effect: FrameEffect,
)
    requires
        old(frame).step is FirstClock || old(frame).step is Clock || !(reply is Clock),
        call_ensures(Frame::<'a>::advance, (frame, clock, reply), effect),
    ensures
        reply matches FrameReply::Clock(now) ==> final(clock)@ == Some(now),
        !(reply is Clock) ==> final(clock)@ == old(clock)@,
{
}

/// What a frame wants next.  The mouse is asked for just when the window in the
/// foreground is a valid one and is the game's or has it as a child; where it is
/// not, or where the mouse is dealt with, the time is next, and a first reading
/// of it just when there was none.  After the time the frame is painted.
pub proof fn law_frame_goes_on<'a>(
    frame: &mut Frame<'a>,
    clock: &mut FrameClock,
    reply: FrameReply,
    effect: FrameEffect,
)
    requires
        call_ensures(Frame::<'a>::advance, (frame, clock, reply), effect),
    ensures
        ({
            let next = final(frame).step;
            let time = if old(clock)@ is None {
                FrameStep::FirstClock
            } else {
                FrameStep::Clock
            };
            match reply {
                FrameReply::ClientRect(rect) => if rect is Some {
                    next is Foreground
                } else {
                    next == time
                },
                FrameReply::Foreground(active) => {
                    &&& active == 0 || active == -1 ==> next == time
                    &&& active != 0 && active != -1 && active == old(frame).game_hwnd ==> next
                        is CursorPos
                    &&& active != 0 && active != -1 && active != old(frame).game_hwnd ==> next == (
                    FrameStep::IsChild { active })
                },
                FrameReply::IsChild(flag) => {
                    &&& flag != 0 ==> next is CursorPos
                    &&& flag == 0 ==> next == time
                },
                FrameReply::CursorPos(found) => match found {
                    Some(pos) => next == (FrameStep::ScreenToClient { pos }),
                    None => next == time,
                },
                FrameReply::ScreenToClient(_, _) => next == time,
                FrameReply::Clock(_) => {
                    &&& old(frame).step is FirstClock ==> next is Clock
                    &&& old(frame).step is Clock ==> next is NewFrame
                },
                FrameReply::Done => {
                    &&& old(frame).step is NewFrame ==> next is RenderLoop
                    &&& old(frame).step is RenderLoop ==> next is DrawFrame
                    &&& old(frame).step is DrawFrame ==> next is Done
                },
            }
        }),
{
}

// ---------------------------------------------------------------------------
// Texts
// ---------------------------------------------------------------------------

/// A flag in words.
pub proof fn law_flag_text(b: bool, text: &'static str)
    requires
        call_ensures(flag_text, (b,), text),
    ensures
        b ==> text@ == "true"@,
        !b ==> text@ == "false"@,
{
}

/// A number below ten is written as one digit behind what is there, and any other
/// as what its tenth is written as, with the digit for the rest behind it.
pub proof fn law_push_decimal(out: &mut String, tenth: &mut String, n: u32)
    requires
        call_ensures(push_decimal, (out, n), ()),
        old(tenth)@ == old(out)@,
        call_ensures(push_decimal, (tenth, n / 10), ()),
    ensures
        final(out)@.len() > old(out)@.len(),
        final(out)@.take(old(out)@.len() as int) == old(out)@,
        final(out)@.last() as int == '0' as int + n % 10,
        n < 10 ==> final(out)@.drop_last() == old(out)@,
        n >= 10 ==> final(out)@.drop_last() == final(tenth)@,
{
    assert(final(out)@.take(old(out)@.len() as int) =~= old(out)@);
    assert(n < 10 ==> final(out)@.drop_last() =~= old(out)@);
    assert(n >= 10 ==> final(out)@.drop_last() =~= final(tenth)@);
}

// ---------------------------------------------------------------------------
// The egui window
// ---------------------------------------------------------------------------

/// Before the window was shown, the box is checked, there is no text, and the
/// number and the color are all zeros.
pub proof fn law_new_panel(state: PanelState)
    requires
        call_ensures(PanelState::new, (), state),
    ensures
        state.checked,
        state.text is None,
        state.value == 0,
        state.color@ == seq![0u32, 0, 0],
{
    assert(state.color@ =~= seq![0u32, 0, 0]);
}

/// `widget` is a label.
pub open spec fn is_label(widget: Widget, text: Seq<char>, color: LabelColor) -> bool {
    widget matches Widget::Label { text: t, color: c } && t@ == text && c == color
}

/// A flag as it is shown.
pub open spec fn in_words(b: bool) -> Seq<char> {
    if b {
        "true"@
    } else {
        "false"@
    }
}

/// `text` is the one that the user has left, or what there is in its place before
/// the window was shown.
pub open spec fn is_text_of(state: PanelState, text: Seq<char>) -> bool {
    match state.text {
        Some(left) => text == left@,
        None => text == "Test"@,
    }
}

/// `widgets` begin with what is shown above the button: two colored labels, what
/// the user does, the values that the user has left, and the list of a hundred
/// labels between them.
pub open spec fn is_panel(state: PanelState, input: PanelInput, widgets: Seq<Widget>) -> bool {
    &&& widgets.len() >= 11
    &&& is_label(widgets[0], "Test"@, LabelColor::LightBlue)
    &&& is_label(widgets[1], "Other"@, LabelColor::White)
    &&& widgets[2] is Separator
    &&& is_label(
        widgets[3],
        "X1: "@ + in_words(input.extra1) + " X2: "@ + in_words(input.extra2),
        LabelColor::Default,
    )
    &&& is_label(
        widgets[4],
        "Ctrl: "@ + in_words(input.modifiers.ctrl) + " Shift: "@ + in_words(input.modifiers.shift)
            + " Alt: "@ + in_words(input.modifiers.alt),
        LabelColor::Default,
    )
    &&& widgets[5] matches Widget::Checkbox { text, checked } && text@ == "Some checkbox"@
        && checked == state.checked
    &&& widgets[6] matches Widget::TextEdit { text } && is_text_of(state, text@)
    &&& widgets[7] matches Widget::ScrollArea { max_height, labels } && max_height == 200
        && labels@.len() == 100 && forall|i: int|
        0 <= i < 100 ==> (#[trigger] labels@[i])@ == "Label: "@ + decimal((i + 1) as nat)
    &&& widgets[8] matches Widget::Slider { min, max, value } && min == -1 && max == 1 && value
        == state.value
    &&& widgets[9] matches Widget::ColorButton { rgb } && rgb == state.color
    &&& is_label(widgets[10], in_words(input.primary), LabelColor::Default)
}

/// The user pressed R with control and with neither alt nor shift.
pub open spec fn is_reported(input: PanelInput) -> bool {
    input.r_pressed && input.modifiers.ctrl && !input.modifiers.alt && !input.modifiers.shift
}

/// `after` is `before` with the text that was shown.
pub open spec fn is_kept(before: PanelState, after: PanelState) -> bool {
    &&& after.checked == before.checked
    &&& after.value == before.value
    &&& after.color == before.color
    &&& after.text matches Some(text) && is_text_of(before, text@)
}

/// The contents of widgets are the contents of each.
proof fn lemma_contents(widgets: Seq<Widget>)
    ensures
        contents(widgets).len() == widgets.len(),
        forall|i: int|
            0 <= i < widgets.len() ==> contents(widgets)[i] == (#[trigger] widgets[i])@,
{
}

/// The contents of strings are the contents of each.
proof fn lemma_texts(strings: Seq<String>)
    ensures
        texts(strings).len() == strings.len(),
        forall|i: int| 0 <= i < strings.len() ==> texts(strings)[i] == (#[trigger] strings[i])@,
{
}

/// What is shown above the button follows from the input and from what the user
/// has left, in every frame, and showing it changes nothing but that there is a
/// text.
pub proof fn law_test_ui(state: &mut PanelState, input: &PanelInput, plan: PanelPlan)
    requires
        call_ensures(PanelState::test_ui, (state, input), plan),
    ensures
        plan.widgets@.len() == 11,
        is_panel(*old(state), *input, plan.widgets@),
        plan.pressed <==> is_reported(*input),
        is_kept(*old(state), *final(state)),
{
    lemma_contents(plan.widgets@);
    assert(plan.widgets@[7]@ is ScrollArea);
    lemma_texts(plan.widgets@[7]->ScrollArea_labels@);
}

/// The window is called the same in every frame and shows a separator and a
/// button below the rest.
pub proof fn law_uii(state: &mut PanelState, input: &PanelInput, window: WindowPlan)
    requires
        call_ensures(PanelState::uii, (state, input), window),
    ensures
        window.title@ == "Main menu"@,
        window.panel.widgets@.len() == 13,
        is_panel(*old(state), *input, window.panel.widgets@),
        window.panel.widgets@[11] is Separator,
        window.panel.widgets@[12] matches Widget::Button { text } && text@ == "exit"@,
        window.panel.pressed <==> is_reported(*input),
        is_kept(*old(state), *final(state)),
{
    let widgets = window.panel.widgets@;
    lemma_contents(widgets);
    assert(widgets[7]@ is ScrollArea);
    lemma_texts(widgets[7]->ScrollArea_labels@);
}

/// In every frame the list is the same: each of its labels is a number in
/// decimal, counted from one, behind a word.
pub proof fn law_list_is_numbered(
    state: &mut PanelState,
    input: &PanelInput,
    window: WindowPlan,
    i: int,
    number: &mut String,
)
    requires
        call_ensures(PanelState::uii, (state, input), window),
        0 <= i < 100,
        old(number)@.len() == 0,
        call_ensures(push_decimal, (number, (i + 1) as u32), ()),
    ensures
        window.panel.widgets@[7] matches Widget::ScrollArea { labels, .. } && labels@[i]@
            == "Label: "@ + final(number)@,
{
    let widgets = window.panel.widgets@;
    lemma_contents(widgets);
    assert(widgets[7]@ is ScrollArea);
    let labels = widgets[7]->ScrollArea_labels@;
    lemma_texts(labels);
    assert(final(number)@ =~= decimal((i + 1) as nat));
}

/// What the user does not change looks the same whatever the user has left.
pub proof fn law_panel_depends_on_four_values(
    states: (&mut PanelState, &mut PanelState),
    input: &PanelInput,
    windows: (WindowPlan, WindowPlan),
    i: int,
)
    requires
        call_ensures(PanelState::uii, (states.0, input), windows.0),
        call_ensures(PanelState::uii, (states.1, input), windows.1),
        0 <= i < 13,
        i != 5 && i != 6 && i != 8 && i != 9,
    ensures
        windows.0.panel.widgets@[i]@ == windows.1.panel.widgets@[i]@,
        windows.0.title@ == windows.1.title@,
        windows.0.panel.pressed == windows.1.panel.pressed,
{
    lemma_contents(windows.0.panel.widgets@);
    lemma_contents(windows.1.panel.widgets@);
}

/// What does not show the input looks the same whatever the user does.
pub proof fn law_panel_depends_on_the_input_in_three_labels(
    states: (&mut PanelState, &mut PanelState),
    inputs: (&PanelInput, &PanelInput),
    windows: (WindowPlan, WindowPlan),
    i: int,
)
    requires
        *old(states.0) == *old(states.1),
        call_ensures(PanelState::uii, (states.0, inputs.0), windows.0),
        call_ensures(PanelState::uii, (states.1, inputs.1), windows.1),
        0 <= i < 13,
        i != 3 && i != 4 && i != 10,
    ensures
        windows.0.panel.widgets@[i]@ == windows.1.panel.widgets@[i]@,
{
    lemma_contents(windows.0.panel.widgets@);
    lemma_contents(windows.1.panel.widgets@);
}

/// With the same input, the next frame looks the same if the user changes
/// nothing, and so does the state that it leaves.
pub proof fn law_next_window_is_the_same(
    state: &mut PanelState,
    next: &mut PanelState,
    input: &PanelInput,
    windows: (WindowPlan, WindowPlan),
)
    requires
        call_ensures(PanelState::uii, (state, input), windows.0),
        *old(next) == *final(state),
        call_ensures(PanelState::uii, (next, input), windows.1),
    ensures
        contents(windows.0.panel.widgets@) == contents(windows.1.panel.widgets@),
        *final(next) == *final(state),
{
}

// ---------------------------------------------------------------------------
// What can be called
// ---------------------------------------------------------------------------

/// Every step of installing a hook takes what can come of it, and any value of
/// it.
pub proof fn law_setup_takes_every_reply(step: SetupStep, hook_impl: usize, reply: SetupReply)
    requires
        match step {
            SetupStep::FindModule => reply is Module,
            SetupStep::FindFunction { .. } => reply is Function,
            SetupStep::CreateHook { .. } => reply is Trampoline,
            _ => false,
        },
    ensures
        call_requires(SetupStep::advance, (step, hook_impl, reply)),
{
}

/// Every step of making a renderer takes what can come of it, and any value of
/// it, as long as there is a render loop and no renderer; the first step takes it
/// without a render loop.
pub proof fn law_draw_takes_every_reply<L>(
    state: &mut HookState<L>,
    step: DrawStep,
    reply: DrawReply,
)
    requires
        old(state)@.imgui is None,
        step is CreateContext || old(state)@.render_loop is Some,
        match step {
            DrawStep::FindWindow => reply is Window,
            DrawStep::ReplaceWndProc { .. } => reply is PreviousWndProc,
            DrawStep::Render => false,
            _ => reply is Done,
        },
    ensures
        call_requires(HookState::<L>::advance_draw, (state, step, reply)),
{
}

/// Every step of a frame takes what can answer it, and any value of it, but for a
/// client rectangle whose size is not representable.
pub proof fn law_frame_takes_every_reply<'a>(
    frame: &mut Frame<'a>,
    clock: &mut FrameClock,
    reply: FrameReply,
)
    requires
        match old(frame).step {
            FrameStep::ClientRect => reply matches FrameReply::ClientRect(rect) && (
            rect matches Some(r) ==> {
                &&& i32::MIN <= r.right - r.left <= i32::MAX
                &&& i32::MIN <= r.bottom - r.top <= i32::MAX
            }),
            FrameStep::Foreground => reply is Foreground,
            FrameStep::IsChild { .. } => reply is IsChild,
            FrameStep::CursorPos => reply is CursorPos,
            FrameStep::ScreenToClient { .. } => reply is ScreenToClient,
            FrameStep::FirstClock => reply is Clock && old(clock)@ is None,
            FrameStep::Clock => reply is Clock && old(clock)@ is Some,
            FrameStep::NewFrame => reply is Done && old(clock)@ is Some,
            FrameStep::RenderLoop => reply is Done && old(clock)@ is Some,
            FrameStep::DrawFrame => reply is Done && old(clock)@ is Some,
            FrameStep::Done => false,
        },
    ensures
        call_requires(Frame::<'a>::advance, (frame, clock, reply)),
{
}

/// A clock that has been started takes any reading.
pub proof fn law_clock_takes_every_reading(clock: &mut FrameClock, unset: bool, now: u64)
    requires
        call_ensures(FrameClock::is_unset, (&*old(clock),), unset),
        !unset,
    ensures
        call_requires(FrameClock::tick, (clock, now)),
{
}

/// A rectangle that is measurable has a size.
pub proof fn law_measurable_has_a_size(rect: Rect, measurable: bool)
    requires
        call_ensures(Rect::is_measurable, (&rect,), measurable),
        measurable,
    ensures
        call_requires(Rect::size, (&rect,)),
{
}

/// Without a renderer any hook can be installed, and with one there is a render
/// loop.
pub proof fn law_hooks_can_be_installed<L>(
    state: &mut HookState<L>,
    t: L,
    trampoline: usize,
    hook: MhHook,
)
    requires
        old(state)@.imgui is Some ==> old(state)@.render_loop is Some,
    ensures
        call_requires(HookState::<L>::install, (state, t, trampoline)),
        call_requires(ImguiOpenGl3Hooks::new::<L>, (state, t, hook)),
        call_requires(ImguiOpenGl3Hooks::from_render_loop::<L>, (state, t, hook)),
        call_requires(EguiOpenGl3Hooks::new::<L>, (state, t, hook)),
        call_requires(EguiOpenGl3Hooks::from_render_loop::<L>, (state, t, hook)),
{
}

/// A hook can be removed at any time, with the lock of its renderer.
pub proof fn law_hooks_can_be_removed<'a, L>(
    state: &mut HookState<L>,
    lock: &'a mut RendererLock,
    imgui: &mut ImguiOpenGl3Hooks,
    egui: &mut EguiOpenGl3Hooks,
)
    requires
        *old(lock) == old(state)@.imgui_lock,
    ensures
        call_requires(HookState::<L>::unhook, (state, lock)),
        call_requires(ImguiOpenGl3Hooks::unhook::<L>, (imgui, state, lock)),
        call_requires(EguiOpenGl3Hooks::unhook::<L>, (egui, state, lock)),
{
}

/// The detour can take every step, but for the call of a function that was never
/// detoured.
pub proof fn law_detour_can_go_on<L>(state: &HookState<L>, step: SwapStep)
    requires
        step is Reset ==> state@.trampoline is Some,
    ensures
        call_requires(HookState::<L>::next_swap_step, (state, step)),
{
}

/// Messages can be routed, the window compared and drawing begun in every state in
/// which a renderer has a render loop, with the locks of the renderers.
pub proof fn law_state_can_be_used<'a, L, R: LockRequest<'a>>(
    state: &'a HookState<L>,
    imgui: R,
    egui: R,
)
    requires
        state@.imgui is Some ==> state@.render_loop is Some,
        imgui.lock() == state@.imgui_lock,
        egui.lock() == state@.egui_lock,
    ensures
        call_requires(HookState::<L>::wnd_proc::<R>, (state, imgui)),
        call_requires(HookState::<L>::begin_reset::<R>, (state, imgui)),
        call_requires(HookState::<L>::begin_egui_reset::<R>, (state, egui)),
        call_requires(HookState::<L>::begin_draw, (state,)),
{
}

/// A renderer that is there can render a frame, with its lock.
pub proof fn law_renderer_can_render<'a, L>(state: &HookState<L>, lock: &'a mut RendererLock)
    requires
        state@.imgui is Some,
        state@.render_loop is Some,
        *old(lock) == state@.imgui_lock,
    ensures
        call_requires(HookState::<L>::begin_render, (state, lock)),
{
}

/// A comparison can be ended with any viewport and any rectangle, under the lock
/// of the renderer.
pub proof fn law_reset_takes_every_window<L>(
    state: &mut HookState<L>,
    imgui: &RendererGuard<'_>,
    egui: &RendererGuard<'_>,
    viewport: &[i32; 4],
    rect: Rect,
)
    requires
        old(state)@.imgui is Some ==> old(state)@.render_loop is Some,
        imgui.locks(old(state)@.imgui_lock),
        egui.locks(old(state)@.egui_lock),
    ensures
        call_requires(HookState::<L>::finish_reset, (state, imgui, viewport, rect)),
        call_requires(HookState::<L>::finish_egui_reset, (state, egui, viewport, rect)),
{
}

/// The egui overlay can be drawn unless its initialization was given up, and the
/// initialization can be ended, either way, while it is running.
pub proof fn law_egui_can_be_drawn<L>(state: &mut HookState<L>, finished: bool)
    requires
        old(state)@.imgui is Some ==> old(state)@.render_loop is Some,
    ensures
        !(old(state)@.egui_init is Poisoned) ==> call_requires(HookState::<L>::egui_draw, (state,)),
        old(state)@.egui_init is Running ==> call_requires(
            HookState::<L>::finish_egui_init,
            (state, finished),
        ),
{
}

/// A route can be found for every access, with a render loop if there is a guard.
pub proof fn law_access_can_be_routed<'a, L>(access: Access<'a>, render_loop: Option<&'a L>)
    requires
        access is Held ==> render_loop is Some,
    ensures
        call_requires(route_message::<L>, (access, render_loop)),
{
}

} // verus!

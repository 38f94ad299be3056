//! What holds of the overlay over more than one call.

use vstd::prelude::*;

use crate::clock::elapsed;
use crate::frame::{
    clock_step, effect_of, last_after, step_after, FrameEffect, FrameReply, FrameStep,
};
use crate::geometry::{Point, Rect};
use crate::hooks::{setup_step_after, MhHook, SetupError, SetupReply, SetupStep};
use crate::panel::{
    numbered_text, panel_widgets, window_widgets, PanelInput, PanelView, WidgetView,
};
use crate::renderer::{binding_of, put_back_after, WindowRenderer, WndProcBinding};
use crate::state::{
    draw_step_after, egui_draw_step, first_draw_step, swap_step_after, DrawReply, DrawStep,
    EguiDraw, EguiInit, HookView, SwapStep,
};
use crate::text::{decimal, decimal_value, digit};
use crate::viewport::remembered;
use crate::win32::{flag_set, handle_invalid};

verus! {

// ---------------------------------------------------------------------------
// The shared state
// ---------------------------------------------------------------------------

/// Something that changes the shared state.
pub enum HookOp<L> {
    /// A hook is installed.
    Install { render_loop: L, trampoline: usize },
    /// The render loop changes as it draws.
    Redraw { render_loop: L },
    /// Drawing puts an ImGui renderer in place.
    Create { binding: WndProcBinding },
    /// The window is compared with what the ImGui renderer first saw.
    Reset { viewport: Seq<i32>, rect: Rect },
    /// The hook is removed.
    Unhook,
    /// The egui overlay is to be drawn.
    EguiDraw,
    /// The initialization of the egui overlay is finished, or given up.
    EguiFinish { finished: bool },
    /// The window is compared with what the egui renderer first saw.
    EguiReset { viewport: Seq<i32>, rect: Rect },
}

/// The state after `op`.
pub open spec fn apply<L>(view: HookView<L>, op: HookOp<L>) -> HookView<L> {
    match op {
        HookOp::Install { render_loop, trampoline } => view.installed(render_loop, trampoline),
        HookOp::Redraw { render_loop } => HookView { render_loop: Some(render_loop), ..view },
        HookOp::Create { binding } => view.with_imgui(binding),
        HookOp::Reset { viewport, rect } => view.reset(viewport, rect),
        HookOp::Unhook => view.unhooked(),
        HookOp::EguiDraw => view.egui_drawn(),
        HookOp::EguiFinish { finished } => view.egui_initialized(finished),
        HookOp::EguiReset { viewport, rect } => view.egui_reset(viewport, rect),
    }
}

/// `op` can happen: a render loop only draws if there is one, and a renderer is
/// only made for one, and only where there is none.  The egui overlay is not
/// drawn once its initialization was given up, which only happens to one that has
/// begun.
pub open spec fn possible<L>(view: HookView<L>, op: HookOp<L>) -> bool {
    match op {
        HookOp::Redraw { .. } => view.render_loop is Some,
        HookOp::Create { .. } => view.render_loop is Some && view.imgui is None,
        HookOp::EguiDraw => view.egui_init != EguiInit::Poisoned,
        HookOp::EguiFinish { .. } => view.egui_init == EguiInit::Running,
        _ => true,
    }
}

/// The state after all of `ops`.
pub open spec fn run<L>(view: HookView<L>, ops: Seq<HookOp<L>>) -> HookView<L>
    decreases ops.len(),
{
    if ops.len() == 0 {
        view
    } else {
        apply(run(view, ops.drop_last()), ops.last())
    }
}

/// All of `ops` can happen, one after the other.
pub open spec fn all_possible<L>(view: HookView<L>, ops: Seq<HookOp<L>>) -> bool
    decreases ops.len(),
{
    ops.len() == 0 || {
        &&& all_possible(view, ops.drop_last())
        &&& possible(run(view, ops.drop_last()), ops.last())
    }
}

/// The window procedures that were replaced, in order.
pub open spec fn replaced<L>(ops: Seq<HookOp<L>>) -> Seq<WndProcBinding>
    decreases ops.len(),
{
    if ops.len() == 0 {
        seq![]
    } else {
        match ops.last() {
            HookOp::Create { binding } => replaced(ops.drop_last()).push(binding),
            _ => replaced(ops.drop_last()),
        }
    }
}

/// At most one window procedure, as a sequence.
pub open spec fn as_seq(binding: Option<WndProcBinding>) -> Seq<WndProcBinding> {
    match binding {
        Some(b) => seq![b],
        None => seq![],
    }
}

/// The window procedures that were put back, in order.
pub open spec fn put_back<L>(view: HookView<L>, ops: Seq<HookOp<L>>) -> Seq<WndProcBinding>
    decreases ops.len(),
{
    if ops.len() == 0 {
        seq![]
    } else {
        let before = run(view, ops.drop_last());
        match ops.last() {
            HookOp::Reset { viewport, rect } => put_back(view, ops.drop_last()) + as_seq(
                put_back_after(before.imgui, viewport, rect),
            ),
            HookOp::Unhook => put_back(view, ops.drop_last()) + as_seq(binding_of(before.imgui)),
            _ => put_back(view, ops.drop_last()),
        }
    }
}

/// How often the initialization of the egui overlay has begun.
pub open spec fn initializations<L>(view: HookView<L>, ops: Seq<HookOp<L>>) -> nat
    decreases ops.len(),
{
    if ops.len() == 0 {
        0
    } else {
        let before = run(view, ops.drop_last());
        initializations(view, ops.drop_last()) + if ops.last() is EguiDraw
            && egui_draw_step(before.egui_init) == EguiDraw::Initialize {
            1nat
        } else {
            0nat
        }
    }
}

/// Whatever happens, a renderer is only there while there is a render loop to
/// draw with it.
pub proof fn law_renderer_has_render_loop<L>(view: HookView<L>, ops: Seq<HookOp<L>>)
    requires
        view.wf(),
        all_possible(view, ops),
    ensures
        run(view, ops).wf(),
    decreases ops.len(),
{
    if ops.len() > 0 {
        law_renderer_has_render_loop(view, ops.drop_last());
    }
}

/// The first trampoline stays in use for good: neither another hook nor its
/// removal changes it.
pub proof fn law_trampoline_stays<L>(view: HookView<L>, ops: Seq<HookOp<L>>)
    requires
        view.trampoline is Some,
    ensures
        run(view, ops).trampoline == view.trampoline,
    decreases ops.len(),
{
    if ops.len() > 0 {
        law_trampoline_stays(view, ops.drop_last());
    }
}

/// As long as the hook is not removed and the render loop does not change
/// itself, another hook does not change it.
pub proof fn law_render_loop_stays<L>(view: HookView<L>, ops: Seq<HookOp<L>>)
    requires
        view.render_loop is Some,
        forall|i: int|
            0 <= i < ops.len() ==> !(#[trigger] ops[i] is Unhook) && !(ops[i] is Redraw),
    ensures
        run(view, ops).render_loop == view.render_loop,
    decreases ops.len(),
{
    if ops.len() > 0 {
        law_render_loop_stays(view, ops.drop_last());
        let last = ops[ops.len() - 1];
    }
}

/// A hook that is installed after the last one was removed sets the render loop
/// anew.
pub proof fn law_hook_again<L>(view: HookView<L>, render_loop: L, trampoline: usize)
    ensures
        view.unhooked().installed(render_loop, trampoline).render_loop == Some(render_loop),
        view.trampoline is Some ==> view.unhooked().installed(render_loop, trampoline).trampoline
            == view.trampoline,
{
}

/// Every window procedure that was replaced is put back once and in order, but
/// for the one of the renderer that is still there.
pub proof fn law_wnd_procs_are_put_back<L>(view: HookView<L>, ops: Seq<HookOp<L>>)
    requires
        view.imgui is None,
        all_possible(view, ops),
    ensures
        replaced(ops) == put_back(view, ops) + as_seq(binding_of(run(view, ops).imgui)),
    decreases ops.len(),
{
    if ops.len() > 0 {
        law_wnd_procs_are_put_back(view, ops.drop_last());
        assert(replaced(ops) =~= put_back(view, ops) + as_seq(binding_of(run(view, ops).imgui)));
    }
}

/// Once the hook is removed, every window procedure that was replaced has been
/// put back.
pub proof fn law_unhook_puts_everything_back<L>(view: HookView<L>, ops: Seq<HookOp<L>>)
    requires
        view.imgui is None,
        all_possible(view, ops),
    ensures
        replaced(ops.push(HookOp::Unhook)) == put_back(view, ops.push(HookOp::Unhook)),
        run(view, ops.push(HookOp::Unhook)).render_loop is None,
{
    let all = ops.push(HookOp::Unhook);
    assert(all.drop_last() =~= ops);
    law_wnd_procs_are_put_back(view, all);
}

/// The place of the egui renderer is never filled, so there is never one to
/// reset.
pub proof fn law_no_egui_renderer<L>(view: HookView<L>, ops: Seq<HookOp<L>>)
    requires
        view.egui is None,
    ensures
        run(view, ops).egui is None,
    decreases ops.len(),
{
    if ops.len() > 0 {
        law_no_egui_renderer(view, ops.drop_last());
    }
}

/// The locks that the renderers are used under stay the same.
pub proof fn law_locks_stay<L>(view: HookView<L>, ops: Seq<HookOp<L>>)
    ensures
        run(view, ops).imgui_lock == view.imgui_lock,
        run(view, ops).egui_lock == view.egui_lock,
    decreases ops.len(),
{
    if ops.len() > 0 {
        law_locks_stay(view, ops.drop_last());
    }
}

/// The egui overlay begins to be initialized once, the first time that it is
/// drawn, and not again after the hook was removed.
pub proof fn law_egui_is_initialized_once<L>(view: HookView<L>, ops: Seq<HookOp<L>>)
    requires
        view.egui_init == EguiInit::New,
        all_possible(view, ops),
    ensures
        initializations(view, ops) == (if exists|i: int|
            0 <= i < ops.len() && #[trigger] ops[i] is EguiDraw {
            1nat
        } else {
            0nat
        }),
        run(view, ops).egui_init != EguiInit::New <==> exists|i: int|
            0 <= i < ops.len() && #[trigger] ops[i] is EguiDraw,
    decreases ops.len(),
{
    if ops.len() > 0 {
        let before = ops.drop_last();
        law_egui_is_initialized_once(view, before);
        if exists|i: int| 0 <= i < before.len() && #[trigger] before[i] is EguiDraw {
            let i = choose|i: int| 0 <= i < before.len() && #[trigger] before[i] is EguiDraw;
            assert(ops[i] is EguiDraw);
        } else if ops.last() is EguiDraw {
            assert(ops[ops.len() - 1] is EguiDraw);
        } else {
            assert forall|i: int| 0 <= i < ops.len() implies !(#[trigger] ops[i] is EguiDraw) by {
                if i < before.len() {
                    assert(before[i] == ops[i]);
                }
            }
        }
    }
}

/// The egui overlay is rendered just when its initialization has finished, and
/// not when it has only begun.
pub proof fn law_egui_is_rendered_when_initialized<L>(view: HookView<L>, ops: Seq<HookOp<L>>)
    requires
        view.egui_init == EguiInit::New,
        all_possible(view, ops.push(HookOp::EguiDraw)),
    ensures
        egui_draw_step(run(view, ops).egui_init) == EguiDraw::Render <==> exists|i: int|
            0 <= i < ops.len() && #[trigger] ops[i] == (HookOp::<L>::EguiFinish { finished: true }),
{
    assert(ops.push(HookOp::EguiDraw).drop_last() =~= ops);
    lemma_egui_complete(view, ops);
}

/// The initialization of the egui overlay is complete just when it was finished.
proof fn lemma_egui_complete<L>(view: HookView<L>, ops: Seq<HookOp<L>>)
    requires
        view.egui_init == EguiInit::New,
        all_possible(view, ops),
    ensures
        run(view, ops).egui_init == EguiInit::Complete <==> exists|i: int|
            0 <= i < ops.len() && #[trigger] ops[i] == (HookOp::<L>::EguiFinish { finished: true }),
    decreases ops.len(),
{
    if ops.len() > 0 {
        let before = ops.drop_last();
        let end = HookOp::<L>::EguiFinish { finished: true };
        lemma_egui_complete(view, before);
        if exists|i: int| 0 <= i < before.len() && #[trigger] before[i] == end {
            let i = choose|i: int| 0 <= i < before.len() && #[trigger] before[i] == end;
            assert(ops[i] == end);
        } else if ops.last() == end {
            assert(ops[ops.len() - 1] == end);
        } else {
            assert forall|i: int| 0 <= i < ops.len() implies #[trigger] ops[i] != end by {
                if i < before.len() {
                    assert(before[i] == ops[i]);
                }
            }
        }
    }
}

// ---------------------------------------------------------------------------
// Drawing
// ---------------------------------------------------------------------------

/// What comes of `step` where the window of the device context is `hwnd` and
/// its procedure was `wnd_proc`.
pub open spec fn draw_reply(step: DrawStep, hwnd: isize, wnd_proc: isize) -> DrawReply {
    match step {
        DrawStep::FindWindow => DrawReply::Window(hwnd),
        DrawStep::ReplaceWndProc { .. } => DrawReply::PreviousWndProc(wnd_proc),
        _ => DrawReply::Done,
    }
}

/// How many steps are left after `step`.
pub open spec fn draw_rank(step: DrawStep) -> nat {
    match step {
        DrawStep::CreateContext => 6,
        DrawStep::InitializeRenderLoop => 5,
        DrawStep::CreateRenderer => 4,
        DrawStep::FindWindow => 3,
        DrawStep::ReplaceWndProc { .. } => 2,
        DrawStep::SetUpIo { .. } => 1,
        DrawStep::Render => 0,
    }
}

/// The steps of drawing, from `step` on.  Without a render loop the last one is
/// that which it cannot take.
pub open spec fn draw_steps(
    step: DrawStep,
    has_render_loop: bool,
    hwnd: isize,
    wnd_proc: isize,
) -> Seq<DrawStep>
    decreases draw_rank(step),
{
    if step == DrawStep::Render || (step != DrawStep::CreateContext && !has_render_loop) {
        seq![step]
    } else {
        seq![step] + draw_steps(
            draw_step_after(step, draw_reply(step, hwnd, wnd_proc)),
            has_render_loop,
            hwnd,
            wnd_proc,
        )
    }
}

/// Drawing renders with the renderer that is there, and makes one before if
/// there is none: the render loop prepares the context before anything is done
/// to the window, and the procedure that is replaced is the one that is kept.
/// Without a render loop drawing ends there, with the window as it was.
pub proof fn law_draw<L>(view: HookView<L>, hwnd: isize, wnd_proc: isize)
    requires
        view.wf(),
    ensures
        draw_steps(first_draw_step(view.imgui), view.render_loop is Some, hwnd, wnd_proc) == (
        if view.imgui is Some {
            seq![DrawStep::Render]
        } else if view.render_loop is Some {
            seq![
                DrawStep::CreateContext,
                DrawStep::InitializeRenderLoop,
                DrawStep::CreateRenderer,
                DrawStep::FindWindow,
                DrawStep::ReplaceWndProc { hwnd },
                DrawStep::SetUpIo { binding: WndProcBinding { hwnd, wnd_proc } },
                DrawStep::Render,
            ]
        } else {
            seq![DrawStep::CreateContext, DrawStep::InitializeRenderLoop]
        }),
{
    reveal_with_fuel(draw_steps, 7);
}

/// The state after all of `steps`.
pub open spec fn after_draw_steps<L>(view: HookView<L>, steps: Seq<DrawStep>) -> HookView<L>
    decreases steps.len(),
{
    if steps.len() == 0 {
        view
    } else {
        let before = after_draw_steps(view, steps.drop_last());
        match steps.last() {
            DrawStep::SetUpIo { binding } => before.with_imgui(binding),
            _ => before,
        }
    }
}

/// Drawing keeps the renderer that is there.  If there is none, it leaves one
/// behind that belongs to the window of the device context, knows the procedure
/// that was replaced, and has seen nothing of the window yet.  Without a render
/// loop it leaves none.
pub proof fn law_draw_leaves_a_renderer<L>(view: HookView<L>, hwnd: isize, wnd_proc: isize)
    requires
        view.wf(),
    ensures
        after_draw_steps(
            view,
            draw_steps(first_draw_step(view.imgui), view.render_loop is Some, hwnd, wnd_proc),
        ) == (if view.imgui is None && view.render_loop is Some {
            view.with_imgui(WndProcBinding { hwnd, wnd_proc })
        } else {
            view
        }),
{
    law_draw(view, hwnd, wnd_proc);
    let steps = draw_steps(
        first_draw_step(view.imgui),
        view.render_loop is Some,
        hwnd,
        wnd_proc,
    );
    if view.imgui is Some || view.render_loop is None {
        lemma_no_set_up(view, steps);
    } else {
        let binding = WndProcBinding { hwnd, wnd_proc };
        assert forall|n: int| 0 <= n <= 5 implies after_draw_steps(view, #[trigger] steps.take(n))
            == view by {
            lemma_no_set_up(view, steps.take(n));
        }
        assert(steps.take(6).drop_last() =~= steps.take(5));
        assert(steps.take(6).last() == DrawStep::SetUpIo { binding });
        assert(after_draw_steps(view, steps.take(6)) == view.with_imgui(binding));
        assert(steps.drop_last() =~= steps.take(6));
        assert(steps.last() == DrawStep::Render);
    }
}

/// Steps that do not set up input leave the state alone.
proof fn lemma_no_set_up<L>(view: HookView<L>, steps: Seq<DrawStep>)
    requires
        forall|i: int| 0 <= i < steps.len() ==> !(#[trigger] steps[i] is SetUpIo),
    ensures
        after_draw_steps(view, steps) == view,
    decreases steps.len(),
{
    if steps.len() > 0 {
        lemma_no_set_up(view, steps.drop_last());
        assert(!(steps[steps.len() - 1] is SetUpIo));
    }
}

/// The steps of the detour, from `step` on.
pub open spec fn swap_steps(step: SwapStep, trampoline: Option<usize>) -> Seq<SwapStep>
    decreases
            match step {
                SwapStep::Draw => 3int,
                SwapStep::Reset => 2,
                SwapStep::CallOriginal { .. } => 1,
                SwapStep::Done => 0,
            },
{
    if step == SwapStep::Done {
        seq![]
    } else {
        seq![step] + swap_steps(swap_step_after(step, trampoline), trampoline)
    }
}

/// The detour draws, then resets, then calls the function that was detoured,
/// each once.
pub proof fn law_swap(trampoline: usize)
    ensures
        swap_steps(SwapStep::Draw, Some(trampoline)) == seq![
            SwapStep::Draw,
            SwapStep::Reset,
            SwapStep::CallOriginal { trampoline },
        ],
{
    reveal_with_fuel(swap_steps, 4);
}

// ---------------------------------------------------------------------------
// One frame
// ---------------------------------------------------------------------------

/// What the window system would answer during a frame.
pub struct FrameWorld {
    pub client_rect: Option<Rect>,
    pub foreground: isize,
    pub is_child: i32,
    pub cursor_pos: Option<Point>,
    pub translated: i32,
    pub client_pos: Point,
    pub first_reading: u64,
    pub now: u64,
}

/// The answer to `step`.
pub open spec fn world_reply(world: FrameWorld, step: FrameStep) -> FrameReply {
    match step {
        FrameStep::ClientRect => FrameReply::ClientRect(world.client_rect),
        FrameStep::Foreground => FrameReply::Foreground(world.foreground),
        FrameStep::IsChild { .. } => FrameReply::IsChild(world.is_child),
        FrameStep::CursorPos => FrameReply::CursorPos(world.cursor_pos),
        FrameStep::ScreenToClient { .. } => FrameReply::ScreenToClient(
            world.translated,
            world.client_pos,
        ),
        FrameStep::FirstClock => FrameReply::Clock(world.first_reading),
        FrameStep::Clock => FrameReply::Clock(world.now),
        _ => FrameReply::Done,
    }
}

/// An upper bound for the steps that are left after `step`.
pub open spec fn frame_rank(step: FrameStep) -> nat {
    match step {
        FrameStep::ClientRect => 10,
        FrameStep::Foreground => 9,
        FrameStep::IsChild { .. } => 8,
        FrameStep::CursorPos => 7,
        FrameStep::ScreenToClient { .. } => 6,
        FrameStep::FirstClock => 5,
        FrameStep::Clock => 4,
        FrameStep::NewFrame => 3,
        FrameStep::RenderLoop => 2,
        FrameStep::DrawFrame => 1,
        FrameStep::Done => 0,
    }
}

/// `effect` in a sequence, unless it is nothing.
pub open spec fn told(effect: FrameEffect) -> Seq<FrameEffect> {
    if effect == FrameEffect::Nothing {
        seq![]
    } else {
        seq![effect]
    }
}

/// What the host does during the rest of a frame for the window `game_hwnd`, in
/// order, and what the clock has last seen at its end.
pub open spec fn frame_run(
    game_hwnd: isize,
    step: FrameStep,
    last: Option<u64>,
    world: FrameWorld,
) -> (Seq<FrameEffect>, Option<u64>)
    decreases frame_rank(step),
{
    if step == FrameStep::Done {
        (seq![], last)
    } else {
        let reply = world_reply(world, step);
        let rest = frame_run(
            game_hwnd,
            step_after(game_hwnd, step, last, reply),
            last_after(last, reply),
            world,
        );
        (told(effect_of(step, last, reply)) + rest.0, rest.1)
    }
}

/// The game has the focus: its window, or a window that it is a child of, is in
/// the foreground.
pub open spec fn focused(world: FrameWorld, game_hwnd: isize) -> bool {
    !handle_invalid(world.foreground) && (world.foreground == game_hwnd || flag_set(world.is_child))
}

/// What the toolkit is told of the window and of the mouse.
pub open spec fn window_report(world: FrameWorld, game_hwnd: isize) -> Seq<FrameEffect> {
    match world.client_rect {
        Some(rect) => seq![FrameEffect::DisplaySize(rect.extents())] + if focused(world, game_hwnd)
            && world.cursor_pos is Some && flag_set(world.translated) {
            seq![FrameEffect::MousePos(world.client_pos)]
        } else {
            seq![]
        },
        None => seq![FrameEffect::RectUnavailable],
    }
}

/// The moment from which the time of a frame is counted.
pub open spec fn counted_from(world: FrameWorld, last: Option<u64>) -> u64 {
    match last {
        Some(reading) => reading,
        None => world.first_reading,
    }
}

/// In a frame the toolkit is told the size of the window; where the mouse is, if
/// the game has the focus and the position can be had; and last how much time
/// has passed.  If the client rectangle cannot be had, it is only told the time.
pub proof fn law_frame(game_hwnd: isize, last: Option<u64>, world: FrameWorld)
    ensures
        frame_run(game_hwnd, FrameStep::ClientRect, last, world) == (
            window_report(world, game_hwnd) + seq![
                FrameEffect::DeltaTime(elapsed(counted_from(world, last), world.now)),
            ],
            Some(world.now),
        ),
{
    law_painting(game_hwnd, Some(world.now), world);
    let from_clock = frame_run(game_hwnd, clock_step(last), last, world);
    let expected = seq![FrameEffect::DeltaTime(elapsed(counted_from(world, last), world.now))];
    assert(from_clock.0 =~= expected && from_clock.1 == Some(world.now)) by {
        reveal_with_fuel(frame_run, 3);
    }
    let mouse = if world.cursor_pos is Some && flag_set(world.translated) {
        seq![FrameEffect::MousePos(world.client_pos)]
    } else {
        seq![]
    };
    // From the cursor on.
    let from_cursor = frame_run(game_hwnd, FrameStep::CursorPos, last, world);
    assert(from_cursor.0 =~= mouse + expected && from_cursor.1 == Some(world.now)) by {
        if world.cursor_pos is Some {
            let pos = world.cursor_pos->0;
            let from_translation = frame_run(
                game_hwnd,
                FrameStep::ScreenToClient { pos },
                last,
                world,
            );
            assert(from_translation.0 =~= mouse + expected);
        }
    }
    // From the foreground window on.
    let from_foreground = frame_run(game_hwnd, FrameStep::Foreground, last, world);
    let told_mouse = if focused(world, game_hwnd) {
        mouse
    } else {
        seq![]
    };
    assert(from_foreground.0 =~= told_mouse + expected && from_foreground.1 == Some(world.now)) by {
        let active = world.foreground;
        let from_child = frame_run(game_hwnd, FrameStep::IsChild { active }, last, world);
        assert(from_child.0 =~= if flag_set(world.is_child) {
            from_cursor.0
        } else {
            from_clock.0
        });
    }
    let run = frame_run(game_hwnd, FrameStep::ClientRect, last, world);
    assert(run.0 =~= window_report(world, game_hwnd) + expected);
}

/// What a frame wants, in order.
pub open spec fn frame_steps(
    game_hwnd: isize,
    step: FrameStep,
    last: Option<u64>,
    world: FrameWorld,
) -> Seq<FrameStep>
    decreases frame_rank(step),
{
    if step == FrameStep::Done {
        seq![]
    } else {
        let reply = world_reply(world, step);
        seq![step] + frame_steps(
            game_hwnd,
            step_after(game_hwnd, step, last, reply),
            last_after(last, reply),
            world,
        )
    }
}

/// What painting consists of.
pub open spec fn painting() -> Seq<FrameStep> {
    seq![FrameStep::NewFrame, FrameStep::RenderLoop, FrameStep::DrawFrame]
}

/// Painting is to begin a new frame, to let the render loop draw in it, and then
/// to draw it in the window, each once.  The toolkit is told nothing any more by
/// then.
pub proof fn law_painting(game_hwnd: isize, last: Option<u64>, world: FrameWorld)
    ensures
        frame_steps(game_hwnd, FrameStep::NewFrame, last, world) == painting(),
        frame_run(game_hwnd, FrameStep::NewFrame, last, world) == (Seq::<FrameEffect>::empty(), last),
{
    reveal_with_fuel(frame_steps, 4);
    reveal_with_fuel(frame_run, 4);
    assert(frame_steps(game_hwnd, FrameStep::NewFrame, last, world) =~= painting());
    assert(frame_run(game_hwnd, FrameStep::NewFrame, last, world).0 =~= Seq::<
        FrameEffect,
    >::empty());
}

/// The questions about the mouse, and about who has the focus.
pub open spec fn mouse_questions(world: FrameWorld, game_hwnd: isize) -> Seq<FrameStep> {
    let focus = if !handle_invalid(world.foreground) && world.foreground != game_hwnd {
        seq![FrameStep::Foreground, FrameStep::IsChild { active: world.foreground }]
    } else {
        seq![FrameStep::Foreground]
    };
    let mouse = if !focused(world, game_hwnd) {
        seq![]
    } else {
        match world.cursor_pos {
            Some(pos) => seq![FrameStep::CursorPos, FrameStep::ScreenToClient { pos }],
            None => seq![FrameStep::CursorPos],
        }
    };
    focus + mouse
}

/// The questions about the time.
pub open spec fn clock_questions(last: Option<u64>) -> Seq<FrameStep> {
    match last {
        Some(_) => seq![FrameStep::Clock],
        None => seq![FrameStep::FirstClock, FrameStep::Clock],
    }
}

/// A frame asks no more than it needs: for the mouse only if the client
/// rectangle can be had and the game has the focus, whether the game's window is
/// a child only of another window that is valid, and for a first reading of the
/// clock only in the first frame.  When it has asked, it is painted, once.
pub proof fn law_frame_steps(game_hwnd: isize, last: Option<u64>, world: FrameWorld)
    ensures
        frame_steps(game_hwnd, FrameStep::ClientRect, last, world) == seq![FrameStep::ClientRect]
            + (if world.client_rect is Some {
            mouse_questions(world, game_hwnd)
        } else {
            seq![]
        }) + clock_questions(last) + painting(),
{
    law_painting(game_hwnd, Some(world.now), world);
    let from_clock = frame_steps(game_hwnd, clock_step(last), last, world);
    assert(from_clock =~= clock_questions(last) + painting()) by {
        reveal_with_fuel(frame_steps, 3);
    }
    let rest = clock_questions(last) + painting();
    // From the cursor on.
    let mouse = match world.cursor_pos {
        Some(pos) => seq![FrameStep::CursorPos, FrameStep::ScreenToClient { pos }],
        None => seq![FrameStep::CursorPos],
    };
    let from_cursor = frame_steps(game_hwnd, FrameStep::CursorPos, last, world);
    assert(from_cursor =~= mouse + rest) by {
        if world.cursor_pos is Some {
            let pos = world.cursor_pos->0;
            let translation = FrameStep::ScreenToClient { pos };
            assert(frame_steps(game_hwnd, translation, last, world) =~= seq![translation] + rest);
        }
    }
    // From the foreground window on.
    let from_foreground = frame_steps(game_hwnd, FrameStep::Foreground, last, world);
    assert(from_foreground =~= mouse_questions(world, game_hwnd) + rest) by {
        let child = FrameStep::IsChild { active: world.foreground };
        let from_child = frame_steps(game_hwnd, child, last, world);
        assert(from_child =~= seq![child] + if flag_set(world.is_child) {
            mouse + rest
        } else {
            rest
        });
    }
    let steps = frame_steps(game_hwnd, FrameStep::ClientRect, last, world);
    assert(steps =~= seq![FrameStep::ClientRect] + (if world.client_rect is Some {
        mouse_questions(world, game_hwnd)
    } else {
        seq![]
    }) + clock_questions(last) + painting());
}

/// The time that a clock which starts at `first` counts in frames at `readings`.
pub open spec fn total_elapsed(first: u64, readings: Seq<u64>) -> int
    decreases readings.len(),
{
    if readings.len() == 0 {
        0
    } else if readings.len() == 1 {
        elapsed(first, readings[0]) as int
    } else {
        total_elapsed(first, readings.drop_last()) + elapsed(
            readings[readings.len() - 2],
            readings.last(),
        )
    }
}

/// As long as time does not go backwards, no time gets lost between the frames:
/// what the toolkit is told adds up to the time that has passed.
pub proof fn law_time_adds_up(first: u64, readings: Seq<u64>)
    requires
        readings.len() > 0,
        first <= readings[0],
        forall|i: int, j: int| 0 <= i <= j < readings.len() ==> readings[i] <= readings[j],
    ensures
        total_elapsed(first, readings) == readings.last() - first,
    decreases readings.len(),
{
    if readings.len() > 1 {
        let before = readings.drop_last();
        assert forall|i: int, j: int| 0 <= i <= j < before.len() implies before[i] <= before[j] by {
            assert(before[i] == readings[i] && before[j] == readings[j]);
        }
        law_time_adds_up(first, before);
    }
}

// ---------------------------------------------------------------------------
// Resizing
// ---------------------------------------------------------------------------

/// What can be seen of a window: the viewport and the window rectangle.
pub struct Shown {
    pub viewport: Seq<i32>,
    pub rect: Rect,
}

/// Comparisons with all of `shown`, in order.
pub open spec fn resets<L>(shown: Seq<Shown>) -> Seq<HookOp<L>> {
    shown.map_values(|s: Shown| HookOp::Reset { viewport: s.viewport, rect: s.rect })
}

/// Both show the same resolution, and the same right and bottom edge.
pub open spec fn same_window(a: Shown, b: Shown) -> bool {
    &&& a.viewport[2] == b.viewport[2]
    &&& a.viewport[3] == b.viewport[3]
    &&& a.rect.right == b.rect.right
    &&& a.rect.bottom == b.rect.bottom
}

/// A new renderer stays just as long as the window shows the resolution, and the
/// right and bottom edge, that the renderer saw first: what it compares with
/// does not change however often it compares, the first comparison never makes
/// it go, and neither do a left or a top edge that move.
pub proof fn law_resets<L>(view: HookView<L>, binding: WndProcBinding, shown: Seq<Shown>)
    requires
        view.imgui == Some(WindowRenderer { binding, resolution_and_rect: None }),
    ensures
        run(view, resets(shown)).imgui is Some <==> forall|i: int|
            0 <= i < shown.len() ==> same_window(shown[0], #[trigger] shown[i]),
        run(view, resets(shown)).imgui matches Some(renderer) ==> {
            &&& renderer.binding == binding
            &&& shown.len() > 0 ==> renderer.resolution_and_rect == Some(
                remembered(None, shown[0].viewport, shown[0].rect),
            )
        },
        shown.len() == 0 ==> run(view, resets(shown)) == view,
    decreases shown.len(),
{
    if shown.len() > 0 {
        let before = shown.drop_last();
        let last = shown.last();
        law_resets(view, binding, before);
        assert(resets::<L>(shown).drop_last() =~= resets::<L>(before));
        assert(resets::<L>(shown).last() == HookOp::<L>::Reset {
            viewport: last.viewport,
            rect: last.rect,
        });
        assert forall|i: int| 0 <= i < before.len() implies before[i] == #[trigger] shown[i] by {}
        assert(shown[shown.len() - 1] == last);
        let kept = run(view, resets(before)).imgui;
        if kept is Some {
            assert forall|i: int| 0 <= i < before.len() implies same_window(
                shown[0],
                #[trigger] shown[i],
            ) by {
                assert(same_window(before[0], before[i]));
            }
        } else {
            let i = choose|i: int|
                0 <= i < before.len() && !same_window(before[0], #[trigger] before[i]);
            assert(!same_window(shown[0], shown[i]));
        }
    }
}

/// An overlay that went because the window has changed is built anew by the next
/// drawing, and the window that made it go does not make the new one go.
pub proof fn law_resized_overlay_is_rebuilt<L>(
    view: HookView<L>,
    binding: WndProcBinding,
    shown: Shown,
)
    requires
        view.imgui matches Some(renderer) && renderer.outdated(shown.viewport, shown.rect),
    ensures
        view.reset(shown.viewport, shown.rect).imgui is None,
        put_back_after(view.imgui, shown.viewport, shown.rect) == binding_of(view.imgui),
        first_draw_step(view.reset(shown.viewport, shown.rect).imgui) == DrawStep::CreateContext,
        view.reset(shown.viewport, shown.rect).with_imgui(binding).reset(
            shown.viewport,
            shown.rect,
        ).imgui is Some,
{
}

// ---------------------------------------------------------------------------
// Installing a hook
// ---------------------------------------------------------------------------

/// How installing a hook ends, given what each step comes to.
pub open spec fn setup_run(
    step: SetupStep,
    hook_impl: usize,
    module: Option<isize>,
    function: Option<usize>,
    trampoline: Option<usize>,
) -> SetupStep
    decreases
            match step {
                SetupStep::FindModule => 3int,
                SetupStep::FindFunction { .. } => 2,
                SetupStep::CreateHook { .. } => 1,
                _ => 0,
            },
{
    match step {
        SetupStep::FindModule => setup_run(
            setup_step_after(step, hook_impl, SetupReply::Module(module)),
            hook_impl,
            module,
            function,
            trampoline,
        ),
        SetupStep::FindFunction { .. } => setup_run(
            setup_step_after(step, hook_impl, SetupReply::Function(function)),
            hook_impl,
            module,
            function,
            trampoline,
        ),
        SetupStep::CreateHook { .. } => setup_run(
            setup_step_after(step, hook_impl, SetupReply::Trampoline(trampoline)),
            hook_impl,
            module,
            function,
            trampoline,
        ),
        _ => step,
    }
}

/// A hook is installed if the module, the function and the trampoline can all be
/// had; otherwise the first that cannot is what is reported.
pub proof fn law_setup(
    hook_impl: usize,
    module: Option<isize>,
    function: Option<usize>,
    trampoline: Option<usize>,
)
    ensures
        setup_run(SetupStep::FindModule, hook_impl, module, function, trampoline) == (
        if module is None {
            SetupStep::Failed { error: SetupError::ModuleNotFound }
        } else if function is None {
            SetupStep::Failed { error: SetupError::FunctionNotFound }
        } else if trampoline is None {
            SetupStep::Failed { error: SetupError::HookNotCreated }
        } else {
            SetupStep::Ready {
                hook: MhHook { addr: function->0, hook_impl, trampoline: trampoline->0 },
            }
        }),
{
    reveal_with_fuel(setup_run, 4);
}

// ---------------------------------------------------------------------------
// Texts
// ---------------------------------------------------------------------------

/// A number in decimal stands for the number.
pub proof fn law_decimal_value(n: nat)
    ensures
        decimal_value(decimal(n)) == n,
        decimal(n).len() > 0,
    decreases n,
{
    if n < 10 {
        assert(decimal(n).drop_last() =~= Seq::<char>::empty());
        assert(decimal_value(decimal(n).drop_last()) == 0);
    } else {
        law_decimal_value(n / 10);
        assert(decimal(n).drop_last() =~= decimal(n / 10));
        assert(decimal(n).last() == digit(n % 10));
    }
}

/// Labels with different numbers have different texts.
pub proof fn law_numbered_labels_differ(m: nat, n: nat)
    requires
        m != n,
    ensures
        numbered_text(m) != numbered_text(n),
{
    if numbered_text(m) == numbered_text(n) {
        let prefix = "Label: "@;
        assert(decimal(m) =~= numbered_text(m).skip(prefix.len() as int));
        assert(decimal(n) =~= numbered_text(n).skip(prefix.len() as int));
        law_decimal_value(m);
        law_decimal_value(n);
    }
}

// ---------------------------------------------------------------------------
// The egui window
// ---------------------------------------------------------------------------

/// What the user has left of the four values in the window is what the next
/// window starts with, a text that was emptied too, and showing the window does
/// not change it.
pub proof fn law_panel_values_are_kept(state: PanelView, input: PanelInput)
    requires
        state.text is Some,
    ensures
        state.shown() == state,
        panel_widgets(state, input)[5] == (WidgetView::Checkbox {
            text: "Some checkbox"@,
            checked: state.checked,
        }),
        panel_widgets(state, input)[6] == (WidgetView::TextEdit { text: state.text->0 }),
        panel_widgets(state, input)[8] == (WidgetView::Slider {
            min: -1i32,
            max: 1,
            value: state.value,
        }),
        panel_widgets(state, input)[9] == (WidgetView::ColorButton { rgb: state.color }),
        forall|i: int|
            0 <= i < panel_widgets(state, input).len() ==> #[trigger] window_widgets(
                state,
                input,
            )[i] == panel_widgets(state, input)[i],
{
}

} // verus!

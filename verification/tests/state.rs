use opengl3_hooks::frame::FrameStep;
use opengl3_hooks::geometry::Rect;
use opengl3_hooks::hooks::{EguiOpenGl3Hooks, ImguiOpenGl3Hooks, MhHook};
use opengl3_hooks::lock::{Access, RendererLock};
use opengl3_hooks::once::SetOnce;
use opengl3_hooks::renderer::WndProcBinding;
use opengl3_hooks::state::{
    route_message, DrawReply, DrawStep, EguiDraw, HookState, SwapStep, Unhooked, WndProcRoute,
};

const HOOK: MhHook = MhHook { addr: 0x1000, hook_impl: 0x2000, trampoline: 0x3000 };
const OTHER: MhHook = MhHook { addr: 0x4000, hook_impl: 0x5000, trampoline: 0x6000 };
const SMALL: Rect = Rect { left: 0, top: 0, right: 640, bottom: 480 };
const LARGE: Rect = Rect { left: 0, top: 0, right: 800, bottom: 600 };

/// A state with a hook, and the lock of its ImGui renderer.
fn hooked() -> (HookState<&'static str>, RendererLock) {
    let lock = RendererLock::new();
    let mut state = HookState::new(&lock, &RendererLock::new());
    ImguiOpenGl3Hooks::new(&mut state, "first", HOOK);
    (state, lock)
}

/// Draws in the window `hwnd`, whose procedure was `wnd_proc`.
fn draw(state: &mut HookState<&'static str>, hwnd: isize, wnd_proc: isize) -> Vec<DrawStep> {
    let mut steps = Vec::new();
    let mut step = state.begin_draw();
    while step != DrawStep::Render {
        steps.push(step);
        let reply = match step {
            DrawStep::FindWindow => DrawReply::Window(hwnd),
            DrawStep::ReplaceWndProc { .. } => DrawReply::PreviousWndProc(wnd_proc),
            _ => DrawReply::Done,
        };
        assert_eq!(state.imgui().is_none(), true);
        step = state.advance_draw(step, reply);
    }
    steps.push(step);
    steps
}

/// What was put back, whether the lock was held for it, and the render loop.
fn unhooked(
    removed: Unhooked<'_, &'static str>,
) -> (Option<WndProcBinding>, bool, Option<&'static str>) {
    (removed.restore, removed.guard.is_some(), removed.render_loop)
}

fn reset(
    state: &mut HookState<&'static str>,
    lock: &RendererLock,
    viewport: [i32; 4],
    rect: Rect,
) -> Option<WndProcBinding> {
    match state.begin_reset(lock) {
        Access::Held(guard) => state.finish_reset(&guard, &viewport, rect),
        _ => None,
    }
}

#[test]
fn set_once_keeps_the_first_value() {
    let mut cell = SetOnce::new();
    assert_eq!(cell.get(), None);
    assert_eq!(cell.get_mut(), None);
    cell.get_or_init(1);
    cell.get_or_init(2);
    assert_eq!(cell.get(), Some(&1));
    *cell.get_mut().unwrap() += 10;
    assert_eq!(cell.take(), Some(11));
    assert_eq!(cell.take(), None);
    cell.get_or_init(3);
    assert_eq!(cell.get(), Some(&3));
}

#[test]
fn new_state_is_empty() {
    let state: HookState<u8> =
        HookState::new(&RendererLock::new(), &RendererLock::new());
    assert_eq!(state.render_loop(), None);
    assert_eq!(state.trampoline(), None);
    assert!(state.imgui().is_none());
    assert_eq!(state.begin_draw(), DrawStep::CreateContext);
}

#[test]
fn first_hook_sets_render_loop_and_trampoline() {
    let (mut state, _) = hooked();
    let hooks = EguiOpenGl3Hooks::new(&mut state, "second", OTHER);
    assert_eq!(hooks.hooks(), &[OTHER]);
    assert_eq!(state.render_loop(), Some(&"first"));
    assert_eq!(state.trampoline(), Some(0x3000));
}

#[test]
fn hook_after_unhook_sets_the_render_loop_only() {
    let mut lock = RendererLock::new();
    let mut state = HookState::new(&lock, &RendererLock::new());
    let mut hooks = ImguiOpenGl3Hooks::from_render_loop(&mut state, "first", HOOK);
    assert_eq!(hooks.hooks(), &[HOOK]);
    assert_eq!(unhooked(hooks.unhook(&mut state, &mut lock)), (None, false, Some("first")));
    assert_eq!(hooks.hooks(), &[HOOK]);
    assert_eq!(state.render_loop(), None);
    assert_eq!(state.trampoline(), Some(0x3000));
    let hooks = EguiOpenGl3Hooks::from_render_loop(&mut state, "second", OTHER);
    assert_eq!(hooks.hooks(), &[OTHER]);
    assert_eq!(state.render_loop(), Some(&"second"));
    assert_eq!(state.trampoline(), Some(0x3000));
}

#[test]
fn render_loop_can_change_itself() {
    let (mut state, _) = hooked();
    *state.render_loop_mut().unwrap() = "changed";
    assert_eq!(state.render_loop(), Some(&"changed"));
    assert_eq!(state.trampoline(), Some(0x3000));
    let mut empty: HookState<u8> =
        HookState::new(&RendererLock::new(), &RendererLock::new());
    assert!(empty.render_loop_mut().is_none());
}

#[test]
fn drawing_makes_a_renderer_once() {
    let (mut state, _) = hooked();
    let binding = WndProcBinding { hwnd: 44, wnd_proc: 55 };
    assert_eq!(
        draw(&mut state, 44, 55),
        vec![
            DrawStep::CreateContext,
            DrawStep::InitializeRenderLoop,
            DrawStep::CreateRenderer,
            DrawStep::FindWindow,
            DrawStep::ReplaceWndProc { hwnd: 44 },
            DrawStep::SetUpIo { binding },
            DrawStep::Render,
        ]
    );
    let renderer = state.imgui().unwrap();
    assert_eq!(renderer.binding, binding);
    assert_eq!(renderer.resolution_and_rect, None);
    assert_eq!(draw(&mut state, 66, 77), vec![DrawStep::Render]);
    assert_eq!(state.imgui().unwrap().binding, binding);
}

#[test]
fn changed_window_puts_the_procedure_back() {
    let (mut state, lock) = hooked();
    draw(&mut state, 44, 55);
    assert_eq!(reset(&mut state, &lock, [0, 0, 640, 480], SMALL), None);
    assert_eq!(reset(&mut state, &lock, [0, 0, 640, 480], SMALL), None);
    assert!(state.imgui().is_some());
    assert_eq!(
        reset(&mut state, &lock, [0, 0, 800, 600], LARGE),
        Some(WndProcBinding { hwnd: 44, wnd_proc: 55 })
    );
    assert!(state.imgui().is_none());
    assert_eq!(state.render_loop(), Some(&"first"));
    // The next drawing makes a new one, which the larger window suits.
    assert_eq!(draw(&mut state, 44, 56).len(), 7);
    assert_eq!(reset(&mut state, &lock, [0, 0, 800, 600], LARGE), None);
    assert_eq!(state.imgui().unwrap().binding, WndProcBinding { hwnd: 44, wnd_proc: 56 });
}

#[test]
fn reset_needs_a_renderer_that_is_not_in_use() {
    let (mut state, lock) = hooked();
    assert!(matches!(state.begin_reset(&lock), Access::Absent));
    draw(&mut state, 44, 55);
    let guard = lock.try_access(true);
    assert!(matches!(state.begin_reset(&lock), Access::Busy));
    drop(guard);
    assert!(matches!(state.begin_reset(&lock), Access::Held(_)));
}

#[test]
fn unhook_puts_the_procedure_back() {
    let mut lock = RendererLock::new();
    let mut state = HookState::new(&lock, &RendererLock::new());
    let mut hooks = EguiOpenGl3Hooks::new(&mut state, "first", HOOK);
    draw(&mut state, 44, 55);
    let removed = hooks.unhook(&mut state, &mut lock);
    assert_eq!(
        unhooked(removed),
        (Some(WndProcBinding { hwnd: 44, wnd_proc: 55 }), true, Some("first"))
    );
    assert!(state.imgui().is_none());
    assert_eq!(state.render_loop(), None);
    assert_eq!(unhooked(hooks.unhook(&mut state, &mut lock)), (None, false, None));
    // The lock is free again.
    assert!(matches!(lock.try_access(true), Access::Held(_)));
}

#[test]
fn every_procedure_is_put_back_once_and_in_order() {
    let (mut state, mut lock) = hooked();
    let mut put_back = Vec::new();
    for i in 0..4 {
        draw(&mut state, 44, 100 + i);
        assert_eq!(reset(&mut state, &lock, [0, 0, 640, 480], SMALL), None);
        if i < 3 {
            put_back.extend(reset(&mut state, &lock, [0, 0, 800, 600], LARGE));
        }
    }
    put_back.extend(state.unhook(&mut lock).restore);
    let procedures: Vec<isize> = put_back.iter().map(|b| b.wnd_proc).collect();
    assert_eq!(procedures, vec![100, 101, 102, 103]);
}

#[test]
fn messages_go_to_a_free_renderer_only() {
    let (mut state, lock) = hooked();
    assert!(matches!(state.wnd_proc(&lock), WndProcRoute::Unhooked));
    draw(&mut state, 44, 55);
    match state.wnd_proc(&lock) {
        WndProcRoute::Handle { guard, render_loop } => {
            assert_eq!(*render_loop, "first");
            // A message in the middle of another one.
            assert!(matches!(state.wnd_proc(&lock), WndProcRoute::Busy));
            drop(guard);
        },
        _ => panic!("the renderer is free"),
    }
    assert!(matches!(state.wnd_proc(&lock), WndProcRoute::Handle { .. }));
}

#[test]
fn route_follows_the_access() {
    let lock = RendererLock::new();
    assert!(matches!(route_message::<u8>(Access::Absent, None), WndProcRoute::Unhooked));
    assert!(matches!(route_message(Access::Busy, Some(&1u8)), WndProcRoute::Busy));
    let route = route_message(lock.try_access(true), Some(&7u8));
    match route {
        WndProcRoute::Handle { render_loop, .. } => assert_eq!(*render_loop, 7),
        _ => panic!("the lock is free"),
    }
}

#[test]
fn detour_draws_resets_and_calls_the_original() {
    let (state, _) = hooked();
    let mut steps = vec![SwapStep::first()];
    while *steps.last().unwrap() != SwapStep::Done {
        steps.push(state.next_swap_step(*steps.last().unwrap()));
    }
    assert_eq!(
        steps,
        vec![
            SwapStep::Draw,
            SwapStep::Reset,
            SwapStep::CallOriginal { trampoline: 0x3000 },
            SwapStep::Done,
        ]
    );
    assert_eq!(state.next_swap_step(SwapStep::Done), SwapStep::Done);
}

#[test]
fn egui_is_initialized_the_first_time() {
    let (mut state, mut lock) = hooked();
    assert_eq!(state.egui_draw(), EguiDraw::Initialize);
    // Others wait until that has finished.
    assert_eq!(state.egui_draw(), EguiDraw::Wait);
    state.finish_egui_init(true);
    assert_eq!(state.egui_draw(), EguiDraw::Render);
    state.unhook(&mut lock);
    assert_eq!(state.egui_draw(), EguiDraw::Render);
    assert!(!state.egui_poisoned());
}

#[test]
fn egui_is_poisoned_if_its_initialization_is_given_up() {
    let (mut state, _) = hooked();
    assert!(!state.egui_poisoned());
    assert_eq!(state.egui_draw(), EguiDraw::Initialize);
    assert!(!state.egui_poisoned());
    state.finish_egui_init(false);
    assert!(state.egui_poisoned());
}

#[test]
fn frame_is_rendered_under_the_lock() {
    let (mut state, mut lock) = hooked();
    draw(&mut state, 44, 55);
    let frame = state.begin_render(&mut lock);
    assert_eq!(frame.game_hwnd, 44);
    assert_eq!(frame.step, FrameStep::ClientRect);
    std::mem::forget(frame);
    assert!(matches!(state.begin_reset(&lock), Access::Busy));
    assert!(matches!(state.wnd_proc(&lock), WndProcRoute::Busy));
}

#[test]
fn lock_is_free_when_the_frame_is_gone() {
    let (mut state, mut lock) = hooked();
    draw(&mut state, 44, 55);
    drop(state.begin_render(&mut lock));
    assert!(matches!(state.begin_reset(&lock), Access::Held(_)));
}

#[test]
fn lock_is_held_while_the_procedure_is_put_back() {
    let (mut state, mut lock) = hooked();
    draw(&mut state, 44, 55);
    std::mem::forget(state.unhook(&mut lock).guard);
    assert!(matches!(lock.try_access(true), Access::Busy));
}

#[test]
fn without_a_render_loop_drawing_stops_at_its_initialization() {
    let mut state: HookState<&'static str> =
        HookState::new(&RendererLock::new(), &RendererLock::new());
    let step = state.begin_draw();
    assert_eq!(step, DrawStep::CreateContext);
    assert_eq!(state.advance_draw(step, DrawReply::Done), DrawStep::InitializeRenderLoop);
    assert!(state.render_loop_mut().is_none());
    assert!(state.imgui().is_none());
}

#[test]
fn egui_has_no_renderer_to_reset() {
    let lock = RendererLock::new();
    let mut state = HookState::new(&RendererLock::new(), &lock);
    ImguiOpenGl3Hooks::new(&mut state, "first", HOOK);
    draw(&mut state, 44, 55);
    state.egui_draw();
    assert!(matches!(state.begin_egui_reset(&lock), Access::Absent));
    match lock.try_access(true) {
        Access::Held(guard) => {
            assert_eq!(state.finish_egui_reset(&guard, &[0, 0, 1, 1], SMALL), None);
            assert_eq!(state.finish_egui_reset(&guard, &[0, 0, 2, 2], LARGE), None);
        },
        _ => panic!("the lock is free"),
    }
    assert!(state.imgui().is_some());
}

use opengl3_hooks::clock::FrameClock;
use opengl3_hooks::frame::{FrameEffect, FrameReply, FrameStep};
use opengl3_hooks::geometry::{Point, Rect, Size};
use opengl3_hooks::lock::RendererLock;
use opengl3_hooks::renderer::WndProcBinding;
use opengl3_hooks::state::{DrawReply, DrawStep, HookState};

const GAME: isize = 0x1234;

/// What the window system answers.
#[derive(Clone, Copy)]
struct World {
    client_rect: Option<Rect>,
    foreground: isize,
    is_child: i32,
    cursor_pos: Option<Point>,
    translated: i32,
    client_pos: Point,
}

fn world() -> World {
    World {
        client_rect: Some(Rect { left: 0, top: 0, right: 640, bottom: 480 }),
        foreground: GAME,
        is_child: 0,
        cursor_pos: Some(Point { x: 110, y: 220 }),
        translated: 1,
        client_pos: Point { x: 10, y: 20 },
    }
}

/// Takes a frame to its end: what is asked before it is painted, and what comes of
/// it.
fn run(world: World, clock: &mut FrameClock, readings: &[u64]) -> (Vec<FrameStep>, Vec<FrameEffect>) {
    let mut readings = readings.iter();
    let mut asked = Vec::new();
    let mut effects = Vec::new();
    let mut lock = RendererLock::new();
    let mut state: HookState<u8> = HookState::new(&lock, &RendererLock::new());
    state.install(1, 2);
    let binding = WndProcBinding { hwnd: GAME, wnd_proc: 3 };
    assert_eq!(state.advance_draw(DrawStep::SetUpIo { binding }, DrawReply::Done), DrawStep::Render);
    let mut frame = state.begin_render(&mut lock);
    while frame.step != FrameStep::Done {
        asked.push(frame.step);
        let reply = match frame.step {
            FrameStep::ClientRect => FrameReply::ClientRect(world.client_rect),
            FrameStep::Foreground => FrameReply::Foreground(world.foreground),
            FrameStep::IsChild { active } => {
                assert_eq!(active, world.foreground);
                FrameReply::IsChild(world.is_child)
            },
            FrameStep::CursorPos => FrameReply::CursorPos(world.cursor_pos),
            FrameStep::ScreenToClient { pos } => {
                assert_eq!(Some(pos), world.cursor_pos);
                FrameReply::ScreenToClient(world.translated, world.client_pos)
            },
            FrameStep::FirstClock | FrameStep::Clock => {
                FrameReply::Clock(*readings.next().unwrap())
            },
            FrameStep::NewFrame | FrameStep::RenderLoop | FrameStep::DrawFrame => FrameReply::Done,
            FrameStep::Done => unreachable!(),
        };
        let effect = frame.advance(clock, reply);
        if effect != FrameEffect::Nothing {
            effects.push(effect);
        }
    }
    assert_eq!(asked.split_off(asked.len() - 3), PAINTING.to_vec());
    assert_eq!(readings.next(), None);
    assert_eq!(frame.game_hwnd, GAME);
    (asked, effects)
}

const PAINTING: [FrameStep; 3] =
    [FrameStep::NewFrame, FrameStep::RenderLoop, FrameStep::DrawFrame];
const SIZE: FrameEffect = FrameEffect::DisplaySize(Size { width: 640, height: 480 });
const MOUSE: FrameEffect = FrameEffect::MousePos(Point { x: 10, y: 20 });

#[test]
fn first_frame_reads_the_clock_twice() {
    let mut clock = FrameClock::new();
    let (asked, effects) = run(world(), &mut clock, &[1_000, 1_007]);
    assert_eq!(
        asked,
        vec![
            FrameStep::ClientRect,
            FrameStep::Foreground,
            FrameStep::CursorPos,
            FrameStep::ScreenToClient { pos: Point { x: 110, y: 220 } },
            FrameStep::FirstClock,
            FrameStep::Clock,
        ]
    );
    assert_eq!(effects, vec![SIZE, MOUSE, FrameEffect::DeltaTime(7)]);
}

#[test]
fn later_frames_count_from_the_last_one() {
    let mut clock = FrameClock::new();
    run(world(), &mut clock, &[1_000, 1_007]);
    let (asked, effects) = run(world(), &mut clock, &[1_030]);
    assert_eq!(asked.last(), Some(&FrameStep::Clock));
    assert!(!asked.contains(&FrameStep::FirstClock));
    assert_eq!(effects, vec![SIZE, MOUSE, FrameEffect::DeltaTime(23)]);
}

#[test]
fn display_size_is_measured_from_the_edges() {
    let mut clock = FrameClock::new();
    clock.start(0);
    let rect = Rect { left: 5, top: 6, right: 105, bottom: 56 };
    let (_, effects) = run(World { client_rect: Some(rect), ..world() }, &mut clock, &[1]);
    assert_eq!(effects[0], FrameEffect::DisplaySize(Size { width: 100, height: 50 }));
}

#[test]
fn without_client_rect_only_the_time_is_told() {
    let mut clock = FrameClock::new();
    clock.start(0);
    let (asked, effects) = run(World { client_rect: None, ..world() }, &mut clock, &[9]);
    assert_eq!(asked, vec![FrameStep::ClientRect, FrameStep::Clock]);
    assert_eq!(effects, vec![FrameEffect::RectUnavailable, FrameEffect::DeltaTime(9)]);
}

#[test]
fn invalid_foreground_window_has_no_focus() {
    for foreground in [0, -1] {
        let mut clock = FrameClock::new();
        clock.start(0);
        let away = World { foreground, is_child: 1, ..world() };
        let (asked, effects) = run(away, &mut clock, &[9]);
        assert_eq!(asked, vec![FrameStep::ClientRect, FrameStep::Foreground, FrameStep::Clock]);
        assert_eq!(effects, vec![SIZE, FrameEffect::DeltaTime(9)]);
    }
}

#[test]
fn other_foreground_window_has_the_focus_if_the_game_is_its_child() {
    for (is_child, focused) in [(0, false), (1, true), (-1, true), (256, true)] {
        let mut clock = FrameClock::new();
        clock.start(0);
        let other = World { foreground: -2, is_child, ..world() };
        let (asked, effects) = run(other, &mut clock, &[9]);
        assert_eq!(asked[2], FrameStep::IsChild { active: -2 });
        assert_eq!(asked.contains(&FrameStep::CursorPos), focused);
        assert_eq!(effects.contains(&MOUSE), focused);
    }
}

#[test]
fn mouse_is_not_told_without_a_cursor() {
    let mut clock = FrameClock::new();
    clock.start(0);
    let (asked, effects) = run(World { cursor_pos: None, ..world() }, &mut clock, &[9]);
    assert_eq!(
        asked,
        vec![
            FrameStep::ClientRect,
            FrameStep::Foreground,
            FrameStep::CursorPos,
            FrameStep::Clock,
        ]
    );
    assert_eq!(effects, vec![SIZE, FrameEffect::DeltaTime(9)]);
}

#[test]
fn mouse_is_not_told_if_it_cannot_be_translated() {
    let mut clock = FrameClock::new();
    clock.start(0);
    let (_, effects) = run(World { translated: 0, ..world() }, &mut clock, &[9]);
    assert_eq!(effects, vec![SIZE, FrameEffect::DeltaTime(9)]);
    let (_, effects) = run(World { translated: -1, ..world() }, &mut clock, &[10]);
    assert_eq!(effects, vec![SIZE, MOUSE, FrameEffect::DeltaTime(1)]);
}

use opengl3_hooks::geometry::{Rect, Size};
use opengl3_hooks::renderer::{reset_slot, WindowRenderer, WndProcBinding};
use opengl3_hooks::viewport::{compare_viewport, SavedViewport};

const BINDING: WndProcBinding = WndProcBinding { hwnd: 0x1234, wnd_proc: 0x7ff0 };

fn rect(left: i32, top: i32, right: i32, bottom: i32) -> Rect {
    Rect { left, top, right, bottom }
}

#[test]
fn first_viewport_is_remembered() {
    let mut saved = None;
    assert!(!compare_viewport(&mut saved, &[1, 2, 640, 480], rect(0, 0, 650, 490)));
    let first = Some(SavedViewport {
        resolution: Size { width: 640, height: 480 },
        window_rect: rect(0, 0, 650, 490),
    });
    assert_eq!(saved, first);
    assert!(compare_viewport(&mut saved, &[1, 2, 800, 600], rect(0, 0, 810, 610)));
    assert_eq!(saved, first);
    assert!(!compare_viewport(&mut saved, &[1, 2, 640, 480], rect(0, 0, 650, 490)));
}

#[test]
fn each_of_the_compared_values_counts() {
    let viewport = [0, 0, 640, 480];
    let first = rect(0, 0, 640, 480);
    let cases = [
        ([0, 0, 641, 480], first),
        ([0, 0, 640, 479], first),
        (viewport, rect(0, 0, 641, 480)),
        (viewport, rect(0, 0, 640, 481)),
    ];
    for (other_viewport, other_rect) in cases {
        let mut saved = None;
        assert!(!compare_viewport(&mut saved, &viewport, first));
        assert!(compare_viewport(&mut saved, &other_viewport, other_rect));
    }
}

#[test]
fn origin_does_not_count() {
    let mut saved = None;
    assert!(!compare_viewport(&mut saved, &[0, 0, 640, 480], rect(0, 0, 640, 480)));
    assert!(!compare_viewport(&mut saved, &[7, 8, 640, 480], rect(9, 10, 640, 480)));
}

#[test]
fn renderer_stays_while_the_window_stays() {
    let mut slot = Some(WindowRenderer::new(BINDING));
    for _ in 0..3 {
        assert_eq!(reset_slot(&mut slot, &[0, 0, 640, 480], rect(0, 0, 640, 480)), None);
        assert_eq!(slot.unwrap().binding, BINDING);
        assert_eq!(slot.unwrap().cleanup(), BINDING);
    }
}

#[test]
fn renderer_goes_when_the_window_changes() {
    let mut slot = Some(WindowRenderer::new(BINDING));
    assert_eq!(reset_slot(&mut slot, &[0, 0, 640, 480], rect(0, 0, 640, 480)), None);
    assert_eq!(reset_slot(&mut slot, &[0, 0, 800, 600], rect(0, 0, 800, 600)), Some(BINDING));
    assert!(slot.is_none());
    assert_eq!(reset_slot(&mut slot, &[0, 0, 640, 480], rect(0, 0, 640, 480)), None);
    assert!(slot.is_none());
}

use opengl3_hooks::panel::{KeyModifiers, LabelColor, PanelInput, PanelState, Widget};
use opengl3_hooks::text::{flag_text, push_decimal};

const NONE: KeyModifiers =
    KeyModifiers { alt: false, ctrl: false, shift: false, mac_cmd: false, command: false };

fn idle() -> PanelInput {
    PanelInput { primary: false, extra1: false, extra2: false, modifiers: NONE, r_pressed: false }
}

fn label(widget: &Widget) -> (&str, LabelColor) {
    match widget {
        Widget::Label { text, color } => (text.as_str(), *color),
        _ => panic!("not a label"),
    }
}

#[test]
fn numbers_are_written_in_decimal() {
    let numbers = [0u32, 7, 9, 10, 99, 100, 101, 4_294_967_295];
    for n in numbers {
        let mut text = String::from("n=");
        push_decimal(&mut text, n);
        assert_eq!(text, format!("n={}", n));
    }
}

#[test]
fn flags_are_written_in_words() {
    assert_eq!(flag_text(true), "true");
    assert_eq!(flag_text(false), "false");
}

#[test]
fn window_shows_the_panel_and_a_button() {
    let mut state = PanelState::new();
    let window = state.uii(&idle());
    assert_eq!(window.title, "Main menu");
    assert!(!window.panel.pressed);
    let widgets = &window.panel.widgets;
    assert_eq!(widgets.len(), 13);
    assert_eq!(label(&widgets[0]), ("Test", LabelColor::LightBlue));
    assert_eq!(label(&widgets[1]), ("Other", LabelColor::White));
    assert!(matches!(widgets[2], Widget::Separator));
    assert_eq!(label(&widgets[3]), ("X1: false X2: false", LabelColor::Default));
    assert_eq!(label(&widgets[4]), ("Ctrl: false Shift: false Alt: false", LabelColor::Default));
    assert!(matches!(&widgets[5], Widget::Checkbox { text, checked: true } if text == "Some checkbox"));
    assert!(matches!(&widgets[6], Widget::TextEdit { text } if text == "Test"));
    match &widgets[7] {
        Widget::ScrollArea { max_height, labels } => {
            assert_eq!(*max_height, 200);
            let expected: Vec<String> = (1..=100).map(|i| format!("Label: {}", i)).collect();
            assert_eq!(labels, &expected);
        },
        _ => panic!("not a scroll area"),
    }
    assert!(matches!(widgets[8], Widget::Slider { min: -1, max: 1, value: 0 }));
    assert!(matches!(widgets[9], Widget::ColorButton { rgb: [0, 0, 0] }));
    assert_eq!(label(&widgets[10]), ("false", LabelColor::Default));
    assert!(matches!(widgets[11], Widget::Separator));
    assert!(matches!(&widgets[12], Widget::Button { text } if text == "exit"));
}

#[test]
fn panel_has_no_button() {
    let plan = PanelState::new().test_ui(&idle());
    assert_eq!(plan.widgets.len(), 11);
    assert!(!plan.widgets.iter().any(|w| matches!(w, Widget::Button { .. })));
}

#[test]
fn labels_show_the_input() {
    let mut state = PanelState::new();
    let input = PanelInput {
        primary: true,
        extra1: true,
        extra2: false,
        modifiers: KeyModifiers { alt: true, shift: true, ..NONE },
        r_pressed: false,
    };
    let plan = state.test_ui(&input);
    assert_eq!(label(&plan.widgets[3]).0, "X1: true X2: false");
    assert_eq!(label(&plan.widgets[4]).0, "Ctrl: false Shift: true Alt: true");
    assert_eq!(label(&plan.widgets[10]).0, "true");
    let input = PanelInput { extra1: false, extra2: true, ..idle() };
    let input = PanelInput { modifiers: KeyModifiers { ctrl: true, ..NONE }, ..input };
    let plan = state.test_ui(&input);
    assert_eq!(label(&plan.widgets[3]).0, "X1: false X2: true");
    assert_eq!(label(&plan.widgets[4]).0, "Ctrl: true Shift: false Alt: false");
}

#[test]
fn text_is_set_once_and_then_kept() {
    let mut state = PanelState::new();
    assert!(state.checked);
    assert_eq!(state.text, None);
    state.test_ui(&idle());
    assert_eq!(state.text.as_deref(), Some("Test"));
    state.text = Some(String::from("edited"));
    state.checked = false;
    state.uii(&idle());
    assert_eq!(state.text.as_deref(), Some("edited"));
    assert!(!state.checked);
    state.text = Some(String::new());
    state.uii(&idle());
    assert_eq!(state.text.as_deref(), Some(""));
}

#[test]
fn next_window_starts_with_the_values_that_were_left() {
    let mut state = PanelState::new();
    assert_eq!(f32::from_bits(state.value), 0.0);
    assert_eq!(state.color.map(f32::from_bits), [0.0, 0.0, 0.0]);
    state.uii(&idle());
    state.checked = false;
    state.text = Some(String::new());
    state.value = (-0.25f32).to_bits();
    state.color = [0.5f32, 0.25, 1.0].map(f32::to_bits);
    for _ in 0..2 {
        let widgets = state.uii(&idle()).panel.widgets;
        assert!(matches!(widgets[5], Widget::Checkbox { checked: false, .. }));
        assert!(matches!(&widgets[6], Widget::TextEdit { text } if text.is_empty()));
        match widgets[8] {
            Widget::Slider { value, .. } => assert_eq!(f32::from_bits(value), -0.25),
            _ => panic!("not a slider"),
        }
        match widgets[9] {
            Widget::ColorButton { rgb } => {
                assert_eq!(rgb.map(f32::from_bits), [0.5, 0.25, 1.0]);
            },
            _ => panic!("not a color button"),
        }
    }
}

/// Every combination of modifier keys.
fn all_modifiers() -> Vec<KeyModifiers> {
    (0..32)
        .map(|bits| KeyModifiers {
            alt: bits & 1 != 0,
            ctrl: bits & 2 != 0,
            shift: bits & 4 != 0,
            mac_cmd: bits & 8 != 0,
            command: bits & 16 != 0,
        })
        .collect()
}

#[test]
fn control_and_r_are_reported() {
    let mut state = PanelState::new();
    for modifiers in all_modifiers() {
        let held = egui::Modifiers {
            alt: modifiers.alt,
            ctrl: modifiers.ctrl,
            shift: modifiers.shift,
            mac_cmd: modifiers.mac_cmd,
            command: modifiers.command,
        };
        let plan = state.test_ui(&PanelInput { modifiers, r_pressed: true, ..idle() });
        assert_eq!(plan.pressed, held.matches(egui::Modifiers::CTRL));
        assert_eq!(plan.pressed, modifiers.ctrl && !modifiers.alt && !modifiers.shift);
        let plan = state.test_ui(&PanelInput { modifiers, r_pressed: false, ..idle() });
        assert!(!plan.pressed);
    }
}

//! The window that the egui overlay shows.
//!
//! What the window consists of is worked out here from what the user does; the
//! host shows it, widget by widget, and keeps what the user makes of a widget's
//! value in [`PanelState`].

use vstd::prelude::*;

use crate::text::{decimal, flag, flag_text, push_decimal};

verus! {

/// The modifier keys that are held down.
#[derive(Clone, Copy, Debug, PartialEq, Eq, Structural)]
pub struct KeyModifiers {
    pub alt: bool,
    pub ctrl: bool,
    pub shift: bool,
    /// The command key of a Mac.
    pub mac_cmd: bool,
    /// The command key of a Mac, and the control key elsewhere.
    pub command: bool,
}

/// What the user does.
#[derive(Clone, Copy, Debug, PartialEq, Eq, Structural)]
pub struct PanelInput {
    /// The primary mouse button is down.
    pub primary: bool,
    /// The first extra mouse button is down.
    pub extra1: bool,
    /// The second extra mouse button is down.
    pub extra2: bool,
    pub modifiers: KeyModifiers,
    /// The key R was pressed.
    pub r_pressed: bool,
}

/// What a label is written in.
#[derive(Clone, Copy, Debug, PartialEq, Eq, Structural)]
pub enum LabelColor {
    Default,
    LightBlue,
    White,
}

/// A part of the window.
#[derive(Debug)]
pub enum Widget {
    Label { text: String, color: LabelColor },
    Separator,
    /// A box to be checked, for [`PanelState::checked`].
    Checkbox { text: String, checked: bool },
    /// A line to be edited, for [`PanelState::text`].
    TextEdit { text: String },
    /// Labels below each other, of which a part is visible.
    ScrollArea { max_height: u32, labels: Vec<String> },
    /// A slider for a number, for [`PanelState::value`].
    Slider { min: i32, max: i32, value: u32 },
    /// A button that lets a color be picked, for [`PanelState::color`].
    ColorButton { rgb: [u32; 3] },
    Button { text: String },
}

/// The contents of a [`Widget`].
pub enum WidgetView {
    Label { text: Seq<char>, color: LabelColor },
    Separator,
    Checkbox { text: Seq<char>, checked: bool },
    TextEdit { text: Seq<char> },
    ScrollArea { max_height: u32, labels: Seq<Seq<char>> },
    Slider { min: i32, max: i32, value: u32 },
    ColorButton { rgb: [u32; 3] },
    Button { text: Seq<char> },
}

impl View for Widget {
    type V = WidgetView;

    open spec fn view(&self) -> WidgetView {
        match *self {
            Widget::Label { text, color } => WidgetView::Label { text: text@, color },
            Widget::Separator => WidgetView::Separator,
            Widget::Checkbox { text, checked } => WidgetView::Checkbox { text: text@, checked },
            Widget::TextEdit { text } => WidgetView::TextEdit { text: text@ },
            Widget::ScrollArea { max_height, labels } => WidgetView::ScrollArea {
                max_height,
                labels: texts(labels@),
            },
            Widget::Slider { min, max, value } => WidgetView::Slider { min, max, value },
            Widget::ColorButton { rgb } => WidgetView::ColorButton { rgb },
            Widget::Button { text } => WidgetView::Button { text: text@ },
        }
    }
}

/// The contents of strings.
pub open spec fn texts(strings: Seq<String>) -> Seq<Seq<char>> {
    strings.map_values(|s: String| s@)
}

/// The contents of widgets.
pub open spec fn contents(widgets: Seq<Widget>) -> Seq<WidgetView> {
    widgets.map_values(|w: Widget| w@)
}

/// What the user can change in the window.
#[derive(Debug)]
pub struct PanelState {
    /// Whether the box is checked.
    pub checked: bool,
    /// The line of text, once the window was shown.
    pub text: Option<String>,
    /// The number on the slider, by the bits of a single-precision number.
    pub value: u32,
    /// The picked color: red, green and blue, each by the bits of a
    /// single-precision number.
    pub color: [u32; 3],
}

/// The contents of a [`PanelState`].
pub struct PanelView {
    pub checked: bool,
    pub text: Option<Seq<char>>,
    pub value: u32,
    pub color: [u32; 3],
}

impl View for PanelState {
    type V = PanelView;

    open spec fn view(&self) -> PanelView {
        PanelView {
            checked: self.checked,
            text: match self.text {
                Some(text) => Some(text@),
                None => None,
            },
            value: self.value,
            color: self.color,
        }
    }
}

impl PanelView {
    /// The line of text that the window shows.
    pub open spec fn text_shown(self) -> Seq<char> {
        match self.text {
            Some(text) => text,
            None => "Test"@,
        }
    }

    /// After the window was shown, if the user has changed nothing.
    pub open spec fn shown(self) -> PanelView {
        PanelView { text: Some(self.text_shown()), ..self }
    }
}

/// What the window shows, and whether the user pressed the keys that are
/// reported.
#[derive(Debug)]
pub struct PanelPlan {
    pub widgets: Vec<Widget>,
    pub pressed: bool,
}

/// The window and what it shows.
#[derive(Debug)]
pub struct WindowPlan {
    pub title: String,
    pub panel: PanelPlan,
}

/// No modifier key but control.
pub open spec fn control() -> KeyModifiers {
    KeyModifiers { alt: false, ctrl: true, shift: false, mac_cmd: false, command: false }
}

/// The modifier keys `held` are those of `pattern`.  The alt and shift keys
/// have to be the same.  A pattern with the Mac's command key asks for that key,
/// and for the same control key.  Any other pattern asks for those of control
/// and command that it has, and for neither of them if it has neither.
pub open spec fn keys_match(held: KeyModifiers, pattern: KeyModifiers) -> bool {
    &&& held.alt == pattern.alt
    &&& held.shift == pattern.shift
    &&& if pattern.mac_cmd {
        held.mac_cmd && held.ctrl == pattern.ctrl
    } else if pattern.ctrl || pattern.command {
        (pattern.ctrl ==> held.ctrl) && (pattern.command ==> held.command)
    } else {
        !held.ctrl && !held.command
    }
}

/// Calls `egui::Modifiers::matches`, which holds if the modifier keys `held` are
/// those of `pattern`, with room for control and command standing for each other
/// on some platforms.
#[verifier::external_body]
fn modifiers_match(held: KeyModifiers, pattern: KeyModifiers) -> (yes: bool)
    ensures
        yes == keys_match(held, pattern),
{
    egui::Modifiers {
        alt: held.alt,
        ctrl: held.ctrl,
        shift: held.shift,
        mac_cmd: held.mac_cmd,
        command: held.command,
    }.matches(egui::Modifiers {
        alt: pattern.alt,
        ctrl: pattern.ctrl,
        shift: pattern.shift,
        mac_cmd: pattern.mac_cmd,
        command: pattern.command,
    })
}

/// The label that shows the extra mouse buttons.
pub open spec fn extra_buttons_text(input: PanelInput) -> Seq<char> {
    "X1: "@ + flag(input.extra1) + " X2: "@ + flag(input.extra2)
}

/// The label that shows the modifier keys.
pub open spec fn modifiers_text(input: PanelInput) -> Seq<char> {
    "Ctrl: "@ + flag(input.modifiers.ctrl) + " Shift: "@ + flag(input.modifiers.shift) + " Alt: "@
        + flag(input.modifiers.alt)
}

/// The label with the number `n` in the scrolled list.
pub open spec fn numbered_text(n: nat) -> Seq<char> {
    "Label: "@ + decimal(n)
}

/// The scrolled list: the labels with the numbers from one to a hundred.
pub open spec fn numbered_labels() -> Seq<Seq<char>> {
    Seq::new(100, |i: int| numbered_text((i + 1) as nat))
}

/// What the window shows above the button.
pub open spec fn panel_widgets(state: PanelView, input: PanelInput) -> Seq<WidgetView> {
    seq![
        WidgetView::Label { text: "Test"@, color: LabelColor::LightBlue },
        WidgetView::Label { text: "Other"@, color: LabelColor::White },
        WidgetView::Separator,
        WidgetView::Label { text: extra_buttons_text(input), color: LabelColor::Default },
        WidgetView::Label { text: modifiers_text(input), color: LabelColor::Default },
        WidgetView::Checkbox { text: "Some checkbox"@, checked: state.checked },
        WidgetView::TextEdit { text: state.text_shown() },
        WidgetView::ScrollArea { max_height: 200, labels: numbered_labels() },
        WidgetView::Slider { min: -1i32, max: 1, value: state.value },
        WidgetView::ColorButton { rgb: state.color },
        WidgetView::Label { text: flag(input.primary), color: LabelColor::Default },
    ]
}

/// What the window shows.
pub open spec fn window_widgets(state: PanelView, input: PanelInput) -> Seq<WidgetView> {
    panel_widgets(state, input) + seq![
        WidgetView::Separator,
        WidgetView::Button { text: "exit"@ },
    ]
}

/// The user pressed control and R.
pub open spec fn shortcut_pressed(input: PanelInput) -> bool {
    keys_match(input.modifiers, control()) && input.r_pressed
}

/// The label that shows the extra mouse buttons.
fn extra_buttons_label(input: &PanelInput) -> (text: String)
    ensures
        text@ == extra_buttons_text(*input),
{
    let mut text = String::new();
    text.append("X1: ");
    text.append(flag_text(input.extra1));
    text.append(" X2: ");
    text.append(flag_text(input.extra2));
    text
}

/// The label that shows the modifier keys.
fn modifiers_label(input: &PanelInput) -> (text: String)
    ensures
        text@ == modifiers_text(*input),
{
    let mut text = String::new();
    text.append("Ctrl: ");
    text.append(flag_text(input.modifiers.ctrl));
    text.append(" Shift: ");
    text.append(flag_text(input.modifiers.shift));
    text.append(" Alt: ");
    text.append(flag_text(input.modifiers.alt));
    text
}

/// The scrolled list.
fn numbered_list() -> (labels: Vec<String>)
    ensures
        texts(labels@) == numbered_labels(),
{
    let mut labels: Vec<String> = Vec::new();
    for i in 1..101u32
        invariant
            labels@.len() == i - 1,
            forall|k: int|
                0 <= k < labels@.len() ==> (#[trigger] labels@[k])@ == numbered_text(
                    (k + 1) as nat,
                ),
    {
        let mut text = String::new();
        text.append("Label: ");
        push_decimal(&mut text, i);
        labels.push(text);
    }
    labels
}

/// A label with a text that does not change.
fn label(text: &str, color: LabelColor) -> (widget: Widget)
    ensures
        widget@ == (WidgetView::Label { text: text@, color }),
{
    Widget::Label { text: text.to_owned(), color }
}

impl PanelState {
    /// The values before the window was shown.
    pub fn new() -> (state: PanelState)
        ensures
            state@ == (PanelView { checked: true, text: None, value: 0, color: [0, 0, 0] }),
    {
        PanelState { checked: true, text: None, value: 0, color: [0, 0, 0] }
    }

    /// What the window shows above its button, with the values that the user has
    /// left.  The line of text has a text from the first time on.
    pub fn test_ui(&mut self, input: &PanelInput) -> (plan: PanelPlan)
        ensures
            contents(plan.widgets@) == panel_widgets(old(self)@, *input),
            plan.pressed == shortcut_pressed(*input),
            final(self)@ == old(self)@.shown(),
            old(self).text is Some ==> *final(self) == *old(self),
    {
        let text = match &self.text {
            Some(text) => text.clone(),
            None => "Test".to_owned(),
        };
        if self.text.is_none() {
            self.text = Some("Test".to_owned());
        }
        let mut widgets: Vec<Widget> = Vec::new();
        widgets.push(label("Test", LabelColor::LightBlue));
        widgets.push(label("Other", LabelColor::White));
        widgets.push(Widget::Separator);
        widgets.push(
            Widget::Label { text: extra_buttons_label(input), color: LabelColor::Default },
        );
        widgets.push(Widget::Label { text: modifiers_label(input), color: LabelColor::Default });
        let control = KeyModifiers {
            alt: false,
            ctrl: true,
            shift: false,
            mac_cmd: false,
            command: false,
        };
        let pressed = modifiers_match(input.modifiers, control) && input.r_pressed;
        widgets.push(
            Widget::Checkbox { text: "Some checkbox".to_owned(), checked: self.checked },
        );
        widgets.push(Widget::TextEdit { text });
        widgets.push(Widget::ScrollArea { max_height: 200, labels: numbered_list() });
        widgets.push(Widget::Slider { min: -1, max: 1, value: self.value });
        widgets.push(Widget::ColorButton { rgb: self.color });
        widgets.push(label(flag_text(input.primary), LabelColor::Default));
        assert(contents(widgets@) =~= panel_widgets(old(self)@, *input));
        PanelPlan { widgets, pressed }
    }

    /// The window: what it is called and what it shows.
    pub fn uii(&mut self, input: &PanelInput) -> (window: WindowPlan)
        ensures
            window.title@ == "Main menu"@,
            contents(window.panel.widgets@) == window_widgets(old(self)@, *input),
            window.panel.pressed == shortcut_pressed(*input),
            final(self)@ == old(self)@.shown(),
            old(self).text is Some ==> *final(self) == *old(self),
    {
        let mut panel = self.test_ui(input);
        panel.widgets.push(Widget::Separator);
        panel.widgets.push(Widget::Button { text: "exit".to_owned() });
        assert(contents(panel.widgets@) =~= window_widgets(old(self)@, *input));
        WindowPlan { title: "Main menu".to_owned(), panel }
    }
}

} // verus!

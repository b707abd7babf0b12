//! The decisions of a window that shows an egui user interface: which graphics state it
//! draws with, and how X-Plane's keyboard, mouse and wheel events become egui input.
use crate::draw::GraphicsState;
use crate::geometry::{WindowPoint, WindowRect};
use crate::window::{KeyEvent, MouseAction, ScrollEvent};
use vstd::prelude::*;

verus! {

/// The graphics state in which an egui window draws: alpha testing and alpha blending on,
/// one texture unit, everything else off.
pub fn egui_graphics_state() -> (s: GraphicsState)
    ensures
        s == (GraphicsState {
            fog: false,
            lighting: false,
            alpha_testing: true,
            alpha_blending: true,
            depth_testing: false,
            depth_writing: false,
            textures: 1,
        }),
{
    GraphicsState::new().alpha_testing(true).alpha_blending(true).textures(1)
}

/// The modifier keys as egui takes them.
#[derive(Debug, Clone, Copy, PartialEq, Eq, Hash, Structural)]
pub struct Modifiers {
    pub alt: bool,
    pub ctrl: bool,
    pub shift: bool,
    pub mac_cmd: bool,
    pub command: bool,
}

/// What a key event hands to egui: the modifiers it sets, the text it types, and the key it
/// presses or releases.
#[derive(Debug)]
pub struct KeyboardInput {
    /// The modifiers egui is given for this and the following events
    pub modifiers: Modifiers,
    /// Text typed by the event
    pub text: Option<char>,
    /// The key pressed or released
    pub key: Option<egui::Key>,
    /// Whether `key` goes down (rather than up)
    pub pressed: bool,
}

/// Translates a key event into egui input: control counts as both control and command,
/// text is typed only when the key goes down, and the key is pressed when the event's down
/// flag is set and released otherwise.
pub fn keyboard_input(event: &KeyEvent) -> (input: KeyboardInput)
    ensures
        input.modifiers == (Modifiers {
            alt: event.flags.bits & 2 == 2,
            ctrl: event.flags.bits & 4 == 4,
            shift: event.flags.bits & 1 == 1,
            mac_cmd: false,
            command: event.flags.bits & 4 == 4,
        }),
        input.text == if event.flags.bits & 8 == 8 {
            event.basic_char
        } else {
            None::<char>
        },
        input.key == event.key,
        input.pressed == (event.flags.bits & 8 == 8),
{
    let modifiers = Modifiers {
        ctrl: event.flags.control(),
        alt: event.flags.option_alt(),
        shift: event.flags.shift(),
        command: event.flags.control(),
        mac_cmd: false,
    };
    let down = event.flags.down();
    let text = if down {
        event.basic_char
    } else {
        None
    };
    KeyboardInput { modifiers, text, key: event.key, pressed: down }
}

/// The mouse buttons X-Plane reports.
#[derive(Debug, Clone, Copy, PartialEq, Eq, Hash, Structural)]
pub enum PointerButton {
    /// The left button
    Primary,
    /// The right button
    Secondary,
}

/// A button change that egui is told about.
#[derive(Debug, Clone, Copy, PartialEq, Eq, Hash, Structural)]
pub struct ButtonInput {
    pub button: PointerButton,
    /// Whether the button goes down (rather than up)
    pub pressed: bool,
}

/// What a mouse event hands to egui, and what the window answers X-Plane.
#[derive(Debug, Clone, Copy, PartialEq, Eq, Hash, Structural)]
pub struct MouseInput {
    /// The button change, if the event is one
    pub button: Option<ButtonInput>,
    /// Whether X-Plane should pass the event on to what lies under the window
    pub propagate: bool,
}

/// Translates a mouse event of the left (`left`) or right button into egui input: pressing
/// and releasing change the button, dragging does not; the event propagates exactly when
/// egui does not want pointer input.
pub fn mouse_input(action: MouseAction, left: bool, egui_wants_pointer: bool) -> (input:
    MouseInput)
    ensures
        action == MouseAction::Drag ==> input.button is None,
        action != MouseAction::Drag ==> input.button == Some(
            ButtonInput {
                button: if left {
                    PointerButton::Primary
                } else {
                    PointerButton::Secondary
                },
                pressed: action == MouseAction::Down,
            },
        ),
        input.propagate == !egui_wants_pointer,
{
    let button = if left {
        PointerButton::Primary
    } else {
        PointerButton::Secondary
    };
    let change = match action {
        MouseAction::Drag => None,
        MouseAction::Down => Some(ButtonInput { button, pressed: true }),
        MouseAction::Up => Some(ButtonInput { button, pressed: false }),
    };
    MouseInput { button: change, propagate: !egui_wants_pointer }
}

/// What a wheel event hands to egui, in lines, and what the window answers X-Plane.
#[derive(Debug, Clone, Copy, PartialEq, Eq, Hash, Structural)]
pub struct ScrollInput {
    pub delta_x: i32,
    pub delta_y: i32,
    /// Whether X-Plane should pass the event on to what lies under the window
    pub propagate: bool,
}

/// Translates a wheel event into egui input: the scroll amounts are passed on as line
/// deltas, and the event propagates exactly when egui does not want pointer input.
pub fn scroll_input(event: &ScrollEvent, egui_wants_pointer: bool) -> (input: ScrollInput)
    ensures
        input.delta_x == event.scroll_x,
        input.delta_y == event.scroll_y,
        input.propagate == !egui_wants_pointer,
{
    ScrollInput {
        delta_x: event.scroll_x(),
        delta_y: event.scroll_y(),
        propagate: !egui_wants_pointer,
    }
}

/// Whether egui must be told that the pointer has left the window: the mouse position, in
/// window space, lies outside the viewport.
pub fn pointer_gone(viewport: &WindowRect, mouse: WindowPoint) -> (gone: bool)
    requires
        viewport.edges_fit(),
    ensures
        gone == !viewport.contains_spec(mouse),
{
    !viewport.contains(mouse)
}

/// What a window does before egui draws a frame.
#[derive(Debug, Clone, Copy, PartialEq, Eq, Hash, Structural)]
pub struct FrameFocus {
    /// Whether the window takes the keyboard focus
    pub take_keyboard_focus: bool,
    /// Whether the window is brought to the front
    pub bring_to_front: bool,
}

/// Decides, before a frame, what the window does for egui: it takes the keyboard focus
/// exactly when egui wants keyboard input, and comes to the front exactly when egui wants
/// pointer input.
pub fn frame_focus(egui_wants_keyboard: bool, egui_wants_pointer: bool) -> (f: FrameFocus)
    ensures
        f.take_keyboard_focus == egui_wants_keyboard,
        f.bring_to_front == egui_wants_pointer,
{
    FrameFocus { take_keyboard_focus: egui_wants_keyboard, bring_to_front: egui_wants_pointer }
}

} // verus!

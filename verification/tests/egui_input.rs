use xplm_egui::draw::GraphicsState;
use xplm_egui::egui_window::{
    frame_focus, FrameFocus,
    egui_graphics_state, keyboard_input, mouse_input, pointer_gone, scroll_input, ButtonInput,
    Modifiers, PointerButton,
};
use xplm_egui::geometry::{ScreenPoint, WindowPoint, WindowRect};
use xplm_egui::window::{KeyEvent, KeyFlags, MouseAction, ScrollEvent};

#[test]
fn egui_draws_with_alpha_and_one_texture() {
    assert_eq!(
        egui_graphics_state(),
        GraphicsState::new().alpha_testing(true).alpha_blending(true).textures(1)
    );
}

#[test]
fn keyboard_input_on_key_down() {
    let e = KeyEvent {
        basic_char: Some('x'),
        key: Some(egui::Key::X),
        flags: KeyFlags::from_bits_truncate(KeyFlags::CONTROL | KeyFlags::DOWN),
    };
    let i = keyboard_input(&e);
    assert_eq!(
        i.modifiers,
        Modifiers { alt: false, ctrl: true, shift: false, mac_cmd: false, command: true }
    );
    assert_eq!(i.text, Some('x'));
    assert_eq!(i.key, Some(egui::Key::X));
    assert!(i.pressed);
}

#[test]
fn keyboard_input_on_key_up_types_nothing() {
    let e = KeyEvent {
        basic_char: Some('x'),
        key: Some(egui::Key::X),
        flags: KeyFlags::from_bits_truncate(KeyFlags::SHIFT | KeyFlags::OPTION_ALT | KeyFlags::UP),
    };
    let i = keyboard_input(&e);
    assert_eq!(
        i.modifiers,
        Modifiers { alt: true, ctrl: false, shift: true, mac_cmd: false, command: false }
    );
    assert_eq!(i.text, None);
    assert!(!i.pressed);
}

#[test]
fn mouse_input_buttons() {
    let down = mouse_input(MouseAction::Down, true, true);
    assert_eq!(down.button, Some(ButtonInput { button: PointerButton::Primary, pressed: true }));
    assert!(!down.propagate);
    let up = mouse_input(MouseAction::Up, false, false);
    assert_eq!(up.button, Some(ButtonInput { button: PointerButton::Secondary, pressed: false }));
    assert!(up.propagate);
    let drag = mouse_input(MouseAction::Drag, true, false);
    assert_eq!(drag.button, None);
    assert!(drag.propagate);
}

#[test]
fn scroll_input_passes_amounts() {
    let e = ScrollEvent::new(ScreenPoint::new(0, 0), 0, -2);
    let i = scroll_input(&e, true);
    assert_eq!((i.delta_x, i.delta_y, i.propagate), (0, -2, false));
    let j = scroll_input(&ScrollEvent::new(ScreenPoint::new(0, 0), 3, 0), false);
    assert_eq!((j.delta_x, j.delta_y, j.propagate), (3, 0, true));
}

#[test]
fn pointer_gone_outside_viewport() {
    let vp = WindowRect::from_left_top_right_bottom(0, 100, 200, 0);
    assert!(!pointer_gone(&vp, WindowPoint::new(10, 10)));
    assert!(pointer_gone(&vp, WindowPoint::new(200, 10)));
    assert!(pointer_gone(&vp, WindowPoint::new(10, -1)));
}

#[test]
fn frame_focus_follows_what_egui_wants() {
    assert_eq!(
        frame_focus(true, false),
        FrameFocus { take_keyboard_focus: true, bring_to_front: false }
    );
    assert_eq!(
        frame_focus(false, true),
        FrameFocus { take_keyboard_focus: false, bring_to_front: true }
    );
    assert_eq!(
        frame_focus(false, false),
        FrameFocus { take_keyboard_focus: false, bring_to_front: false }
    );
}

use ketupa_demo_engine::event::{MouseButton, WindowEvent};
use ketupa_demo_engine::input::{EdgeMap, Keys, Mouse};
use ketupa_demo_engine::layers::Vec2Bits;

fn v(x: f32, y: f32) -> Vec2Bits {
    Vec2Bits::new(x.to_bits(), y.to_bits())
}

#[test]
fn just_pressed_only_on_the_press_frame() {
    let mut keys = Keys::new();
    // End of an idle frame: nothing is pressed, so nothing counts as
    // previously pressed.
    keys.unset();
    // The press frame.
    keys.try_process(&WindowEvent::KeyboardInput { pressed: true, key: 3 });
    assert!(keys.is_pressed(3));
    assert!(keys.is_just_pressed(3));
    keys.unset();
    // Subsequent frames while held: pressed, but no longer just pressed.
    assert!(keys.is_pressed(3));
    assert!(!keys.is_just_pressed(3));
    keys.unset();
    assert!(keys.is_pressed(3));
    assert!(!keys.is_just_pressed(3));
    // Release, then press again: just pressed once more.
    keys.try_process(&WindowEvent::KeyboardInput { pressed: false, key: 3 });
    assert!(keys.is_released(3));
    keys.unset();
    assert!(!keys.is_pressed(3));
    assert!(!keys.is_released(3));
    // An idle frame passes with the key up, then a new press registers as
    // just pressed again.
    keys.unset();
    keys.try_process(&WindowEvent::KeyboardInput { pressed: true, key: 3 });
    assert!(keys.is_just_pressed(3));
}

#[test]
fn release_on_the_press_frame_cancels_the_press() {
    let mut keys = Keys::new();
    keys.unset();
    keys.try_process(&WindowEvent::KeyboardInput { pressed: true, key: 3 });
    keys.try_process(&WindowEvent::KeyboardInput { pressed: false, key: 3 });
    assert!(keys.is_pressed(3));
    assert!(keys.is_released(3));
    keys.unset();
    assert!(!keys.is_pressed(3));
    assert!(!keys.is_released(3));
}

#[test]
fn edge_map_tracks_each_slot_separately() {
    let mut map: EdgeMap<4> = EdgeMap::new();
    map.unset();
    map.press(1);
    map.press(2);
    map.release(2);
    assert!(!map.is_pressed(0));
    assert!(map.is_pressed(1));
    assert!(map.is_just_pressed(1));
    assert!(map.is_pressed(2));
    assert!(map.is_released(2));
    map.unset();
    assert!(map.is_pressed(1));
    assert!(!map.is_just_pressed(1));
    assert!(!map.is_pressed(2));
    assert!(!map.is_released(2));
}

#[test]
fn keyboard_modifiers_are_not_edge_tracked() {
    let mut keys = Keys::new();
    assert!(keys.try_process(&WindowEvent::ModifiersChanged {
        shift: true,
        ctrl: false,
        alt: true,
        logo: false,
    }));
    assert!(keys.is_shift);
    assert!(!keys.is_ctrl);
    assert!(keys.is_alt);
    assert!(!keys.is_logo);
    // The frame reset leaves modifier flags alone.
    keys.unset();
    assert!(keys.is_shift);
    assert!(keys.is_alt);
}

#[test]
fn keyboard_ignores_foreign_events() {
    let mut keys = Keys::new();
    assert!(!keys.try_process(&WindowEvent::CursorEntered));
    assert!(!keys.try_process(&WindowEvent::CloseRequested));
    assert!(keys.try_process(&WindowEvent::KeyboardInput { pressed: true, key: Keys::A }));
    assert!(keys.is_pressed(Keys::A));
    assert!(!keys.is_pressed(Keys::B));
}

#[test]
fn key_indices_beyond_the_tracked_range_are_harmless() {
    let mut keys = Keys::new();
    keys.unset();
    // Consumed as keyboard input, but tracked by no slot.
    assert!(keys.try_process(&WindowEvent::KeyboardInput { pressed: true, key: 200 }));
    assert!(!keys.is_pressed(200));
    assert!(!keys.is_just_pressed(200));
    assert!(!keys.is_released(255));
}

#[test]
fn mouse_buttons_edge_tracked() {
    let mut mouse = Mouse::new();
    mouse.unset();
    assert!(mouse.try_process(&WindowEvent::MouseInput {
        pressed: true,
        button: MouseButton::Left,
    }));
    assert!(mouse.is_pressed(MouseButton::Left));
    assert!(mouse.is_just_pressed(MouseButton::Left));
    assert!(!mouse.is_pressed(MouseButton::Right));
    mouse.unset();
    assert!(mouse.is_pressed(MouseButton::Left));
    assert!(!mouse.is_just_pressed(MouseButton::Left));
    mouse.try_process(&WindowEvent::MouseInput { pressed: false, button: MouseButton::Left });
    assert!(mouse.is_released(Mouse::LEFT));
    assert!(!mouse.is_released(Mouse::RIGHT));
    assert!(!mouse.is_pressed(Mouse::MIDDLE));
    mouse.unset();
    assert!(!mouse.is_pressed(MouseButton::Left));
}

#[test]
fn untracked_mouse_button_is_consumed_but_ignored() {
    let mut mouse = Mouse::new();
    mouse.unset();
    assert!(mouse.try_process(&WindowEvent::MouseInput {
        pressed: true,
        button: MouseButton::Other,
    }));
    assert!(!mouse.is_pressed(MouseButton::Other));
    assert!(!mouse.is_pressed(MouseButton::Left));
    assert!(!mouse.is_pressed(MouseButton::Middle));
    assert!(!mouse.is_pressed(MouseButton::Right));
}

#[test]
fn mouse_motion_and_scroll_deltas() {
    let mut mouse = Mouse::new();
    assert!(mouse.try_process(&WindowEvent::CursorMoved {
        position: v(10.0, -4.0),
        velocity: v(10.0, -4.0),
    }));
    assert!(mouse.has_moved);
    assert_eq!(mouse.position, v(10.0, -4.0));
    assert_eq!(mouse.velocity, v(10.0, -4.0));
    assert!(mouse.try_process(&WindowEvent::MouseWheel { delta: v(0.0, 1.0) }));
    assert!(mouse.has_scrolled);
    assert_eq!(mouse.scroll, v(0.0, 1.0));
    // A frame with movement keeps the velocity through its reset.
    mouse.unset();
    assert_eq!(mouse.velocity, v(10.0, -4.0));
    assert_eq!(mouse.scroll, v(0.0, 1.0));
    assert_eq!(mouse.position, v(10.0, -4.0));
    // A frame without movement zeroes the deltas but keeps the position.
    mouse.unset();
    assert_eq!(mouse.velocity, Vec2Bits::new(0, 0));
    assert_eq!(mouse.scroll, Vec2Bits::new(0, 0));
    assert_eq!(mouse.position, v(10.0, -4.0));
}

#[test]
fn mouse_enter_and_leave_flags_reset_each_frame() {
    let mut mouse = Mouse::new();
    assert!(mouse.try_process(&WindowEvent::CursorEntered));
    assert!(mouse.has_entered);
    assert!(mouse.try_process(&WindowEvent::CursorLeft));
    assert!(mouse.has_left);
    mouse.unset();
    assert!(!mouse.has_entered);
    assert!(!mouse.has_left);
    assert!(!mouse.try_process(&WindowEvent::KeyboardInput { pressed: true, key: 0 }));
    assert!(!mouse.try_process(&WindowEvent::CloseRequested));
}

use grackle::ident::EntityId;
use grackle::keyboard::CurrentKeyboardInput;
use grackle::mouse::{
    mouse_precedence, ButtonState, CurrentMouseInput, MouseButton, MouseButtons, PointerLocation,
};

fn idle_button() -> ButtonState {
    ButtonState { pressed: false, just_pressed: false, just_released: false }
}

fn idle_buttons() -> MouseButtons {
    MouseButtons { left: idle_button(), right: idle_button(), middle: idle_button() }
}

#[test]
fn opposing_keys_cancel() {
    let mut keys = CurrentKeyboardInput::default();
    keys.update(true, false, false, true, false, false);
    assert_eq!(keys.forward(), 0);
    assert_eq!(keys.backward(), 0);

    keys.update(true, false, false, false, false, false);
    assert_eq!(keys.forward(), 1);
    assert_eq!(keys.backward(), -1);

    keys.update(false, false, false, true, false, false);
    assert_eq!(keys.forward(), -1);
    assert_eq!(keys.backward(), 1);
}

#[test]
fn all_axis_pairs_cancel() {
    let mut keys = CurrentKeyboardInput::default();
    keys.update(true, true, true, true, true, true);
    assert_eq!(keys.forward(), 0);
    assert_eq!(keys.backward(), 0);
    assert_eq!(keys.left(), 0);
    assert_eq!(keys.right(), 0);
    assert_eq!(keys.up(), 0);
    assert_eq!(keys.down(), 0);

    keys.update(false, true, false, false, true, false);
    assert_eq!(keys.left(), 1);
    assert_eq!(keys.right(), -1);
    assert_eq!(keys.up(), 1);
    assert_eq!(keys.down(), -1);
}

#[test]
fn a_single_held_button_wins_precedence() {
    let mut buttons = idle_buttons();
    buttons.left.pressed = true;
    buttons.left.just_pressed = true;
    let (just_pressed, pressed, released) = mouse_precedence(&buttons);
    assert!(just_pressed);
    assert_eq!(pressed, Some(MouseButton::Left));
    assert_eq!(released, None);
}

#[test]
fn simultaneous_buttons_report_none_active() {
    let mut buttons = idle_buttons();
    buttons.left.pressed = true;
    buttons.right.pressed = true;
    let (just_pressed, pressed, released) = mouse_precedence(&buttons);
    assert!(!just_pressed);
    assert_eq!(pressed, None);
    assert_eq!(released, None);
}

#[test]
fn a_release_counts_once_all_buttons_are_up() {
    let mut buttons = idle_buttons();
    buttons.middle.just_released = true;
    let (_, pressed, released) = mouse_precedence(&buttons);
    assert_eq!(pressed, None);
    assert_eq!(released, Some(MouseButton::Middle));

    // Still holding another button: the release does not count yet.
    buttons.left.pressed = true;
    let (_, pressed, released) = mouse_precedence(&buttons);
    assert_eq!(pressed, Some(MouseButton::Left));
    assert_eq!(released, None);
}

#[test]
fn two_releases_in_one_frame_report_none() {
    let mut buttons = idle_buttons();
    buttons.left.just_released = true;
    buttons.right.just_released = true;
    let (_, _, released) = mouse_precedence(&buttons);
    assert_eq!(released, None);
}

#[test]
fn pointer_location_routes_to_the_camera() {
    let mut input = CurrentMouseInput::default();
    let camera = EntityId::new(3, 1);
    let mut buttons = idle_buttons();
    buttons.left.pressed = true;
    buttons.left.just_pressed = true;
    input.update_buttons(&buttons);
    input.update_location(Some(PointerLocation {
        camera,
        local_pos: (12, 34),
        global_pos: (112, 234),
    }));
    assert_eq!(input.in_camera, Some(camera));
    assert_eq!(input.local_pos, Some((12, 34)));
    assert_eq!(input.global_pos, Some((112, 234)));
    // The drag started this frame, in this camera.
    assert_eq!(input.started_in_camera, Some(camera));
}

#[test]
fn leaving_every_viewport_clears_the_location() {
    let mut input = CurrentMouseInput::default();
    let camera = EntityId::new(3, 1);
    input.update_location(Some(PointerLocation {
        camera,
        local_pos: (12, 34),
        global_pos: (112, 234),
    }));
    input.update_location(None);
    assert_eq!(input.in_camera, None);
    assert_eq!(input.local_pos, None);
    assert_eq!(input.global_pos, None);
}

#[test]
fn hovering_with_no_button_clears_the_drag_origin() {
    let mut input = CurrentMouseInput::default();
    let camera = EntityId::new(3, 1);
    let mut buttons = idle_buttons();
    buttons.left.pressed = true;
    buttons.left.just_pressed = true;
    input.update_buttons(&buttons);
    let loc = PointerLocation { camera, local_pos: (0, 0), global_pos: (0, 0) };
    input.update_location(Some(loc));
    assert_eq!(input.started_in_camera, Some(camera));

    input.update_buttons(&idle_buttons());
    input.update_location(Some(loc));
    assert_eq!(input.started_in_camera, None);
}

#[test]
fn motion_events_accumulate_into_the_delta() {
    let mut input = CurrentMouseInput::default();
    input.add_delta(3, -4);
    input.add_delta(-1, 10);
    assert_eq!(input.delta_pos, (2, 6));
}

#[test]
fn each_frame_starts_with_a_zero_delta() {
    let mut input = CurrentMouseInput::default();
    input.add_delta(3, -4);
    input.reset_delta();
    assert_eq!(input.delta_pos, (0, 0));
    input.add_delta(7, 8);
    assert_eq!(input.delta_pos, (7, 8));
}

use grackle::editable::{
    EditorActionId, EditorActions, EditorObjectData, PointResolutionError, Ref32,
};
use grackle::geom::Point;
use grackle::ident::EntityId;
use grackle::movement::{camera_move_mode, cursor_grab, CursorGrab, MoveMode, ProjectionKind};
use grackle::mouse::MouseButton;
use grackle::selection::SelectionState;
use grackle::tool::Tools;

#[test]
fn entity_names_show_index_and_generation() {
    assert_eq!(EntityId::from_bits(23).name(), "23v1");
    assert_eq!(EntityId::from_bits(45).name(), "45v1");
    assert_eq!(EntityId::new(7, 2).name(), "7v2");
    assert_eq!(EntityId::new(0, 1).name(), "0v1");
    assert_eq!(EntityId::new(1048576, 12).name(), "1048576v12");
}

#[test]
fn tools_name_themselves() {
    assert_eq!(Tools::Select.name(), "Select");
    assert_eq!(Tools::Room.name(), "Room");
    assert!(matches!(Tools::default(), Tools::Select));
}

#[test]
fn the_action_log_starts_with_three_points() {
    let actions = EditorActions::default();
    assert_eq!(actions.actions.len(), 3);
    assert_eq!(actions.id_counter, 3);
    assert!(actions.selected_action.is_none());
    let first = actions.get_action(&EditorActionId { id: 0 }).expect("the log starts with id 0");
    assert_eq!(first.get_point("any"), Ok(Point::new(0, 0, 0)));
    let third = actions.get_action(&EditorActionId { id: 2 }).expect("the log starts with id 2");
    assert_eq!(third.get_point("any"), Ok(Point::new(0, 50, 0)));
}

#[test]
fn taking_an_action_appends_under_a_fresh_id() {
    let mut actions = EditorActions::default();
    actions.take_action(EditorObjectData::GlobalPoint(Point::new(1, 2, 3)));
    assert_eq!(actions.actions.len(), 4);
    assert_eq!(actions.id_counter, 4);
    let added = actions.get_action(&EditorActionId { id: 3 }).expect("the new action is logged");
    assert_eq!(added.get_point(""), Ok(Point::new(1, 2, 3)));
    assert_eq!(added.parents.len(), 0);
}

#[test]
fn missing_ids_find_no_action() {
    let actions = EditorActions::default();
    assert!(actions.get_action(&EditorActionId { id: 17 }).is_none());
}

#[test]
fn action_labels_pair_kind_and_id() {
    let actions = EditorActions::default();
    let second = actions.get_action(&EditorActionId { id: 1 }).expect("the log holds id 1");
    assert_eq!(second.kind_name(), "GlobalPoint");
    assert_eq!(second.kind_name_with_id(), "GlobalPoint 1");
}

#[test]
fn absolute_references_resolve_to_their_value() {
    let actions = EditorActions::default();
    let reference = Ref32::Absolute(42);
    assert_eq!(reference.resolve(&actions), Ok(42));
}

#[test]
fn relative_references_without_a_referent_fail() {
    let actions = EditorActions::default();
    let reference = Ref32::Relative(EditorActionId { id: 99 }, 0);
    assert_eq!(reference.resolve(&actions), Err(PointResolutionError::NoSuchReferent));
}

#[test]
fn selection_follows_the_pick_ray() {
    let mut state = SelectionState::default();
    let cube = EntityId::new(5, 1);

    state.select(true, true, Some(cube), false);
    assert_eq!(state.hovered, Some(cube));
    assert_eq!(state.selected, None);

    state.select(true, true, Some(cube), true);
    assert_eq!(state.selected, Some(cube));

    // The ray misses with no click: the selection stays.
    state.select(true, true, None, false);
    assert_eq!(state.hovered, None);
    assert_eq!(state.selected, Some(cube));

    // A click on nothing clears the selection.
    state.select(true, true, None, true);
    assert_eq!(state.selected, None);
}

#[test]
fn a_hidden_cursor_hovers_nothing() {
    let mut state = SelectionState::default();
    let cube = EntityId::new(5, 1);
    state.select(true, true, Some(cube), true);
    state.select(false, true, Some(cube), false);
    assert_eq!(state.hovered, None);
    assert_eq!(state.selected, Some(cube));
    assert!(!state.hovered_is_selected());

    state.select(true, true, Some(cube), false);
    assert!(state.hovered_is_selected());
}

#[test]
fn the_cursor_is_captured_only_while_middle_dragging() {
    let camera = EntityId::new(1, 1);
    assert_eq!(cursor_grab(None, Some(MouseButton::Middle)), CursorGrab::Release);
    assert_eq!(cursor_grab(Some(camera), Some(MouseButton::Middle)), CursorGrab::Lock);
    assert_eq!(cursor_grab(Some(camera), Some(MouseButton::Left)), CursorGrab::Keep);
    assert_eq!(cursor_grab(Some(camera), None), CursorGrab::Keep);
}

#[test]
fn drag_modes_follow_projection_and_modifier() {
    assert_eq!(camera_move_mode(ProjectionKind::Perspective, false), Some(MoveMode::Orbit));
    assert_eq!(camera_move_mode(ProjectionKind::Perspective, true), Some(MoveMode::Pan));
    assert_eq!(camera_move_mode(ProjectionKind::Orthographic, false), Some(MoveMode::Pan));
    assert_eq!(camera_move_mode(ProjectionKind::Orthographic, true), Some(MoveMode::Pan));
    assert_eq!(camera_move_mode(ProjectionKind::Custom, false), None);
}

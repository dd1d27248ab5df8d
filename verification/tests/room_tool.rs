use grackle::geom::Point;
use grackle::ident::EntityId;
use grackle::mouse::MouseButton;
use grackle::multicam::CameraAxis;
use grackle::room_tool::{HandleAxis, HandleCommand, RoomTool};
use grackle::snap::{snap_point, snap_up};

#[test]
fn snapping_rounds_up_to_the_grid() {
    // ceil(v/g)*g, and never below v.
    assert_eq!(snap_up(7, 5), 10);
    assert_eq!(snap_up(10, 5), 10);
    assert_eq!(snap_up(1, 5), 5);
    assert_eq!(snap_up(0, 5), 0);
    assert_eq!(snap_up(-7, 5), -5);
    assert_eq!(snap_up(-10, 5), -10);
    assert_eq!(snap_up(123, 1), 123);
    for v in [-17i64, -5, -1, 0, 1, 4, 9, 23] {
        let snapped = snap_up(v, 4);
        assert!(snapped >= v);
        assert_eq!(snapped % 4, 0);
        assert!(snapped < v + 4);
    }
}

#[test]
fn snapping_a_point_snaps_every_coordinate() {
    let p = snap_point(Point::new(7, -7, 10), 5);
    assert_eq!(p, Point::new(10, -5, 10));
}

#[test]
fn cursor_pins_the_viewport_axis_to_the_suggestion() {
    let tool = RoomTool::default();
    // No lower corner yet: the suggestion is the last lower corner (origin).
    let cursor = tool.cursor_position(CameraAxis::X, Point::new(777, 23, 41));
    assert_eq!(cursor, Point::new(0, 23, 41));

    let cursor = tool.cursor_position(CameraAxis::Y, Point::new(23, 777, 41));
    assert_eq!(cursor, Point::new(23, 0, 41));

    let cursor = tool.cursor_position(CameraAxis::Z, Point::new(23, 41, 777));
    assert_eq!(cursor, Point::new(23, 41, 0));
}

#[test]
fn cursor_uses_the_upper_suggestion_once_a_corner_is_set() {
    let mut tool = RoomTool::default();
    tool.active_min = Some(Point::new(0, 0, 0));
    // The suggestion is now the last upper corner, (100, 100, 100).
    let cursor = tool.cursor_position(CameraAxis::X, Point::new(777, 23, 41));
    assert_eq!(cursor, Point::new(100, 23, 41));
}

#[test]
fn cursor_snaps_to_the_granularity() {
    let mut tool = RoomTool::default();
    tool.snap_granularity = 5;
    let cursor = tool.cursor_position(CameraAxis::Z, Point::new(23, 41, 777));
    assert_eq!(cursor, Point::new(25, 45, 0));

    tool.snap = false;
    let cursor = tool.cursor_position(CameraAxis::Z, Point::new(23, 41, 777));
    assert_eq!(cursor, Point::new(23, 41, 0));
}

#[test]
fn clicks_place_and_normalize_the_box() {
    let mut tool = RoomTool::default();
    tool.apply_click(Point::new(50, 60, 70));
    assert_eq!(tool.active_min, Some(Point::new(50, 60, 70)));
    assert_eq!(tool.active_max, None);

    // The second click lands below the first on x and z: the pair swaps
    // componentwise so the box is normalized.
    tool.apply_click(Point::new(10, 90, 20));
    assert_eq!(tool.active_min, Some(Point::new(10, 60, 20)));
    assert_eq!(tool.active_max, Some(Point::new(50, 90, 70)));
}

#[test]
fn committed_rooms_have_ordered_bounds() {
    let mut tool = RoomTool::default();
    let released = Some(MouseButton::Left);
    tool.interface(CameraAxis::Z, Point::new(90, 80, 0), released);
    tool.interface(CameraAxis::Z, Point::new(10, 95, 0), released);
    let room = tool.create().expect("both corners are set");
    assert!(room.min.x <= room.max.x && room.min.y <= room.max.y && room.min.z <= room.max.z);
    assert_eq!(room.min, Point::new(10, 80, 0));
    assert_eq!(room.max, Point::new(90, 95, 100));
}

#[test]
fn create_without_both_corners_returns_nothing() {
    let mut tool = RoomTool::default();
    assert!(tool.create().is_none());

    tool.apply_click(Point::new(10, 10, 10));
    let room = tool.create();
    assert!(room.is_none());
    // The set corner still becomes the next suggestion.
    assert_eq!(tool.last_min, Point::new(10, 10, 10));
    assert_eq!(tool.active_min, None);
}

#[test]
fn create_remembers_the_committed_corners() {
    let mut tool = RoomTool::default();
    tool.apply_click(Point::new(10, 20, 30));
    tool.apply_click(Point::new(40, 50, 60));
    let room = tool.create().expect("both corners are set");
    assert_eq!(room.min, Point::new(10, 20, 30));
    assert_eq!(room.max, Point::new(40, 50, 60));
    assert_eq!(tool.last_min, Point::new(10, 20, 30));
    assert_eq!(tool.last_max, Point::new(40, 50, 60));
    assert_eq!(tool.active_min, None);
    assert_eq!(tool.active_max, None);
}

#[test]
fn cancel_pops_the_most_recent_bound() {
    let mut tool = RoomTool::default();
    tool.apply_click(Point::new(10, 10, 10));
    tool.apply_click(Point::new(20, 20, 20));

    tool.cancel(false);
    assert!(tool.active_max.is_some());

    tool.cancel(true);
    assert_eq!(tool.active_max, None);
    assert_eq!(tool.active_min, Some(Point::new(10, 10, 10)));

    tool.cancel(true);
    assert_eq!(tool.active_min, None);

    tool.cancel(true);
    assert_eq!(tool.active_min, None);
    assert_eq!(tool.active_max, None);
}

#[test]
fn manual_corners_fall_back_to_the_suggestions() {
    let mut tool = RoomTool::default();
    tool.set_min(Some(5), None, Some(7));
    assert_eq!(tool.active_min, Some(Point::new(5, 0, 7)));

    tool.set_max(None, Some(42), None);
    assert_eq!(tool.active_max, Some(Point::new(100, 42, 100)));
}

#[test]
fn set_max_fills_a_missing_lower_corner() {
    let mut tool = RoomTool::default();
    tool.set_max(Some(42), None, None);
    assert_eq!(tool.active_min, Some(Point::new(0, 0, 0)));
    assert_eq!(tool.active_max, Some(Point::new(42, 100, 100)));
}

#[test]
fn face_centers_sit_on_the_box_faces() {
    let mut tool = RoomTool::default();
    tool.apply_click(Point::new(0, 0, 0));
    tool.apply_click(Point::new(10, 20, 30));

    let centers = tool.face_centers();
    assert_eq!(centers.len(), 6);
    assert_eq!(centers[0], (Point::new(10, 10, 15), HandleAxis::MaxX));
    assert_eq!(centers[1], (Point::new(0, 10, 15), HandleAxis::MinX));
    assert_eq!(centers[2], (Point::new(5, 20, 15), HandleAxis::MaxY));
    assert_eq!(centers[3], (Point::new(5, 0, 15), HandleAxis::MinY));
    assert_eq!(centers[4], (Point::new(5, 10, 30), HandleAxis::MaxZ));
    assert_eq!(centers[5], (Point::new(5, 10, 0), HandleAxis::MinZ));
}

#[test]
fn face_centers_of_an_incomplete_box_are_empty() {
    let mut tool = RoomTool::default();
    tool.apply_click(Point::new(0, 0, 0));
    assert_eq!(tool.face_centers().len(), 0);
}

#[test]
fn handles_spawn_once_and_despawn_when_incomplete() {
    let mut tool = RoomTool::default();
    assert_eq!(tool.update_handles(), HandleCommand::Despawn);

    tool.apply_click(Point::new(0, 0, 0));
    tool.apply_click(Point::new(10, 10, 10));
    assert_eq!(tool.update_handles(), HandleCommand::Spawn);
    assert!(tool.handles_active);
    assert_eq!(tool.update_handles(), HandleCommand::Keep);

    tool.cancel(true);
    assert_eq!(tool.update_handles(), HandleCommand::Despawn);
    assert!(!tool.handles_active);
}

#[test]
fn drag_begins_on_a_left_press_and_ends_on_release() {
    let mut tool = RoomTool::default();
    let handle = EntityId::new(9, 1);

    tool.drag_transition(
        true,
        Some((handle, Point::new(5, 5, 5))),
        Some(Point::new(5, 5, 0)),
        Some(MouseButton::Left),
        true,
    );
    assert_eq!(tool.drag_handle_entity, Some(handle));
    assert_eq!(tool.drag_start, Some(Point::new(5, 5, 5)));
    assert_eq!(tool.drag_handle_start, Some(Point::new(5, 5, 0)));

    // Button no longer held over the handle: the drag ends.
    tool.drag_transition(true, Some((handle, Point::new(5, 5, 5))), None, None, false);
    assert_eq!(tool.drag_handle_entity, None);
    assert_eq!(tool.drag_start, None);
    assert_eq!(tool.drag_handle_start, None);
}

#[test]
fn losing_the_ray_ends_the_drag() {
    let mut tool = RoomTool::default();
    let handle = EntityId::new(9, 1);
    tool.drag_transition(
        true,
        Some((handle, Point::new(5, 5, 5))),
        Some(Point::new(5, 5, 0)),
        Some(MouseButton::Left),
        true,
    );
    tool.drag_transition(false, None, None, Some(MouseButton::Left), false);
    assert_eq!(tool.drag_start, None);
}

#[test]
fn dragging_a_face_snaps_and_moves_the_bound() {
    let mut tool = RoomTool::default();
    tool.snap_granularity = 5;
    tool.apply_click(Point::new(0, 0, 0));
    tool.apply_click(Point::new(50, 50, 50));
    tool.drag_start = Some(Point::new(50, 25, 25));
    tool.drag_handle_start = Some(Point::new(50, 25, 25));

    // The cursor moved 13 along x: the face lands on ceil(63/5)*5 = 65.
    let new_x = tool.apply_drag(HandleAxis::MaxX, Point::new(63, 25, 25));
    assert_eq!(new_x, 65);
    assert_eq!(tool.active_max, Some(Point::new(65, 50, 50)));
    assert_eq!(tool.active_min, Some(Point::new(0, 0, 0)));
}

#[test]
fn dragging_clamps_one_step_short_of_the_opposite_face() {
    let mut tool = RoomTool::default();
    tool.snap_granularity = 5;
    tool.apply_click(Point::new(0, 0, 0));
    tool.apply_click(Point::new(50, 50, 50));
    tool.drag_start = Some(Point::new(0, 25, 25));
    tool.drag_handle_start = Some(Point::new(0, 25, 25));

    // Dragging the lower x face far past the upper one stops at max - g.
    let new_x = tool.apply_drag(HandleAxis::MinX, Point::new(500, 25, 25));
    assert_eq!(new_x, 45);
    assert_eq!(tool.active_min, Some(Point::new(45, 0, 0)));
}

#[test]
fn init_suggests_the_example_room() {
    let mut tool = RoomTool::default();
    let room = tool.init();
    assert_eq!(room.min, Point::new(-10, 0, -10));
    assert_eq!(room.max, Point::new(10, 20, 10));
    assert_eq!(tool.last_min, room.min);
    assert_eq!(tool.last_max, room.max);
}

//! The room tool: click in an axis viewport to set the box's corners, drag
//! face handles to resize it, confirm to commit it as a room.

use vstd::prelude::*;
use crate::geom::{imax, imin, point_max, point_min, point_within, Point, UNIT};
use crate::ident::EntityId;
use crate::multicam::CameraAxis;
use crate::mouse::MouseButton;
use crate::room::Room;
use crate::snap::{
    lemma_snap_up_spec, snap_point, snap_point_spec, snap_range_ok, snap_up, snap_up_spec,
};

verus! {

/// The largest coordinate magnitude the drag and handle arithmetic accepts:
/// an eighth of the `i64` range, leaving headroom for sums of differences.
pub const COORD_LIMIT: i64 = 0x0FFF_FFFF_FFFF_FFFF;

/// The midpoint of two coordinates, rounded toward the lower one.
pub open spec fn mid(a: int, b: int) -> int {
    a + (b - a) / 2
}

/// Which face of the active box a drag handle resizes.
#[derive(Clone, Copy, PartialEq, Eq, Structural, Debug)]
pub enum HandleAxis {
    MinX,
    MinY,
    MinZ,
    MaxX,
    MaxY,
    MaxZ,
}

/// A resize handle spawned at a face center of the active box.
pub struct RoomToolHandle {
    pub axis: HandleAxis,
}

/// Asks for the room geometry to be recomputed.
pub struct CalculateRoomGeometry;

/// Asks the tool to commit the active box as a room.
pub struct CreateRoom;

/// The room tool's editing state.
pub struct RoomTool {
    pub debug_window: bool,
    pub debug_show_points: bool,
    pub debug_show_cursor: bool,
    /// Fallback corners, suggested for the coordinates a click cannot place.
    pub last_min: Point,
    pub last_max: Point,
    /// The box under construction.
    pub active_min: Option<Point>,
    pub active_max: Option<Point>,
    pub handles_active: bool,
    pub snap: bool,
    pub snap_granularity: i64,
    /// Where on a handle the current drag started.
    pub drag_start: Option<Point>,
    pub drag_handle_entity: Option<EntityId>,
    /// The dragged handle's position when the drag started.
    pub drag_handle_start: Option<Point>,
}

/// What the frame should do with the resize handles.
#[derive(Clone, Copy, PartialEq, Eq, Structural, Debug)]
pub enum HandleCommand {
    Spawn,
    Despawn,
    Keep,
}

impl RoomTool {
    /// The tool's state is sound: the snap granularity is positive.
    pub open spec fn wf(self) -> bool {
        self.snap_granularity >= 1
    }

    /// When both corners of the active box are set, they are ordered.
    pub open spec fn active_normalized(self) -> bool {
        self.active_min is Some && self.active_max is Some ==> self.active_min->0.le(
            self.active_max->0)
    }

    /// The corners are staged in order: an upper corner only ever
    /// accompanies a lower one (idle, lower set, then both set).
    pub open spec fn active_staged(self) -> bool {
        self.active_max is Some ==> self.active_min is Some
    }

    /// The corner a viewport click cannot place along its pinned axis: the
    /// opposite fallback corner of the bound being placed.
    pub open spec fn suggestion_spec(self) -> Point {
        if self.active_min is Some {
            self.last_max
        } else {
            self.last_min
        }
    }

    /// The cursor with the viewport's axis pinned to the suggestion.
    pub open spec fn pinned_cursor_spec(self, axis: CameraAxis, world: Point) -> Point
        recommends
            axis != CameraAxis::Free,
    {
        let s = self.suggestion_spec();
        match axis {
            CameraAxis::Free => world,
            CameraAxis::X => Point { x: s.x, y: world.y, z: world.z },
            CameraAxis::Y => Point { x: world.x, y: s.y, z: world.z },
            CameraAxis::Z => Point { x: world.x, y: world.y, z: s.z },
        }
    }

    /// The 3D cursor for a pointer in an axis viewport: the pinned cursor,
    /// snapped to the grid when snapping is on.
    pub open spec fn cursor_spec(self, axis: CameraAxis, world: Point) -> Point
        recommends
            axis != CameraAxis::Free,
    {
        let pinned = self.pinned_cursor_spec(axis, world);
        if self.snap {
            snap_point_spec(pinned, self.snap_granularity as int)
        } else {
            pinned
        }
    }

    /// The state after a placing click: the first click sets the lower
    /// corner, the second sets the upper corner and swaps the pair into
    /// order; further clicks change nothing.
    pub open spec fn click_state_spec(self, cursor: Point) -> RoomTool {
        if self.active_min is None {
            RoomTool { active_min: Some(cursor), ..self }
        } else if self.active_max is None {
            RoomTool {
                active_min: Some(point_min(self.active_min->0, cursor)),
                active_max: Some(point_max(self.active_min->0, cursor)),
                ..self
            }
        } else {
            self
        }
    }

    /// The room a commit would create from the active box.
    pub open spec fn spec_create_room(self) -> Option<Room> {
        if self.active_min is Some && self.active_max is Some {
            Some(Room { min: self.active_min->0, max: self.active_max->0, engulfing: None })
        } else {
            None
        }
    }

    /// Places the initial example room and suggests its corners.
    pub fn init(&mut self) -> (room: Room)
        ensures
            room.min == (Point { x: (-UNIT) as i64, y: 0i64, z: (-UNIT) as i64 }),
            room.max == (Point { x: UNIT, y: (2 * UNIT) as i64, z: UNIT }),
            room.engulfing is None,
            *final(self) == (RoomTool { last_min: room.min, last_max: room.max, ..*old(self) }),
    {
        let min = Point { x: -UNIT, y: 0, z: -UNIT };
        let max = Point { x: UNIT, y: 2 * UNIT, z: UNIT };
        self.last_min = min;
        self.last_max = max;
        Room::new(min, max)
    }

    /// Drops the active box.
    pub fn clear(&mut self)
        ensures
            *final(self) == (RoomTool { active_min: None, active_max: None, ..*old(self) }),
    {
        self.active_min = None;
        self.active_max = None;
    }

    /// On cancel, pops the most recently set bound: the upper corner if it
    /// is set, else the lower corner.
    pub fn cancel(&mut self, cancel_pressed: bool)
        ensures
            *final(self) == (if cancel_pressed {
                if old(self).active_max is Some {
                    RoomTool { active_max: None, ..*old(self) }
                } else if old(self).active_min is Some {
                    RoomTool { active_min: None, ..*old(self) }
                } else {
                    *old(self)
                }
            } else {
                *old(self)
            }),
    {
        if cancel_pressed {
            if self.active_max.is_some() {
                self.active_max = None;
            } else if self.active_min.is_some() {
                self.active_min = None;
            }
        }
    }

    /// Commits the active box: returns the new room exactly when both
    /// corners are set, remembers set corners as the next suggestions, and
    /// resets the tool.
    pub fn create(&mut self) -> (room: Option<Room>)
        ensures
            room == old(self).spec_create_room(),
            final(self).last_min == (if old(self).active_min is Some {
                old(self).active_min->0
            } else {
                old(self).last_min
            }),
            final(self).last_max == (if old(self).active_max is Some {
                old(self).active_max->0
            } else {
                old(self).last_max
            }),
            final(self).active_min is None,
            final(self).active_max is None,
            *final(self) == (RoomTool {
                last_min: final(self).last_min,
                last_max: final(self).last_max,
                active_min: None,
                active_max: None,
                ..*old(self)
            }),
    {
        let room = match (self.active_min, self.active_max) {
            (Some(min), Some(max)) => Some(Room::new(min, max)),
            _ => None,
        };
        if let Some(active_min) = self.active_min {
            self.last_min = active_min;
        }
        if let Some(active_max) = self.active_max {
            self.last_max = active_max;
        }
        self.clear();
        room
    }

    /// Sets the lower corner by hand; coordinates not given fall back to the
    /// suggested lower corner.
    pub fn set_min(&mut self, x: Option<i64>, y: Option<i64>, z: Option<i64>)
        ensures
            *final(self) == (RoomTool {
                active_min: Some(Point {
                    x: if x is Some { x->0 } else { old(self).last_min.x },
                    y: if y is Some { y->0 } else { old(self).last_min.y },
                    z: if z is Some { z->0 } else { old(self).last_min.z },
                }),
                ..*old(self)
            }),
    {
        let min = Point {
            x: match x { Some(v) => v, None => self.last_min.x },
            y: match y { Some(v) => v, None => self.last_min.y },
            z: match z { Some(v) => v, None => self.last_min.z },
        };
        self.active_min = Some(min);
    }

    /// Sets the upper corner by hand; coordinates not given fall back to the
    /// suggested upper corner, and a missing lower corner is filled in from
    /// the suggested lower corner first.
    pub fn set_max(&mut self, x: Option<i64>, y: Option<i64>, z: Option<i64>)
        ensures
            *final(self) == (RoomTool {
                active_min: if old(self).active_min is Some {
                    old(self).active_min
                } else {
                    Some(old(self).last_min)
                },
                active_max: Some(Point {
                    x: if x is Some { x->0 } else { old(self).last_max.x },
                    y: if y is Some { y->0 } else { old(self).last_max.y },
                    z: if z is Some { z->0 } else { old(self).last_max.z },
                }),
                ..*old(self)
            }),
    {
        if self.active_min.is_none() {
            self.active_min = Some(self.last_min);
        }
        let max = Point {
            x: match x { Some(v) => v, None => self.last_max.x },
            y: match y { Some(v) => v, None => self.last_max.y },
            z: match z { Some(v) => v, None => self.last_max.z },
        };
        self.active_max = Some(max);
    }

    /// Computes the 3D cursor for a pointer in an axis viewport.
    pub fn cursor_position(&self, axis: CameraAxis, world: Point) -> (cursor: Point)
        requires
            self.wf(),
            axis != CameraAxis::Free,
            self.snap ==> snap_range_ok(world, self.snap_granularity as int),
            self.snap ==> snap_range_ok(self.suggestion_spec(), self.snap_granularity as int),
        ensures
            cursor == self.cursor_spec(axis, world),
    {
        let suggestion = if self.active_min.is_some() {
            self.last_max
        } else {
            self.last_min
        };
        let pinned = match axis {
            CameraAxis::Free => world,
            CameraAxis::X => Point { x: suggestion.x, y: world.y, z: world.z },
            CameraAxis::Y => Point { x: world.x, y: suggestion.y, z: world.z },
            CameraAxis::Z => Point { x: world.x, y: world.y, z: suggestion.z },
        };
        if self.snap {
            snap_point(pinned, self.snap_granularity)
        } else {
            pinned
        }
    }

    /// Applies a placing click at `cursor`.
    pub fn apply_click(&mut self, cursor: Point)
        ensures
            *final(self) == old(self).click_state_spec(cursor),
            final(self).active_min is Some,
            old(self).active_staged() ==> final(self).active_staged(),
            old(self).active_normalized() && old(self).active_staged()
                ==> final(self).active_normalized(),
    {
        if self.active_min.is_none() {
            self.active_min = Some(cursor);
        } else if self.active_max.is_none() {
            let min = match self.active_min {
                Some(min) => min,
                None => cursor,
            };
            let new_min = Point {
                x: if min.x <= cursor.x { min.x } else { cursor.x },
                y: if min.y <= cursor.y { min.y } else { cursor.y },
                z: if min.z <= cursor.z { min.z } else { cursor.z },
            };
            let new_max = Point {
                x: if min.x <= cursor.x { cursor.x } else { min.x },
                y: if min.y <= cursor.y { cursor.y } else { min.y },
                z: if min.z <= cursor.z { cursor.z } else { min.z },
            };
            self.active_min = Some(new_min);
            self.active_max = Some(new_max);
        }
    }

    /// One frame of pointer interaction in an axis viewport: derives the
    /// cursor, and applies it as a placing click when the left button was
    /// released there.
    pub fn interface(
        &mut self,
        axis: CameraAxis,
        world: Point,
        released: Option<MouseButton>,
    ) -> (cursor: Point)
        requires
            old(self).wf(),
            axis != CameraAxis::Free,
            old(self).snap ==> snap_range_ok(world, old(self).snap_granularity as int),
            old(self).snap ==> snap_range_ok(
                old(self).suggestion_spec(), old(self).snap_granularity as int),
        ensures
            cursor == old(self).cursor_spec(axis, world),
            *final(self) == (if released == Some(MouseButton::Left) {
                old(self).click_state_spec(cursor)
            } else {
                *old(self)
            }),
            old(self).active_staged() ==> final(self).active_staged(),
            old(self).active_normalized() && old(self).active_staged()
                ==> final(self).active_normalized(),
    {
        let cursor = self.cursor_position(axis, world);
        match released {
            Some(MouseButton::Left) => {
                self.apply_click(cursor);
            }
            _ => {}
        }
        cursor
    }

    /// The geometric center of the active box.
    pub open spec fn centroid_spec(self) -> Point
        recommends
            self.active_min is Some,
            self.active_max is Some,
    {
        let mn = self.active_min->0;
        let mx = self.active_max->0;
        Point {
            x: mid(mn.x as int, mx.x as int) as i64,
            y: mid(mn.y as int, mx.y as int) as i64,
            z: mid(mn.z as int, mx.z as int) as i64,
        }
    }

    /// The extent of the active box, zero when it is incomplete.
    pub open spec fn size_spec(self) -> Point {
        if self.active_min is Some && self.active_max is Some {
            let mn = self.active_min->0;
            let mx = self.active_max->0;
            Point {
                x: (mx.x - mn.x) as i64,
                y: (mx.y - mn.y) as i64,
                z: (mx.z - mn.z) as i64,
            }
        } else {
            Point { x: 0i64, y: 0i64, z: 0i64 }
        }
    }

    /// Half the extent of the active box, rounded down.
    pub open spec fn half_size_spec(self) -> Point {
        let s = self.size_spec();
        Point { x: (s.x as int / 2) as i64, y: (s.y as int / 2) as i64, z: (s.z as int / 2) as i64 }
    }

    /// The center of the face a handle resizes: the centroid pushed half the
    /// box's extent along the handle's axis.
    pub open spec fn face_center_spec(self, axis: HandleAxis) -> Point
        recommends
            self.active_min is Some,
            self.active_max is Some,
    {
        let c = self.centroid_spec();
        let h = self.half_size_spec();
        match axis {
            HandleAxis::MaxX => Point { x: (c.x + h.x) as i64, y: c.y, z: c.z },
            HandleAxis::MinX => Point { x: (c.x - h.x) as i64, y: c.y, z: c.z },
            HandleAxis::MaxY => Point { x: c.x, y: (c.y + h.y) as i64, z: c.z },
            HandleAxis::MinY => Point { x: c.x, y: (c.y - h.y) as i64, z: c.z },
            HandleAxis::MaxZ => Point { x: c.x, y: c.y, z: (c.z + h.z) as i64 },
            HandleAxis::MinZ => Point { x: c.x, y: c.y, z: (c.z - h.z) as i64 },
        }
    }

    /// Whether the active box's coordinates are within the drag and handle
    /// arithmetic's limits.
    pub open spec fn active_within_limits(self) -> bool {
        &&& self.active_min is Some ==> point_within(self.active_min->0, COORD_LIMIT as int)
        &&& self.active_max is Some ==> point_within(self.active_max->0, COORD_LIMIT as int)
    }

    /// The geometric center of the active box, when it is complete.
    pub fn centroid(&self) -> (r: Option<Point>)
        requires
            self.active_normalized(),
            self.active_within_limits(),
        ensures
            r is Some <==> (self.active_min is Some && self.active_max is Some),
            r matches Some(c) ==> c == self.centroid_spec(),
    {
        match (self.active_min, self.active_max) {
            (Some(min), Some(max)) => Some(
                Point {
                    x: min.x + (max.x - min.x) / 2,
                    y: min.y + (max.y - min.y) / 2,
                    z: min.z + (max.z - min.z) / 2,
                },
            ),
            _ => None,
        }
    }

    /// The extent of the active box, zero when it is incomplete.
    pub fn size(&self) -> (r: Point)
        requires
            self.active_normalized(),
            self.active_within_limits(),
        ensures
            r == self.size_spec(),
    {
        match (self.active_min, self.active_max) {
            (Some(min), Some(max)) => Point {
                x: max.x - min.x,
                y: max.y - min.y,
                z: max.z - min.z,
            },
            _ => Point { x: 0, y: 0, z: 0 },
        }
    }

    /// The six face centers of the active box, each tagged with the handle
    /// axis that resizes that face; empty while the box is incomplete.
    pub fn face_centers(&self) -> (r: Vec<(Point, HandleAxis)>)
        requires
            self.active_normalized(),
            self.active_within_limits(),
        ensures
            (self.active_min is Some && self.active_max is Some) ==> {
                &&& r@.len() == 6
                &&& r@[0] == (self.face_center_spec(HandleAxis::MaxX), HandleAxis::MaxX)
                &&& r@[1] == (self.face_center_spec(HandleAxis::MinX), HandleAxis::MinX)
                &&& r@[2] == (self.face_center_spec(HandleAxis::MaxY), HandleAxis::MaxY)
                &&& r@[3] == (self.face_center_spec(HandleAxis::MinY), HandleAxis::MinY)
                &&& r@[4] == (self.face_center_spec(HandleAxis::MaxZ), HandleAxis::MaxZ)
                &&& r@[5] == (self.face_center_spec(HandleAxis::MinZ), HandleAxis::MinZ)
            },
            !(self.active_min is Some && self.active_max is Some) ==> r@.len() == 0,
    {
        let mut face_centers: Vec<(Point, HandleAxis)> = Vec::new();
        if let Some(centroid) = self.centroid() {
            let size = self.size();
            let half = Point { x: size.x / 2, y: size.y / 2, z: size.z / 2 };

            face_centers.push(
                (Point { x: centroid.x + half.x, y: centroid.y, z: centroid.z }, HandleAxis::MaxX));
            face_centers.push(
                (Point { x: centroid.x - half.x, y: centroid.y, z: centroid.z }, HandleAxis::MinX));

            face_centers.push(
                (Point { x: centroid.x, y: centroid.y + half.y, z: centroid.z }, HandleAxis::MaxY));
            face_centers.push(
                (Point { x: centroid.x, y: centroid.y - half.y, z: centroid.z }, HandleAxis::MinY));

            face_centers.push(
                (Point { x: centroid.x, y: centroid.y, z: centroid.z + half.z }, HandleAxis::MaxZ));
            face_centers.push(
                (Point { x: centroid.x, y: centroid.y, z: centroid.z - half.z }, HandleAxis::MinZ));
        }
        face_centers
    }

    /// One frame of the handle lifecycle: handles appear once both corners
    /// are set and disappear whenever the box becomes incomplete.
    pub fn update_handles(&mut self) -> (cmd: HandleCommand)
        ensures
            ({
                let both = old(self).active_min is Some && old(self).active_max is Some;
                if both && !old(self).handles_active {
                    &&& cmd == HandleCommand::Spawn
                    &&& *final(self) == (RoomTool { handles_active: true, ..*old(self) })
                } else if !both {
                    &&& cmd == HandleCommand::Despawn
                    &&& *final(self) == (RoomTool { handles_active: false, ..*old(self) })
                } else {
                    &&& cmd == HandleCommand::Keep
                    &&& *final(self) == *old(self)
                }
            }),
    {
        if self.active_min.is_some() && self.active_max.is_some() {
            if !self.handles_active {
                self.handles_active = true;
                HandleCommand::Spawn
            } else {
                HandleCommand::Keep
            }
        } else {
            self.handles_active = false;
            HandleCommand::Despawn
        }
    }

    /// Forgets the handles, when the tool is put away.
    pub fn despawn_handles(&mut self)
        ensures
            *final(self) == (RoomTool { handles_active: false, ..*old(self) }),
    {
        self.handles_active = false;
    }

    /// The drag bookkeeping for one frame, given what the pick ray hit: a
    /// left press on a handle starts a drag, releasing the button or losing
    /// the ray ends it.
    pub open spec fn drag_transition_spec(
        self,
        ray_present: bool,
        hit: Option<(EntityId, Point)>,
        handle_translation: Option<Point>,
        pressed: Option<MouseButton>,
        just_pressed: bool,
    ) -> RoomTool {
        let cleared = RoomTool {
            drag_start: None,
            drag_handle_entity: None,
            drag_handle_start: None,
            ..self
        };
        if !ray_present {
            cleared
        } else if hit is Some {
            if pressed == Some(MouseButton::Left) {
                if self.drag_start is None && just_pressed {
                    RoomTool {
                        drag_handle_entity: Some((hit->0).0),
                        drag_start: Some((hit->0).1),
                        drag_handle_start: if handle_translation is Some {
                            handle_translation
                        } else {
                            self.drag_handle_start
                        },
                        ..self
                    }
                } else {
                    self
                }
            } else {
                cleared
            }
        } else {
            if pressed is None {
                cleared
            } else {
                self
            }
        }
    }

    /// Applies one frame of drag bookkeeping. `hit` is the handle the pick
    /// ray struck and where; `handle_translation` is that handle's current
    /// position, when it could be looked up.
    pub fn drag_transition(
        &mut self,
        ray_present: bool,
        hit: Option<(EntityId, Point)>,
        handle_translation: Option<Point>,
        pressed: Option<MouseButton>,
        just_pressed: bool,
    )
        ensures
            *final(self) == old(self).drag_transition_spec(
                ray_present, hit, handle_translation, pressed, just_pressed),
    {
        if !ray_present {
            self.drag_start = None;
            self.drag_handle_entity = None;
            self.drag_handle_start = None;
        } else {
            match hit {
                Some((entity, point)) => {
                    if pressed == Some(MouseButton::Left) {
                        if self.drag_start.is_none() && just_pressed {
                            self.drag_handle_entity = Some(entity);
                            self.drag_start = Some(point);
                            if let Some(translation) = handle_translation {
                                self.drag_handle_start = Some(translation);
                            }
                        }
                    } else {
                        self.drag_start = None;
                        self.drag_handle_entity = None;
                        self.drag_handle_start = None;
                    }
                }
                None => {
                    if self.pressed_is_none(pressed) {
                        self.drag_start = None;
                        self.drag_handle_entity = None;
                        self.drag_handle_start = None;
                    }
                }
            }
        }
    }

    /// Whether no button is held; a plain test the drag bookkeeping uses.
    fn pressed_is_none(&self, pressed: Option<MouseButton>) -> (r: bool)
        ensures
            r == (pressed is None),
    {
        match pressed {
            None => true,
            Some(_) => false,
        }
    }

    /// The coordinate a drag proposes before clamping: the handle's starting
    /// coordinate moved by how far the cursor travelled along the handle's
    /// axis, snapped up to the grid.
    pub open spec fn drag_raw_spec(self, axis: HandleAxis, cursor: Point) -> int
        recommends
            self.drag_start is Some,
            self.drag_handle_start is Some,
    {
        let g = self.snap_granularity as int;
        let hs = self.drag_handle_start->0;
        let ds = self.drag_start->0;
        match axis {
            HandleAxis::MinX | HandleAxis::MaxX => snap_up_spec(hs.x - (ds.x - cursor.x), g),
            HandleAxis::MinY | HandleAxis::MaxY => snap_up_spec(hs.y - (ds.y - cursor.y), g),
            HandleAxis::MinZ | HandleAxis::MaxZ => snap_up_spec(hs.z - (ds.z - cursor.z), g),
        }
    }

    /// The coordinate a drag sets: the proposed coordinate, clamped so the
    /// dragged bound keeps one granularity step away from the opposite bound.
    pub open spec fn drag_coord_spec(self, axis: HandleAxis, cursor: Point) -> int
        recommends
            self.active_min is Some,
            self.active_max is Some,
            self.drag_start is Some,
            self.drag_handle_start is Some,
    {
        let g = self.snap_granularity as int;
        let raw = self.drag_raw_spec(axis, cursor);
        match axis {
            HandleAxis::MinX => imin(raw, self.active_max->0.x - g),
            HandleAxis::MaxX => imax(raw, self.active_min->0.x + g),
            HandleAxis::MinY => imin(raw, self.active_max->0.y - g),
            HandleAxis::MaxY => imax(raw, self.active_min->0.y + g),
            HandleAxis::MinZ => imin(raw, self.active_max->0.z - g),
            HandleAxis::MaxZ => imax(raw, self.active_min->0.z + g),
        }
    }

    /// The state after a drag: the dragged bound's coordinate replaced.
    pub open spec fn drag_state_spec(self, axis: HandleAxis, cursor: Point) -> RoomTool
        recommends
            self.active_min is Some,
            self.active_max is Some,
            self.drag_start is Some,
            self.drag_handle_start is Some,
    {
        let c = self.drag_coord_spec(axis, cursor) as i64;
        let mn = self.active_min->0;
        let mx = self.active_max->0;
        match axis {
            HandleAxis::MinX => RoomTool { active_min: Some(Point { x: c, ..mn }), ..self },
            HandleAxis::MaxX => RoomTool { active_max: Some(Point { x: c, ..mx }), ..self },
            HandleAxis::MinY => RoomTool { active_min: Some(Point { y: c, ..mn }), ..self },
            HandleAxis::MaxY => RoomTool { active_max: Some(Point { y: c, ..mx }), ..self },
            HandleAxis::MinZ => RoomTool { active_min: Some(Point { z: c, ..mn }), ..self },
            HandleAxis::MaxZ => RoomTool { active_max: Some(Point { z: c, ..mx }), ..self },
        }
    }

    /// Resizes the active box by one frame of handle dragging: moves the
    /// dragged face to the snapped cursor position, clamped one granularity
    /// step short of the opposite face, and returns the new coordinate for
    /// the handle itself.
    pub fn apply_drag(&mut self, axis: HandleAxis, cursor: Point) -> (new_coord: i64)
        requires
            old(self).wf(),
            old(self).active_min is Some,
            old(self).active_max is Some,
            old(self).drag_start is Some,
            old(self).drag_handle_start is Some,
            old(self).active_within_limits(),
            point_within(old(self).drag_handle_start->0, COORD_LIMIT as int),
            point_within(old(self).drag_start->0, COORD_LIMIT as int),
            point_within(cursor, COORD_LIMIT as int),
            old(self).snap_granularity <= COORD_LIMIT,
        ensures
            new_coord == old(self).drag_coord_spec(axis, cursor),
            *final(self) == old(self).drag_state_spec(axis, cursor),
            old(self).active_normalized() ==> final(self).active_normalized(),
    {
        let g = self.snap_granularity;
        let hs = self.drag_handle_start.unwrap();
        let ds = self.drag_start.unwrap();
        let mn = self.active_min.unwrap();
        let mx = self.active_max.unwrap();
        match axis {
            HandleAxis::MinX => {
                let raw = snap_up(hs.x - (ds.x - cursor.x), g);
                let new_x = if raw <= mx.x - g { raw } else { mx.x - g };
                self.active_min = Some(Point { x: new_x, ..mn });
                new_x
            }
            HandleAxis::MaxX => {
                let raw = snap_up(hs.x - (ds.x - cursor.x), g);
                let new_x = if raw >= mn.x + g { raw } else { mn.x + g };
                self.active_max = Some(Point { x: new_x, ..mx });
                new_x
            }
            HandleAxis::MinY => {
                let raw = snap_up(hs.y - (ds.y - cursor.y), g);
                let new_y = if raw <= mx.y - g { raw } else { mx.y - g };
                self.active_min = Some(Point { y: new_y, ..mn });
                new_y
            }
            HandleAxis::MaxY => {
                let raw = snap_up(hs.y - (ds.y - cursor.y), g);
                let new_y = if raw >= mn.y + g { raw } else { mn.y + g };
                self.active_max = Some(Point { y: new_y, ..mx });
                new_y
            }
            HandleAxis::MinZ => {
                let raw = snap_up(hs.z - (ds.z - cursor.z), g);
                let new_z = if raw <= mx.z - g { raw } else { mx.z - g };
                self.active_min = Some(Point { z: new_z, ..mn });
                new_z
            }
            HandleAxis::MaxZ => {
                let raw = snap_up(hs.z - (ds.z - cursor.z), g);
                let new_z = if raw >= mn.z + g { raw } else { mn.z + g };
                self.active_max = Some(Point { z: new_z, ..mx });
                new_z
            }
        }
    }
}

impl Default for RoomTool {
    /// An idle tool: no active box, no drag, snapping on with a granularity
    /// of one step, and corners of a ten-unit box as the first suggestions.
    fn default() -> (r: RoomTool)
        ensures
            r == (RoomTool {
                debug_window: true,
                debug_show_points: false,
                debug_show_cursor: false,
                last_min: Point { x: 0i64, y: 0i64, z: 0i64 },
                last_max: Point {
                    x: (10 * UNIT) as i64,
                    y: (10 * UNIT) as i64,
                    z: (10 * UNIT) as i64,
                },
                active_min: None,
                active_max: None,
                handles_active: false,
                snap: true,
                snap_granularity: 1i64,
                drag_start: None,
                drag_handle_entity: None,
                drag_handle_start: None,
            }),
            r.wf(),
    {
        RoomTool {
            debug_window: true,
            debug_show_points: false,
            debug_show_cursor: false,
            last_min: Point { x: 0, y: 0, z: 0 },
            last_max: Point { x: 10 * UNIT, y: 10 * UNIT, z: 10 * UNIT },
            active_min: None,
            active_max: None,
            handles_active: false,
            snap: true,
            snap_granularity: 1,
            drag_start: None,
            drag_handle_entity: None,
            drag_handle_start: None,
        }
    }
}

/// A room committed from a normalized active box has ordered bounds.
pub proof fn lemma_committed_rooms_ordered(tool: RoomTool)
    requires
        tool.active_normalized(),
    ensures
        tool.spec_create_room() matches Some(room) ==> room.min.le(room.max),
{
}

/// With snapping on, each coordinate of the derived cursor is the pinned
/// coordinate rounded up to the grid: a multiple of the granularity, at
/// least the raw coordinate, less than one step above it, and equal to
/// `ceil(v/g)*g`.
pub proof fn lemma_cursor_snapped(tool: RoomTool, axis: CameraAxis, world: Point)
    requires
        tool.wf(),
        axis != CameraAxis::Free,
        tool.snap,
        snap_range_ok(world, tool.snap_granularity as int),
        snap_range_ok(tool.suggestion_spec(), tool.snap_granularity as int),
    ensures
        ({
            let g = tool.snap_granularity as int;
            let raw = tool.pinned_cursor_spec(axis, world);
            let cursor = tool.cursor_spec(axis, world);
            &&& cursor.x == snap_up_spec(raw.x as int, g)
            &&& cursor.y == snap_up_spec(raw.y as int, g)
            &&& cursor.z == snap_up_spec(raw.z as int, g)
            &&& cursor.x == ((raw.x + g - 1) / g) * g
            &&& cursor.y == ((raw.y + g - 1) / g) * g
            &&& cursor.z == ((raw.z + g - 1) / g) * g
            &&& raw.x <= cursor.x < raw.x + g && (cursor.x as int) % g == 0
            &&& raw.y <= cursor.y < raw.y + g && (cursor.y as int) % g == 0
            &&& raw.z <= cursor.z < raw.z + g && (cursor.z as int) % g == 0
        }),
{
    let g = tool.snap_granularity as int;
    let raw = tool.pinned_cursor_spec(axis, world);
    lemma_snap_up_spec(raw.x as int, g);
    lemma_snap_up_spec(raw.y as int, g);
    lemma_snap_up_spec(raw.z as int, g);
}

/// A click that completes the box stages the componentwise minimum and
/// maximum of the set corner and the cursor, so the staged bounds are
/// ordered whatever order the corners were placed in.
pub proof fn lemma_second_click_normalizes(tool: RoomTool, cursor: Point)
    requires
        tool.active_min is Some,
        tool.active_max is None,
    ensures
        ({
            let staged = tool.click_state_spec(cursor);
            &&& staged.active_min == Some(point_min(tool.active_min->0, cursor))
            &&& staged.active_max == Some(point_max(tool.active_min->0, cursor))
            &&& staged.active_min->0.le(staged.active_max->0)
        }),
{
}

/// The placing flow end to end: from an idle tool, two clicks stage the
/// normalized box of the two cursors, and committing it yields exactly that
/// room — ordered however the two corners were clicked.
pub proof fn lemma_two_clicks_commit(tool: RoomTool, first: Point, second: Point)
    requires
        tool.active_min is None,
        tool.active_max is None,
    ensures
        tool.click_state_spec(first).click_state_spec(second).spec_create_room() == Some(
            Room {
                min: point_min(first, second),
                max: point_max(first, second),
                engulfing: None,
            }),
        point_min(first, second).le(point_max(first, second)),
{
}

} // verus!

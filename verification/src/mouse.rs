//! Per-frame mouse state: button precedence and the viewport-local cursor
//! snapshot.
//!
//! Positions are in physical pixels; the world-space pick ray derived from
//! them stays with the host renderer.

use vstd::prelude::*;
use crate::ident::EntityId;

verus! {

#[derive(Clone, Copy, PartialEq, Eq, Structural, Debug)]
pub enum MouseButton {
    Left,
    Right,
    Middle,
}

/// One button's state this frame.
#[derive(Clone, Copy, PartialEq, Eq, Structural, Debug)]
pub struct ButtonState {
    pub pressed: bool,
    pub just_pressed: bool,
    pub just_released: bool,
}

/// The three mouse buttons' states this frame.
#[derive(Clone, Copy, PartialEq, Eq, Structural, Debug)]
pub struct MouseButtons {
    pub left: ButtonState,
    pub right: ButtonState,
    pub middle: ButtonState,
}

/// The button reported released: only when no button is held and exactly one
/// was just released.
pub open spec fn precedence_released(b: MouseButtons) -> Option<MouseButton> {
    if !b.left.pressed && !b.right.pressed && !b.middle.pressed {
        if b.left.just_released && !b.right.just_released && !b.middle.just_released {
            Some(MouseButton::Left)
        } else if b.right.just_released && !b.left.just_released && !b.middle.just_released {
            Some(MouseButton::Right)
        } else if b.middle.just_released && !b.left.just_released && !b.right.just_released {
            Some(MouseButton::Middle)
        } else {
            None
        }
    } else {
        None
    }
}

/// The button reported held: only when exactly one button is held.
pub open spec fn precedence_pressed(b: MouseButtons) -> Option<MouseButton> {
    if b.left.pressed && !b.right.pressed && !b.middle.pressed {
        Some(MouseButton::Left)
    } else if b.right.pressed && !b.left.pressed && !b.middle.pressed {
        Some(MouseButton::Right)
    } else if b.middle.pressed && !b.left.pressed && !b.right.pressed {
        Some(MouseButton::Middle)
    } else {
        None
    }
}

/// Whether the single held button was pressed this very frame.
pub open spec fn precedence_just_pressed(b: MouseButtons) -> bool {
    match precedence_pressed(b) {
        Some(MouseButton::Left) => b.left.just_pressed,
        Some(MouseButton::Right) => b.right.just_pressed,
        Some(MouseButton::Middle) => b.middle.just_pressed,
        None => false,
    }
}

/// Resolves the frame's button states to at most one active button:
/// simultaneous holds report none, and a release counts only once every
/// button is up.
pub fn mouse_precedence(b: &MouseButtons) -> (r: (bool, Option<MouseButton>, Option<MouseButton>))
    ensures
        r.0 == precedence_just_pressed(*b),
        r.1 == precedence_pressed(*b),
        r.2 == precedence_released(*b),
{
    let left = b.left.pressed;
    let right = b.right.pressed;
    let middle = b.middle.pressed;

    let left_released = b.left.just_released;
    let right_released = b.right.just_released;
    let middle_released = b.middle.just_released;

    if !left && !right && !middle {
        if left_released && !right_released && !middle_released {
            return (false, None, Some(MouseButton::Left));
        }
        if right_released && !left_released && !middle_released {
            return (false, None, Some(MouseButton::Right));
        }
        if middle_released && !left_released && !right_released {
            return (false, None, Some(MouseButton::Middle));
        }
    }

    if left && !right && !middle {
        return (b.left.just_pressed, Some(MouseButton::Left), None);
    }
    if right && !left && !middle {
        return (b.right.just_pressed, Some(MouseButton::Right), None);
    }
    if middle && !left && !right {
        return (b.middle.just_pressed, Some(MouseButton::Middle), None);
    }

    (false, None, None)
}

/// Precedence resolves to at most one active button: a held button and a
/// completed release are never reported in the same frame.
pub proof fn lemma_precedence_exclusive(b: MouseButtons)
    ensures
        !(precedence_pressed(b) is Some && precedence_released(b) is Some),
{
}

/// Where the pointer sits this frame: the camera whose viewport holds it,
/// and the position in viewport-local and window pixels.
#[derive(Clone, Copy, Debug)]
pub struct PointerLocation {
    pub camera: EntityId,
    pub local_pos: (i64, i64),
    pub global_pos: (i64, i64),
}

/// The mouse state captured for one frame.
pub struct CurrentMouseInput {
    pub pressed: Option<MouseButton>,
    pub just_pressed: bool,
    pub released: Option<MouseButton>,
    pub in_camera: Option<EntityId>,
    pub started_in_camera: Option<EntityId>,
    pub local_pos: Option<(i64, i64)>,
    pub delta_pos: (i64, i64),
    pub global_pos: Option<(i64, i64)>,
}

impl CurrentMouseInput {
    /// Records the frame's button precedence.
    pub fn update_buttons(&mut self, b: &MouseButtons)
        ensures
            final(self).just_pressed == precedence_just_pressed(*b),
            final(self).pressed == precedence_pressed(*b),
            final(self).released == precedence_released(*b),
            final(self).in_camera == old(self).in_camera,
            final(self).started_in_camera == old(self).started_in_camera,
            final(self).local_pos == old(self).local_pos,
            final(self).delta_pos == old(self).delta_pos,
            final(self).global_pos == old(self).global_pos,
    {
        let (just_pressed, pressed, released) = mouse_precedence(b);
        self.just_pressed = just_pressed;
        self.pressed = pressed;
        self.released = released;
    }

    /// Records where the pointer sits. A drag remembers the viewport it
    /// started in: that viewport is set when the single held button went
    /// down this frame, kept while the button stays held, and cleared when
    /// the pointer rests in a viewport with no button held.
    pub fn update_location(&mut self, found: Option<PointerLocation>)
        ensures
            final(self).pressed == old(self).pressed,
            final(self).just_pressed == old(self).just_pressed,
            final(self).released == old(self).released,
            final(self).delta_pos == old(self).delta_pos,
            match found {
                Some(loc) => {
                    &&& final(self).in_camera == Some(loc.camera)
                    &&& final(self).local_pos == Some(loc.local_pos)
                    &&& final(self).global_pos == Some(loc.global_pos)
                    &&& final(self).started_in_camera == (
                        if old(self).pressed is Some {
                            if old(self).just_pressed {
                                Some(loc.camera)
                            } else {
                                old(self).started_in_camera
                            }
                        } else {
                            None
                        })
                },
                None => {
                    &&& final(self).in_camera is None
                    &&& final(self).local_pos is None
                    &&& final(self).global_pos is None
                    &&& final(self).started_in_camera == old(self).started_in_camera
                },
            },
    {
        match found {
            Some(loc) => {
                if self.pressed.is_some() {
                    if self.just_pressed {
                        self.started_in_camera = Some(loc.camera);
                    }
                } else {
                    self.started_in_camera = None;
                }
                self.in_camera = Some(loc.camera);
                self.local_pos = Some(loc.local_pos);
                self.global_pos = Some(loc.global_pos);
            }
            None => {
                self.in_camera = None;
                self.local_pos = None;
                self.global_pos = None;
            }
        }
    }

    /// Zeroes the pointer delta at the start of a frame, before the frame's
    /// motion events are accumulated.
    pub fn reset_delta(&mut self)
        ensures
            final(self).delta_pos == (0i64, 0i64),
            final(self).pressed == old(self).pressed,
            final(self).just_pressed == old(self).just_pressed,
            final(self).released == old(self).released,
            final(self).in_camera == old(self).in_camera,
            final(self).started_in_camera == old(self).started_in_camera,
            final(self).local_pos == old(self).local_pos,
            final(self).global_pos == old(self).global_pos,
    {
        self.delta_pos = (0, 0);
    }

    /// Accumulates one motion event into the frame's pointer delta.
    pub fn add_delta(&mut self, dx: i64, dy: i64)
        requires
            i64::MIN <= old(self).delta_pos.0 + dx <= i64::MAX,
            i64::MIN <= old(self).delta_pos.1 + dy <= i64::MAX,
        ensures
            final(self).delta_pos.0 == old(self).delta_pos.0 + dx,
            final(self).delta_pos.1 == old(self).delta_pos.1 + dy,
            final(self).pressed == old(self).pressed,
            final(self).just_pressed == old(self).just_pressed,
            final(self).released == old(self).released,
            final(self).in_camera == old(self).in_camera,
            final(self).started_in_camera == old(self).started_in_camera,
            final(self).local_pos == old(self).local_pos,
            final(self).global_pos == old(self).global_pos,
    {
        self.delta_pos.0 = self.delta_pos.0 + dx;
        self.delta_pos.1 = self.delta_pos.1 + dy;
    }
}

impl Default for CurrentMouseInput {
    /// No button active and no pointer location.
    fn default() -> (r: CurrentMouseInput)
        ensures
            r.pressed is None,
            !r.just_pressed,
            r.released is None,
            r.in_camera is None,
            r.started_in_camera is None,
            r.local_pos is None,
            r.delta_pos == (0i64, 0i64),
            r.global_pos is None,
    {
        CurrentMouseInput {
            pressed: None,
            just_pressed: false,
            released: None,
            in_camera: None,
            started_in_camera: None,
            local_pos: None,
            delta_pos: (0, 0),
            global_pos: None,
        }
    }
}

} // verus!

//! Camera movement decisions: when the cursor is captured, and how a
//! middle-click drag moves the camera under it.
//!
//! The transform arithmetic itself (orbit angles, pan offsets, zoom) is the
//! renderer's floating-point work; these are the decisions that drive it.

use vstd::prelude::*;
use crate::ident::EntityId;
use crate::mouse::MouseButton;

verus! {

/// What a camera's projection is.
#[derive(Clone, Copy, PartialEq, Eq, Structural, Debug)]
pub enum ProjectionKind {
    Perspective,
    Orthographic,
    Custom,
}

/// What to do with the window's cursor this frame.
#[derive(Clone, Copy, PartialEq, Eq, Structural, Debug)]
pub enum CursorGrab {
    Release,
    Lock,
    Keep,
}

/// How a middle-click drag moves the camera it started in.
#[derive(Clone, Copy, PartialEq, Eq, Structural, Debug)]
pub enum MoveMode {
    Pan,
    Orbit,
}

/// The cursor is released when no drag started in a viewport, and captured
/// while the middle button drags one.
pub fn cursor_grab(started_in_camera: Option<EntityId>, pressed: Option<MouseButton>) -> (r:
    CursorGrab)
    ensures
        started_in_camera is None ==> r == CursorGrab::Release,
        started_in_camera is Some && pressed == Some(MouseButton::Middle) ==> r == CursorGrab::Lock,
        started_in_camera is Some && pressed != Some(MouseButton::Middle) ==> r == CursorGrab::Keep,
{
    match started_in_camera {
        None => CursorGrab::Release,
        Some(_) => {
            match pressed {
                Some(MouseButton::Middle) => CursorGrab::Lock,
                _ => CursorGrab::Keep,
            }
        }
    }
}

/// How a perspective camera follows a middle-click drag: the modify key
/// pans, otherwise the drag orbits.
pub fn perspective_move_mode(modify: bool) -> (r: MoveMode)
    ensures
        r == (if modify {
            MoveMode::Pan
        } else {
            MoveMode::Orbit
        }),
{
    if modify {
        MoveMode::Pan
    } else {
        MoveMode::Orbit
    }
}

/// How a camera follows a middle-click drag, when it does: orthographic
/// cameras always pan; custom projections are not moved.
pub fn camera_move_mode(projection: ProjectionKind, modify: bool) -> (r: Option<MoveMode>)
    ensures
        projection is Perspective ==> r == Some(if modify {
            MoveMode::Pan
        } else {
            MoveMode::Orbit
        }),
        projection is Orthographic ==> r == Some(MoveMode::Pan),
        projection is Custom ==> r is None,
{
    match projection {
        ProjectionKind::Perspective => Some(perspective_move_mode(modify)),
        ProjectionKind::Orthographic => Some(MoveMode::Pan),
        ProjectionKind::Custom => None,
    }
}

} // verus!

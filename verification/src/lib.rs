//! Core logic of a room-layout editor: axis-aligned room volumes placed and
//! resized through a multi-viewport camera rig.
//!
//! Coordinates are integers, in tenths of a world unit, so that placement,
//! snapping and intersection tests are exact.

pub mod editable;
pub mod geom;
pub mod ident;
pub mod keyboard;
pub mod mouse;
pub mod movement;
pub mod multicam;
pub mod panels;
pub mod room;
pub mod room_tool;
pub mod selection;
pub mod snap;
pub mod text;
pub mod tool;

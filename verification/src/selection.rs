//! Object selection: which entity the pointer hovers, and which one a click
//! selected.

use vstd::prelude::*;
use crate::geom::Point;
use crate::ident::EntityId;

verus! {

/// Marks an object the selection tool can pick, with its identifying label
/// and the half extents of its bounding box.
pub struct EditorSelectable {
    pub id: String,
    /// Half the bounding box's extent along each axis, in coordinate steps.
    pub bounding_box: Point,
}

/// The selection tool's state.
pub struct SelectionState {
    pub hovered: Option<EntityId>,
    pub selected: Option<EntityId>,
    pub debug_probe: bool,
}

impl SelectionState {
    /// The state after one frame of picking: what the pick ray hit is
    /// hovered, and a left-click release selects it — or clears the
    /// selection when the ray hit nothing. A hidden cursor, or a pointer
    /// outside every viewport, hovers nothing and leaves the selection.
    pub open spec fn select_spec(
        self,
        cursor_visible: bool,
        ray_present: bool,
        hit: Option<EntityId>,
        released_left: bool,
    ) -> SelectionState {
        if !cursor_visible {
            SelectionState { hovered: None, ..self }
        } else if !ray_present {
            SelectionState { hovered: None, ..self }
        } else {
            match hit {
                Some(entity) => SelectionState {
                    hovered: Some(entity),
                    selected: if released_left {
                        Some(entity)
                    } else {
                        self.selected
                    },
                    ..self
                },
                None => SelectionState {
                    hovered: None,
                    selected: if released_left {
                        None
                    } else {
                        self.selected
                    },
                    ..self
                },
            }
        }
    }

    /// Applies one frame of picking.
    pub fn select(
        &mut self,
        cursor_visible: bool,
        ray_present: bool,
        hit: Option<EntityId>,
        released_left: bool,
    )
        ensures
            *final(self) == old(self).select_spec(cursor_visible, ray_present, hit, released_left),
    {
        if !cursor_visible {
            self.hovered = None;
            return;
        }
        if !ray_present {
            self.hovered = None;
            return;
        }
        match hit {
            Some(entity) => {
                self.hovered = Some(entity);
                if released_left {
                    self.selected = Some(entity);
                }
            }
            None => {
                self.hovered = None;
                if released_left {
                    self.selected = None;
                }
            }
        }
    }

    /// Whether the hovered object is the selected one, which the bounds
    /// drawing shows with its own color.
    pub fn hovered_is_selected(&self) -> (r: bool)
        ensures
            r == (self.selected is Some && self.hovered is Some && self.selected->0
                == self.hovered->0),
    {
        match (self.selected, self.hovered) {
            (Some(a), Some(b)) => a.index == b.index && a.generation == b.generation,
            _ => false,
        }
    }
}

impl Default for SelectionState {
    /// Nothing hovered or selected.
    fn default() -> (r: SelectionState)
        ensures
            r.hovered is None,
            r.selected is None,
            !r.debug_probe,
    {
        SelectionState { hovered: None, selected: None, debug_probe: false }
    }
}

} // verus!

//! Editor actions: an ordered log of placed objects, each under a fresh
//! identifier, which later actions may reference.
//!
//! Resolving a point through a relative reference is an open question of
//! the editor's design; only absolute references resolve.

use vstd::prelude::*;
use vstd::string::StringExecFns;
use crate::geom::Point;
use crate::text::{dec_rep, u64_to_string};

verus! {

/// Why a point could not be resolved.
#[derive(Clone, Copy, PartialEq, Eq, Structural, Debug)]
pub enum PointResolutionError {
    NoSuchReferent,
}

/// The identifier of one editor action.
#[derive(PartialEq, Eq, Structural, Debug, Clone, Copy, Hash)]
pub struct EditorActionId {
    pub id: u64,
}

impl EditorActionId {
    pub fn new() -> (r: EditorActionId)
        ensures
            r.id == 0,
    {
        EditorActionId { id: 0 }
    }

    /// The identifier in decimal, as action labels show it.
    pub fn to_text(&self) -> (r: String)
        ensures
            r@ == dec_rep(self.id as nat),
    {
        u64_to_string(self.id)
    }
}

/// What an action placed. The editor's one object so far is a point placed
/// in global coordinates.
pub enum EditorObjectData {
    GlobalPoint(Point),
}

impl EditorObjectData {
    /// The placed object's display name.
    pub open spec fn kind_name_spec(self) -> Seq<char> {
        "GlobalPoint"@
    }

    /// The point this object resolves any key to.
    pub open spec fn point_spec(self) -> Point {
        self->GlobalPoint_0
    }

    pub fn kind_name(&self) -> (r: String)
        ensures
            r@ == self.kind_name_spec(),
    {
        match self {
            EditorObjectData::GlobalPoint(_) => String::from_str("GlobalPoint"),
        }
    }

    /// Resolves a named point of this object; a global point answers every
    /// key with its own position.
    pub fn get_point(&self, key: &str) -> (r: Result<Point, PointResolutionError>)
        ensures
            r == Ok::<Point, PointResolutionError>(self.point_spec()),
    {
        match self {
            EditorObjectData::GlobalPoint(p) => Ok(*p),
        }
    }
}

/// One node of the editor-action graph: an action may name earlier actions
/// as parents, and actions with no parents root disjoint graphs.
pub struct EditorAction {
    pub id: EditorActionId,
    pub object: EditorObjectData,
    pub parents: Vec<EditorActionId>,
}

impl EditorAction {
    pub fn get_point(&self, key: &str) -> (r: Result<Point, PointResolutionError>)
        ensures
            r == Ok::<Point, PointResolutionError>(self.object.point_spec()),
    {
        self.object.get_point(key)
    }

    pub fn kind_name(&self) -> (r: String)
        ensures
            r@ == self.object.kind_name_spec(),
    {
        self.object.kind_name()
    }

    /// The action's label: its type name and its identifier.
    pub fn kind_name_with_id(&self) -> (r: String)
        ensures
            r@ == self.object.kind_name_spec() + " "@ + dec_rep(self.id.id as nat),
    {
        proof {
            reveal_strlit(" ");
        }
        let mut s = self.kind_name();
        s.append(" ");
        let id_text = self.id.to_text();
        s.append(id_text.as_str());
        proof {
            assert(s@ =~= self.object.kind_name_spec() + " "@ + dec_rep(self.id.id as nat));
        }
        s
    }
}

/// The ordered log of actions taken, and which one the timeline shows.
pub struct EditorActions {
    pub actions: Vec<EditorAction>,
    pub id_counter: u64,
    pub selected_action: Option<EditorActionId>,
}

/// Whether the log holds an action with this identifier.
pub open spec fn action_exists(actions: EditorActions, id: EditorActionId) -> bool {
    exists|i: int| 0 <= i < actions.actions@.len() && (#[trigger] actions.actions@[i]).id == id
}

impl EditorActions {
    /// Identifiers are handed out in order: the log's identifiers strictly
    /// increase, and all sit below the counter.
    pub open spec fn wf(self) -> bool {
        &&& forall|i: int, j: int| 0 <= i < j < self.actions@.len()
            ==> (#[trigger] self.actions@[i]).id.id < (#[trigger] self.actions@[j]).id.id
        &&& forall|i: int| 0 <= i < self.actions@.len()
            ==> (#[trigger] self.actions@[i]).id.id < self.id_counter
    }

    /// Appends an object to the log under a fresh identifier.
    pub fn take_action(&mut self, object: EditorObjectData)
        requires
            old(self).wf(),
            old(self).id_counter < u64::MAX,
        ensures
            final(self).wf(),
            final(self).actions@.len() == old(self).actions@.len() + 1,
            forall|i: int| 0 <= i < old(self).actions@.len()
                ==> final(self).actions@[i] == old(self).actions@[i],
            final(self).actions@.last().id == (EditorActionId { id: old(self).id_counter }),
            final(self).actions@.last().object == object,
            final(self).actions@.last().parents@.len() == 0,
            final(self).id_counter == old(self).id_counter + 1,
            final(self).selected_action == old(self).selected_action,
    {
        let new_id = self.next_id();
        let new_action = EditorAction { id: new_id, object, parents: Vec::new() };
        self.actions.push(new_action);
    }

    /// Hands out the next identifier.
    fn next_id(&mut self) -> (id: EditorActionId)
        requires
            old(self).id_counter < u64::MAX,
        ensures
            id.id == old(self).id_counter,
            *final(self) == (EditorActions {
                id_counter: (old(self).id_counter + 1) as u64,
                ..*old(self)
            }),
    {
        let id = EditorActionId { id: self.id_counter };
        self.id_counter = self.id_counter + 1;
        id
    }

    /// Looks an action up by its identifier.
    pub fn get_action(&self, id: &EditorActionId) -> (r: Option<&EditorAction>)
        ensures
            r is Some <==> action_exists(*self, *id),
            r matches Some(action) ==> action.id == *id && exists|i: int|
                0 <= i < self.actions@.len() && self.actions@[i] == *action,
    {
        let mut i: usize = 0;
        while i < self.actions.len()
            invariant
                i <= self.actions@.len(),
                forall|j: int| 0 <= j < i ==> (#[trigger] self.actions@[j]).id != *id,
            decreases self.actions@.len() - i,
        {
            if self.actions[i].id == *id {
                return Some(&self.actions[i]);
            }
            i = i + 1;
        }
        None
    }
}

impl Default for EditorActions {
    /// A log seeded with three placed points.
    fn default() -> (r: EditorActions)
        ensures
            r.wf(),
            r.actions@.len() == 3,
            r.id_counter == 3,
            r.selected_action is None,
            r.actions@[0].object == EditorObjectData::GlobalPoint(
                Point { x: 0i64, y: 0i64, z: 0i64 }),
            r.actions@[1].object == EditorObjectData::GlobalPoint(
                Point { x: 10i64, y: 0i64, z: 0i64 }),
            r.actions@[2].object == EditorObjectData::GlobalPoint(
                Point { x: 0i64, y: 50i64, z: 0i64 }),
    {
        let mut a = EditorActions { actions: Vec::new(), id_counter: 0, selected_action: None };

        a.take_action(EditorObjectData::GlobalPoint(Point { x: 0, y: 0, z: 0 }));
        a.take_action(EditorObjectData::GlobalPoint(Point { x: 10, y: 0, z: 0 }));
        a.take_action(EditorObjectData::GlobalPoint(Point { x: 0, y: 50, z: 0 }));

        a
    }
}

/// A coordinate, either given outright or referenced from an earlier
/// action's resolved point.
pub enum Ref32 {
    Absolute(i64),
    Relative(EditorActionId, i64),
}

/// A point whose coordinates may each reference earlier actions.
pub struct RefVec3 {
    pub x: Ref32,
    pub y: Ref32,
    pub z: Ref32,
}

impl Ref32 {
    /// Resolves the coordinate. An absolute reference is its own value; a
    /// relative one fails when its referent is missing, and how it resolves
    /// otherwise is not yet defined, so such references are excluded here.
    pub fn resolve(&self, actions: &EditorActions) -> (r: Result<i64, PointResolutionError>)
        requires
            self matches Ref32::Relative(id, _) ==> !action_exists(*actions, *id),
        ensures
            self matches Ref32::Absolute(v) ==> r == Ok::<i64, PointResolutionError>(*v),
            self is Relative ==> r == Err::<i64, PointResolutionError>(
                PointResolutionError::NoSuchReferent),
    {
        match self {
            Ref32::Absolute(v) => Ok(*v),
            Ref32::Relative(id, _) => {
                match actions.get_action(id) {
                    Some(_) => {
                        proof {
                            assert(false);
                        }
                        Err(PointResolutionError::NoSuchReferent)
                    }
                    None => Err(PointResolutionError::NoSuchReferent),
                }
            }
        }
    }
}

} // verus!

//! Per-frame keyboard state, with directional helpers whose opposing keys
//! cancel each other.

use vstd::prelude::*;

verus! {

/// The keyboard state captured for one frame.
#[derive(Clone, Copy, PartialEq, Eq, Structural, Debug)]
pub struct CurrentKeyboardInput {
    pub modify: bool,
    pub confirm: bool,
    pub cancel: bool,
    pub forward: bool,
    pub left: bool,
    pub right: bool,
    pub backward: bool,
    pub up: bool,
    pub down: bool,
}

/// The net value of an antagonistic key pair: `1` for the positive key
/// alone, `-1` for the negative key alone, `0` when both or neither is held.
pub open spec fn axis_value(positive: bool, negative: bool) -> int {
    if positive && !negative {
        1
    } else if negative && !positive {
        -1
    } else {
        0
    }
}

impl CurrentKeyboardInput {
    /// The net forward movement: `W` against `S`.
    pub fn forward(&self) -> (r: i64)
        ensures
            r == axis_value(self.forward, self.backward),
    {
        if self.forward && !self.backward {
            1
        } else if self.backward && !self.forward {
            -1
        } else {
            0
        }
    }

    /// The net leftward movement: `A` against `D`.
    pub fn left(&self) -> (r: i64)
        ensures
            r == axis_value(self.left, self.right),
    {
        if self.left && !self.right {
            1
        } else if self.right && !self.left {
            -1
        } else {
            0
        }
    }

    /// The net rightward movement: `D` against `A`.
    pub fn right(&self) -> (r: i64)
        ensures
            r == axis_value(self.right, self.left),
    {
        if self.right && !self.left {
            1
        } else if self.left && !self.right {
            -1
        } else {
            0
        }
    }

    /// The net backward movement: `S` against `W`.
    pub fn backward(&self) -> (r: i64)
        ensures
            r == axis_value(self.backward, self.forward),
    {
        if self.backward && !self.forward {
            1
        } else if self.forward && !self.backward {
            -1
        } else {
            0
        }
    }

    /// The net upward movement: `Q` against `E`.
    pub fn up(&self) -> (r: i64)
        ensures
            r == axis_value(self.up, self.down),
    {
        if self.up && !self.down {
            1
        } else if self.down && !self.up {
            -1
        } else {
            0
        }
    }

    /// The net downward movement: `E` against `Q`.
    pub fn down(&self) -> (r: i64)
        ensures
            r == axis_value(self.down, self.up),
    {
        if self.down && !self.up {
            1
        } else if self.up && !self.down {
            -1
        } else {
            0
        }
    }

    /// Records which movement keys are held this frame.
    pub fn update(
        &mut self,
        forward: bool,
        left: bool,
        right: bool,
        backward: bool,
        up: bool,
        down: bool,
    )
        ensures
            *final(self) == (CurrentKeyboardInput {
                forward,
                left,
                right,
                backward,
                up,
                down,
                ..*old(self)
            }),
    {
        self.forward = forward;
        self.left = left;
        self.right = right;
        self.backward = backward;
        self.up = up;
        self.down = down;
    }
}

impl Default for CurrentKeyboardInput {
    /// No key held.
    fn default() -> (r: CurrentKeyboardInput)
        ensures
            r == (CurrentKeyboardInput {
                modify: false,
                confirm: false,
                cancel: false,
                forward: false,
                left: false,
                right: false,
                backward: false,
                up: false,
                down: false,
            }),
    {
        CurrentKeyboardInput {
            modify: false,
            confirm: false,
            cancel: false,
            forward: false,
            left: false,
            right: false,
            backward: false,
            up: false,
            down: false,
        }
    }
}

/// Each antagonistic pair cancels: holding both keys of a pair nets zero,
/// and the two helpers of a pair always return opposite values.
pub proof fn lemma_axis_pairs_cancel(positive: bool, negative: bool)
    ensures
        positive && negative ==> axis_value(positive, negative) == 0,
        positive && !negative ==> axis_value(positive, negative) == 1,
        negative && !positive ==> axis_value(positive, negative) == -1,
        axis_value(positive, negative) == -axis_value(negative, positive),
{
}

} // verus!

//! The per-frame snapshot of the keyboard, and the logical movement intents
//! that the key mapping derives from it.

use vstd::prelude::*;

verus! {

/// An immutable snapshot of which keys are held down during one frame.
///
/// Each field is true exactly when the named physical key is held.  The
/// snapshot is read-only to the controller; the host input layer fills it in
/// once per frame.
#[derive(Clone, Copy, Debug, PartialEq, Eq, Structural)]
pub struct InputSnapshot {
    pub arrow_left: bool,
    pub arrow_right: bool,
    pub arrow_up: bool,
    pub arrow_down: bool,
    pub key_a: bool,
    pub key_d: bool,
    pub key_w: bool,
    pub key_s: bool,
    pub key_z: bool,
    pub key_q: bool,
    pub bracket_left: bool,
    pub bracket_right: bool,
}

impl InputSnapshot {
    /// True when no key at all is held.
    pub open spec fn no_key_held(self) -> bool {
        &&& !self.arrow_left
        &&& !self.arrow_right
        &&& !self.arrow_up
        &&& !self.arrow_down
        &&& !self.key_a
        &&& !self.key_d
        &&& !self.key_w
        &&& !self.key_s
        &&& !self.key_z
        &&& !self.key_q
        &&& !self.bracket_left
        &&& !self.bracket_right
    }

    /// Intent to move along negative x.
    pub open spec fn wants_left(self) -> bool {
        self.arrow_left || self.key_a
    }

    /// Intent to move along positive x.
    pub open spec fn wants_right(self) -> bool {
        self.arrow_right || self.key_d
    }

    /// Intent to move along positive y.
    pub open spec fn wants_up(self) -> bool {
        self.arrow_up || self.key_w
    }

    /// Intent to move along negative y.
    pub open spec fn wants_down(self) -> bool {
        self.arrow_down || self.key_s
    }

    /// Intent to move along positive z.  The arrow-down key gates this
    /// intent as well: the mapping is a disjunction, exactly as the key
    /// table has it.
    pub open spec fn wants_forward(self) -> bool {
        self.arrow_down || self.key_z
    }

    /// Intent to move along negative z; also gated by the arrow-down key.
    pub open spec fn wants_back(self) -> bool {
        self.arrow_down || self.key_q
    }

    /// Intent to yaw in the negative direction; also gated by the
    /// arrow-down key.
    pub open spec fn wants_yaw_neg(self) -> bool {
        self.arrow_down || self.bracket_left
    }

    /// Intent to yaw in the positive direction; also gated by the
    /// arrow-down key.
    pub open spec fn wants_yaw_pos(self) -> bool {
        self.arrow_down || self.bracket_right
    }

    /// A snapshot in which no key is held.
    pub fn released() -> (s: Self)
        ensures
            s.no_key_held(),
    {
        InputSnapshot {
            arrow_left: false,
            arrow_right: false,
            arrow_up: false,
            arrow_down: false,
            key_a: false,
            key_d: false,
            key_w: false,
            key_s: false,
            key_z: false,
            key_q: false,
            bracket_left: false,
            bracket_right: false,
        }
    }
}

} // verus!

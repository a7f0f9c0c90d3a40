//! The immediate-mode tracker: no alignment keys, no rounds — whenever both
//! sides have delivered at least one payload, the two latest payloads are
//! diffed.

use vstd::prelude::*;

use crate::differ::{DiffOutcome, JsonPatchDiffer};
use crate::engine::Side;
use crate::json::{JNode, JsonVal};

verus! {

/// What one immediate-mode step did.
pub enum RawStepOutcome {
    /// Both sides have a payload: they were diffed, with this result.
    Compared(DiffOutcome),
    /// Only one side has delivered so far: waiting for the other.
    Waiting,
}

/// The immediate-mode tracker: the latest payload of each side, and the
/// differ that compares them.
pub struct Tracker {
    differ: JsonPatchDiffer,
    left_state: Option<JsonVal>,
    right_state: Option<JsonVal>,
}

impl Tracker {
    /// The configured differ.
    pub closed spec fn spec_differ(&self) -> JsonPatchDiffer {
        self.differ
    }

    /// The latest left payload, if one arrived.
    pub closed spec fn left_state(&self) -> Option<JNode> {
        match self.left_state {
            Some(v) => Some(v@),
            None => None,
        }
    }

    /// The latest right payload, if one arrived.
    pub closed spec fn right_state(&self) -> Option<JNode> {
        match self.right_state {
            Some(v) => Some(v@),
            None => None,
        }
    }

    /// A tracker that has seen nothing yet.
    pub fn new(differ: JsonPatchDiffer) -> (r: Tracker)
        ensures
            r.spec_differ() == differ,
            r.left_state() is None,
            r.right_state() is None,
    {
        Tracker { differ, left_state: None, right_state: None }
    }

    /// Fold one event in: replace that side's latest payload, and diff the
    /// two latest payloads if both sides have one.
    pub fn on_event(&mut self, side: Side, data: JsonVal) -> (r: RawStepOutcome)
        ensures
            final(self).spec_differ() == old(self).spec_differ(),
            final(self).left_state() == (if side == Side::Left {
                Some(data@)
            } else {
                old(self).left_state()
            }),
            final(self).right_state() == (if side == Side::Right {
                Some(data@)
            } else {
                old(self).right_state()
            }),
            match r {
                RawStepOutcome::Compared(o) => {
                    &&& final(self).left_state() is Some
                    &&& final(self).right_state() is Some
                    &&& o == (if final(self).left_state() == final(self).right_state() {
                        DiffOutcome::Identical
                    } else {
                        DiffOutcome::Different
                    })
                },
                RawStepOutcome::Waiting => final(self).left_state() is None
                    || final(self).right_state() is None,
            },
    {
        match side {
            Side::Left => {
                self.left_state = Some(data);
            }
            Side::Right => {
                self.right_state = Some(data);
            }
        }
        match (&self.left_state, &self.right_state) {
            (Some(l), Some(r_val)) => RawStepOutcome::Compared(
                self.differ.print_diff("left", "right", l, r_val),
            ),
            _ => RawStepOutcome::Waiting,
        }
    }
}

} // verus!

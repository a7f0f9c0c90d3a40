//! The report core: an ordered, side-tagged, timestamped record of both
//! sides' states, and the match statistics shown in the persisted artifact.
//!
//! Serializing the record into an artifact, and writing it to disk, happen
//! outside the library; what is verified here is the record itself — both
//! appends preserve order — the matched/mismatched counts, and how a reused
//! report path is suffixed per round so nothing is overwritten.

use vstd::prelude::*;

use crate::cross::states_view;
use crate::state::{now_millis, State, StateModel};

verus! {

/// Relies on uuid::Uuid::new_v4 and its Display form: a fresh random
/// version-4 UUID as hyphenated text, which is always 36 characters;
/// nothing is promised of its value.
#[verifier::external_body]
fn new_session_id() -> (r: String)
    ensures
        r@.len() == 36,
{
    uuid::Uuid::new_v4().to_string()
}

/// Relies on chrono::Utc::now and chrono's formatting: the current UTC
/// time as compact `year month day _ hour minute second` text; nothing is
/// promised of its value.
#[verifier::external_body]
pub fn now_stamp() -> String {
    chrono::Utc::now().format("%Y%m%d_%H%M%S").to_string()
}

/// How many positions hold the same key on both sides, counting the first
/// `n` positions.
pub open spec fn count_matched_upto(l: Seq<StateModel>, r: Seq<StateModel>, n: int) -> int
    decreases n,
{
    if n <= 0 {
        0
    } else {
        count_matched_upto(l, r, n - 1) + if l[n - 1].key is Some && l[n - 1].key == r[n
            - 1].key {
            1int
        } else {
            0int
        }
    }
}

/// How many positions hold keys on both sides that differ, counting the
/// first `n` positions.
pub open spec fn count_mismatched_upto(l: Seq<StateModel>, r: Seq<StateModel>, n: int) -> int
    decreases n,
{
    if n <= 0 {
        0
    } else {
        count_mismatched_upto(l, r, n - 1) + if l[n - 1].key is Some && r[n - 1].key is Some && l[n
            - 1].key != r[n - 1].key {
            1int
        } else {
            0int
        }
    }
}

/// The number of positions, over the shorter side, where both keys exist
/// and agree.
pub open spec fn spec_count_matched(l: Seq<StateModel>, r: Seq<StateModel>) -> int {
    count_matched_upto(l, r, if l.len() <= r.len() {
        l.len() as int
    } else {
        r.len() as int
    })
}

/// The number of positions, over the shorter side, where both keys exist
/// and disagree.
pub open spec fn spec_count_mismatched(l: Seq<StateModel>, r: Seq<StateModel>) -> int {
    count_mismatched_upto(l, r, if l.len() <= r.len() {
        l.len() as int
    } else {
        r.len() as int
    })
}

/// The record behind the persisted report artifact.
pub struct HtmlReporter {
    session_id: String,
    started_at_ms: i64,
    left_states: Vec<State>,
    right_states: Vec<State>,
}

impl HtmlReporter {
    /// The session id the record was created with.
    pub closed spec fn spec_session_id(&self) -> Seq<char> {
        self.session_id@
    }

    /// When the record was created, in milliseconds since the epoch.
    pub closed spec fn spec_started_at_ms(&self) -> i64 {
        self.started_at_ms
    }

    /// The left side's record, in arrival order.
    pub closed spec fn left(&self) -> Seq<StateModel> {
        states_view(self.left_states@)
    }

    /// The right side's record, in arrival order.
    pub closed spec fn right(&self) -> Seq<StateModel> {
        states_view(self.right_states@)
    }

    /// An empty record with a fresh session id, stamped with the current
    /// time.
    pub fn new() -> (r: HtmlReporter)
        ensures
            r.left() == Seq::<StateModel>::empty(),
            r.right() == Seq::<StateModel>::empty(),
            r.spec_session_id().len() == 36,
    {
        let r = HtmlReporter {
            session_id: new_session_id(),
            started_at_ms: now_millis(),
            left_states: Vec::new(),
            right_states: Vec::new(),
        };
        proof {
            assert(r.left() =~= Seq::<StateModel>::empty());
            assert(r.right() =~= Seq::<StateModel>::empty());
        }
        r
    }

    /// Append a left-side state; order is preserved.
    pub fn add_left(&mut self, state: State)
        ensures
            final(self).left() == old(self).left().push(state@),
            final(self).right() == old(self).right(),
            final(self).spec_session_id() == old(self).spec_session_id(),
            final(self).spec_started_at_ms() == old(self).spec_started_at_ms(),
    {
        let ghost pre = self.left();
        self.left_states.push(state);
        proof {
            assert(self.left() =~= pre.push(self.left_states@.last()@));
            assert(final(self).right() =~= old(self).right());
        }
    }

    /// Append a right-side state; order is preserved.
    pub fn add_right(&mut self, state: State)
        ensures
            final(self).right() == old(self).right().push(state@),
            final(self).left() == old(self).left(),
            final(self).spec_session_id() == old(self).spec_session_id(),
            final(self).spec_started_at_ms() == old(self).spec_started_at_ms(),
    {
        let ghost pre = self.right();
        self.right_states.push(state);
        proof {
            assert(self.right() =~= pre.push(self.right_states@.last()@));
            assert(final(self).left() =~= old(self).left());
        }
    }

    /// The session id the record was created with.
    pub fn session_id(&self) -> (r: String)
        ensures
            r@ == self.spec_session_id(),
    {
        self.session_id.clone()
    }

    /// When the record was created, in milliseconds since the epoch.
    pub fn started_at_ms(&self) -> (r: i64)
        ensures
            r == self.spec_started_at_ms(),
    {
        self.started_at_ms
    }

    /// A copy of the left-side record, in arrival order.
    pub fn left_states(&self) -> (r: Vec<State>)
        ensures
            states_view(r@) == self.left(),
    {
        let r = copy_states(&self.left_states);
        proof {
            assert(states_view(r@) =~= self.left());
        }
        r
    }

    /// A copy of the right-side record, in arrival order.
    pub fn right_states(&self) -> (r: Vec<State>)
        ensures
            states_view(r@) == self.right(),
    {
        let r = copy_states(&self.right_states);
        proof {
            assert(states_view(r@) =~= self.right());
        }
        r
    }

    /// How many positions hold the same key on both sides.
    pub fn count_matched(&self) -> (r: usize)
        ensures
            r as int == spec_count_matched(self.left(), self.right()),
    {
        let n = if self.left_states.len() <= self.right_states.len() {
            self.left_states.len()
        } else {
            self.right_states.len()
        };
        let mut count: usize = 0;
        let mut i: usize = 0;
        while i < n
            invariant
                0 <= i <= n,
                count <= i,
                n <= self.left_states@.len(),
                n <= self.right_states@.len(),
                n as int == (if self.left().len() <= self.right().len() {
                    self.left().len() as int
                } else {
                    self.right().len() as int
                }),
                forall|k: int| 0 <= k < self.left().len() ==> self.left()[k] == self.left_states@[k]@,
                forall|k: int|
                    0 <= k < self.right().len() ==> self.right()[k] == self.right_states@[k]@,
                count as int == count_matched_upto(self.left(), self.right(), i as int),
            decreases n - i,
        {
            let hit = match (&self.left_states[i].alignment_key, &self.right_states[i].alignment_key) {
                (Some(lk), Some(rk)) => lk.eq(rk),
                _ => false,
            };
            if hit {
                count = count + 1;
            }
            i = i + 1;
        }
        count
    }

    /// How many positions hold keys on both sides that differ.
    pub fn count_mismatched(&self) -> (r: usize)
        ensures
            r as int == spec_count_mismatched(self.left(), self.right()),
    {
        let n = if self.left_states.len() <= self.right_states.len() {
            self.left_states.len()
        } else {
            self.right_states.len()
        };
        let mut count: usize = 0;
        let mut i: usize = 0;
        while i < n
            invariant
                0 <= i <= n,
                count <= i,
                n <= self.left_states@.len(),
                n <= self.right_states@.len(),
                n as int == (if self.left().len() <= self.right().len() {
                    self.left().len() as int
                } else {
                    self.right().len() as int
                }),
                forall|k: int| 0 <= k < self.left().len() ==> self.left()[k] == self.left_states@[k]@,
                forall|k: int|
                    0 <= k < self.right().len() ==> self.right()[k] == self.right_states@[k]@,
                count as int == count_mismatched_upto(self.left(), self.right(), i as int),
            decreases n - i,
        {
            let hit = match (&self.left_states[i].alignment_key, &self.right_states[i].alignment_key) {
                (Some(lk), Some(rk)) => !lk.eq(rk),
                _ => false,
            };
            if hit {
                count = count + 1;
            }
            i = i + 1;
        }
        count
    }
}

impl Default for HtmlReporter {
    /// Same as [`HtmlReporter::new`].
    fn default() -> (r: HtmlReporter)
        ensures
            r.left() == Seq::<StateModel>::empty(),
            r.right() == Seq::<StateModel>::empty(),
    {
        HtmlReporter::new()
    }
}

fn copy_states(v: &Vec<State>) -> (r: Vec<State>)
    ensures
        r@.len() == v@.len(),
        forall|i: int| 0 <= i < r@.len() ==> (#[trigger] r@[i])@ == v@[i]@,
{
    let mut out: Vec<State> = Vec::new();
    let mut i: usize = 0;
    while i < v.len()
        invariant
            0 <= i <= v@.len(),
            out@.len() == i,
            forall|k: int| 0 <= k < i ==> (#[trigger] out@[k])@ == v@[k]@,
        decreases v.len() - i,
    {
        out.push(v[i].duplicate());
        i = i + 1;
    }
    out
}

/// A reused report path with a per-round stamp: the stamp goes in front of
/// a final `.html` extension, or at the end when there is none.
pub fn round_report_path(path: &str, stamp: &str) -> (r: String)
    ensures
        path@.len() >= 5 && path@.subrange(path@.len() - 5, path@.len() as int) == ".html"@
            ==> r@ == path@.take(path@.len() - 5) + "_"@ + stamp@ + ".html"@,
        !(path@.len() >= 5 && path@.subrange(path@.len() - 5, path@.len() as int) == ".html"@)
            ==> r@ == path@ + "_"@ + stamp@,
{
    proof {
        reveal_strlit(".html");
        reveal_strlit("_");
    }
    let n = path.unicode_len();
    if n >= 5 {
        let tail = path.substring_char(n - 5, n).to_owned();
        if tail.eq(&String::from_str(".html")) {
            let mut out = path.substring_char(0, n - 5).to_owned();
            out.append("_");
            out.append(stamp);
            out.append(".html");
            return out;
        }
    }
    let mut out = path.to_owned();
    out.append("_");
    out.append(stamp);
    out
}

} // verus!

//! Events tagged with their alignment key, and the bounded per-side history.

use std::collections::VecDeque;
use vstd::prelude::*;

use crate::json::{JNode, JsonVal};

verus! {

/// Model of a [`State`]: payload, key and arrival time as mathematical values.
#[verifier::ext_equal]
pub struct StateModel {
    pub data: JNode,
    pub key: Option<Seq<char>>,
    pub ts: int,
}

/// An event tagged with its alignment key, as one side received it.
pub struct State {
    /// The event payload.
    pub data: JsonVal,
    /// Key extracted from the payload; absence is normal ("unkeyed").
    pub alignment_key: Option<String>,
    /// Arrival time, in milliseconds since the epoch.
    pub timestamp_ms: i64,
}

impl View for State {
    type V = StateModel;

    open spec fn view(&self) -> StateModel {
        StateModel {
            data: self.data@,
            key: match self.alignment_key {
                Some(k) => Some(k@),
                None => None,
            },
            ts: self.timestamp_ms as int,
        }
    }
}

/// Relies on chrono::Utc::now: the wall clock at the call, in milliseconds
/// since the epoch; nothing is promised of its value.
#[verifier::external_body]
pub fn now_millis() -> i64 {
    chrono::Utc::now().timestamp_millis()
}

impl State {
    /// A new state stamped with the arrival time.
    pub fn new(data: JsonVal, alignment_key: Option<String>) -> (r: State)
        ensures
            r@.data == data@,
            r@.key == (match alignment_key {
                Some(k) => Some(k@),
                None => None::<Seq<char>>,
            }),
    {
        State { data, alignment_key, timestamp_ms: now_millis() }
    }

    /// A state with no alignment key.
    pub fn with_data(data: JsonVal) -> (r: State)
        ensures
            r@.data == data@,
            r@.key is None,
    {
        State::new(data, None)
    }

    /// A deep copy with the same model.
    pub fn duplicate(&self) -> (r: State)
        ensures
            r@ == self@,
    {
        State {
            data: self.data.duplicate(),
            alignment_key: match &self.alignment_key {
                Some(k) => Some(k.clone()),
                None => None,
            },
            timestamp_ms: self.timestamp_ms,
        }
    }
}

/// One push into a buffer of capacity `cap`: append, then evict the oldest
/// entry when the capacity is exceeded.
pub open spec fn buffer_step(cap: nat, cur: Seq<StateModel>, s: StateModel) -> Seq<StateModel> {
    let appended = cur.push(s);
    if appended.len() <= cap {
        appended
    } else {
        appended.drop_first()
    }
}

/// The contents of a buffer of capacity `cap` after pushing `pushed`, in
/// order, into an empty buffer.
pub open spec fn buffer_fold(cap: nat, pushed: Seq<StateModel>) -> Seq<StateModel>
    decreases pushed.len(),
{
    if pushed.len() == 0 {
        Seq::empty()
    } else {
        buffer_step(cap, buffer_fold(cap, pushed.drop_last()), pushed.last())
    }
}

/// After any sequence of pushes into an empty buffer of capacity `cap`, the
/// buffer holds exactly the last `cap` pushed states, in arrival order (all
/// of them while they number at most `cap`).
pub proof fn lemma_buffer_retains_last(cap: nat, pushed: Seq<StateModel>)
    ensures
        buffer_fold(cap, pushed) == pushed.skip(
            if pushed.len() <= cap {
                0
            } else {
                pushed.len() - cap
            },
        ),
    decreases pushed.len(),
{
    if pushed.len() == 0 {
        assert(buffer_fold(cap, pushed) =~= pushed.skip(0));
    } else {
        let dl = pushed.drop_last();
        lemma_buffer_retains_last(cap, dl);
        let m: int = if pushed.len() <= cap {
            0
        } else {
            pushed.len() - cap
        };
        assert(buffer_fold(cap, pushed) =~= pushed.skip(m));
    }
}

/// Bounded, ordered history of the states one side has emitted: appends at
/// the back, evicts at the front when full, cleared at round boundaries.
pub struct StateBuffer {
    states: VecDeque<State>,
    max_size: usize,
}

impl View for StateBuffer {
    type V = Seq<StateModel>;

    closed spec fn view(&self) -> Seq<StateModel> {
        Seq::new(self.states@.len(), |i: int| self.states@[i]@)
    }
}

impl StateBuffer {
    /// The fixed capacity the buffer was created with.
    pub closed spec fn cap(&self) -> nat {
        self.max_size as nat
    }

    /// The buffer never holds more than its capacity.
    pub open spec fn wf(&self) -> bool {
        self@.len() <= self.cap()
    }

    /// An empty buffer of the given capacity.
    pub fn new(max_size: usize) -> (r: StateBuffer)
        ensures
            r@ == Seq::<StateModel>::empty(),
            r.cap() == max_size as nat,
            r.wf(),
    {
        let r = StateBuffer { states: VecDeque::new(), max_size };
        proof {
            assert(r@ =~= Seq::<StateModel>::empty());
        }
        r
    }

    /// Append a state; evict the oldest entry if that exceeds the capacity.
    pub fn push(&mut self, state: State)
        requires
            old(self).wf(),
        ensures
            final(self)@ == buffer_step(old(self).cap(), old(self)@, state@),
            final(self).cap() == old(self).cap(),
            final(self).wf(),
    {
        let ghost pre = self@;
        self.states.push_back(state);
        proof {
            assert(self@ =~= pre.push(state@));
        }
        if self.states.len() > self.max_size {
            let ghost mid = self@;
            self.states.pop_front();
            proof {
                assert(self@ =~= mid.drop_first());
            }
        }
    }

    /// The most recent state, if any.
    pub fn latest(&self) -> (r: Option<&State>)
        ensures
            match r {
                Some(s) => self@.len() > 0 && s@ == self@.last(),
                None => self@.len() == 0,
            },
    {
        if self.states.len() == 0 {
            None
        } else {
            Some(&self.states[self.states.len() - 1])
        }
    }

    /// The most recent state's alignment key, if there is a state and it
    /// carries one.
    pub fn latest_alignment_key(&self) -> (r: Option<String>)
        ensures
            match r {
                Some(k) => self@.len() > 0 && self@.last().key == Some(k@),
                None => self@.len() == 0 || self@.last().key is None,
            },
    {
        match self.latest() {
            Some(s) => match &s.alignment_key {
                Some(k) => Some(k.clone()),
                None => None,
            },
            None => None,
        }
    }

    /// A copy of the buffered states, oldest first.
    pub fn states(&self) -> (r: Vec<State>)
        ensures
            r@.len() == self@.len(),
            forall|i: int| 0 <= i < r@.len() ==> (#[trigger] r@[i])@ == self@[i],
    {
        let mut out: Vec<State> = Vec::new();
        let mut i: usize = 0;
        while i < self.states.len()
            invariant
                0 <= i <= self.states@.len(),
                out@.len() == i,
                self@.len() == self.states@.len(),
                forall|k: int| 0 <= k < self@.len() ==> self@[k] == self.states@[k]@,
                forall|k: int| 0 <= k < i ==> (#[trigger] out@[k])@ == self@[k],
            decreases self.states.len() - i,
        {
            out.push(self.states[i].duplicate());
            i = i + 1;
        }
        out
    }

    /// Drop all entries (a round boundary).
    pub fn clear(&mut self)
        ensures
            final(self)@ == Seq::<StateModel>::empty(),
            final(self).cap() == old(self).cap(),
            final(self).wf(),
    {
        self.states.clear();
        proof {
            assert(self@ =~= Seq::<StateModel>::empty());
        }
    }

    /// How many states are buffered.
    pub fn len(&self) -> (r: usize)
        ensures
            r == self@.len(),
    {
        self.states.len()
    }

    /// Whether the buffer holds no state.
    pub fn is_empty(&self) -> (r: bool)
        ensures
            r == (self@.len() == 0),
    {
        self.states.len() == 0
    }
}

} // verus!

//! The alignment engine: the dual-stream merge loop's decisions.
//!
//! The engine is a state machine driven one event at a time.  Each event is
//! keyed, folded into its side's bounded buffer, and then one of two
//! policies fires: with no round-end signal configured, the two sides'
//! latest keys are compared after every push (continuous alignment); with a
//! signal configured, each side's completion flag is set when its event
//! carries the signal key, and the instant both flags are set the round is
//! closed — cross-comparison runs over both buffers, both buffers are
//! cleared, both flags reset, and the round counter moves up by one.
//!
//! The asynchronous merge loop itself lives outside the library: it awaits
//! whichever source is ready, calls [`TrackerRun::on_event`], and performs
//! the returned decisions (rendering, diffing, report writing).  External
//! cancellation simply stops the calls, so no partial round is ever
//! reported.

use vstd::prelude::*;

use crate::cross::{cross_compare, cross_comparison, entries_view, states_view, CrossEntry};
use crate::differ::JsonPatchDiffer;
use crate::extract::AlignmentKeyExtractor;
use crate::json::{JNode, JsonVal};
use crate::state::{buffer_step, State, StateBuffer, StateModel};

verus! {

/// Capacity of each side's history buffer.
pub const BUFFER_CAPACITY: usize = 100;

/// Which side of the comparison an event arrived on.
#[derive(Debug, Clone, Copy, PartialEq, Eq, Structural)]
pub enum Side {
    Left,
    Right,
}

/// The output projection, by static priority: visual over pretty diffs
/// over structured logs.  It controls rendering only, never the alignment
/// or round decisions.
#[derive(Debug, Clone, Copy, PartialEq, Eq, Structural)]
pub enum OutputMode {
    Visual,
    PrettyDiff,
    Logs,
}

/// The tracker's immutable configuration, built before a run starts.
pub struct AlignedTracker {
    /// Renders the per-event diffs of this tracker.
    pub differ: JsonPatchDiffer,
    extractor: AlignmentKeyExtractor,
    round_end_signal: Option<String>,
    visual: bool,
    report_output: Option<String>,
    pretty_diff: bool,
    max_rounds: Option<usize>,
}

impl AlignedTracker {
    /// The configured differ.
    pub closed spec fn spec_differ(&self) -> JsonPatchDiffer {
        self.differ
    }

    /// The configured key extractor.
    pub closed spec fn spec_extractor(&self) -> AlignmentKeyExtractor {
        self.extractor
    }

    /// The key value that ends a round, if round tracking is on.
    pub closed spec fn signal(&self) -> Option<Seq<char>> {
        match self.round_end_signal {
            Some(s) => Some(s@),
            None => None,
        }
    }

    /// Whether the visual timeline rendering is on.
    pub closed spec fn spec_visual(&self) -> bool {
        self.visual
    }

    /// Where round reports are written, if anywhere.
    pub closed spec fn report_path(&self) -> Option<Seq<char>> {
        match self.report_output {
            Some(p) => Some(p@),
            None => None,
        }
    }

    /// Whether the human-readable diff rendering is on.
    pub closed spec fn spec_pretty(&self) -> bool {
        self.pretty_diff
    }

    /// The round limit, if one is configured.
    pub closed spec fn spec_max_rounds(&self) -> Option<int> {
        match self.max_rounds {
            Some(m) => Some(m as int),
            None => None,
        }
    }

    /// A tracker with no round signal, no report, no limit, default output.
    pub fn new(differ: JsonPatchDiffer, extractor: AlignmentKeyExtractor) -> (r: AlignedTracker)
        ensures
            r.spec_extractor() == extractor,
            r.signal() is None,
            !r.spec_visual(),
            r.report_path() is None,
            !r.spec_pretty(),
            r.spec_max_rounds() is None,
            r.spec_differ() == differ,
    {
        AlignedTracker {
            differ,
            extractor,
            round_end_signal: None,
            visual: false,
            report_output: None,
            pretty_diff: false,
            max_rounds: None,
        }
    }

    /// Turn on round tracking: the given key value ends a round.
    pub fn with_round_end_signal(self, signal: String) -> (r: AlignedTracker)
        ensures
            r.signal() == Some(signal@),
            r.spec_extractor() == self.spec_extractor(),
            r.spec_visual() == self.spec_visual(),
            r.report_path() == self.report_path(),
            r.spec_pretty() == self.spec_pretty(),
            r.spec_max_rounds() == self.spec_max_rounds(),
            r.spec_differ() == self.spec_differ(),
    {
        AlignedTracker { round_end_signal: Some(signal), ..self }
    }

    /// Turn the visual timeline rendering on or off.
    pub fn with_visual(self, enabled: bool) -> (r: AlignedTracker)
        ensures
            r.spec_visual() == enabled,
            r.spec_extractor() == self.spec_extractor(),
            r.signal() == self.signal(),
            r.report_path() == self.report_path(),
            r.spec_pretty() == self.spec_pretty(),
            r.spec_max_rounds() == self.spec_max_rounds(),
            r.spec_differ() == self.spec_differ(),
    {
        AlignedTracker { visual: enabled, ..self }
    }

    /// Write a report of both buffers at each round boundary.
    pub fn with_report_output(self, path: String) -> (r: AlignedTracker)
        ensures
            r.report_path() == Some(path@),
            r.spec_extractor() == self.spec_extractor(),
            r.signal() == self.signal(),
            r.spec_visual() == self.spec_visual(),
            r.spec_pretty() == self.spec_pretty(),
            r.spec_max_rounds() == self.spec_max_rounds(),
            r.spec_differ() == self.spec_differ(),
    {
        AlignedTracker { report_output: Some(path), ..self }
    }

    /// Turn the human-readable diff rendering on or off.
    pub fn with_pretty_diff(self, enabled: bool) -> (r: AlignedTracker)
        ensures
            r.spec_pretty() == enabled,
            r.spec_extractor() == self.spec_extractor(),
            r.signal() == self.signal(),
            r.spec_visual() == self.spec_visual(),
            r.report_path() == self.report_path(),
            r.spec_max_rounds() == self.spec_max_rounds(),
            r.spec_differ() == self.spec_differ(),
    {
        AlignedTracker { pretty_diff: enabled, ..self }
    }

    /// Stop successfully after this many completed rounds.
    pub fn with_max_rounds(self, max: usize) -> (r: AlignedTracker)
        ensures
            r.spec_max_rounds() == Some(max as int),
            r.spec_extractor() == self.spec_extractor(),
            r.signal() == self.signal(),
            r.spec_visual() == self.spec_visual(),
            r.report_path() == self.report_path(),
            r.spec_pretty() == self.spec_pretty(),
            r.spec_differ() == self.spec_differ(),
    {
        AlignedTracker { max_rounds: Some(max), ..self }
    }

    /// The active projection, by static priority.
    pub open spec fn spec_output_mode(&self) -> OutputMode {
        if self.spec_visual() {
            OutputMode::Visual
        } else if self.spec_pretty() {
            OutputMode::PrettyDiff
        } else {
            OutputMode::Logs
        }
    }

    /// The active projection: visual over pretty diffs over logs.
    pub fn output_mode(&self) -> (r: OutputMode)
        ensures
            r == self.spec_output_mode(),
    {
        if self.visual {
            OutputMode::Visual
        } else if self.pretty_diff {
            OutputMode::PrettyDiff
        } else {
            OutputMode::Logs
        }
    }

    /// Start a run: empty buffers, cleared flags, zero completed rounds.
    pub fn begin(self) -> (r: TrackerRun)
        ensures
            r.cfg() == self,
            r.left() == Seq::<StateModel>::empty(),
            r.right() == Seq::<StateModel>::empty(),
            !r.left_done(),
            !r.right_done(),
            r.rounds() == 0,
            !r.is_terminated(),
            r.capacity() == BUFFER_CAPACITY as nat,
            r.wf(),
    {
        TrackerRun {
            config: self,
            left_buffer: StateBuffer::new(BUFFER_CAPACITY),
            right_buffer: StateBuffer::new(BUFFER_CAPACITY),
            left_round_complete: false,
            right_round_complete: false,
            rounds_completed: 0,
            terminated: false,
        }
    }
}

/// Model of the continuous-alignment decision after a push.
#[verifier::ext_equal]
pub enum AlignmentModel {
    Aligned { key: Seq<char>, left: JNode, right: JNode },
    OutOfSync { left_key: Seq<char>, right_key: Seq<char> },
    LeftOnly { left_key: Seq<char> },
    RightOnly { right_key: Seq<char> },
    Idle,
}

/// The continuous-alignment decision after a push.
pub enum AlignmentOutcome {
    /// Both sides' latest keys are present and equal: the two latest
    /// payloads are to be diffed.
    Aligned { key: String, left: JsonVal, right: JsonVal },
    /// Both latest keys are present and differ: the sides are out of sync.
    OutOfSync { left_key: String, right_key: String },
    /// Only the left side has a key: waiting for the right.
    LeftOnly { left_key: String },
    /// Only the right side has a key: waiting for the left.
    RightOnly { right_key: String },
    /// Neither side has a key.
    Idle,
}

impl View for AlignmentOutcome {
    type V = AlignmentModel;

    open spec fn view(&self) -> AlignmentModel {
        match self {
            AlignmentOutcome::Aligned { key, left, right } => AlignmentModel::Aligned {
                key: key@,
                left: left@,
                right: right@,
            },
            AlignmentOutcome::OutOfSync { left_key, right_key } => AlignmentModel::OutOfSync {
                left_key: left_key@,
                right_key: right_key@,
            },
            AlignmentOutcome::LeftOnly { left_key } => AlignmentModel::LeftOnly {
                left_key: left_key@,
            },
            AlignmentOutcome::RightOnly { right_key } => AlignmentModel::RightOnly {
                right_key: right_key@,
            },
            AlignmentOutcome::Idle => AlignmentModel::Idle,
        }
    }
}

/// The latest buffered key of one side.
pub open spec fn latest_key(buf: Seq<StateModel>) -> Option<Seq<char>> {
    if buf.len() == 0 {
        None
    } else {
        buf.last().key
    }
}

/// The continuous-alignment decision over the two buffers.
pub open spec fn alignment_decision(left: Seq<StateModel>, right: Seq<StateModel>) -> AlignmentModel {
    match (latest_key(left), latest_key(right)) {
        (Some(lk), Some(rk)) => if lk == rk {
            AlignmentModel::Aligned { key: lk, left: left.last().data, right: right.last().data }
        } else {
            AlignmentModel::OutOfSync { left_key: lk, right_key: rk }
        },
        (Some(lk), None) => AlignmentModel::LeftOnly { left_key: lk },
        (None, Some(rk)) => AlignmentModel::RightOnly { right_key: rk },
        (None, None) => AlignmentModel::Idle,
    }
}

/// Everything a completed round reports.
pub struct RoundReport {
    /// 1-based number of the completed round.
    pub round_number: usize,
    /// The cross-comparison entries, in their observable order.
    pub entries: Vec<CrossEntry>,
    /// The left buffer at the round boundary, before clearing.
    pub left_states: Vec<State>,
    /// The right buffer at the round boundary, before clearing.
    pub right_states: Vec<State>,
}

/// What the engine decided for one event.
pub struct StepOutcome {
    /// The alignment key extracted from the event.
    pub key: Option<String>,
    /// The continuous-mode comparison outcome; `None` in round mode.
    pub alignment: Option<AlignmentOutcome>,
    /// The completed round's report, when this event completed a round.
    pub round: Option<RoundReport>,
    /// The run reached its round limit and must stop (a success, not an
    /// error).
    pub exit: bool,
}

/// The running state of an alignment engine: both buffers, both round
/// flags and the round counter, owned and mutated only through
/// [`TrackerRun::on_event`].
pub struct TrackerRun {
    config: AlignedTracker,
    left_buffer: StateBuffer,
    right_buffer: StateBuffer,
    left_round_complete: bool,
    right_round_complete: bool,
    rounds_completed: usize,
    terminated: bool,
}

/// What one continuous-mode step guarantees: the event is pushed, no
/// round bookkeeping moves, and the outcome carries the alignment decision
/// over the buffers after the push.
pub open spec fn continuous_step_post(
    pre: TrackerRun,
    post: TrackerRun,
    r: StepOutcome,
    side: Side,
    data: JNode,
    ts: int,
) -> bool {
    &&& post.left() == pre.left_after_push(side, data, ts)
    &&& post.right() == pre.right_after_push(side, data, ts)
    &&& !post.left_done()
    &&& !post.right_done()
    &&& post.rounds() == pre.rounds()
    &&& !post.is_terminated()
    &&& r.round is None
    &&& !r.exit
    &&& match r.alignment {
        Some(a) => a@ == alignment_decision(post.left(), post.right()),
        None => false,
    }
    &&& step_key_post(pre, r, data)
}

/// The outcome reports the key the run's extractor derived for the event.
pub open spec fn step_key_post(pre: TrackerRun, r: StepOutcome, data: JNode) -> bool {
    match r.key {
        Some(k) => pre.event_key(data) == Some(k@),
        None => pre.event_key(data) is None,
    }
}

/// What one round-mode step guarantees.  When the push leaves both
/// completion flags set, the round closes atomically in this step: the
/// report carries the cross-comparison and both snapshots of the buffers
/// after the push, the buffers come out cleared, the flags reset, the
/// counter moved up by one, and `exit` says whether the round limit was
/// reached.  Otherwise only the push and the event's own flag happen.
pub open spec fn round_step_post(
    pre: TrackerRun,
    post: TrackerRun,
    r: StepOutcome,
    side: Side,
    data: JNode,
    ts: int,
) -> bool {
    &&& r.alignment is None
    &&& step_key_post(pre, r, data)
    &&& if pre.round_completes(side, data) {
        &&& post.left() == Seq::<StateModel>::empty()
        &&& post.right() == Seq::<StateModel>::empty()
        &&& !post.left_done()
        &&& !post.right_done()
        &&& post.rounds() == pre.rounds() + 1
        &&& match r.round {
            Some(rep) => {
                &&& rep.round_number as int == pre.rounds() + 1
                &&& entries_view(rep.entries@) == cross_comparison(
                    pre.left_after_push(side, data, ts),
                    pre.right_after_push(side, data, ts),
                )
                &&& states_view(rep.left_states@) == pre.left_after_push(side, data, ts)
                &&& states_view(rep.right_states@) == pre.right_after_push(side, data, ts)
            },
            None => false,
        }
        &&& r.exit == (match pre.cfg().spec_max_rounds() {
            Some(m) => pre.rounds() + 1 >= m,
            None => false,
        })
        &&& post.is_terminated() == r.exit
    } else {
        &&& post.left() == pre.left_after_push(side, data, ts)
        &&& post.right() == pre.right_after_push(side, data, ts)
        &&& post.left_done() == pre.left_done_after(side, data)
        &&& post.right_done() == pre.right_done_after(side, data)
        &&& post.rounds() == pre.rounds()
        &&& !post.is_terminated()
        &&& r.round is None
        &&& !r.exit
    }
}

/// Cancellation safety: a step taken while the right side has not yet
/// completed (and whose own event does not complete it) reports no round.
/// External cancellation only ever stops the loop between steps, so with
/// one flag set and the other clear no round-complete report can be
/// emitted — the run just ends.  The mirrored statement holds for the left
/// side.
pub proof fn lemma_no_partial_round(
    pre: TrackerRun,
    post: TrackerRun,
    r: StepOutcome,
    side: Side,
    data: JNode,
    ts: int,
)
    requires
        round_step_post(pre, post, r, side, data, ts),
        !pre.right_done_after(side, data) || !pre.left_done_after(side, data),
    ensures
        r.round is None,
{
}

/// Both completion flags are never left set after a step: the
/// check-and-reset at a round boundary is atomic within the step that
/// completes the round.
pub proof fn lemma_flags_consumed(
    pre: TrackerRun,
    post: TrackerRun,
    r: StepOutcome,
    side: Side,
    data: JNode,
    ts: int,
)
    requires
        round_step_post(pre, post, r, side, data, ts),
        pre.cfg().signal() is Some,
    ensures
        !(post.left_done() && post.right_done()),
{
}

impl TrackerRun {
    /// The run's immutable configuration.
    pub closed spec fn cfg(&self) -> AlignedTracker {
        self.config
    }

    /// The left buffer's contents.
    pub closed spec fn left(&self) -> Seq<StateModel> {
        self.left_buffer@
    }

    /// The right buffer's contents.
    pub closed spec fn right(&self) -> Seq<StateModel> {
        self.right_buffer@
    }

    /// Whether the left side has seen the round-end signal this round.
    pub closed spec fn left_done(&self) -> bool {
        self.left_round_complete
    }

    /// Whether the right side has seen the round-end signal this round.
    pub closed spec fn right_done(&self) -> bool {
        self.right_round_complete
    }

    /// How many rounds have completed.
    pub closed spec fn rounds(&self) -> int {
        self.rounds_completed as int
    }

    /// Whether the run has ended.
    pub closed spec fn is_terminated(&self) -> bool {
        self.terminated
    }

    /// The buffers' shared capacity.
    pub closed spec fn capacity(&self) -> nat {
        self.left_buffer.cap()
    }

    /// The run's invariant: buffers within capacity, and round flags only
    /// ever set when a round-end signal is configured.
    pub closed spec fn wf(&self) -> bool {
        &&& self.left_buffer.wf()
        &&& self.right_buffer.wf()
        &&& self.right_buffer.cap() == self.left_buffer.cap()
        &&& (self.config.signal() is None ==> !self.left_round_complete
            && !self.right_round_complete)
    }

    /// The key the run's extractor derives for a payload.
    pub open spec fn event_key(&self, data: JNode) -> Option<Seq<char>> {
        self.cfg().spec_extractor().spec_extract(data)
    }

    /// The state an event becomes.
    pub open spec fn event_state(&self, data: JNode, ts: int) -> StateModel {
        StateModel { data, key: self.event_key(data), ts }
    }

    /// The left buffer after an event on `side` is pushed.
    pub open spec fn left_after_push(&self, side: Side, data: JNode, ts: int) -> Seq<StateModel> {
        if side == Side::Left {
            buffer_step(self.capacity(), self.left(), self.event_state(data, ts))
        } else {
            self.left()
        }
    }

    /// The right buffer after an event on `side` is pushed.
    pub open spec fn right_after_push(&self, side: Side, data: JNode, ts: int) -> Seq<StateModel> {
        if side == Side::Right {
            buffer_step(self.capacity(), self.right(), self.event_state(data, ts))
        } else {
            self.right()
        }
    }

    /// Whether this event's key is the configured round-end signal.
    pub open spec fn completes_side(&self, data: JNode) -> bool {
        match (self.cfg().signal(), self.event_key(data)) {
            (Some(sig), Some(k)) => k == sig,
            _ => false,
        }
    }

    /// The left completion flag after an event on `side`.
    pub open spec fn left_done_after(&self, side: Side, data: JNode) -> bool {
        self.left_done() || (side == Side::Left && self.completes_side(data))
    }

    /// The right completion flag after an event on `side`.
    pub open spec fn right_done_after(&self, side: Side, data: JNode) -> bool {
        self.right_done() || (side == Side::Right && self.completes_side(data))
    }

    /// Whether this event completes a round: both flags set, atomically
    /// checked within the same step that pushed the event.
    pub open spec fn round_completes(&self, side: Side, data: JNode) -> bool {
        &&& self.cfg().signal() is Some
        &&& self.left_done_after(side, data)
        &&& self.right_done_after(side, data)
    }

    /// The differ this run renders diffs with.
    pub fn differ(&self) -> (r: &JsonPatchDiffer)
        ensures
            r == self.cfg().spec_differ(),
    {
        &self.config.differ
    }

    /// The run's output projection.
    pub fn output_mode(&self) -> (r: OutputMode)
        ensures
            r == self.cfg().spec_output_mode(),
    {
        self.config.output_mode()
    }

    /// The continuous-alignment check over the two buffers' latest keys.
    pub fn check_alignment(&self) -> (r: AlignmentOutcome)
        ensures
            r@ == alignment_decision(self.left(), self.right()),
    {
        let lk = self.left_buffer.latest_alignment_key();
        let rk = self.right_buffer.latest_alignment_key();
        match (lk, rk) {
            (Some(l), Some(r_key)) => {
                if l.eq(&r_key) {
                    match (self.left_buffer.latest(), self.right_buffer.latest()) {
                        (Some(ls), Some(rs)) => AlignmentOutcome::Aligned {
                            key: l,
                            left: ls.data.duplicate(),
                            right: rs.data.duplicate(),
                        },
                        _ => {
                            proof {
                                assert(false);
                            }
                            AlignmentOutcome::Idle
                        }
                    }
                } else {
                    AlignmentOutcome::OutOfSync { left_key: l, right_key: r_key }
                }
            }
            (Some(l), None) => AlignmentOutcome::LeftOnly { left_key: l },
            (None, Some(r_key)) => AlignmentOutcome::RightOnly { right_key: r_key },
            (None, None) => AlignmentOutcome::Idle,
        }
    }

    /// Fold one event into the run and return its decisions.
    ///
    /// In continuous mode the outcome carries the alignment decision over
    /// the buffers after the push.  In round mode the event may set its
    /// side's completion flag, and when both flags are set the round is
    /// closed in the same step: the outcome carries the round's report
    /// (cross-comparison and both buffers' snapshots), the buffers are
    /// cleared, the flags reset, the counter moved up, and `exit` says
    /// whether the configured round limit was reached.  A round is reported
    /// exactly when both flags are set at this push — stopping the calls
    /// (external cancellation) can therefore never emit a partial round.
    /// After termination the run is inert.
    pub fn on_event(&mut self, side: Side, data: JsonVal, timestamp_ms: i64) -> (r: StepOutcome)
        requires
            old(self).wf(),
            old(self).rounds() < usize::MAX as int,
        ensures
            final(self).wf(),
            final(self).cfg() == old(self).cfg(),
            final(self).capacity() == old(self).capacity(),
            old(self).is_terminated() ==> *final(self) == *old(self) && r.key is None
                && r.alignment is None && r.round is None && r.exit,
            !old(self).is_terminated() && old(self).cfg().signal() is None
                ==> continuous_step_post(*old(self), *final(self), r, side, data@, timestamp_ms as int),
            !old(self).is_terminated() && old(self).cfg().signal() is Some
                ==> round_step_post(*old(self), *final(self), r, side, data@, timestamp_ms as int),
    {
        if self.terminated {
            return StepOutcome { key: None, alignment: None, round: None, exit: true };
        }
        let ghost dv = data@;
        let key = self.config.extractor.extract_key(&data);
        let completes = match (&self.config.round_end_signal, &key) {
            (Some(sig), Some(k)) => k.eq(sig),
            _ => false,
        };
        let reported_key = match &key {
            Some(k) => Some(k.clone()),
            None => None,
        };
        let state = State { data, alignment_key: key, timestamp_ms };
        proof {
            assert(state@ == old(self).event_state(dv, timestamp_ms as int));
        }
        match side {
            Side::Left => {
                self.left_buffer.push(state);
                if completes {
                    self.left_round_complete = true;
                }
            }
            Side::Right => {
                self.right_buffer.push(state);
                if completes {
                    self.right_round_complete = true;
                }
            }
        }
        if self.config.round_end_signal.is_some() {
            if self.left_round_complete && self.right_round_complete {
                let left_states = self.left_buffer.states();
                let right_states = self.right_buffer.states();
                proof {
                    assert(states_view(left_states@) =~= self.left_buffer@);
                    assert(states_view(right_states@) =~= self.right_buffer@);
                }
                let entries = cross_compare(&left_states, &right_states);
                self.rounds_completed = self.rounds_completed + 1;
                self.left_round_complete = false;
                self.right_round_complete = false;
                self.left_buffer.clear();
                self.right_buffer.clear();
                let exit = match self.config.max_rounds {
                    Some(m) => self.rounds_completed >= m,
                    None => false,
                };
                if exit {
                    self.terminated = true;
                }
                StepOutcome {
                    key: reported_key,
                    alignment: None,
                    round: Some(
                        RoundReport {
                            round_number: self.rounds_completed,
                            entries,
                            left_states,
                            right_states,
                        },
                    ),
                    exit,
                }
            } else {
                StepOutcome { key: reported_key, alignment: None, round: None, exit: false }
            }
        } else {
            let alignment = self.check_alignment();
            StepOutcome {
                key: reported_key,
                alignment: Some(alignment),
                round: None,
                exit: false,
            }
        }
    }

    /// A source channel closed: the run ends normally, with its state left
    /// as it was (any pending continuous-mode report can still be read).
    pub fn on_close(&mut self)
        requires
            old(self).wf(),
        ensures
            final(self).wf(),
            final(self).cfg() == old(self).cfg(),
            final(self).left() == old(self).left(),
            final(self).right() == old(self).right(),
            final(self).rounds() == old(self).rounds(),
            final(self).is_terminated(),
    {
        self.terminated = true;
    }

    /// How many rounds have completed so far.
    pub fn rounds_completed(&self) -> (r: usize)
        ensures
            r as int == self.rounds(),
    {
        self.rounds_completed
    }
}

} // verus!

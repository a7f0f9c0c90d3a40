//! The live two-column timeline rendering, and the full-screen round
//! comparison.
//!
//! The verified content here is the bookkeeping: each side's key history is
//! bounded (oldest entries evicted first), and rows pair the two histories
//! index by index.  What the rows look like on screen is presentation and
//! carries no contract; the printing goes through the console wrappers.

use std::collections::VecDeque;
use vstd::prelude::*;

use crate::console::print_line;
use crate::state::State;

verus! {

/// One history step: append a key, evict the oldest when over capacity.
pub open spec fn history_step(cap: nat, cur: Seq<Seq<char>>, k: Seq<char>) -> Seq<Seq<char>> {
    let appended = cur.push(k);
    if appended.len() <= cap {
        appended
    } else {
        appended.drop_first()
    }
}

/// Renders the two sides' recent keys side by side.
pub struct TimelineVisualizer {
    left_history: VecDeque<String>,
    right_history: VecDeque<String>,
    max_history: usize,
    width: usize,
}

impl TimelineVisualizer {
    /// The left side's recent keys, oldest first.
    pub closed spec fn left(&self) -> Seq<Seq<char>> {
        Seq::new(self.left_history@.len(), |i: int| self.left_history@[i]@)
    }

    /// The right side's recent keys, oldest first.
    pub closed spec fn right(&self) -> Seq<Seq<char>> {
        Seq::new(self.right_history@.len(), |i: int| self.right_history@[i]@)
    }

    /// How many keys each history retains.
    pub closed spec fn cap(&self) -> nat {
        self.max_history as nat
    }

    /// Neither history exceeds its capacity.
    pub open spec fn wf(&self) -> bool {
        self.left().len() <= self.cap() && self.right().len() <= self.cap()
    }

    /// An empty timeline retaining `max_history` keys per side, rendered
    /// `width` columns wide.
    pub fn new(max_history: usize, width: usize) -> (r: TimelineVisualizer)
        ensures
            r.left() == Seq::<Seq<char>>::empty(),
            r.right() == Seq::<Seq<char>>::empty(),
            r.cap() == max_history as nat,
            r.wf(),
    {
        let r = TimelineVisualizer {
            left_history: VecDeque::new(),
            right_history: VecDeque::new(),
            max_history,
            width,
        };
        proof {
            assert(r.left() =~= Seq::<Seq<char>>::empty());
            assert(r.right() =~= Seq::<Seq<char>>::empty());
        }
        r
    }

    /// Record a left-side key.
    pub fn add_left(&mut self, key: &str)
        requires
            old(self).wf(),
        ensures
            final(self).left() == history_step(old(self).cap(), old(self).left(), key@),
            final(self).right() == old(self).right(),
            final(self).cap() == old(self).cap(),
            final(self).wf(),
    {
        let ghost pre = self.left();
        self.left_history.push_back(key.to_owned());
        proof {
            assert(self.left() =~= pre.push(key@));
        }
        if self.left_history.len() > self.max_history {
            let ghost mid = self.left();
            self.left_history.pop_front();
            proof {
                assert(self.left() =~= mid.drop_first());
            }
        }
        proof {
            assert(final(self).right() =~= old(self).right());
        }
    }

    /// Record a right-side key.
    pub fn add_right(&mut self, key: &str)
        requires
            old(self).wf(),
        ensures
            final(self).right() == history_step(old(self).cap(), old(self).right(), key@),
            final(self).left() == old(self).left(),
            final(self).cap() == old(self).cap(),
            final(self).wf(),
    {
        let ghost pre = self.right();
        self.right_history.push_back(key.to_owned());
        proof {
            assert(self.right() =~= pre.push(key@));
        }
        if self.right_history.len() > self.max_history {
            let ghost mid = self.right();
            self.right_history.pop_front();
            proof {
                assert(self.right() =~= mid.drop_first());
            }
        }
        proof {
            assert(final(self).left() =~= old(self).left());
        }
    }

    /// Forget both histories (a round boundary).
    pub fn clear_history(&mut self)
        ensures
            final(self).left() == Seq::<Seq<char>>::empty(),
            final(self).right() == Seq::<Seq<char>>::empty(),
            final(self).cap() == old(self).cap(),
            final(self).wf(),
    {
        self.left_history.clear();
        self.right_history.clear();
        proof {
            assert(self.left() =~= Seq::<Seq<char>>::empty());
            assert(self.right() =~= Seq::<Seq<char>>::empty());
        }
    }

    /// A key truncated to at most 35 characters and padded to a fixed
    /// 40-character column.
    pub fn format_state_box(&self, state: &str) -> (r: String)
        ensures
            r@.len() == 40,
    {
        proof {
            reveal_strlit("...");
            reveal_strlit(" ");
        }
        let n = state.unicode_len();
        let mut out: String = if n > 35 {
            let mut t = state.substring_char(0, 32).to_owned();
            t.append("...");
            t
        } else {
            state.to_owned()
        };
        while out.unicode_len() < 40
            invariant
                out@.len() <= 40,
                " "@.len() == 1,
            decreases 40 - out@.len(),
        {
            out.append(" ");
        }
        out
    }

    /// Redraw the live view: header, the two key histories row by row with
    /// a match marker, and the current alignment status.
    pub fn render(&self)
        requires
            self.wf(),
    {
        self.print_header();
        self.print_timeline();
        self.print_footer();
    }

    fn print_rule(&self) {
        let mut line = String::new();
        let mut i: usize = 0;
        while i < self.width
            decreases self.width - i,
        {
            line.append("-");
            i = i + 1;
        }
        print_line(line.as_str());
    }

    fn print_header(&self) {
        print_line("");
        self.print_rule();
        print_line("STATE TRACKER  (Live View)");
        self.print_rule();
        print_line("");
    }

    fn print_timeline(&self)
        requires
            self.wf(),
    {
        let mut header = String::new();
        header.append("   # | ");
        header.append(self.format_state_box("LEFT STREAM").as_str());
        header.append(" | ");
        header.append(self.format_state_box("RIGHT STREAM").as_str());
        print_line(header.as_str());
        self.print_rule();
        let left_len = self.left_history.len();
        let right_len = self.right_history.len();
        let max_len = if left_len > right_len {
            left_len
        } else {
            right_len
        };
        let mut i: usize = 0;
        while i < max_len
            invariant
                left_len == self.left().len(),
                right_len == self.right().len(),
            decreases max_len - i,
        {
            let left_text = if i < left_len {
                self.format_state_box(self.left_history[i].as_str())
            } else {
                self.format_state_box("")
            };
            let right_text = if i < right_len {
                self.format_state_box(self.right_history[i].as_str())
            } else {
                self.format_state_box("")
            };
            let marker = if i < left_len && i < right_len {
                if self.left_history[i].eq(&self.right_history[i]) {
                    "ok"
                } else {
                    " x"
                }
            } else {
                "  "
            };
            let mut row = String::new();
            row.append("  ");
            row.append(marker);
            row.append(" | ");
            row.append(left_text.as_str());
            row.append(" | ");
            row.append(right_text.as_str());
            print_line(row.as_str());
            i = i + 1;
        }
        if left_len > 0 && right_len > 0 {
            print_line("");
            self.print_rule();
            let l = &self.left_history[left_len - 1];
            let r_key = &self.right_history[right_len - 1];
            let mut status = String::new();
            if l.eq(r_key) {
                status.append("ALIGNED: ");
                status.append(l.as_str());
            } else {
                status.append("WAITING: left=");
                status.append(l.as_str());
                status.append(" != right=");
                status.append(r_key.as_str());
            }
            print_line(status.as_str());
        }
    }

    fn print_footer(&self) {
        print_line("");
        self.print_rule();
        print_line("Press Ctrl-C to exit");
    }

    /// Draw the full-screen comparison of a completed round: both buffers
    /// row by row with a match / mismatch / missing marker per row.
    pub fn render_round_comparison(&self, left_states: &Vec<State>, right_states: &Vec<State>) {
        print_line("");
        self.print_rule();
        print_line("ROUND COMPARISON");
        self.print_rule();
        print_line("");
        let mut header = String::new();
        header.append("   # | ");
        header.append(self.format_state_box("LEFT").as_str());
        header.append(" | ");
        header.append(self.format_state_box("RIGHT").as_str());
        header.append(" | STATUS");
        print_line(header.as_str());
        self.print_rule();
        let max_len = if left_states.len() > right_states.len() {
            left_states.len()
        } else {
            right_states.len()
        };
        let mut i: usize = 0;
        while i < max_len
            invariant
                max_len <= left_states@.len() || max_len <= right_states@.len(),
            decreases max_len - i,
        {
            let left_key: Option<&String> = if i < left_states.len() {
                match &left_states[i].alignment_key {
                    Some(k) => Some(k),
                    None => None,
                }
            } else {
                None
            };
            let right_key: Option<&String> = if i < right_states.len() {
                match &right_states[i].alignment_key {
                    Some(k) => Some(k),
                    None => None,
                }
            } else {
                None
            };
            let status = match (&left_key, &right_key) {
                (Some(l), Some(r_key)) => {
                    if l.eq(r_key) {
                        "ok"
                    } else {
                        "x MISMATCH"
                    }
                }
                (Some(_), None) => "<- MISSING",
                (None, Some(_)) => "MISSING ->",
                (None, None) => "",
            };
            let left_text = match left_key {
                Some(k) => self.format_state_box(k.as_str()),
                None => self.format_state_box("-"),
            };
            let right_text = match right_key {
                Some(k) => self.format_state_box(k.as_str()),
                None => self.format_state_box("-"),
            };
            let mut row = String::new();
            row.append("     | ");
            row.append(left_text.as_str());
            row.append(" | ");
            row.append(right_text.as_str());
            row.append(" | ");
            row.append(status);
            print_line(row.as_str());
            i = i + 1;
        }
        print_line("");
        self.print_rule();
        let mut totals = String::new();
        totals.append("Total: ");
        totals.append(crate::differ::usize_to_string(left_states.len()).as_str());
        totals.append(" left, ");
        totals.append(crate::differ::usize_to_string(right_states.len()).as_str());
        totals.append(" right");
        print_line(totals.as_str());
    }
}

} // verus!

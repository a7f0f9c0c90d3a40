//! Cross-comparison: exhaustive key-based matching of the two sides'
//! buffered states at a round boundary.
//!
//! For every keyed left state, in buffer order, the earliest right state
//! with the same key that no earlier left state has claimed is its match;
//! a keyed left state without one is reported missing on the right.  Then,
//! in buffer order, every keyed right state left unclaimed is reported as
//! present only on the right.  The report order is part of the observable
//! contract.

use vstd::prelude::*;

use crate::state::{State, StateModel};

verus! {

/// One line of a cross-comparison report.
pub enum CrossEntry {
    /// The left state at `left_index` matches the right state at
    /// `right_index` on `key`: their payloads are to be diffed.
    Matched { key: String, left_index: usize, right_index: usize },
    /// The keyed left state at `left_index` has no match on the right.
    MissingOnRight { key: String, left_index: usize },
    /// The keyed right state at `right_index` was claimed by no left state.
    OnlyOnRight { key: String, right_index: usize },
}

/// Model of a [`CrossEntry`].
#[verifier::ext_equal]
pub enum CrossEntryModel {
    Matched { key: Seq<char>, left_index: int, right_index: int },
    MissingOnRight { key: Seq<char>, left_index: int },
    OnlyOnRight { key: Seq<char>, right_index: int },
}

impl View for CrossEntry {
    type V = CrossEntryModel;

    open spec fn view(&self) -> CrossEntryModel {
        match self {
            CrossEntry::Matched { key, left_index, right_index } => CrossEntryModel::Matched {
                key: key@,
                left_index: *left_index as int,
                right_index: *right_index as int,
            },
            CrossEntry::MissingOnRight { key, left_index } => CrossEntryModel::MissingOnRight {
                key: key@,
                left_index: *left_index as int,
            },
            CrossEntry::OnlyOnRight { key, right_index } => CrossEntryModel::OnlyOnRight {
                key: key@,
                right_index: *right_index as int,
            },
        }
    }
}

/// The models of a report's entries, in order.
pub open spec fn entries_view(s: Seq<CrossEntry>) -> Seq<CrossEntryModel> {
    Seq::new(s.len(), |i: int| s[i]@)
}

/// The earliest right index at or after `from` holding `key` and not yet
/// claimed.
pub open spec fn find_unmatched(
    right: Seq<StateModel>,
    claimed: Seq<bool>,
    key: Seq<char>,
    from: int,
) -> Option<int>
    decreases right.len() - from,
{
    if from < 0 || from >= right.len() {
        None
    } else if right[from].key == Some(key) && !claimed[from] {
        Some(from)
    } else {
        find_unmatched(right, claimed, key, from + 1)
    }
}

/// The left pass from index `i` on: the report entries it produces and the
/// final claim map.
pub open spec fn cross_left(
    left: Seq<StateModel>,
    right: Seq<StateModel>,
    claimed: Seq<bool>,
    i: int,
) -> (Seq<CrossEntryModel>, Seq<bool>)
    decreases left.len() - i,
{
    if i < 0 || i >= left.len() {
        (Seq::empty(), claimed)
    } else {
        match left[i].key {
            None => cross_left(left, right, claimed, i + 1),
            Some(k) => match find_unmatched(right, claimed, k, 0) {
                Some(j) => {
                    let rest = cross_left(left, right, claimed.update(j, true), i + 1);
                    (
                        seq![
                            CrossEntryModel::Matched { key: k, left_index: i, right_index: j },
                        ] + rest.0,
                        rest.1,
                    )
                }
                None => {
                    let rest = cross_left(left, right, claimed, i + 1);
                    (
                        seq![CrossEntryModel::MissingOnRight { key: k, left_index: i }] + rest.0,
                        rest.1,
                    )
                }
            },
        }
    }
}

/// The right pass from index `j` on: keyed right states never claimed, in
/// order.
pub open spec fn cross_right(right: Seq<StateModel>, claimed: Seq<bool>, j: int) -> Seq<
    CrossEntryModel,
>
    decreases right.len() - j,
{
    if j < 0 || j >= right.len() {
        Seq::empty()
    } else {
        let rest = cross_right(right, claimed, j + 1);
        match right[j].key {
            Some(k) => if !claimed[j] {
                seq![CrossEntryModel::OnlyOnRight { key: k, right_index: j }] + rest
            } else {
                rest
            },
            None => rest,
        }
    }
}

/// How many of the left states from index `i` on carry a key.
pub open spec fn keyed_count(left: Seq<StateModel>, i: int) -> int
    decreases left.len() - i,
{
    if i < 0 || i >= left.len() {
        0
    } else {
        (if left[i].key is Some {
            1int
        } else {
            0int
        }) + keyed_count(left, i + 1)
    }
}

/// The left-buffer index an entry of the left pass speaks about.
pub open spec fn entry_left_index(e: CrossEntryModel) -> int {
    match e {
        CrossEntryModel::Matched { left_index, .. } => left_index,
        CrossEntryModel::MissingOnRight { left_index, .. } => left_index,
        CrossEntryModel::OnlyOnRight { .. } => -1,
    }
}

/// The left pass reports every keyed left state exactly once — matched or
/// missing on the right — and in left-buffer order: one entry per keyed
/// state, each naming its own index, with indexes strictly increasing.
pub proof fn lemma_cross_left_one_entry_per_keyed_state(
    left: Seq<StateModel>,
    right: Seq<StateModel>,
    claimed: Seq<bool>,
    i: int,
)
    ensures
        cross_left(left, right, claimed, i).0.len() == keyed_count(left, i),
        forall|k: int|
            0 <= k < cross_left(left, right, claimed, i).0.len() ==> {
                let e = #[trigger] cross_left(left, right, claimed, i).0[k];
                &&& i <= entry_left_index(e) < left.len()
                &&& left[entry_left_index(e)].key is Some
                &&& !(e is OnlyOnRight)
            },
        forall|k1: int, k2: int|
            0 <= k1 < k2 < cross_left(left, right, claimed, i).0.len()
                ==> entry_left_index(#[trigger] cross_left(left, right, claimed, i).0[k1])
                < entry_left_index(#[trigger] cross_left(left, right, claimed, i).0[k2]),
    decreases left.len() - i,
{
    if 0 <= i < left.len() {
        match left[i].key {
            None => {
                lemma_cross_left_one_entry_per_keyed_state(left, right, claimed, i + 1);
            }
            Some(k) => {
                match find_unmatched(right, claimed, k, 0) {
                    Some(j) => {
                        lemma_cross_left_one_entry_per_keyed_state(
                            left,
                            right,
                            claimed.update(j, true),
                            i + 1,
                        );
                        let rest = cross_left(left, right, claimed.update(j, true), i + 1).0;
                        let whole = cross_left(left, right, claimed, i).0;
                        assert(forall|t: int| 0 <= t < rest.len() ==> whole[t + 1] == rest[t]);
                    }
                    None => {
                        lemma_cross_left_one_entry_per_keyed_state(left, right, claimed, i + 1);
                        let rest = cross_left(left, right, claimed, i + 1).0;
                        let whole = cross_left(left, right, claimed, i).0;
                        assert(forall|t: int| 0 <= t < rest.len() ==> whole[t + 1] == rest[t]);
                    }
                }
            }
        }
    }
}

/// The whole cross-comparison report of a completed round.
pub open spec fn cross_comparison(left: Seq<StateModel>, right: Seq<StateModel>) -> Seq<
    CrossEntryModel,
> {
    let pass = cross_left(left, right, Seq::new(right.len(), |i: int| false), 0);
    pass.0 + cross_right(right, pass.1, 0)
}

/// The models of buffered states, in order.
pub open spec fn states_view(s: Seq<State>) -> Seq<StateModel> {
    Seq::new(s.len(), |i: int| s[i]@)
}

/// Compute the cross-comparison report of a completed round.
pub fn cross_compare(left: &Vec<State>, right: &Vec<State>) -> (r: Vec<CrossEntry>)
    ensures
        entries_view(r@) == cross_comparison(states_view(left@), states_view(right@)),
{
    let ghost lv = states_view(left@);
    let ghost rv = states_view(right@);
    let mut claimed: Vec<bool> = Vec::new();
    let mut j0: usize = 0;
    while j0 < right.len()
        invariant
            claimed@.len() == j0,
            0 <= j0 <= right@.len(),
            forall|k: int| 0 <= k < j0 ==> !(#[trigger] claimed@[k]),
        decreases right.len() - j0,
    {
        claimed.push(false);
        j0 = j0 + 1;
    }
    proof {
        assert(claimed@ =~= Seq::new(rv.len(), |i: int| false));
    }
    let ghost full = cross_left(lv, rv, claimed@, 0);
    let mut out: Vec<CrossEntry> = Vec::new();
    let mut i: usize = 0;
    while i < left.len()
        invariant
            0 <= i <= left@.len(),
            lv == states_view(left@),
            rv == states_view(right@),
            lv.len() == left@.len(),
            rv.len() == right@.len(),
            claimed@.len() == rv.len(),
            forall|k: int| 0 <= k < lv.len() ==> lv[k] == left@[k]@,
            forall|k: int| 0 <= k < rv.len() ==> rv[k] == right@[k]@,
            full.0 =~= entries_view(out@) + cross_left(lv, rv, claimed@, i as int).0,
            full.1 =~= cross_left(lv, rv, claimed@, i as int).1,
        decreases left.len() - i,
    {
        match &left[i].alignment_key {
            Some(k) => {
                // Earliest unclaimed right state with this key.
                let mut j: usize = 0;
                let mut found: Option<usize> = None;
                loop
                    invariant_except_break
                        rv.len() == right@.len(),
                        claimed@.len() == rv.len(),
                        forall|t: int| 0 <= t < rv.len() ==> rv[t] == right@[t]@,
                        0 <= j <= rv.len(),
                        found is None,
                        find_unmatched(rv, claimed@, k@, 0) == find_unmatched(
                            rv,
                            claimed@,
                            k@,
                            j as int,
                        ),
                    ensures
                        match found {
                            Some(jj) => find_unmatched(rv, claimed@, k@, 0) == Some(jj as int)
                                && jj < rv.len(),
                            None => find_unmatched(rv, claimed@, k@, 0) is None,
                        },
                    decreases rv.len() - j,
                {
                    if j >= right.len() {
                        break;
                    }
                    if !claimed[j] {
                        let hit = match &right[j].alignment_key {
                            Some(rk) => rk.eq(k),
                            None => false,
                        };
                        if hit {
                            found = Some(j);
                            break;
                        }
                    }
                    j = j + 1;
                }
                match found {
                    Some(jj) => {
                        proof {
                            assert(find_unmatched(rv, claimed@, k@, 0) == Some(jj as int));
                        }
                        let entry = CrossEntry::Matched {
                            key: k.clone(),
                            left_index: i,
                            right_index: jj,
                        };
                        let ghost pre_claimed = claimed@;
                        claimed.set(jj, true);
                        proof {
                            let step = cross_left(lv, rv, pre_claimed, i as int);
                            assert(step.0 =~= seq![entry@] + cross_left(
                                lv,
                                rv,
                                claimed@,
                                i as int + 1,
                            ).0);
                            assert(entries_view(out@.push(entry)) =~= entries_view(out@).push(
                                entry@,
                            ));
                        }
                        out.push(entry);
                    }
                    None => {
                        proof {
                            assert(find_unmatched(rv, claimed@, k@, 0) is None);
                        }
                        let entry = CrossEntry::MissingOnRight { key: k.clone(), left_index: i };
                        proof {
                            let step = cross_left(lv, rv, claimed@, i as int);
                            assert(step.0 =~= seq![entry@] + cross_left(
                                lv,
                                rv,
                                claimed@,
                                i as int + 1,
                            ).0);
                            assert(entries_view(out@.push(entry)) =~= entries_view(out@).push(
                                entry@,
                            ));
                        }
                        out.push(entry);
                    }
                }
            }
            None => {
                proof {
                    assert(lv[i as int].key is None);
                }
            }
        }
        i = i + 1;
    }
    proof {
        assert(cross_left(lv, rv, claimed@, lv.len() as int).0 =~= Seq::<CrossEntryModel>::empty());
        assert(full.0 =~= entries_view(out@));
        assert(full.1 =~= claimed@);
    }
    // Right pass: keyed right states never claimed.
    let mut j: usize = 0;
    while j < right.len()
        invariant
            0 <= j <= rv.len(),
            rv.len() == right@.len(),
            claimed@.len() == rv.len(),
            forall|t: int| 0 <= t < rv.len() ==> rv[t] == right@[t]@,
            full.0 + cross_right(rv, claimed@, 0) =~= entries_view(out@) + cross_right(
                rv,
                claimed@,
                j as int,
            ),
        decreases right.len() - j,
    {
        let mut emitted: Option<CrossEntry> = None;
        if !claimed[j] {
            match &right[j].alignment_key {
                Some(k) => {
                    emitted = Some(CrossEntry::OnlyOnRight { key: k.clone(), right_index: j });
                }
                None => {}
            }
        }
        match emitted {
            Some(entry) => {
                proof {
                    assert(cross_right(rv, claimed@, j as int) =~= seq![entry@] + cross_right(
                        rv,
                        claimed@,
                        j as int + 1,
                    ));
                    assert(entries_view(out@.push(entry)) =~= entries_view(out@).push(entry@));
                }
                out.push(entry);
            }
            None => {
                proof {
                    assert(cross_right(rv, claimed@, j as int) =~= cross_right(
                        rv,
                        claimed@,
                        j as int + 1,
                    ));
                }
            }
        }
        j = j + 1;
    }
    proof {
        assert(cross_right(rv, claimed@, rv.len() as int) =~= Seq::<CrossEntryModel>::empty());
        assert(entries_view(out@) =~= cross_comparison(lv, rv));
    }
    out
}

} // verus!

//! The diff/stat aggregator: folds the line events of a tree-to-tree diff
//! into per-file added/removed counts, one entry per path.

use crate::policy::{event_path, spec_event_path};
use crate::types::{DiffLineEvent, FileChange};
use vstd::prelude::*;

verus! {

/// How many lines with marker `m` are charged to `path` in `events`.
pub open spec fn spec_marker_count(events: Seq<DiffLineEvent>, path: Seq<char>, m: char) -> nat
    decreases events.len(),
{
    if events.len() == 0 {
        0
    } else {
        spec_marker_count(events.drop_last(), path, m) + (if spec_event_path(events.last()) == path
            && events.last().origin == m {
            1nat
        } else {
            0nat
        })
    }
}

/// Lines added to `path`, moving from the old tree to the new one.
pub open spec fn spec_added(events: Seq<DiffLineEvent>, path: Seq<char>) -> nat {
    spec_marker_count(events, path, '+')
}

/// Lines removed from `path`, moving from the old tree to the new one.
pub open spec fn spec_removed(events: Seq<DiffLineEvent>, path: Seq<char>) -> nat {
    spec_marker_count(events, path, '-')
}

/// Some line of the diff is charged to `path`.
pub open spec fn spec_touches(events: Seq<DiffLineEvent>, path: Seq<char>) -> bool {
    exists|i: int| 0 <= i < events.len() && spec_event_path(events[i]) == path
}

/// `path` has an aggregate entry in `s`.
pub open spec fn spec_has_path(s: Seq<FileChange>, path: Seq<char>) -> bool {
    exists|j: int| 0 <= j < s.len() && s[j].path@ == path
}

pub proof fn lemma_marker_count_bound(events: Seq<DiffLineEvent>, path: Seq<char>, m: char)
    ensures
        spec_marker_count(events, path, m) <= events.len(),
    decreases events.len(),
{
    if events.len() > 0 {
        lemma_marker_count_bound(events.drop_last(), path, m);
    }
}

pub proof fn lemma_untouched_count_zero(events: Seq<DiffLineEvent>, path: Seq<char>, m: char)
    requires
        !spec_touches(events, path),
    ensures
        spec_marker_count(events, path, m) == 0,
    decreases events.len(),
{
    if events.len() > 0 {
        assert(!spec_touches(events.drop_last(), path)) by {
            assert(forall|i: int|
                0 <= i < events.len() - 1 ==> events.drop_last()[i] == events[i]);
        }
        lemma_untouched_count_zero(events.drop_last(), path, m);
        assert(spec_event_path(events.last()) != path) by {
            assert(events[events.len() - 1] == events.last());
        }
    }
}

/// A line's marker flipped: additions become removals and removals
/// additions; context and metadata markers stay what they are.
pub open spec fn spec_flip_origin(c: char) -> char {
    if c == '+' {
        '-'
    } else if c == '-' {
        '+'
    } else {
        c
    }
}

pub open spec fn spec_flip_event(e: DiffLineEvent) -> DiffLineEvent {
    DiffLineEvent { new_path: e.new_path, old_path: e.old_path, origin: spec_flip_origin(e.origin) }
}

/// Law: the aggregate is antisymmetric in magnitude but not sign. A diff
/// whose every line marker is flipped — which is how the same pair of trees
/// reads when compared in the opposite direction — charges each path exactly
/// the added count that the original charged as removed, and the other way
/// round.
pub proof fn lemma_flip_swaps_counts(events: Seq<DiffLineEvent>, path: Seq<char>)
    ensures
        spec_added(events.map_values(|e: DiffLineEvent| spec_flip_event(e)), path)
            == spec_removed(events, path),
        spec_removed(events.map_values(|e: DiffLineEvent| spec_flip_event(e)), path)
            == spec_added(events, path),
    decreases events.len(),
{
    let flipped = events.map_values(|e: DiffLineEvent| spec_flip_event(e));
    if events.len() == 0 {
        assert(flipped =~= Seq::<DiffLineEvent>::empty());
    } else {
        assert(flipped.drop_last() =~= events.drop_last().map_values(
            |e: DiffLineEvent| spec_flip_event(e),
        ));
        assert(flipped.last() == spec_flip_event(events.last()));
        lemma_flip_swaps_counts(events.drop_last(), path);
    }
}

/// The index of the aggregate entry for `p`, if one exists.
pub fn find_path(out: &Vec<FileChange>, p: &String) -> (r: Option<usize>)
    ensures
        match r {
            Option::Some(idx) => idx < out@.len() && out@[idx as int].path@ == p@,
            Option::None => forall|j: int| 0 <= j < out@.len() ==> out@[j].path@ != p@,
        },
{
    let mut i: usize = 0;
    while i < out.len()
        invariant
            i <= out@.len(),
            forall|j: int| 0 <= j < i ==> out@[j].path@ != p@,
        decreases out@.len() - i,
    {
        if out[i].path == *p {
            return Option::Some(i);
        }
        i = i + 1;
    }
    Option::None
}

/// Folds the diff's line events into one aggregate entry per path: every
/// path some line is charged to gets exactly one entry, whose counts are the
/// number of `'+'` and `'-'` lines charged to it; all other markers are
/// ignored, though they still create the path's entry.
pub fn aggregate_changes(events: &Vec<DiffLineEvent>) -> (r: Vec<FileChange>)
    ensures
        forall|a: int, b: int| 0 <= a < b < r@.len() ==> r@[a].path@ != r@[b].path@,
        forall|j: int|
            0 <= j < r@.len() ==> (#[trigger] r@[j]).lines_added == spec_added(events@, r@[j].path@)
                && r@[j].lines_removed == spec_removed(events@, r@[j].path@),
        forall|j: int| 0 <= j < r@.len() ==> spec_touches(events@, (#[trigger] r@[j]).path@),
        forall|i: int|
            0 <= i < events@.len() ==> spec_has_path(r@, spec_event_path(#[trigger] events@[i])),
{
    let mut out: Vec<FileChange> = Vec::new();
    let mut k: usize = 0;
    while k < events.len()
        invariant
            k <= events@.len(),
            forall|a: int, b: int| 0 <= a < b < out@.len() ==> out@[a].path@ != out@[b].path@,
            forall|j: int|
                0 <= j < out@.len() ==> (#[trigger] out@[j]).lines_added == spec_added(
                    events@.take(k as int),
                    out@[j].path@,
                ) && out@[j].lines_removed == spec_removed(events@.take(k as int), out@[j].path@),
            forall|j: int|
                0 <= j < out@.len() ==> spec_touches(events@.take(k as int), (#[trigger] out@[j]).path@),
            forall|i: int|
                0 <= i < k ==> spec_has_path(out@, spec_event_path(#[trigger] events@[i])),
        decreases events@.len() - k,
    {
        let p = event_path(&events[k]);
        let origin = events[k].origin;
        proof {
            assert(events@.take(k + 1).drop_last() =~= events@.take(k as int));
            assert(events@.take(k + 1).last() == events@[k as int]);
        }
        match find_path(&out, &p) {
            Option::Some(idx) => {
                proof {
                    lemma_marker_count_bound(events@.take(k as int), p@, '+');
                    lemma_marker_count_bound(events@.take(k as int), p@, '-');
                }
                let ghost out0 = out@;
                if origin == '+' {
                    let e = &mut out[idx];
                    e.lines_added = e.lines_added + 1;
                } else if origin == '-' {
                    let e = &mut out[idx];
                    e.lines_removed = e.lines_removed + 1;
                }
                proof {
                    assert(out@.len() == out0.len());
                    assert(forall|j: int|
                        0 <= j < out@.len() ==> (#[trigger] out@[j]).path@ == out0[j].path@);
                    assert forall|i: int|
                        0 <= i < k + 1 implies spec_has_path(
                        out@,
                        spec_event_path(#[trigger] events@[i]),
                    ) by {
                        if i < k {
                            let j = choose|j: int|
                                0 <= j < out0.len() && out0[j].path@ == spec_event_path(
                                    events@[i],
                                );
                            assert(out@[j].path@ == spec_event_path(events@[i]));
                        } else {
                            assert(out@[idx as int].path@ == spec_event_path(events@[i]));
                        }
                    }
                }
            },
            Option::None => {
                proof {
                    assert(!spec_touches(events@.take(k as int), p@));
                    lemma_untouched_count_zero(events@.take(k as int), p@, '+');
                    lemma_untouched_count_zero(events@.take(k as int), p@, '-');
                }
                let added: usize = if origin == '+' {
                    1
                } else {
                    0
                };
                let removed: usize = if origin == '-' {
                    1
                } else {
                    0
                };
                let ghost out0 = out@;
                out.push(FileChange { path: p, lines_added: added, lines_removed: removed });
                proof {
                    assert(out@.len() == out0.len() + 1);
                    assert(forall|j: int| 0 <= j < out0.len() ==> out@[j] == out0[j]);
                    assert(out@[out0.len() as int].path@ == p@);
                    assert forall|i: int|
                        0 <= i < k + 1 implies spec_has_path(
                        out@,
                        spec_event_path(#[trigger] events@[i]),
                    ) by {
                        if i < k {
                            let j = choose|j: int|
                                0 <= j < out0.len() && out0[j].path@ == spec_event_path(
                                    events@[i],
                                );
                            assert(out@[j].path@ == spec_event_path(events@[i]));
                        } else {
                            assert(out@[out0.len() as int].path@ == spec_event_path(events@[i]));
                        }
                    }
                }
            },
        }
        k = k + 1;
    }
    proof {
        assert(events@.take(events@.len() as int) =~= events@);
    }
    out
}

} // verus!

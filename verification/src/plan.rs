//! Numbering of the registered migrations and the choice of those still to run.

use vstd::prelude::*;

verus! {

/// The version recorded on a database to which no migration has been applied.
pub const SENTINEL: i64 = -1;

/// The registered ordinals are `0, 1, 2, ...` in this order.
pub open spec fn contiguous(ordinals: Seq<i64>) -> bool {
    forall|i: int| 0 <= i < ordinals.len() ==> ordinals[i] == i
}

/// `position` is the first place whose ordinal is not its own index.
pub open spec fn is_first_gap(ordinals: Seq<i64>, position: int) -> bool {
    &&& 0 <= position < ordinals.len()
    &&& ordinals[position] != position
    &&& forall|i: int| 0 <= i < position ==> ordinals[i] == i
}

/// The place of the first misplaced ordinal of a sequence that has one.
pub open spec fn spec_first_gap(ordinals: Seq<i64>) -> int {
    choose|position: int| is_first_gap(ordinals, position)
}

/// A sequence has at most one first misplaced ordinal.
pub proof fn lemma_first_gap_unique(ordinals: Seq<i64>, position: int)
    requires
        is_first_gap(ordinals, position),
    ensures
        spec_first_gap(ordinals) == position,
        !contiguous(ordinals),
{
    let chosen = spec_first_gap(ordinals);
    assert(is_first_gap(ordinals, chosen));
    if chosen < position {
        assert(ordinals[chosen] == chosen);
    } else if position < chosen {
        assert(ordinals[position] == position);
    }
}

/// The ordinal that is registered last, the sentinel when none is registered.
/// In a well-numbered sequence it is the highest.
pub open spec fn spec_top(ordinals: Seq<i64>) -> i64 {
    if ordinals.len() == 0 {
        SENTINEL
    } else {
        ordinals.last()
    }
}

/// The ordinal with which a run resumes on a database at `version`.
pub open spec fn spec_resume(version: i64) -> int {
    if version < SENTINEL {
        0
    } else {
        version + 1
    }
}

/// Something is left to apply on a database at `version` when the highest
/// registered ordinal is `top`.
pub open spec fn spec_pending(version: i64, top: i64) -> bool {
    version < top && 0 <= top
}

/// Finds the first registered ordinal that is out of place.
pub fn first_gap(ordinals: &Vec<i64>) -> (r: Option<usize>)
    ensures
        r is None <==> contiguous(ordinals@),
        r matches Some(position) ==> is_first_gap(ordinals@, position as int),
{
    let mut i: usize = 0;
    while i < ordinals.len()
        invariant
            i <= ordinals.len(),
            forall|j: int| 0 <= j < i ==> ordinals[j] == j,
        decreases ordinals.len() - i,
    {
        let declared: i64 = ordinals[i];
        if declared < 0 || declared as u64 != i as u64 {
            return Some(i);
        }
        i += 1;
    }
    None
}

/// The ordinal that is registered last, the sentinel when none is registered.
pub fn top_of(ordinals: &Vec<i64>) -> (top: i64)
    ensures
        top == spec_top(ordinals@),
        contiguous(ordinals@) ==> top == ordinals@.len() - 1,
{
    let count: usize = ordinals.len();
    if count == 0 {
        SENTINEL
    } else {
        ordinals[count - 1]
    }
}

/// The ordinal of the first migration to apply on a database at `version`, if
/// any is left below or at `top`.
pub fn resume(version: i64, top: i64) -> (r: Option<i64>)
    ensures
        r == if spec_pending(version, top) {
            Some(spec_resume(version) as i64)
        } else {
            None
        },
        r matches Some(next) ==> next == spec_resume(version) && version < next <= top && 0 <= next,
{
    if version < top && 0 <= top {
        if version < SENTINEL {
            Some(0)
        } else {
            Some(version + 1)
        }
    } else {
        None
    }
}

/// The migrations that a run applies are those whose ordinal is greater than
/// the recorded version: `resume` names the least of them.
pub proof fn law_pending_are_above_version(version: i64, top: i64, ordinal: int)
    requires
        0 <= ordinal <= top,
    ensures
        ordinal > version <==> (spec_pending(version, top) && ordinal >= spec_resume(version)),
{
}

} // verus!

//! The choice among forecast records: the one whose time lies nearest to a
//! requested instant, and of several equally near ones the first.

use vstd::prelude::*;
use crate::time::{distance, seconds_apart};

verus! {

/// Whether position `k` of `stamps` is the one to choose for `target`: no
/// stamp lies nearer to the target, and every earlier one lies farther.
pub open spec fn is_nearest(stamps: Seq<i64>, target: i64, k: int) -> bool {
    &&& 0 <= k < stamps.len()
    &&& forall|j: int|
        0 <= j < stamps.len() ==> seconds_apart(stamps[k], target) <= seconds_apart(
            #[trigger] stamps[j],
            target,
        )
    &&& forall|j: int|
        0 <= j < k ==> seconds_apart(stamps[k], target) < seconds_apart(
            #[trigger] stamps[j],
            target,
        )
}

/// The position of the stamp nearest to `target`, the first of several
/// equally near ones. There is none in an empty list.
pub fn nearest(stamps: &Vec<i64>, target: i64) -> (found: Option<usize>)
    ensures
        found is None <==> stamps@.len() == 0,
        found is Some ==> is_nearest(stamps@, target, found->0 as int),
{
    let n: usize = stamps.len();
    if n == 0 {
        return None;
    }
    let mut best: usize = 0;
    let mut best_apart: u64 = distance(stamps[0], target);
    let mut i: usize = 1;
    while i < n
        invariant
            1 <= i <= n,
            n == stamps@.len(),
            0 <= best < i,
            best_apart == seconds_apart(stamps@[best as int], target),
            forall|j: int|
                0 <= j < i ==> best_apart <= seconds_apart(#[trigger] stamps@[j], target),
            forall|j: int|
                0 <= j < best ==> best_apart < seconds_apart(#[trigger] stamps@[j], target),
        decreases n - i,
    {
        let apart: u64 = distance(stamps[i], target);
        if apart < best_apart {
            best = i;
            best_apart = apart;
        }
        i = i + 1;
    }
    Some(best)
}

/// At most one position is the one to choose.
pub proof fn lemma_nearest_is_unique(stamps: Seq<i64>, target: i64, a: int, b: int)
    requires
        is_nearest(stamps, target, a),
        is_nearest(stamps, target, b),
    ensures
        a == b,
{
    if a < b {
        assert(seconds_apart(stamps[b], target) < seconds_apart(stamps[a], target));
    } else if b < a {
        assert(seconds_apart(stamps[a], target) < seconds_apart(stamps[b], target));
    }
}

/// The order of the records does not change how near the chosen one is:
/// two lists that hold the same stamps have chosen stamps equally far from
/// the target. Where one stamp is nearer than all others, both lists
/// choose that stamp.
pub proof fn lemma_nearest_in_any_order(
    first: Seq<i64>,
    second: Seq<i64>,
    target: i64,
    a: int,
    b: int,
)
    requires
        forall|x: i64| first.contains(x) <==> second.contains(x),
        is_nearest(first, target, a),
        is_nearest(second, target, b),
    ensures
        seconds_apart(first[a], target) == seconds_apart(second[b], target),
        (forall|j: int|
            0 <= j < first.len() && first[j] != first[a] ==> seconds_apart(first[a], target)
                < seconds_apart(#[trigger] first[j], target)) ==> first[a] == second[b],
{
    assert(first.contains(first[a]));
    assert(second.contains(second[b]));
}

/// Whether entry `k` is the one to choose for `target`, where `dates` gives
/// for each entry of a payload the time of its record, or `None` for an
/// entry that yields no record: entry `k` yields a record, no record lies
/// nearer to the target, and every record before it lies farther.
pub open spec fn is_choice(dates: Seq<Option<i64>>, target: i64, k: int) -> bool {
    &&& 0 <= k < dates.len()
    &&& dates[k] is Some
    &&& forall|j: int|
        0 <= j < dates.len() && (#[trigger] dates[j]) is Some ==> seconds_apart(
            dates[k]->0,
            target,
        ) <= seconds_apart(dates[j]->0, target)
    &&& forall|j: int|
        0 <= j < k && (#[trigger] dates[j]) is Some ==> seconds_apart(dates[k]->0, target)
            < seconds_apart(dates[j]->0, target)
}

/// Choosing among the records is choosing among the entries they came from:
/// where `stamps` holds the times of the entries that yield a record, in
/// their order, and `origin` tells for each the entry it came from, the
/// nearest stamp comes from the entry to choose.
pub proof fn lemma_choice_from_nearest(
    dates: Seq<Option<i64>>,
    stamps: Seq<i64>,
    origin: Seq<int>,
    target: i64,
    k: int,
)
    requires
        origin.len() == stamps.len(),
        forall|m: int|
            0 <= m < origin.len() ==> 0 <= #[trigger] origin[m] < dates.len() && dates[origin[m]]
                == Some(stamps[m]),
        forall|m1: int, m2: int|
            0 <= m1 < m2 < origin.len() ==> #[trigger] origin[m1] < #[trigger] origin[m2],
        forall|j: int|
            0 <= j < dates.len() && (#[trigger] dates[j]) is Some ==> origin.contains(j),
        is_nearest(stamps, target, k),
    ensures
        is_choice(dates, target, origin[k]),
{
}

/// At most one entry is the one to choose.
pub proof fn lemma_choice_is_unique(dates: Seq<Option<i64>>, target: i64, a: int, b: int)
    requires
        is_choice(dates, target, a),
        is_choice(dates, target, b),
    ensures
        a == b,
{
}

} // verus!

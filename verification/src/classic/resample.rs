//! Which samples of a block the classic client interpolates between. The interpolation itself,
//! and the position that it is done at, are floating point and belong to the caller.

use vstd::prelude::*;

verus! {

/// The four samples that a value between two samples is made of, by their index in the block.
#[derive(Debug, Clone, Copy, PartialEq, Eq, Structural)]
pub struct Taps {
    /// The sample before; none at the start of a block, where the last sample of the block before
    /// takes its place.
    pub before: Option<usize>,
    pub from: usize,
    pub to: usize,
    pub after: usize,
}

/// Index `i` of a block of `n` samples, held at the last one.
pub open spec fn held(i: int, n: int) -> int {
    if i < n {
        i
    } else {
        n - 1
    }
}

/// The samples for a value right behind sample `at` of a block of `n`: the one before, the one at
/// it and the two behind it. Beyond the end the last sample is repeated.
pub open spec fn taps_of(n: int, at: int) -> (Option<int>, int, int, int) {
    (
        if at == 0 {
            None
        } else {
            Some(at - 1)
        },
        held(at, n),
        held(at + 1, n),
        held(at + 2, n),
    )
}

/// Whether `t` are the samples for a value right behind sample `at` of a block of `n`.
pub open spec fn are_taps(n: int, at: int, t: Taps) -> bool {
    let want = taps_of(n, at);
    &&& match (t.before, want.0) {
        (Some(i), Some(j)) => i == j,
        (None, None) => true,
        _ => false,
    }
    &&& t.from == want.1
    &&& t.to == want.2
    &&& t.after == want.3
}

/// The samples for a value right behind sample `at` of a block of `n`. A position that was added
/// up with rounding may come to lie at the end of the block, but not further.
pub fn taps(n: usize, at: usize) -> (t: Taps)
    requires
        n > 0,
        at <= n,
    ensures
        are_taps(n as int, at as int, t),
{
    let last: usize = n - 1;
    let before: Option<usize> = if at == 0 {
        None
    } else {
        Some(at - 1)
    };
    let from: usize = if at < last {
        at
    } else {
        last
    };
    let to: usize = if from < last {
        from + 1
    } else {
        last
    };
    let after: usize = if to < last {
        to + 1
    } else {
        last
    };
    Taps { before, from, to, after }
}

/// No sample beyond the block is asked for, and inside the block the four samples lie in a row.
pub proof fn law_taps_stay_in_the_block(n: int, at: int, t: Taps)
    requires
        0 < n,
        0 <= at <= n,
        are_taps(n, at, t),
    ensures
        t.before matches Some(i) ==> i < n,
        t.from < n,
        t.to < n,
        t.after < n,
        1 <= at && at + 2 < n ==> (t.before matches Some(i) && t.from == i + 1) && t.to == t.from
            + 1 && t.after == t.to + 1,
{
}

/// The samples at both ends of a block: at its start there is none before, and where the block ends
/// its last sample stands for all that would come behind it. One position further asks for the
/// samples one further.
pub proof fn law_taps_at(n: usize, at: usize, t: Taps)
    requires
        n > 0,
        at <= n,
        call_ensures(taps, (n, at), t),
    ensures
        t.before is None <==> at == 0,
        t.before matches Some(i) ==> i + 1 == at,
        at < n ==> t.from == at,
        at == n ==> t.from == n - 1,
        at + 1 < n ==> t.to == at + 1,
        at + 1 >= n ==> t.to == n - 1,
        at + 2 < n ==> t.after == at + 2,
        at + 2 >= n ==> t.after == n - 1,
{
}

} // verus!

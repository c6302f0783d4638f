//! What holds of the evaluator's verdicts: that a candidate has one verdict
//! only, and how the verdicts of the two variants relate to the trajectory
//! and to each other.

use vstd::prelude::*;
use crate::evaluator::{
    advances,
    is_verdict,
    overflows_at,
    runs_through,
    settled,
    ArithmeticOverflow,
};
use crate::trajectory::{
    distinct_values_fit,
    first_at,
    first_at_exists,
    first_drop,
    orbit,
    orbit_of_zero,
    orbit_positive,
    orbit_splits,
    reaches_one,
    successor,
};

verus! {

/// A candidate has one verdict under a given lower bound: two evaluations of
/// it end alike.
pub proof fn verdict_is_unique(
    candidate: u128,
    lower_bound: Option<u128>,
    first: Result<u128, ArithmeticOverflow>,
    second: Result<u128, ArithmeticOverflow>,
)
    requires
        is_verdict(candidate, lower_bound, first),
        is_verdict(candidate, lower_bound, second),
    ensures
        first == second,
{
    let i = end_index(candidate, lower_bound, first);
    let j = end_index(candidate, lower_bound, second);
    if i < j {
        assert(advances(candidate, lower_bound, i));
    } else if j < i {
        assert(advances(candidate, lower_bound, j));
    }
}

/// The index at which an evaluation with the given verdict ends.
spec fn end_index(
    candidate: u128,
    lower_bound: Option<u128>,
    verdict: Result<u128, ArithmeticOverflow>,
) -> nat {
    match verdict {
        Ok(iterations) => (iterations - 1) as nat,
        Err(kind) => choose|k: nat| overflows_at(candidate, lower_bound, k, kind),
    }
}

/// With the candidate itself as lower bound the evaluation settles on the
/// first value it looks at.
pub proof fn bound_at_candidate_settles_at_once(
    candidate: u128,
    verdict: Result<u128, ArithmeticOverflow>,
)
    requires
        is_verdict(candidate, Some(candidate), verdict),
    ensures
        verdict == Ok::<u128, ArithmeticOverflow>(1),
{
    assert(is_verdict(candidate, Some(candidate), Ok(1)));
    verdict_is_unique(candidate, Some(candidate), verdict, Ok(1));
}

/// Whenever the trajectory of `n` reaches 1 at some index `k` without
/// leaving the 128-bit range on the way, the naive evaluation converges: its
/// count is the number of values up to the first 1, which is at most
/// `k + 1`.
pub proof fn naive_converges_where_trajectory_does(
    n: u128,
    k: nat,
    verdict: Result<u128, ArithmeticOverflow>,
)
    requires
        orbit(n as nat, k) == 1,
        forall|j: nat| j <= k ==> #[trigger] orbit(n as nat, j) <= u128::MAX,
        is_verdict(n, None, verdict),
    ensures
        verdict matches Ok(iterations) && iterations <= k + 1 && orbit(
            n as nat,
            (iterations - 1) as nat,
        ) == 1,
{
    let is_one = |v: nat| v == 1;
    let first = first_at_exists(n as nat, is_one, k);
    if n == 0 {
        orbit_of_zero(k);
    }
    assert forall|t: nat| t < first implies 2 <= #[trigger] orbit(n as nat, t) <= u128::MAX by {
        orbit_positive(n as nat, t);
    }
    distinct_values_fit(n as nat, is_one, first, first, 2, u128::MAX as nat);
    let i = end_index(n, None, verdict);
    if first < i {
        assert(advances(n, None, first));
    } else if verdict is Err {
        assert(orbit(n as nat, i + 1) == successor(orbit(n as nat, i)));
    }
}

/// Stopping at a lower bound agrees with the naive evaluation: where the
/// naive evaluation of `n` converges, the evaluation under any bound
/// converges too, after no more iterations.
pub proof fn short_circuit_agrees_with_naive(
    n: u128,
    m: u128,
    naive_iterations: u128,
    verdict: Result<u128, ArithmeticOverflow>,
)
    requires
        is_verdict(n, None, Ok(naive_iterations)),
        is_verdict(n, Some(m), verdict),
    ensures
        verdict matches Ok(iterations) && iterations <= naive_iterations,
{
    let last = (naive_iterations - 1) as nat;
    let i = end_index(n, Some(m), verdict);
    if last < i {
        assert(advances(n, Some(m), last));
    } else if i < last {
        assert(advances(n, None, i));
    }
}

/// Under a lower bound `m >= 1` the evaluation of `n` ends where the
/// trajectory first drops to `m` or below, provided it stays within the
/// 128-bit range up to there.
pub proof fn short_circuit_stops_at_first_drop(
    n: u128,
    m: u128,
    k: nat,
    verdict: Result<u128, ArithmeticOverflow>,
)
    requires
        m >= 1,
        first_drop(n as nat, m as nat, k),
        forall|j: nat| j <= k ==> #[trigger] orbit(n as nat, j) <= u128::MAX,
        is_verdict(n, Some(m), verdict),
    ensures
        verdict == Ok::<u128, ArithmeticOverflow>((k + 1) as u128),
        k < u128::MAX,
{
    distinct_values_fit(n as nat, |v: nat| v <= m, k, k, 2, u128::MAX as nat);
    assert forall|j: nat| j < k implies #[trigger] advances(n, Some(m), j) by {
        assert(orbit(n as nat, j) > m);
        assert(orbit(n as nat, j + 1) <= u128::MAX);
        assert(orbit(n as nat, j + 1) == successor(orbit(n as nat, j)));
    }
    assert(is_verdict(n, Some(m), Ok((k + 1) as u128)));
    verdict_is_unique(n, Some(m), verdict, Ok((k + 1) as u128));
}

/// No silent wrap-around: an evaluation whose trajectory would leave the
/// 128-bit range before it settles ends in the overflow of the operation
/// that would leave it.
pub proof fn leaving_the_range_is_an_overflow(
    n: u128,
    lower_bound: Option<u128>,
    k: nat,
    verdict: Result<u128, ArithmeticOverflow>,
)
    requires
        runs_through(n, lower_bound, k),
        !settled(orbit(n as nat, k), lower_bound),
        successor(orbit(n as nat, k)) > u128::MAX,
        is_verdict(n, lower_bound, verdict),
    ensures
        verdict == Err::<u128, ArithmeticOverflow>(
            if 3 * orbit(n as nat, k) > u128::MAX {
                ArithmeticOverflow::Multiplication
            } else {
                ArithmeticOverflow::Addition
            },
        ),
{
    let kind = if 3 * orbit(n as nat, k) > u128::MAX {
        ArithmeticOverflow::Multiplication
    } else {
        ArithmeticOverflow::Addition
    };
    let too_large = |v: nat| v > u128::MAX;
    if n == 0 {
        orbit_of_zero(k);
    }
    assert forall|t: nat| t <= k implies 2 <= #[trigger] orbit(n as nat, t) <= u128::MAX by {
        orbit_positive(n as nat, t);
        if t > 0 {
            assert(advances(n, lower_bound, (t - 1) as nat));
        }
        if t < k {
            assert(advances(n, lower_bound, t));
        }
    }
    assert(first_at(n as nat, too_large, k + 1));
    distinct_values_fit(n as nat, too_large, k + 1, k + 1, 2, u128::MAX as nat);
    assert(overflows_at(n, lower_bound, k, kind));
    verdict_is_unique(n, lower_bound, verdict, Err(kind));
}

/// The counter runs out only on a trajectory that never settles: where the
/// evaluation of a candidate `n >= 1` ends with the counter's overflow, no
/// value of the trajectory, however far out, is 1 or at the bound.
pub proof fn counter_overflow_means_no_end(n: u128, lower_bound: Option<u128>, k: nat)
    requires
        n >= 1,
        is_verdict(n, lower_bound, Err(ArithmeticOverflow::IterationCount)),
    ensures
        !settled(orbit(n as nat, k), lower_bound),
{
    let m: nat = match lower_bound {
        Some(b) if b >= 1 => b as nat,
        _ => 1,
    };
    let last = (u128::MAX - 1) as nat;
    assert(overflows_at(n, lower_bound, last, ArithmeticOverflow::IterationCount));
    orbit_positive(n as nat, k);
    if settled(orbit(n as nat, k), lower_bound) {
        let is_settled = |v: nat| v <= m;
        let first = first_at_exists(n as nat, is_settled, k);
        orbit_positive(n as nat, first);
        if first < last {
            assert(advances(n, lower_bound, first));
        }
        assert forall|t: nat| t <= last implies 2 <= #[trigger] orbit(n as nat, t)
            <= u128::MAX by {
            if t > 0 {
                assert(advances(n, lower_bound, (t - 1) as nat));
            }
        }
        distinct_values_fit(n as nat, is_settled, first, last + 1, 2, u128::MAX as nat);
    }
}

/// Why stopping at the bound is sound: if every number from 1 to `m` has a
/// trajectory that reaches 1, a candidate `n >= 1` that the evaluation under
/// the bound `m` takes to converge has such a trajectory too.
pub proof fn short_circuit_is_sound(n: u128, m: u128, iterations: u128)
    requires
        n >= 1,
        forall|v: nat| 1 <= v <= m ==> #[trigger] reaches_one(v),
        is_verdict(n, Some(m), Ok(iterations)),
    ensures
        reaches_one(n as nat),
{
    let last = (iterations - 1) as nat;
    let v = orbit(n as nat, last);
    orbit_positive(n as nat, last);
    if v != 1 {
        assert(reaches_one(v));
        let rest = choose|j: nat| orbit(v, j) == 1;
        orbit_splits(n as nat, last, rest);
    }
}

} // verus!

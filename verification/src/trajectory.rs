//! The mathematical model: Collatz trajectories over the natural numbers.

use vstd::prelude::*;
use vstd::relations::injective_on;
use vstd::set_lib::{lemma_int_range, lemma_len_subset, lemma_map_size, set_int_range};

verus! {

/// The Collatz map: halve an even number, triple an odd one and add one.
pub open spec fn successor(n: nat) -> nat {
    if n % 2 == 0 {
        n / 2
    } else {
        3 * n + 1
    }
}

/// The value at index `k` of the trajectory that starts at `n`.
pub open spec fn orbit(n: nat, k: nat) -> nat
    decreases k,
{
    if k == 0 {
        n
    } else {
        successor(orbit(n, (k - 1) as nat))
    }
}

/// The trajectory that starts at `n` comes to 1.
pub open spec fn reaches_one(n: nat) -> bool {
    exists|k: nat| orbit(n, k) == 1
}

/// A trajectory that starts above zero stays above zero.
pub proof fn orbit_positive(n: nat, k: nat)
    requires
        n >= 1,
    ensures
        orbit(n, k) >= 1,
    decreases k,
{
    if k > 0 {
        orbit_positive(n, (k - 1) as nat);
    }
}

/// A trajectory can be cut at any index: what follows index `i` is the
/// trajectory of the value found there.
pub proof fn orbit_splits(n: nat, i: nat, j: nat)
    ensures
        orbit(n, i + j) == orbit(orbit(n, i), j),
    decreases j,
{
    if j > 0 {
        orbit_splits(n, i, (j - 1) as nat);
    }
}

/// Index `k` is the first at which the trajectory of `n` meets `goal`.
pub open spec fn first_at(n: nat, goal: spec_fn(nat) -> bool, k: nat) -> bool {
    goal(orbit(n, k)) && forall|t: nat| t < k ==> !goal(#[trigger] orbit(n, t))
}

/// Index `k` is the first at which the trajectory of `n` is at `m` or
/// below.
pub open spec fn first_drop(n: nat, m: nat, k: nat) -> bool {
    first_at(n, |v: nat| v <= m, k)
}

/// The first index at which a trajectory meets `goal`, given any index at
/// which it does.
pub proof fn first_at_exists(n: nat, goal: spec_fn(nat) -> bool, k: nat) -> (first: nat)
    requires
        goal(orbit(n, k)),
    ensures
        first <= k,
        first_at(n, goal, first),
    decreases k,
{
    if exists|t: nat| t < k && goal(orbit(n, t)) {
        let t = choose|t: nat| t < k && goal(orbit(n, t));
        first_at_exists(n, goal, t)
    } else {
        k
    }
}

/// Up to the index at which it first meets `goal`, a trajectory takes no
/// value twice: had it done so, it would go round for ever without meeting
/// `goal`.
pub proof fn no_repeat_before(n: nat, goal: spec_fn(nat) -> bool, k: nat, i: nat, j: nat)
    requires
        first_at(n, goal, k),
        i < j <= k,
    ensures
        orbit(n, i) != orbit(n, j),
{
    if orbit(n, i) == orbit(n, j) {
        let rest = (k - j) as nat;
        orbit_splits(n, i, rest);
        orbit_splits(n, j, rest);
        assert(goal(orbit(n, i + rest)));
    }
}

/// Of the values that a trajectory takes up to the index at which it first
/// meets `goal`, no more lie between `low` and `high` than there are
/// numbers between them.
pub proof fn distinct_values_fit(
    n: nat,
    goal: spec_fn(nat) -> bool,
    k: nat,
    count: nat,
    low: nat,
    high: nat,
)
    requires
        first_at(n, goal, k),
        count <= k + 1,
        forall|t: nat| t < count ==> low <= #[trigger] orbit(n, t) <= high,
    ensures
        count == 0 || count + low <= high + 1,
{
    if count > 0 {
        let indices = set_int_range(0, count as int);
        let values = set_int_range(low as int, high as int + 1);
        let at = |t: int| orbit(n, t as nat) as int;
        let passed = indices.map(at);
        assert(low <= orbit(n, 0) <= high);
        lemma_int_range(0, count as int);
        lemma_int_range(low as int, high as int + 1);
        assert(injective_on(at, indices)) by {
            assert forall|a: int, b: int|
                indices.contains(a) && indices.contains(b) && #[trigger] at(a) == #[trigger] at(
                    b,
                ) implies a == b by {
                if a < b {
                    no_repeat_before(n, goal, k, a as nat, b as nat);
                } else if b < a {
                    no_repeat_before(n, goal, k, b as nat, a as nat);
                }
            }
        }
        lemma_map_size(indices, passed, at);
        assert(passed.subset_of(values)) by {
            assert forall|v: int| passed.contains(v) implies values.contains(v) by {
                let t = choose|t: int| indices.contains(t) && at(t) == v;
                assert(low <= orbit(n, t as nat) <= high);
            }
        }
        lemma_len_subset(passed, values);
    }
}

/// The trajectory of zero stays at zero.
pub proof fn orbit_of_zero(k: nat)
    ensures
        orbit(0, k) == 0,
    decreases k,
{
    if k > 0 {
        orbit_of_zero((k - 1) as nat);
    }
}

} // verus!

//! The sequence evaluator: follows the trajectory of one candidate in a
//! 128-bit register until it settles, and says how that ended.

use vstd::prelude::*;
use vstd::string::*;
use crate::decimal::{decimal, push_decimal};
use crate::trajectory::{orbit, successor};

verus! {

/// Why an evaluation had to be given up.
#[derive(Debug, Clone, Copy, PartialEq, Eq, Structural)]
pub enum ArithmeticOverflow {
    /// Tripling the working value left the 128-bit range.
    Multiplication,
    /// Adding one to the tripled working value left the 128-bit range.
    Addition,
    /// The iteration counter itself reached the end of the 128-bit range.
    IterationCount,
}

/// The evaluator stops on the working value `v`: the trajectory has reached
/// 1, or it has dropped to the lower bound.
pub open spec fn settled(v: nat, lower_bound: Option<u128>) -> bool {
    v == 1 || (lower_bound matches Some(b) && v <= b)
}

/// At index `j` of the candidate's trajectory the evaluator takes a step: the
/// value there is not settled and its successor fits in 128 bits.
pub open spec fn advances(candidate: u128, lower_bound: Option<u128>, j: nat) -> bool {
    let v = orbit(candidate as nat, j);
    !settled(v, lower_bound) && successor(v) <= u128::MAX
}

/// The evaluator takes a step at each of the first `k` indices.
pub open spec fn runs_through(candidate: u128, lower_bound: Option<u128>, k: nat) -> bool {
    forall|j: nat| j < k ==> #[trigger] advances(candidate, lower_bound, j)
}

/// Index `k` is the first at which the trajectory is settled, and every value
/// up to there fits in 128 bits.
pub open spec fn converges_at(candidate: u128, lower_bound: Option<u128>, k: nat) -> bool {
    runs_through(candidate, lower_bound, k) && settled(orbit(candidate as nat, k), lower_bound)
}

/// The evaluation reaches index `k` unsettled and fails there in the way that
/// `kind` names. The counter is advanced before the step is taken, so the
/// counter's overflow is the one reported where both are due.
pub open spec fn overflows_at(
    candidate: u128,
    lower_bound: Option<u128>,
    k: nat,
    kind: ArithmeticOverflow,
) -> bool {
    let v = orbit(candidate as nat, k);
    &&& runs_through(candidate, lower_bound, k)
    &&& !settled(v, lower_bound)
    &&& match kind {
        ArithmeticOverflow::IterationCount => k + 1 == u128::MAX,
        ArithmeticOverflow::Multiplication => k + 1 < u128::MAX && v % 2 == 1 && 3 * v
            > u128::MAX,
        ArithmeticOverflow::Addition => k + 1 < u128::MAX && v % 2 == 1 && 3 * v == u128::MAX,
    }
}

/// What an evaluation of `candidate` under `lower_bound` comes to: `Ok` with
/// the number of trajectory values examined, the settled one included, or
/// the overflow that stopped it.
pub open spec fn is_verdict(
    candidate: u128,
    lower_bound: Option<u128>,
    verdict: Result<u128, ArithmeticOverflow>,
) -> bool {
    match verdict {
        Ok(iterations) => iterations >= 1 && converges_at(
            candidate,
            lower_bound,
            (iterations - 1) as nat,
        ),
        Err(kind) => exists|k: nat| overflows_at(candidate, lower_bound, k, kind),
    }
}

/// One application of the Collatz map in checked 128-bit arithmetic.
pub fn step(value: u128) -> (result: Result<u128, ArithmeticOverflow>)
    ensures
        match result {
            Ok(next) => next == successor(value as nat),
            Err(ArithmeticOverflow::Multiplication) => value % 2 == 1 && 3 * value > u128::MAX,
            Err(ArithmeticOverflow::Addition) => value % 2 == 1 && 3 * value == u128::MAX,
            Err(ArithmeticOverflow::IterationCount) => false,
        },
{
    if value % 2 == 0 {
        Ok(value / 2)
    } else {
        match value.checked_mul(3) {
            None => Err(ArithmeticOverflow::Multiplication),
            Some(tripled) => match tripled.checked_add(1) {
                None => Err(ArithmeticOverflow::Addition),
                Some(next) => Ok(next),
            },
        }
    }
}

/// The line that reports a candidate whose trajectory reached 1.
pub open spec fn report_text(candidate: u128, iterations: u128) -> Seq<char> {
    "Number: "@ + decimal(candidate as nat) + " converges to 1 after "@ + decimal(
        iterations as nat,
    ) + " iterations!"@
}

/// Writes the report line for `candidate`.
pub fn convergence_report(candidate: u128, iterations: u128) -> (line: String)
    ensures
        line@ == report_text(candidate, iterations),
{
    let mut line = String::from_str("Number: ");
    push_decimal(&mut line, candidate);
    line.append(" converges to 1 after ");
    push_decimal(&mut line, iterations);
    line.append(" iterations!");
    line
}

/// How an evaluation ended when no overflow stopped it.
#[derive(Debug, PartialEq, Eq)]
pub struct Evaluation {
    /// Whether the candidate is taken to converge. An evaluation that ends
    /// at all ends in convergence, so this is always `true`.
    pub converged: bool,
    /// The number of trajectory values examined, the settled one included.
    pub iterations: u128,
    /// The report line, present where one was asked for and the trajectory
    /// itself reached 1.
    pub report: Option<String>,
}

/// The plain verdict inside an evaluator's result.
pub open spec fn verdict_of(result: Result<Evaluation, ArithmeticOverflow>) -> Result<
    u128,
    ArithmeticOverflow,
> {
    match result {
        Ok(evaluation) => Ok(evaluation.iterations),
        Err(kind) => Err(kind),
    }
}

/// What an evaluator owes for `candidate` under `lower_bound`: the verdict of
/// the trajectory and, on success, a report exactly where `print` is set and
/// the trajectory reached 1 rather than the bound.
pub open spec fn evaluates(
    candidate: u128,
    lower_bound: Option<u128>,
    print: bool,
    result: Result<Evaluation, ArithmeticOverflow>,
) -> bool {
    &&& is_verdict(candidate, lower_bound, verdict_of(result))
    &&& result matches Ok(evaluation) ==> {
        &&& evaluation.converged
        &&& evaluation.report is Some <==> print && orbit(
            candidate as nat,
            (evaluation.iterations - 1) as nat,
        ) == 1
        &&& evaluation.report matches Some(line) ==> line@ == report_text(
            candidate,
            evaluation.iterations,
        )
    }
}

/// Follows the trajectory of `number` until it reaches 1.
pub fn collatz_naive(number: u128, print: bool) -> (result: Result<
    Evaluation,
    ArithmeticOverflow,
>)
    ensures
        evaluates(number, None, print, result),
{
    let mut value: u128 = number;
    let mut iterations: u128 = 1;
    while value != 1
        invariant
            iterations >= 1,
            value == orbit(number as nat, (iterations - 1) as nat),
            runs_through(number, None, (iterations - 1) as nat),
        decreases u128::MAX - iterations,
    {
        let ghost k = (iterations - 1) as nat;
        if iterations == u128::MAX {
            assert(overflows_at(number, None, k, ArithmeticOverflow::IterationCount));
            return Err(ArithmeticOverflow::IterationCount);
        }
        match step(value) {
            Err(kind) => {
                assert(overflows_at(number, None, k, kind));
                return Err(kind);
            },
            Ok(next) => {
                assert(advances(number, None, k));
                value = next;
                iterations = iterations + 1;
            },
        }
    }
    let report = if print {
        Some(convergence_report(number, iterations))
    } else {
        None
    };
    Ok(Evaluation { converged: true, iterations, report })
}

/// Follows the trajectory of `number` until it reaches 1 or drops to
/// `start`, a value below which every candidate is already known to
/// converge.
pub fn collatz_benchmark_aware(number: u128, start: u128, print: bool) -> (result: Result<
    Evaluation,
    ArithmeticOverflow,
>)
    ensures
        evaluates(number, Some(start), print, result),
{
    let mut value: u128 = number;
    let mut iterations: u128 = 1;
    while value != 1
        invariant
            iterations >= 1,
            value == orbit(number as nat, (iterations - 1) as nat),
            runs_through(number, Some(start), (iterations - 1) as nat),
        decreases u128::MAX - iterations,
    {
        let ghost k = (iterations - 1) as nat;
        if value <= start {
            return Ok(Evaluation { converged: true, iterations, report: None });
        }
        if iterations == u128::MAX {
            assert(overflows_at(number, Some(start), k, ArithmeticOverflow::IterationCount));
            return Err(ArithmeticOverflow::IterationCount);
        }
        match step(value) {
            Err(kind) => {
                assert(overflows_at(number, Some(start), k, kind));
                return Err(kind);
            },
            Ok(next) => {
                assert(advances(number, Some(start), k));
                value = next;
                iterations = iterations + 1;
            },
        }
    }
    let report = if print {
        Some(convergence_report(number, iterations))
    } else {
        None
    };
    Ok(Evaluation { converged: true, iterations, report })
}

/// Evaluates `candidate`: without a lower bound by the naive variant, with
/// one by the variant that stops at the bound.
///
/// Candidates are meant to be 1 or more. Zero is taken as well: under a
/// bound it settles at once, and without one its trajectory stays at zero,
/// so that the evaluation goes on until the counter overflows.
pub fn evaluate(candidate: u128, lower_bound: Option<u128>, verbose: bool) -> (result: Result<
    Evaluation,
    ArithmeticOverflow,
>)
    ensures
        evaluates(candidate, lower_bound, verbose, result),
{
    match lower_bound {
        None => collatz_naive(candidate, verbose),
        Some(start) => collatz_benchmark_aware(candidate, start, verbose),
    }
}

} // verus!

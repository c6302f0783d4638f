//! The ascending sweep: one candidate after the other, each evaluated with
//! itself as lower bound, and a checkpoint at every multiple of the
//! interval.
//!
//! The sweep never ends by itself and writes to stable storage on its way,
//! so the loop around these functions belongs to the caller: it persists
//! what a step asks for and goes on with the candidate that the step names.

use vstd::prelude::*;
use vstd::string::*;
use crate::checkpoint::{checkpoint_due, is_due, CHECKPOINT_INTERVAL};
use crate::decimal::{decimal, push_decimal};
use crate::error::SearchError;
use crate::evaluator::{evaluate, verdict_of, ArithmeticOverflow};
use crate::verdicts::bound_at_candidate_settles_at_once;

verus! {

/// What the sweep does after one candidate.
#[derive(Debug, Clone, Copy, PartialEq, Eq, Structural)]
pub enum SweepStep {
    /// The candidate converged. The sweep goes on with `next`, once the
    /// checkpoint, if one is named, has been persisted.
    Advance { next: u128, checkpoint: Option<u128> },
    /// The candidate did not converge: the end that the search is after.
    Discovery { candidate: u128 },
    /// The sweep cannot go on.
    Failure(SearchError),
}

/// The step that follows the evaluation of `candidate`, for each way the
/// evaluation can end. After a convergent candidate the sweep moves up by
/// one, and fails where there is no next candidate in the 128-bit range.
pub open spec fn step_after(candidate: u128, verdict: Result<bool, ArithmeticOverflow>)
    -> SweepStep {
    match verdict {
        Err(kind) => SweepStep::Failure(SearchError::Overflow(kind)),
        Ok(false) => SweepStep::Discovery { candidate },
        Ok(true) => if candidate == u128::MAX {
            SweepStep::Failure(SearchError::Overflow(ArithmeticOverflow::Addition))
        } else {
            SweepStep::Advance {
                next: (candidate + 1) as u128,
                checkpoint: if is_due(candidate as nat) {
                    Some(candidate)
                } else {
                    None
                },
            }
        },
    }
}

/// Decides the step that follows the evaluation of `candidate`.
pub fn decide(candidate: u128, verdict: Result<bool, ArithmeticOverflow>) -> (step: SweepStep)
    ensures
        step == step_after(candidate, verdict),
{
    match verdict {
        Err(kind) => SweepStep::Failure(SearchError::Overflow(kind)),
        Ok(false) => SweepStep::Discovery { candidate },
        Ok(true) => match candidate.checked_add(1) {
            None => SweepStep::Failure(SearchError::Overflow(ArithmeticOverflow::Addition)),
            Some(next) => {
                let checkpoint = if checkpoint_due(candidate) {
                    Some(candidate)
                } else {
                    None
                };
                SweepStep::Advance { next, checkpoint }
            },
        },
    }
}

/// Evaluates `candidate` with itself as lower bound and decides what
/// follows. The evaluation settles on the candidate at once, so the step
/// is the one that follows convergence.
pub fn sweep_step(candidate: u128) -> (step: SweepStep)
    ensures
        step == step_after(candidate, Ok(true)),
{
    let result = evaluate(candidate, Some(candidate), false);
    proof {
        bound_at_candidate_settles_at_once(candidate, verdict_of(result));
    }
    match result {
        Ok(evaluation) => decide(candidate, Ok(evaluation.converged)),
        Err(kind) => decide(candidate, Err(kind)),
    }
}

/// The first candidate from `start` on for which a checkpoint is due.
pub open spec fn next_checkpoint(start: nat) -> nat {
    let interval = CHECKPOINT_INTERVAL as nat;
    if is_due(start) {
        start
    } else {
        (start + interval - start % interval) as nat
    }
}

/// `next_checkpoint(start)` is the least multiple of the interval that is
/// not below `start`, and checkpoints only go up: the leg that starts one
/// above a checkpoint ends a whole interval higher.
pub proof fn checkpoints_ascend(start: nat)
    ensures
        next_checkpoint(start) >= start,
        is_due(next_checkpoint(start)),
        forall|c: nat| start <= c < next_checkpoint(start) ==> !#[trigger] is_due(c),
        next_checkpoint(next_checkpoint(start) + 1) == next_checkpoint(start) + CHECKPOINT_INTERVAL,
{
}

/// Sweeps from `start` up to the first candidate for which a checkpoint is
/// due, and returns the step that names it; or the failure, where the range
/// ends before such a candidate.
pub fn sweep_to_checkpoint(start: u128) -> (step: SweepStep)
    ensures
        step == if next_checkpoint(start as nat) < u128::MAX {
            SweepStep::Advance {
                next: (next_checkpoint(start as nat) + 1) as u128,
                checkpoint: Some(next_checkpoint(start as nat) as u128),
            }
        } else {
            SweepStep::Failure(SearchError::Overflow(ArithmeticOverflow::Addition))
        },
{
    let mut candidate = start;
    loop
        invariant
            next_checkpoint(candidate as nat) == next_checkpoint(start as nat),
        decreases u128::MAX - candidate,
    {
        match sweep_step(candidate) {
            SweepStep::Advance { next, checkpoint: None } => {
                candidate = next;
            },
            step => {
                return step;
            },
        }
    }
}

/// The line that announces a candidate that did not converge.
pub open spec fn discovery_text(candidate: u128) -> Seq<char> {
    "Found non converging number: "@ + decimal(candidate as nat)
}

/// Writes the line that announces a candidate that did not converge.
pub fn discovery_notice(candidate: u128) -> (line: String)
    ensures
        line@ == discovery_text(candidate),
{
    let mut line = String::from_str("Found non converging number: ");
    push_decimal(&mut line, candidate);
    line
}

} // verus!

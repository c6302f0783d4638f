//! Direct mode: the candidates are named one by one, as text, and each is
//! evaluated by the naive variant and reported.

use vstd::prelude::*;
use vstd::string::*;
use crate::decimal::{numeral_value, parse};
use crate::error::{SearchError, EXIT_FAILURE, EXIT_SUCCESS};
use crate::evaluator::{collatz_naive, evaluates, is_verdict, report_text, Evaluation};

verus! {

/// What the evaluation of one argument owes: an argument that is no number
/// is refused; a number is evaluated without a lower bound and with a
/// report, and an overflow on its way is passed on.
pub open spec fn argument_outcome(arg: Seq<char>, outcome: Result<Evaluation, SearchError>)
    -> bool {
    match numeral_value(arg) {
        None => outcome == Err::<Evaluation, SearchError>(SearchError::ArgumentParse),
        Some(candidate) => match outcome {
            Ok(evaluation) => evaluates(candidate, None, true, Ok(evaluation)),
            Err(SearchError::Overflow(kind)) => evaluates(candidate, None, true, Err(kind)),
            Err(_) => false,
        },
    }
}

/// Reads one argument as a candidate and evaluates it.
pub fn evaluate_argument(arg: &str) -> (outcome: Result<Evaluation, SearchError>)
    ensures
        argument_outcome(arg@, outcome),
{
    match parse(arg) {
        None => Err(SearchError::ArgumentParse),
        Some(candidate) => match collatz_naive(candidate, true) {
            Ok(evaluation) => Ok(evaluation),
            Err(kind) => Err(SearchError::Overflow(kind)),
        },
    }
}

/// `line` is the report that the argument `arg` is answered with.
pub open spec fn reports(arg: Seq<char>, line: Seq<char>) -> bool {
    numeral_value(arg) matches Some(candidate) && exists|iterations: u128|
        #[trigger] is_verdict(candidate, None, Ok(iterations)) && line == report_text(
            candidate,
            iterations,
        )
}

/// `error` is the condition that the argument `arg` ends the run with.
pub open spec fn fails(arg: Seq<char>, error: SearchError) -> bool {
    match numeral_value(arg) {
        None => error == SearchError::ArgumentParse,
        Some(candidate) => error matches SearchError::Overflow(kind) && is_verdict(
            candidate,
            None,
            Err(kind),
        ),
    }
}

/// What a run over a list of arguments produced.
#[derive(Debug, PartialEq, Eq)]
pub struct DirectRun {
    /// One report line for each argument that was evaluated, in the order
    /// of the arguments.
    pub reports: Vec<String>,
    /// The condition that ended the run early, if one did.
    pub failure: Option<SearchError>,
}

impl DirectRun {
    /// The exit status of the run.
    pub fn exit_code(&self) -> (code: i32)
        ensures
            code == if self.failure is Some {
                EXIT_FAILURE
            } else {
                EXIT_SUCCESS
            },
    {
        match self.failure {
            Some(_) => EXIT_FAILURE,
            None => EXIT_SUCCESS,
        }
    }
}

/// Evaluates the arguments in order, up to the first that fails. There is
/// one report for each argument before that one, or for each argument
/// where none fails.
pub fn evaluate_arguments(args: &Vec<String>) -> (run: DirectRun)
    ensures
        run.reports.len() <= args.len(),
        forall|i: int|
            0 <= i < run.reports.len() ==> reports(#[trigger] args[i]@, run.reports[i]@),
        match run.failure {
            None => run.reports.len() == args.len(),
            Some(error) => run.reports.len() < args.len() && fails(
                args[run.reports.len() as int]@,
                error,
            ),
        },
{
    let mut lines: Vec<String> = Vec::new();
    let mut i: usize = 0;
    while i < args.len()
        invariant
            i == lines.len() <= args.len(),
            forall|j: int| 0 <= j < lines.len() ==> reports(#[trigger] args[j]@, lines[j]@),
        decreases args.len() - i,
    {
        match evaluate_argument(args[i].as_str()) {
            Err(error) => {
                return DirectRun { reports: lines, failure: Some(error) };
            },
            Ok(evaluation) => {
                assert(is_verdict(
                    numeral_value(args[i as int]@)->Some_0,
                    None,
                    Ok(evaluation.iterations),
                ));
                if let Some(line) = evaluation.report {
                    lines.push(line);
                }
            },
        }
        i = i + 1;
    }
    DirectRun { reports: lines, failure: None }
}

} // verus!

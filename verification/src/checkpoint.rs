//! The checkpoint: the progress marker of a sweep, kept as the decimal
//! numeral of one candidate.
//!
//! The number kept is the last candidate that was confirmed convergent. A
//! sweep that resumes starts at that same candidate and tests it once more.

use vstd::prelude::*;
use vstd::string::*;
use crate::decimal::{
    decimal,
    decimal_denotes,
    numeral_value,
    parse_range,
    push_decimal,
    render,
};
use crate::error::SearchError;
use crate::text::{chars_of, trim, trim_bounds, trim_keeps_bare_text};

verus! {

/// Where a sweep starts when no checkpoint says otherwise.
pub const DEFAULT_START: u128 = 2;

/// A checkpoint is written for each candidate that is a multiple of this.
pub const CHECKPOINT_INTERVAL: u128 = 100_000;

/// The candidate that a sweep starts at, given what the checkpoint holds:
/// the default where there is no checkpoint or nothing but white space in
/// it, else the number that the trimmed content is read as; content that is
/// no number is an error.
pub open spec fn start_of(content: Option<Seq<char>>) -> Result<u128, SearchError> {
    match content {
        None => Ok(DEFAULT_START),
        Some(text) => if trim(text).len() == 0 {
            Ok(DEFAULT_START)
        } else {
            match numeral_value(trim(text)) {
                Some(candidate) => Ok(candidate),
                None => Err(SearchError::ConfigParse),
            }
        },
    }
}

/// The characters of the content, where there is content.
pub open spec fn content_view(content: Option<&str>) -> Option<Seq<char>> {
    match content {
        None => None,
        Some(text) => Some(text@),
    }
}

/// Determines the candidate that a sweep starts at from what was read of
/// the checkpoint.
pub fn start_candidate(content: Option<&str>) -> (start: Result<u128, SearchError>)
    ensures
        start == start_of(content_view(content)),
{
    match content {
        None => Ok(DEFAULT_START),
        Some(text) => {
            let chars = chars_of(text);
            let (from, to) = trim_bounds(&chars);
            if from == to {
                Ok(DEFAULT_START)
            } else {
                match parse_range(&chars, from, to) {
                    Some(candidate) => Ok(candidate),
                    None => Err(SearchError::ConfigParse),
                }
            }
        },
    }
}

/// A checkpoint is due for the multiples of the interval.
pub open spec fn is_due(candidate: nat) -> bool {
    candidate % (CHECKPOINT_INTERVAL as nat) == 0
}

/// Whether a checkpoint is due once `candidate` has been confirmed.
pub fn checkpoint_due(candidate: u128) -> (due: bool)
    ensures
        due == is_due(candidate as nat),
{
    candidate % CHECKPOINT_INTERVAL == 0
}

/// What is written to the checkpoint for `candidate`: its decimal numeral,
/// with nothing after it.
pub fn checkpoint_text(candidate: u128) -> (text: String)
    ensures
        text@ == decimal(candidate as nat),
{
    render(candidate)
}

/// The progress line for a checkpoint that was saved.
pub open spec fn saved_text(candidate: u128) -> Seq<char> {
    "Checkpoint saved for number "@ + decimal(candidate as nat)
}

/// Writes the progress line for a checkpoint that was saved.
pub fn checkpoint_notice(candidate: u128) -> (line: String)
    ensures
        line@ == saved_text(candidate),
{
    let mut line = String::from_str("Checkpoint saved for number ");
    push_decimal(&mut line, candidate);
    line
}

/// A sweep resumes where the checkpoint says: from what was written for
/// `candidate`, the sweep starts at `candidate`.
pub proof fn checkpoint_resumes(candidate: u128)
    ensures
        start_of(Some(decimal(candidate as nat))) == Ok::<u128, SearchError>(candidate),
{
    let text = decimal(candidate as nat);
    decimal_denotes(candidate as nat);
    assert(!crate::text::is_whitespace(text.first()));
    assert(!crate::text::is_whitespace(text.last()));
    trim_keeps_bare_text(text);
}

} // verus!

//! A search for counterexamples to the Collatz conjecture.
//!
//! The search follows the trajectory of one candidate after the other:
//! halve an even number, triple an odd one and add one, until 1 is reached.
//! [`evaluator`] does this for a single candidate, in checked 128-bit
//! arithmetic, either all the way to 1 or down to a lower bound below which
//! convergence is already known. [`sweep`] walks the candidates upward and
//! says when a checkpoint is due, [`checkpoint`] reads and writes the
//! progress marker, and [`direct`] evaluates candidates that are named as
//! text.
//!
//! [`trajectory`] holds the mathematical model that the contracts are stated
//! over, and [`verdicts`] what is proved of the evaluator's results.
//! [`decimal`] and [`text`] read and write numerals, and [`error`] names the
//! fatal conditions.
//!
//! Reading and writing the checkpoint file, printing and ending the process
//! are left to the caller.

pub mod checkpoint;
pub mod decimal;
pub mod direct;
pub mod error;
pub mod evaluator;
pub mod sweep;
pub mod text;
pub mod trajectory;
pub mod verdicts;

use collatz::error::{SearchError, EXIT_FAILURE, EXIT_SUCCESS};
use collatz::evaluator::ArithmeticOverflow;

#[test]
fn every_condition_has_its_line() {
    assert_eq!(
        SearchError::ConfigParse.message(),
        "Error: non-integer argument found in record file"
    );
    assert_eq!(
        SearchError::ArgumentParse.message(),
        "Error: non-integer argument passed"
    );
    assert_eq!(
        SearchError::Overflow(ArithmeticOverflow::Multiplication).message(),
        "Error: multiplication overflow"
    );
    assert_eq!(
        SearchError::Overflow(ArithmeticOverflow::Addition).message(),
        "Error: addition overflow"
    );
    assert_eq!(
        SearchError::Overflow(ArithmeticOverflow::IterationCount).message(),
        "Error: iteration count overflow"
    );
    assert_eq!(
        SearchError::PersistenceWrite.message(),
        "Error: failed to write checkpoint"
    );
}

#[test]
fn every_condition_exits_with_one() {
    assert_eq!(EXIT_FAILURE, 1);
    assert_eq!(EXIT_SUCCESS, 0);
    for error in [
        SearchError::ConfigParse,
        SearchError::ArgumentParse,
        SearchError::Overflow(ArithmeticOverflow::Multiplication),
        SearchError::Overflow(ArithmeticOverflow::Addition),
        SearchError::Overflow(ArithmeticOverflow::IterationCount),
        SearchError::PersistenceWrite,
    ] {
        assert_eq!(error.exit_code(), 1);
    }
}

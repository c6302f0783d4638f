use collatz::error::SearchError;
use collatz::evaluator::ArithmeticOverflow;
use collatz::sweep::{decide, discovery_notice, sweep_step, sweep_to_checkpoint, SweepStep};

const LAST_CHECKPOINT: u128 = u128::MAX - 11_455;

#[test]
fn sweep_step_moves_up_by_one() {
    assert_eq!(sweep_step(2), SweepStep::Advance { next: 3, checkpoint: None });
    assert_eq!(sweep_step(1), SweepStep::Advance { next: 2, checkpoint: None });
    assert_eq!(sweep_step(27), SweepStep::Advance { next: 28, checkpoint: None });
    assert_eq!(
        sweep_step(99_999),
        SweepStep::Advance { next: 100_000, checkpoint: None }
    );
    assert_eq!(
        sweep_step(u128::MAX - 1),
        SweepStep::Advance { next: u128::MAX, checkpoint: None }
    );
}

#[test]
fn sweep_step_asks_for_checkpoint_at_multiples() {
    assert_eq!(
        sweep_step(100_000),
        SweepStep::Advance { next: 100_001, checkpoint: Some(100_000) }
    );
    assert_eq!(
        sweep_step(5_300_000),
        SweepStep::Advance { next: 5_300_001, checkpoint: Some(5_300_000) }
    );
    assert_eq!(sweep_step(0), SweepStep::Advance { next: 1, checkpoint: Some(0) });
    assert_eq!(
        sweep_step(LAST_CHECKPOINT),
        SweepStep::Advance { next: LAST_CHECKPOINT + 1, checkpoint: Some(LAST_CHECKPOINT) }
    );
}

#[test]
fn sweep_fails_at_the_end_of_the_range() {
    assert_eq!(
        sweep_step(u128::MAX),
        SweepStep::Failure(SearchError::Overflow(ArithmeticOverflow::Addition))
    );
    assert_eq!(
        decide(u128::MAX, Ok(true)),
        SweepStep::Failure(SearchError::Overflow(ArithmeticOverflow::Addition))
    );
}

#[test]
fn decide_covers_every_verdict() {
    assert_eq!(decide(27, Ok(true)), SweepStep::Advance { next: 28, checkpoint: None });
    assert_eq!(
        decide(300_000, Ok(true)),
        SweepStep::Advance { next: 300_001, checkpoint: Some(300_000) }
    );
    assert_eq!(decide(27, Ok(false)), SweepStep::Discovery { candidate: 27 });
    assert_eq!(
        decide(100_000, Ok(false)),
        SweepStep::Discovery { candidate: 100_000 }
    );
    assert_eq!(
        decide(u128::MAX, Ok(false)),
        SweepStep::Discovery { candidate: u128::MAX }
    );
    assert_eq!(
        decide(27, Err(ArithmeticOverflow::Multiplication)),
        SweepStep::Failure(SearchError::Overflow(ArithmeticOverflow::Multiplication))
    );
    assert_eq!(
        decide(27, Err(ArithmeticOverflow::Addition)),
        SweepStep::Failure(SearchError::Overflow(ArithmeticOverflow::Addition))
    );
    assert_eq!(
        decide(27, Err(ArithmeticOverflow::IterationCount)),
        SweepStep::Failure(SearchError::Overflow(ArithmeticOverflow::IterationCount))
    );
}

#[test]
fn sweep_to_checkpoint_finds_the_next_multiple() {
    assert_eq!(
        sweep_to_checkpoint(2),
        SweepStep::Advance { next: 100_001, checkpoint: Some(100_000) }
    );
    assert_eq!(
        sweep_to_checkpoint(100_000),
        SweepStep::Advance { next: 100_001, checkpoint: Some(100_000) }
    );
    assert_eq!(
        sweep_to_checkpoint(100_001),
        SweepStep::Advance { next: 200_001, checkpoint: Some(200_000) }
    );
    assert_eq!(
        sweep_to_checkpoint(199_999),
        SweepStep::Advance { next: 200_001, checkpoint: Some(200_000) }
    );
    assert_eq!(sweep_to_checkpoint(0), SweepStep::Advance { next: 1, checkpoint: Some(0) });
    assert_eq!(
        sweep_to_checkpoint(LAST_CHECKPOINT - 7),
        SweepStep::Advance { next: LAST_CHECKPOINT + 1, checkpoint: Some(LAST_CHECKPOINT) }
    );
}

#[test]
fn sweep_to_checkpoint_fails_where_the_range_ends_first() {
    let overflow = SweepStep::Failure(SearchError::Overflow(ArithmeticOverflow::Addition));
    assert_eq!(sweep_to_checkpoint(u128::MAX), overflow);
    assert_eq!(sweep_to_checkpoint(u128::MAX - 3), overflow);
    assert_eq!(sweep_to_checkpoint(LAST_CHECKPOINT + 1), overflow);
}

#[test]
fn checkpoints_only_go_up() {
    let mut candidate: u128 = 73;
    let mut last_saved: Option<u128> = None;
    for _ in 0..5 {
        match sweep_to_checkpoint(candidate) {
            SweepStep::Advance { next, checkpoint: Some(saved) } => {
                assert!(saved >= candidate);
                assert_eq!(next, saved + 1);
                if let Some(before) = last_saved {
                    assert!(saved > before);
                }
                last_saved = Some(saved);
                candidate = next;
            }
            other => panic!("{:?}", other),
        }
    }
    assert_eq!(last_saved, Some(500_000));
}

#[test]
fn discovery_notice_names_the_candidate() {
    assert_eq!(discovery_notice(27), "Found non converging number: 27");
    assert_eq!(
        discovery_notice(u128::MAX),
        "Found non converging number: 340282366920938463463374607431768211455"
    );
}

use collatz::evaluator::{
    collatz_benchmark_aware, collatz_naive, convergence_report, evaluate, step,
    ArithmeticOverflow, Evaluation,
};

/// The largest number whose triple still fits in 128 bits: a third of the
/// maximum, and odd.
const THIRD_OF_MAX: u128 = 113427455640312821154458202477256070485;

fn oracle(mut value: u128, lower_bound: Option<u128>) -> u128 {
    let mut iterations = 1;
    loop {
        if value == 1 {
            return iterations;
        }
        if let Some(bound) = lower_bound {
            if value <= bound {
                return iterations;
            }
        }
        value = if value % 2 == 0 { value / 2 } else { 3 * value + 1 };
        iterations += 1;
    }
}

#[test]
fn one_converges_in_one_iteration() {
    let evaluation = evaluate(1, None, false).unwrap();
    assert_eq!(
        evaluation,
        Evaluation { converged: true, iterations: 1, report: None }
    );
    let evaluation = evaluate(1, None, true).unwrap();
    assert!(evaluation.converged);
    assert_eq!(evaluation.iterations, 1);
}

#[test]
fn twenty_seven_converges_in_112_iterations() {
    let evaluation = evaluate(27, None, false).unwrap();
    assert!(evaluation.converged);
    assert_eq!(evaluation.iterations, 112);
    assert_eq!(evaluation.report, None);
}

#[test]
fn known_trajectory_lengths() {
    let known: [(u128, u128); 7] =
        [(2, 2), (3, 8), (6, 9), (7, 17), (97, 119), (871, 179), (1 << 127, 128)];
    for (candidate, iterations) in known {
        let evaluation = collatz_naive(candidate, false).unwrap();
        assert!(evaluation.converged);
        assert_eq!(evaluation.iterations, iterations);
    }
}

#[test]
fn naive_agrees_with_plain_arithmetic_on_small_candidates() {
    for candidate in 1..3000u128 {
        let evaluation = evaluate(candidate, None, false).unwrap();
        assert!(evaluation.converged);
        assert_eq!(evaluation.iterations, oracle(candidate, None));
    }
}

#[test]
fn verbose_evaluation_reports_the_count() {
    let evaluation = evaluate(27, None, true).unwrap();
    assert_eq!(
        evaluation.report,
        Some(String::from("Number: 27 converges to 1 after 112 iterations!"))
    );
    let evaluation = collatz_naive(1, true).unwrap();
    assert_eq!(
        evaluation.report,
        Some(String::from("Number: 1 converges to 1 after 1 iterations!"))
    );
}

#[test]
fn report_line_is_exact() {
    assert_eq!(
        convergence_report(6, 9),
        "Number: 6 converges to 1 after 9 iterations!"
    );
    assert_eq!(
        convergence_report(u128::MAX, 0),
        "Number: 340282366920938463463374607431768211455 converges to 1 after 0 iterations!"
    );
}

#[test]
fn step_halves_even_and_triples_odd() {
    assert_eq!(step(6), Ok(3));
    assert_eq!(step(7), Ok(22));
    assert_eq!(step(1), Ok(4));
    assert_eq!(step(0), Ok(0));
    assert_eq!(step(u128::MAX - 1), Ok((u128::MAX - 1) / 2));
    assert_eq!(step(THIRD_OF_MAX - 2), Ok(u128::MAX - 5));
}

#[test]
fn step_reports_which_operation_overflows() {
    assert_eq!(step(u128::MAX), Err(ArithmeticOverflow::Multiplication));
    assert_eq!(step(THIRD_OF_MAX + 2), Err(ArithmeticOverflow::Multiplication));
    assert_eq!(step(THIRD_OF_MAX), Err(ArithmeticOverflow::Addition));
}

#[test]
fn overflow_is_reported_not_wrapped() {
    assert_eq!(
        evaluate(u128::MAX, None, false),
        Err(ArithmeticOverflow::Multiplication)
    );
    assert_eq!(
        evaluate(u128::MAX - 1, None, true),
        Err(ArithmeticOverflow::Multiplication)
    );
    assert_eq!(
        evaluate(THIRD_OF_MAX, None, false),
        Err(ArithmeticOverflow::Addition)
    );
    assert_eq!(
        evaluate(2 * THIRD_OF_MAX, None, false),
        Err(ArithmeticOverflow::Addition)
    );
    assert_eq!(
        collatz_benchmark_aware(u128::MAX, 1000, false),
        Err(ArithmeticOverflow::Multiplication)
    );
}

#[test]
fn lower_bound_stops_at_first_drop() {
    let evaluation = evaluate(27, Some(26), false).unwrap();
    assert!(evaluation.converged);
    assert_eq!(evaluation.iterations, 97);
    assert_eq!(evaluate(7, Some(5), false).unwrap().iterations, 12);
    assert_eq!(evaluate(12, Some(11), false).unwrap().iterations, 2);
    assert_eq!(evaluate(27, Some(1), false).unwrap().iterations, 112);
}

#[test]
fn lower_bound_at_candidate_settles_at_once() {
    for candidate in [0u128, 2, 27, 100_000, u128::MAX] {
        assert_eq!(
            collatz_benchmark_aware(candidate, candidate, true),
            Ok(Evaluation { converged: true, iterations: 1, report: None })
        );
    }
    assert_eq!(
        collatz_benchmark_aware(1, 1, false),
        Ok(Evaluation { converged: true, iterations: 1, report: None })
    );
    assert_eq!(evaluate(5, Some(9), false).unwrap().iterations, 1);
}

#[test]
fn short_circuit_agrees_with_naive_verdict() {
    for n in 2..120u128 {
        let naive = evaluate(n, None, false).unwrap();
        for m in 1..n {
            assert!(evaluate(m, None, false).unwrap().converged);
            let short = evaluate(n, Some(m), false).unwrap();
            assert_eq!(short.converged, naive.converged);
            assert!(short.iterations <= naive.iterations);
            assert_eq!(short.iterations, oracle(n, Some(m)));
        }
    }
}

#[test]
fn report_only_where_trajectory_reaches_one() {
    assert_eq!(evaluate(27, Some(26), true).unwrap().report, None);
    assert_eq!(
        collatz_benchmark_aware(8, 0, true).unwrap(),
        Evaluation {
            converged: true,
            iterations: 4,
            report: Some(String::from("Number: 8 converges to 1 after 4 iterations!")),
        }
    );
    assert_eq!(
        collatz_benchmark_aware(1, 5, true).unwrap().report,
        Some(String::from("Number: 1 converges to 1 after 1 iterations!"))
    );
    assert_eq!(collatz_benchmark_aware(8, 0, false).unwrap().report, None);
}

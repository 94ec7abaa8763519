//! Tests of the reference solver, the argument generator and the
//! differential tester.

use solver_harness::libraries::Library;
use solver_harness::testing::LibraryTester;
use solver_harness::testing::ReferenceLibrary;
use solver_harness::testing::SolverArguments;
use solver_harness::testing::FACTOR_COUNT_MAX;
use solver_harness::testing::FACTOR_COUNT_MIN;
use solver_harness::testing::FACTOR_MAX;
use solver_harness::testing::FACTOR_MIN;
use solver_harness::testing::UPPER_BOUND_MAX;
use solver_harness::testing::UPPER_BOUND_MIN;

#[test]
fn api_tester_is_correct() {
    assert_eq!(LibraryTester::correct(&[3, 5], 10), 3 + 5 + 6 + 9);
    assert_eq!(
        LibraryTester::correct(&[3, 2, 4, 4, 5], 10),
        2 + 3 + 4 + 5 + 6 + 8 + 9
    );
    assert_eq!(LibraryTester::correct(&[3, 5], 1000), 233168);
}

#[test]
fn testing_tester_is_correct() {
    assert_eq!(LibraryTester::correct(&[3, 5], 10), 3 + 5 + 6 + 9);
    assert_eq!(
        LibraryTester::correct(&[3, 2, 4, 4, 5], 10),
        2 + 3 + 4 + 5 + 6 + 8 + 9
    );
    assert_eq!(LibraryTester::correct(&[3, 5], 1000), 233168);
}

#[test]
fn api_argument_distribution() {
    for _ in 1..100 {
        let arguments = SolverArguments::sample();
        let factor_count = arguments.factors.len() as u64;
        assert!(factor_count >= FACTOR_COUNT_MIN);
        assert!(factor_count < FACTOR_COUNT_MAX);
        arguments.factors.iter().for_each(|factor| {
            assert!(factor >= &FACTOR_MIN);
            assert!(factor < &FACTOR_MAX);
        });
        assert!(arguments.upper_bound >= UPPER_BOUND_MIN);
        assert!(arguments.upper_bound < UPPER_BOUND_MAX);
    }
}

#[test]
fn testing_argument_distribution() {
    for _ in 1..100 {
        let arguments = SolverArguments::sample();
        let factor_count = arguments.factors.len() as u64;
        assert!(factor_count >= FACTOR_COUNT_MIN);
        assert!(factor_count < FACTOR_COUNT_MAX);
        arguments.factors.iter().for_each(|factor| {
            assert!(factor >= &FACTOR_MIN);
            assert!(factor < &FACTOR_MAX);
        });
        assert!(arguments.upper_bound >= UPPER_BOUND_MIN);
        assert!(arguments.upper_bound < UPPER_BOUND_MAX);
    }
}

#[test]
fn sampling_draws_vary() {
    // A generator that ignored its random source would hand back the same
    // arguments on every draw; a thousand identical draws are, for all
    // practical purposes, impossible.
    let first = SolverArguments::sample();
    let mut varied = false;
    for _ in 0..1000 {
        let next = SolverArguments::sample();
        if next.upper_bound != first.upper_bound || next.factors != first.factors {
            varied = true;
            break;
        }
    }
    assert!(varied);
}

#[test]
fn testing_test_api() {
    const COUNT: usize = 100;
    let library = ReferenceLibrary;
    let outcomes = LibraryTester::random_tests(&library, COUNT);
    assert_eq!(outcomes.len(), COUNT);
    outcomes
        .into_iter()
        .for_each(|outcome| assert!(outcome.success));
}

#[test]
fn self_check_succeeds_on_every_sample() {
    const COUNT: usize = 120;
    let outcomes = LibraryTester::self_check(COUNT);
    assert_eq!(outcomes.len(), COUNT);
    for outcome in outcomes {
        assert!(outcome.success);
        assert_eq!(outcome.solution, outcome.proposal);
    }
}

#[test]
fn correct_is_deterministic() {
    let first = LibraryTester::correct(&[7, 11], 5000);
    let second = LibraryTester::correct(&[7, 11], 5000);
    assert_eq!(first, second);
}

#[test]
fn correct_handles_edge_inputs() {
    // A factor of one claims every integer in the range.
    assert_eq!(LibraryTester::correct(&[1], 10), 45);
    // The largest upper bound the generator may draw, with the smallest
    // factor: the sum of the even numbers below 65535.
    assert_eq!(LibraryTester::correct(&[2], 65535), 1073709056);
    // An empty range sums to nothing.
    assert_eq!(LibraryTester::correct(&[3], 0), 0);
    assert_eq!(LibraryTester::correct(&[3], 1), 0);
}

#[test]
fn new_copies_the_arguments() {
    let arguments = SolverArguments::new(&[3, 5], 10);
    assert_eq!(arguments.factors, vec![3, 5]);
    assert_eq!(arguments.upper_bound, 10);
}

#[test]
fn matching_candidate_is_recorded_as_success() {
    let outcome = LibraryTester::test(&ReferenceLibrary, SolverArguments::new(&[3, 5], 10));
    assert_eq!(outcome.proposal, 23);
    assert_eq!(outcome.solution, 23);
    assert!(outcome.success);
}

struct StuckLibrary;

impl Library for StuckLibrary {
    fn solve(&self, _factors: &[u64], _upper_bound: u64) -> u64 {
        0
    }
}

#[test]
fn mismatching_candidate_is_recorded_as_failure() {
    let outcome = LibraryTester::test(&StuckLibrary, SolverArguments::new(&[3, 5], 10));
    assert_eq!(outcome.proposal, 23);
    assert_eq!(outcome.solution, 0);
    assert!(!outcome.success);
    assert_eq!(outcome.arguments.factors, vec![3, 5]);
    assert_eq!(outcome.arguments.upper_bound, 10);
}

#[test]
fn random_tests_judges_a_broken_candidate_sample_by_sample() {
    const COUNT: usize = 25;
    let outcomes = LibraryTester::random_tests(&StuckLibrary, COUNT);
    assert_eq!(outcomes.len(), COUNT);
    for outcome in outcomes {
        assert_eq!(outcome.success, outcome.solution == outcome.proposal);
    }
}

//! The reference solver, the argument generator and the differential tester.

use vstd::prelude::*;

use crate::libraries::Library;
use rand::Rng;
use vstd::slice::slice_to_vec;

verus! {

/// Smallest number of factors the generator may draw (inclusive).
pub const FACTOR_COUNT_MIN: u64 = 1;
/// Largest number of factors the generator may draw (exclusive).
pub const FACTOR_COUNT_MAX: u64 = 8;
/// Smallest factor the generator may draw (inclusive).
pub const FACTOR_MIN: u64 = 2;
/// Largest factor the generator may draw (exclusive).
pub const FACTOR_MAX: u64 = 256;
/// Smallest upper bound the generator may draw (inclusive).
pub const UPPER_BOUND_MIN: u64 = 8;
/// Largest upper bound the generator may draw (exclusive).
pub const UPPER_BOUND_MAX: u64 = 65536;

/// Largest upper bound for which the reference sum is known to fit in a `u64`:
/// the sum over `[1, upper_bound)` is at most `upper_bound * (upper_bound - 1) / 2`.
pub const SAFE_UPPER_BOUND: u64 = 0x1_0000_0000;

/// The inputs on which a solver may be invoked: no factor is zero (zero has no
/// positive multiples and divisibility by it is meaningless) and the upper
/// bound is small enough that the reference sum cannot overflow a `u64`.
pub open spec fn input_allowed(factors: Seq<u64>, upper_bound: u64) -> bool {
    &&& forall|i: int| 0 <= i < factors.len() ==> factors[i] > 0
    &&& upper_bound <= SAFE_UPPER_BOUND
}

/// Whether `multiple` is divisible by at least one of the factors.
pub open spec fn divides_any(factors: Seq<u64>, multiple: int) -> bool {
    exists|i: int| 0 <= i < factors.len() && multiple % (factors[i] as int) == 0
}

/// The sum of every integer in `[1, upper)` that is divisible by at least one
/// of the factors; each qualifying integer is counted exactly once, however
/// many factors divide it.
pub open spec fn sum_of_multiples(factors: Seq<u64>, upper: int) -> int
    decreases upper,
{
    if upper <= 1 {
        0
    } else {
        sum_of_multiples(factors, upper - 1)
            + if divides_any(factors, upper - 1) {
                upper - 1
            } else {
                0
            }
    }
}

/// The reference sum is nonnegative and at most the sum of all integers in
/// `[1, upper)`, which is `upper * (upper - 1) / 2`.
pub proof fn lemma_sum_of_multiples_bound(factors: Seq<u64>, upper: int)
    ensures
        0 <= sum_of_multiples(factors, upper),
        2 * sum_of_multiples(factors, upper) <= upper * (upper - 1),
    decreases upper,
{
    if upper <= 1 {
        assert(upper * (upper - 1) >= 0) by (nonlinear_arith);
    } else {
        lemma_sum_of_multiples_bound(factors, upper - 1);
        assert((upper - 1) * (upper - 2) + 2 * (upper - 1) == upper * (upper - 1))
            by (nonlinear_arith);
    }
}

/// Whether `multiple` is divisible by at least one of the factors; first
/// match wins, so each multiple is considered once.
fn has_factor(factors: &[u64], multiple: u64) -> (found: bool)
    requires
        forall|i: int| 0 <= i < factors@.len() ==> factors@[i] > 0,
    ensures
        found == divides_any(factors@, multiple as int),
{
    let factor_count = factors.len();
    let mut j: usize = 0;
    while j < factor_count
        invariant
            factor_count == factors@.len(),
            j <= factor_count,
            forall|i: int| 0 <= i < factors@.len() ==> factors@[i] > 0,
            forall|i: int| 0 <= i < j ==> (multiple as int) % (#[trigger] factors@[i] as int) != 0,
        decreases factor_count - j,
    {
        if multiple % factors[j] == 0 {
            return true;
        }
        j = j + 1;
    }
    false
}

/// The arguments of one invocation of a solver: the factors whose multiples
/// are summed, and the exclusive upper bound of the summed range.
pub struct SolverArguments {
    pub factors: Vec<u64>,
    pub upper_bound: u64,
}

impl SolverArguments {
    /// The ranges the generator draws from: between one and seven factors,
    /// each in `[2, 256)`, and an upper bound in `[8, 65536)`.
    pub open spec fn valid(self) -> bool {
        &&& FACTOR_COUNT_MIN <= self.factors@.len() < FACTOR_COUNT_MAX
        &&& forall|i: int| 0 <= i < self.factors@.len()
            ==> FACTOR_MIN <= #[trigger] self.factors@[i] < FACTOR_MAX
        &&& UPPER_BOUND_MIN <= self.upper_bound < UPPER_BOUND_MAX
    }

    pub fn new(factors: &[u64], upper_bound: u64) -> (arguments: SolverArguments)
        ensures
            arguments.factors@ == factors@,
            arguments.upper_bound == upper_bound,
    {
        SolverArguments { factors: slice_to_vec(factors), upper_bound }
    }

    /// Draw one set of arguments from the generator's fixed ranges.
    pub fn sample() -> (arguments: SolverArguments)
        ensures
            arguments.valid(),
    {
        let factor_count = random_in_range(FACTOR_COUNT_MIN, FACTOR_COUNT_MAX);
        let mut factors: Vec<u64> = Vec::new();
        let mut i: u64 = 0;
        while i < factor_count
            invariant
                i <= factor_count,
                FACTOR_COUNT_MIN <= factor_count < FACTOR_COUNT_MAX,
                factors@.len() == i,
                forall|k: int| 0 <= k < factors@.len()
                    ==> FACTOR_MIN <= #[trigger] factors@[k] < FACTOR_MAX,
            decreases factor_count - i,
        {
            factors.push(random_in_range(FACTOR_MIN, FACTOR_MAX));
            i = i + 1;
        }
        let upper_bound = random_in_range(UPPER_BOUND_MIN, UPPER_BOUND_MAX);
        SolverArguments { factors, upper_bound }
    }
}

/// Valid generated arguments may always be handed to a solver: the factors
/// are positive and the upper bound is far below the overflow-safe limit.
proof fn lemma_valid_input_allowed(arguments: SolverArguments)
    requires
        arguments.valid(),
    ensures
        input_allowed(arguments.factors@, arguments.upper_bound),
{
}

/// Relies on `rand::thread_rng` and `rand::Rng::gen_range`: returns a value
/// drawn uniformly from `[low, high)`; `gen_range` panics only on an empty
/// range, which the precondition rules out.
#[verifier::external_body]
fn random_in_range(low: u64, high: u64) -> (value: u64)
    requires
        low < high,
    ensures
        low <= value < high,
{
    rand::thread_rng().gen_range(low..high)
}

/// The recorded outcome of one differential test: the arguments, the
/// candidate's value (`solution`), the reference value (`proposal`), and
/// whether the two agreed.
pub struct TestData {
    pub arguments: SolverArguments,
    pub solution: u64,
    pub proposal: u64,
    pub success: bool,
}

impl TestData {
    /// An outcome is consistent when it is marked successful exactly if the
    /// candidate's value matched the reference value.
    pub open spec fn consistent(self) -> bool {
        self.success == (self.solution == self.proposal)
    }

    /// An outcome produced by the differential tester: the arguments are
    /// generator-valid, the reference value is the reference sum of the
    /// arguments, and the success mark is consistent.
    pub open spec fn checked(self) -> bool {
        &&& self.arguments.valid()
        &&& self.proposal == sum_of_multiples(
            self.arguments.factors@,
            self.arguments.upper_bound as int,
        )
        &&& self.consistent()
    }
}

/// The differential tester: compares a candidate's answers against the
/// reference solver.
pub struct LibraryTester;

impl LibraryTester {
    /// A correct solution to the problem, used to judge every candidate: the
    /// sum of every integer in `[1, upper_bound)` divisible by at least one
    /// factor, each counted once.
    pub fn correct(factors: &[u64], upper_bound: u64) -> (sum: u64)
        requires
            input_allowed(factors@, upper_bound),
        ensures
            sum == sum_of_multiples(factors@, upper_bound as int),
    {
        let mut sum: u64 = 0;
        let mut multiple: u64 = 1;
        while multiple < upper_bound
            invariant
                input_allowed(factors@, upper_bound),
                1 <= multiple,
                multiple <= upper_bound || multiple == 1,
                sum == sum_of_multiples(factors@, multiple as int),
            decreases upper_bound - multiple,
        {
            if has_factor(factors, multiple) {
                proof {
                    let m = multiple as int;
                    lemma_sum_of_multiples_bound(factors@, m);
                    assert(m * (m - 1) + 2 * m == m * (m + 1)) by (nonlinear_arith);
                    assert(m * (m + 1) <= 0xffff_ffff * 0x1_0000_0000) by (nonlinear_arith)
                        requires
                            0 <= m <= 0xffff_ffff,
                    ;
                }
                sum = sum + multiple;
            }
            multiple = multiple + 1;
        }
        sum
    }

    /// Test a candidate on one set of arguments and record the outcome.
    pub fn test<L: Library>(library: &L, arguments: SolverArguments) -> (outcome: TestData)
        requires
            input_allowed(arguments.factors@, arguments.upper_bound),
        ensures
            outcome.arguments == arguments,
            outcome.proposal == sum_of_multiples(arguments.factors@, arguments.upper_bound as int),
            outcome.consistent(),
    {
        let solution = library.solve(arguments.factors.as_slice(), arguments.upper_bound);
        let proposal = LibraryTester::correct(arguments.factors.as_slice(), arguments.upper_bound);
        TestData { arguments, solution, proposal, success: solution == proposal }
    }

    /// Run `test_count` independent randomized tests on a candidate.
    pub fn random_tests<L: Library>(library: &L, test_count: usize) -> (outcomes: Vec<TestData>)
        ensures
            outcomes@.len() == test_count,
            forall|i: int| 0 <= i < outcomes@.len() ==> (#[trigger] outcomes@[i]).checked(),
    {
        let mut outcomes: Vec<TestData> = Vec::new();
        let mut i: usize = 0;
        while i < test_count
            invariant
                i <= test_count,
                outcomes@.len() == i,
                forall|k: int| 0 <= k < outcomes@.len() ==> (#[trigger] outcomes@[k]).checked(),
            decreases test_count - i,
        {
            let arguments = SolverArguments::sample();
            proof {
                lemma_valid_input_allowed(arguments);
            }
            let outcome = LibraryTester::test(library, arguments);
            outcomes.push(outcome);
            i = i + 1;
        }
        outcomes
    }

    /// Law: a candidate wired to call the reference solver directly succeeds
    /// on every sample of a randomized batch, whatever the batch size — the
    /// harness is consistent with itself.
    pub fn self_check(test_count: usize) -> (outcomes: Vec<TestData>)
        ensures
            outcomes@.len() == test_count,
            forall|i: int| 0 <= i < outcomes@.len() ==> (#[trigger] outcomes@[i]).success,
            forall|i: int| 0 <= i < outcomes@.len() ==> (#[trigger] outcomes@[i]).checked(),
    {
        let library = ReferenceLibrary;
        let mut outcomes: Vec<TestData> = Vec::new();
        let mut i: usize = 0;
        while i < test_count
            invariant
                i <= test_count,
                outcomes@.len() == i,
                forall|k: int| 0 <= k < outcomes@.len() ==> (#[trigger] outcomes@[k]).success,
                forall|k: int| 0 <= k < outcomes@.len() ==> (#[trigger] outcomes@[k]).checked(),
            decreases test_count - i,
        {
            let arguments = SolverArguments::sample();
            proof {
                lemma_valid_input_allowed(arguments);
            }
            let solution = library.solve(arguments.factors.as_slice(), arguments.upper_bound);
            let proposal = LibraryTester::correct(arguments.factors.as_slice(), arguments.upper_bound);
            let outcome = TestData { arguments, solution, proposal, success: solution == proposal };
            outcomes.push(outcome);
            i = i + 1;
        }
        outcomes
    }
}

/// Law: the reference solver is deterministic — the results of two calls on
/// identical arguments are equal, because each equals the reference sum.
pub proof fn lemma_correct_deterministic(
    factors: Seq<u64>,
    upper_bound: u64,
    first: u64,
    second: u64,
)
    requires
        first == sum_of_multiples(factors, upper_bound as int),
        second == sum_of_multiples(factors, upper_bound as int),
    ensures
        first == second,
{
}

/// A candidate wired directly to the reference solver, used to check the
/// harness against itself.
pub struct ReferenceLibrary;

impl Library for ReferenceLibrary {
    fn solve(&self, factors: &[u64], upper_bound: u64) -> (value: u64)
        ensures
            value == sum_of_multiples(factors@, upper_bound as int),
    {
        LibraryTester::correct(factors, upper_bound)
    }
}

} // verus!

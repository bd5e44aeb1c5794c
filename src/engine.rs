use crate::arbitrary::Arbitrary;
use crate::random::{seeded, Seed};
use vstd::arithmetic::div_mod::lemma_div_is_ordered;
use vstd::arithmetic::mul::{lemma_mul_inequality, lemma_mul_upper_bound};
use vstd::prelude::*;

verus! {

/// What a run is given: the seed of its randomness, the largest size that
/// inputs are grown at, how many inputs to try, and how many shrinking
/// attempts to make once one fails.
#[derive(Debug)]
pub struct Config {
    pub seed: Seed,
    pub max_size: u64,
    pub max_tests: u64,
    pub max_shrinks: u64,
}

/// The outcome of a run: every input passed, or the first failing input with
/// its failure, the number of inputs that passed before it, and the smallest
/// failing input that shrinking found, with its failure.
#[derive(Debug)]
pub enum Run<Input> {
    Success,
    Failure {
        num_tests: u64,
        input: Input,
        failure: String,
        shrunk_input: Input,
        shrunk_failure: String,
    },
}

impl<Input> Run<Input> {
    /// Asserts that the run succeeded; a failed run is no valid argument.
    pub fn unwrap(self)
        requires
            self is Success,
    {
        match self {
            Run::Success => {},
            Run::Failure { .. } => {},
        }
    }
}

/// The size that test `test` of `max_tests` grows its input at: the sizes
/// ramp linearly from zero towards `max_size`.
pub open spec fn size_at(max_size: nat, test: nat, max_tests: nat) -> nat {
    if max_tests == 0 {
        0
    } else {
        (max_size * test / max_tests) as nat
    }
}

/// The size for test `test` of a run under `config`.
pub fn test_size(config: &Config, test: u64) -> (r: u64)
    requires
        test < config.max_tests,
    ensures
        r == size_at(config.max_size as nat, test as nat, config.max_tests as nat),
        r <= config.max_size,
{
    let m = config.max_size as u128;
    let t = test as u128;
    let n = config.max_tests as u128;
    proof {
        lemma_mul_upper_bound(m as int, u64::MAX as int, t as int, u64::MAX as int);
        assert(u64::MAX as int * u64::MAX as int <= u128::MAX) by (nonlinear_arith);
        lemma_size_at_most(config.max_size as nat, test as nat, config.max_tests as nat);
    }
    let product = m * t;
    (product / n) as u64
}

/// Sizes stay within `max_size`.
pub proof fn lemma_size_at_most(max_size: nat, test: nat, max_tests: nat)
    requires
        test < max_tests,
    ensures
        size_at(max_size, test, max_tests) <= max_size,
{
    lemma_mul_inequality(test as int, max_tests as int, max_size as int);
    assert(max_size * test <= max_size * max_tests) by (nonlinear_arith)
        requires test <= max_tests;
    lemma_div_is_ordered((max_size * test) as int, (max_size * max_tests) as int, max_tests as int);
    assert((max_size * max_tests) / max_tests == max_size) by (nonlinear_arith)
        requires max_tests > 0;
}

/// The size ramp: the first test grows at size zero, every size is at most
/// `max_size`, and sizes never decrease from one test to a later one.
pub proof fn lemma_size_ramp(max_size: nat, max_tests: nat, i: nat, j: nat)
    requires
        i <= j < max_tests,
    ensures
        size_at(max_size, 0, max_tests) == 0,
        size_at(max_size, i, max_tests) <= size_at(max_size, j, max_tests),
        size_at(max_size, j, max_tests) <= max_size,
{
    assert(max_size * 0 == 0) by (nonlinear_arith);
    assert(max_size * i <= max_size * j) by (nonlinear_arith)
        requires i <= j;
    lemma_div_is_ordered((max_size * i) as int, (max_size * j) as int, max_tests as int);
    lemma_size_at_most(max_size, j, max_tests);
}

/// One shrinking attempt: a candidate that still fails becomes the best known
/// counterexample, with its failure; a candidate that passes is dropped.
pub fn accept_candidate<T>(
    best: T,
    best_failure: String,
    candidate: T,
    outcome: Result<(), String>,
) -> (r: (T, String))
    ensures
        outcome matches Err(d) ==> r == (candidate, d),
        outcome is Ok ==> r == (best, best_failure),
{
    match outcome {
        Ok(()) => (best, best_failure),
        Err(d) => (candidate, d),
    }
}

/// The message that stands for a fault whose payload is not text.
pub open spec fn unprintable() -> Seq<char> {
    "<Unprintable panic>"@
}

/// The failure detail of a fault: its message where the payload is text,
/// otherwise a fixed placeholder.
pub fn print_panic(message: Option<&str>) -> (r: String)
    ensures
        message matches Some(m) ==> r@ == m@,
        message is None ==> r@ == unprintable(),
{
    match message {
        Some(m) => m.to_owned(),
        None => "<Unprintable panic>".to_owned(),
    }
}

/// Whether `execute` can return a failure for some input.
pub open spec fn may_fail<T, F: Fn(&T) -> Result<(), String>>(execute: F) -> bool {
    exists|x: &T, o: Result<(), String>| #[trigger] execute.ensures((x,), o) && o is Err
}

/// Whether `execute` can return success for some input.
pub open spec fn may_pass<T, F: Fn(&T) -> Result<(), String>>(execute: F) -> bool {
    exists|x: &T, o: Result<(), String>| #[trigger] execute.ensures((x,), o) && o is Ok
}

/// The state of a run once its first failing input is found: that input and
/// its failure, the best failing input known so far with its failure, and
/// how many shrinking attempts have been made.
pub struct Shrinking<T> {
    pub num_tests: u64,
    pub input: T,
    pub failure: String,
    pub best: T,
    pub best_failure: String,
    pub done: u64,
}

/// Where a run stands: about to run test `test`, shrinking, or finished.
pub enum Phase<T> {
    Testing { test: u64 },
    Shrinking(Shrinking<T>),
    Done(Run<T>),
}

impl<T> Phase<T> {
    /// Whether the run has finished.
    pub fn is_done(&self) -> (r: bool)
        ensures
            r == (self is Done),
    {
        match self {
            Phase::Done(_) => true,
            _ => false,
        }
    }
}

/// The report of a finished shrinking phase.
pub open spec fn report<T>(s: Shrinking<T>) -> Run<T> {
    Run::Failure {
        num_tests: s.num_tests,
        input: s.input,
        failure: s.failure,
        shrunk_input: s.best,
        shrunk_failure: s.best_failure,
    }
}

/// The shrinking state after one more attempt on `candidate`, which came out
/// as `outcome`: the best is replaced as `accept_candidate` says.
pub open spec fn shrunk_once<T>(s: Shrinking<T>, candidate: T, outcome: Result<(), String>) -> Shrinking<T> {
    match outcome {
        Ok(_) => Shrinking {
            num_tests: s.num_tests,
            input: s.input,
            failure: s.failure,
            best: s.best,
            best_failure: s.best_failure,
            done: (s.done + 1) as u64,
        },
        Err(d) => Shrinking {
            num_tests: s.num_tests,
            input: s.input,
            failure: s.failure,
            best: candidate,
            best_failure: d,
            done: (s.done + 1) as u64,
        },
    }
}

/// Ends a shrinking phase with its report.
pub fn finish<T>(s: Shrinking<T>) -> (r: Run<T>)
    ensures
        r == report(s),
{
    Run::Failure {
        num_tests: s.num_tests,
        input: s.input,
        failure: s.failure,
        shrunk_input: s.best,
        shrunk_failure: s.best_failure,
    }
}

/// The first phase of a run: test zero, or success at once when there are no tests.
pub fn start<T>(config: &Config) -> (r: Phase<T>)
    ensures
        config.max_tests == 0 ==> r == Phase::<T>::Done(Run::Success),
        config.max_tests > 0 ==> (r == Phase::<T>::Testing { test: 0 }),
{
    if config.max_tests == 0 {
        Phase::Done(Run::Success)
    } else {
        Phase::Testing { test: 0 }
    }
}

/// The phase that a failure `f` of test `test` on `input` leads to: shrinking
/// from that input, or, with no shrinking attempts allowed, its report with a
/// copy of the input as the shrunk one.
pub open spec fn failure_found<T: Arbitrary>(config: &Config, test: u64, input: T, f: String, r: Phase<T>) -> bool {
    match r {
        Phase::Shrinking(s) => {
            &&& config.max_shrinks > 0
            &&& s.num_tests == test
            &&& s.input == input
            &&& s.failure == f
            &&& s.best.copy_of(&input)
            &&& s.best_failure == f
            &&& s.done == 0
        },
        Phase::Done(Run::Failure { num_tests, input: i, failure, shrunk_input, shrunk_failure }) => {
            &&& config.max_shrinks == 0
            &&& num_tests == test
            &&& i == input
            &&& failure == f
            &&& shrunk_input.copy_of(&input)
            &&& shrunk_failure == f
        },
        _ => false,
    }
}

/// The phase after test `test` on `input` came out as `outcome`. A pass moves
/// to the next test, or to success after the last one. A failure starts
/// shrinking from that input, or reports it at once when no shrinking
/// attempts are allowed.
pub fn after_test<T: Arbitrary>(config: &Config, test: u64, input: T, outcome: Result<(), String>) -> (r: Phase<T>)
    requires
        test < config.max_tests,
    ensures
        outcome is Ok && test + 1 < config.max_tests ==> (r == Phase::<T>::Testing {
            test: (test + 1) as u64,
        }),
        outcome is Ok && test + 1 == config.max_tests ==> r == Phase::<T>::Done(Run::Success),
        outcome matches Err(f) ==> failure_found(config, test, input, f, r),
{
    match outcome {
        Ok(()) => {
            if test + 1 < config.max_tests {
                Phase::Testing { test: test + 1 }
            } else {
                Phase::Done(Run::Success)
            }
        },
        Err(failure) => {
            let best = input.duplicate();
            let best_failure = failure.clone();
            let s = Shrinking { num_tests: test, input, failure, best, best_failure, done: 0 };
            if config.max_shrinks > 0 {
                Phase::Shrinking(s)
            } else {
                Phase::Done(finish(s))
            }
        },
    }
}

/// The phase after one shrinking attempt on `candidate`, drawn from the best
/// input of `s`, came out as `outcome`: the attempt is counted, the best is
/// replaced as `accept_candidate` says, and the run ends with its report
/// after the last attempt.
pub fn after_shrink<T>(config: &Config, s: Shrinking<T>, candidate: T, outcome: Result<(), String>) -> (r: Phase<T>)
    requires
        s.done < config.max_shrinks,
    ensures
        s.done + 1 < config.max_shrinks ==> r == Phase::Shrinking(
            shrunk_once(s, candidate, outcome),
        ),
        s.done + 1 == config.max_shrinks ==> r == Phase::Done(
            report(shrunk_once(s, candidate, outcome)),
        ),
{
    let ghost next = shrunk_once(s, candidate, outcome);
    let Shrinking { num_tests, input, failure, best, best_failure, done } = s;
    let (best, best_failure) = accept_candidate(best, best_failure, candidate, outcome);
    let t = Shrinking { num_tests, input, failure, best, best_failure, done: done + 1 };
    assert(t == next);
    if done + 1 < config.max_shrinks {
        Phase::Shrinking(t)
    } else {
        Phase::Done(finish(t))
    }
}

/// What a report states of every run: a failing input, found at a test
/// index in range and grown within that test's size, failed `execute` with
/// its failure; the shrunk input is no larger, and it either failed
/// `execute` with its failure or is a copy of the input with the same failure.
pub open spec fn sound_report<T: Arbitrary, F: Fn(&T) -> Result<(), String>>(
    execute: F,
    config: &Config,
    r: Run<T>,
) -> bool {
    r matches Run::Failure { num_tests, input, failure, shrunk_input, shrunk_failure } ==> {
        &&& num_tests < config.max_tests
        &&& execute.ensures((&input,), Err::<(), String>(failure))
        &&& input.magnitude() <= size_at(config.max_size as nat, num_tests as nat, config.max_tests as nat)
        &&& shrunk_input.magnitude() <= input.magnitude()
        &&& (execute.ensures((&shrunk_input,), Err::<(), String>(shrunk_failure)) || (shrunk_failure
            == failure && shrunk_input.copy_of(&input)))
    }
}

/// How much of a run is left: tests first, then shrinking attempts.
pub open spec fn remaining<T>(config: &Config, phase: Phase<T>) -> nat {
    match phase {
        Phase::Testing { test } => (config.max_tests - test + config.max_shrinks + 1) as nat,
        Phase::Shrinking(s) => (config.max_shrinks - s.done) as nat,
        Phase::Done(_) => 0,
    }
}

/// What holds of each phase that a run passes through.
pub open spec fn phase_facts<T: Arbitrary, F: Fn(&T) -> Result<(), String>>(
    execute: F,
    config: &Config,
    phase: Phase<T>,
) -> bool {
    match phase {
        Phase::Testing { test } => test < config.max_tests && (test > 0 ==> may_pass(execute)),
        Phase::Shrinking(s) => {
            &&& s.done < config.max_shrinks
            &&& sound_report(execute, config, report(s))
            &&& s.num_tests > 0 ==> may_pass(execute)
        },
        Phase::Done(r) => {
            &&& sound_report(execute, config, r)
            &&& r is Success ==> config.max_tests == 0 || may_pass(execute)
            &&& r matches Run::Failure { num_tests, .. } ==> (num_tests > 0 ==> may_pass(execute))
            &&& r is Failure ==> may_fail(execute)
        },
    }
}

/// Runs a property: `execute` applies the predicate to one input in isolation
/// and turns a fault into `Err` with its message.
///
/// The run steps through its phases with `start`, `after_test` and
/// `after_shrink`: each test grows an input at the ramped size and executes
/// it; each shrinking attempt shrinks the best failing input known so far
/// and executes the candidate.
pub fn run<T: Arbitrary, F: Fn(&T) -> Result<(), String>>(execute: F, config: &Config) -> (r: Run<T>)
    requires
        forall|x: &T| #[trigger] execute.requires((x,)),
    ensures
        config.max_tests == 0 ==> r is Success,
        !may_fail(execute) ==> r is Success,
        config.max_tests > 0 && !may_pass(execute) ==> (r matches Run::Failure { num_tests, .. }
            && num_tests == 0),
        sound_report(execute, config, r),
{
    let mut rng = seeded(&config.seed);
    let mut phase: Phase<T> = start(config);
    while !phase.is_done()
        invariant
            forall|x: &T| #[trigger] execute.requires((x,)),
            phase_facts(execute, config, phase),
        decreases remaining(config, phase),
    {
        match phase {
            Phase::Testing { test } => {
                let size = test_size(config, test);
                let input = T::grow(&mut rng, size);
                let outcome = execute(&input);
                let ghost tested = input;
                phase = after_test(config, test, input, outcome);
                let ghost next = phase;
                proof {
                    if let Phase::Shrinking(s) = next {
                        T::lemma_copy_same_magnitude(&s.best, &tested);
                    } else if let Phase::Done(Run::Failure { shrunk_input, .. }) = next {
                        T::lemma_copy_same_magnitude(&shrunk_input, &tested);
                    }
                }
            },
            Phase::Shrinking(s) => {
                let candidate = T::shrink(&mut rng, &s.best);
                let outcome = execute(&candidate);
                phase = after_shrink(config, s, candidate, outcome);
            },
            Phase::Done(r) => {
                phase = Phase::Done(r);
            },
        }
    }
    match phase {
        Phase::Done(r) => r,
        _ => Run::Success,
    }
}

} // verus!

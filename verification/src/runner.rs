//! The retry runner's decision logic.
//!
//! One attempt of the target command yields an [`ExecutionOutcome`]; the
//! runner folds each outcome into its current [`RunnerState`] with [`step`],
//! decrementing the retry budget on failure until either an attempt succeeds
//! or the budget is exhausted. The spawning of the actual child process is
//! I/O and lives outside this library; callers run the loop and hand each
//! outcome to [`step`].

use vstd::prelude::*;

verus! {

/// Exit code reported for an attempt that produced no real exit code
/// (the process could not be spawned, or was terminated by a signal).
pub const DEFAULT_ERROR_CODE: i32 = 1;

/// Retry budget used when the caller does not specify one.
pub const DEFAULT_RETRIES: i32 = 3;

/// Exit code that counts as success.
pub const DEFAULT_SUCCESS_CODE: i32 = 0;

/// What a single spawn-and-wait attempt of the command produced.
#[derive(Clone, Copy, Debug, PartialEq, Eq, Structural)]
pub enum ExecutionOutcome {
    /// The process ran to completion and exited with the given code.
    Exited(i32),
    /// The process could not be spawned at all.
    SpawnFailed,
}

/// The runner's state: still attempting with some budget left, or finished.
#[derive(Clone, Copy, Debug, PartialEq, Eq, Structural)]
pub enum RunnerState {
    /// The command is still being attempted; the field is `retries_left`.
    Attempting(i32),
    /// An attempt exited with code `0`; the program reports success.
    Succeeded,
    /// The budget is exhausted; the field is the final exit code.
    Failed(i32),
}

/// The exit code an attempt would contribute if it turned out to be the
/// last one: the real exit code if there is one, else the fallback.
pub open spec fn candidate_code_spec(o: ExecutionOutcome) -> int {
    match o {
        ExecutionOutcome::Exited(code) => code as int,
        ExecutionOutcome::SpawnFailed => DEFAULT_ERROR_CODE as int,
    }
}

/// One transition of the runner's state machine: fold the outcome of an
/// attempt into the current state. Terminal states absorb every outcome.
pub open spec fn step_spec(s: RunnerState, o: ExecutionOutcome) -> RunnerState {
    match s {
        RunnerState::Attempting(retries_left) => {
            if candidate_code_spec(o) == DEFAULT_SUCCESS_CODE as int {
                RunnerState::Succeeded
            } else if retries_left > 1 {
                RunnerState::Attempting((retries_left - 1) as i32)
            } else {
                RunnerState::Failed(candidate_code_spec(o) as i32)
            }
        },
        _ => s,
    }
}

/// The terminal result of a whole run: how many attempts were made and the
/// exit code the program reports.
#[derive(Clone, Copy, Debug, PartialEq, Eq, Structural)]
pub struct ExecutionResult {
    /// Number of attempts that were made, the final one included.
    pub attempts: usize,
    /// The exit code of the whole program.
    pub code: i32,
}

/// Shifts a replay result by `k` earlier attempts: the exit code is kept and
/// `k` is added to the attempt count.
pub open spec fn shift_attempts(r: Option<(int, int)>, k: int) -> Option<(int, int)> {
    match r {
        Some(p) => Some((p.0 + k, p.1)),
        None => None,
    }
}

/// Replays a sequence of attempt outcomes against a retry budget: the result
/// is `Some((attempts, code))` when the run terminates within the given
/// outcomes, `None` when it would need more of them. Each failed attempt
/// with more than one unit of budget left consumes one unit; an attempt that
/// exits `0` ends the run at once; otherwise the run ends when the budget is
/// down to one, reporting that attempt's candidate code.
pub open spec fn run_spec(retries_left: int, outcomes: Seq<ExecutionOutcome>) -> Option<(int, int)>
    decreases outcomes.len(),
{
    if outcomes.len() == 0 {
        None
    } else if candidate_code_spec(outcomes[0]) == DEFAULT_SUCCESS_CODE as int {
        Some((1, DEFAULT_SUCCESS_CODE as int))
    } else if retries_left > 1 {
        shift_attempts(run_spec(retries_left - 1, outcomes.drop_first()), 1)
    } else {
        Some((1, candidate_code_spec(outcomes[0])))
    }
}

/// The exit code an attempt would contribute if it turned out to be the
/// last one.
pub fn candidate_code(o: &ExecutionOutcome) -> (code: i32)
    ensures
        code as int == candidate_code_spec(*o),
{
    match o {
        ExecutionOutcome::Exited(code) => *code,
        ExecutionOutcome::SpawnFailed => DEFAULT_ERROR_CODE,
    }
}

/// The retry-or-exit decision on a failed attempt: with more than one unit
/// of budget left, consume one and retry; otherwise stop, reporting `code`.
/// Returns `None` to retry, `Some(code)` to exit. The budget never increases.
pub fn retry_or_exit(retries_left: &mut i32, code: i32) -> (decision: Option<i32>)
    ensures
        *old(retries_left) > 1 ==> decision is None
            && *final(retries_left) == *old(retries_left) - 1,
        *old(retries_left) <= 1 ==> decision == Some(code)
            && *final(retries_left) == *old(retries_left),
        *final(retries_left) <= *old(retries_left),
{
    if *retries_left > 1 {
        *retries_left = *retries_left - 1;
        None
    } else {
        Some(code)
    }
}

/// One transition of the runner's state machine.
pub fn step(s: RunnerState, o: ExecutionOutcome) -> (next: RunnerState)
    ensures
        next == step_spec(s, o),
{
    match s {
        RunnerState::Attempting(retries_left) => {
            let mut budget = retries_left;
            let code = candidate_code(&o);
            if code == DEFAULT_SUCCESS_CODE {
                RunnerState::Succeeded
            } else {
                match retry_or_exit(&mut budget, code) {
                    None => RunnerState::Attempting(budget),
                    Some(final_code) => RunnerState::Failed(final_code),
                }
            }
        },
        _ => s,
    }
}

/// Law: success short-circuits immediately. Whatever the budget, if the
/// first attempt exits `0`, the run ends after exactly that one attempt and
/// the program reports exit code `0`.
pub proof fn lemma_success_short_circuits(max_retries: int, outcomes: Seq<ExecutionOutcome>)
    requires
        max_retries >= 1,
        outcomes.len() >= 1,
        outcomes[0] == ExecutionOutcome::Exited(DEFAULT_SUCCESS_CODE),
    ensures
        run_spec(max_retries, outcomes) == Some((1int, DEFAULT_SUCCESS_CODE as int)),
{
}

/// Law: the retry count is the number of attempts, not the number of extra
/// retries. With a budget of `max_retries >= 1` and a command that always
/// exits with the same nonzero code, exactly `max_retries` attempts are made
/// and that code is the final one.
pub proof fn lemma_retry_count_is_attempts(
    max_retries: int,
    code: i32,
    outcomes: Seq<ExecutionOutcome>,
)
    requires
        max_retries >= 1,
        code != DEFAULT_SUCCESS_CODE,
        outcomes.len() >= max_retries,
        forall|j: int| 0 <= j < outcomes.len() ==> outcomes[j] == ExecutionOutcome::Exited(code),
    ensures
        run_spec(max_retries, outcomes) == Some((max_retries, code as int)),
    decreases max_retries,
{
    if max_retries > 1 {
        assert forall|j: int| 0 <= j < outcomes.drop_first().len() implies outcomes.drop_first()[j]
            == ExecutionOutcome::Exited(code) by {
            assert(outcomes.drop_first()[j] == outcomes[j + 1]);
        }
        lemma_retry_count_is_attempts(max_retries - 1, code, outcomes.drop_first());
    }
}

/// Law: degenerate budgets run exactly once. For `max_retries <= 1`, zero
/// and negative values included, the command is attempted exactly once and
/// that single attempt's candidate code is reported, `0` on success.
pub proof fn lemma_degenerate_budget_runs_once(max_retries: int, outcomes: Seq<ExecutionOutcome>)
    requires
        max_retries <= 1,
        outcomes.len() >= 1,
    ensures
        run_spec(max_retries, outcomes) == Some((1int, candidate_code_spec(outcomes[0]))),
{
}

/// Law: spawn failures fall back to exit code `1`. If no attempt can be
/// spawned, every unit of the budget (at least one) is consumed and the
/// program reports the fallback code.
pub proof fn lemma_spawn_failure_fallback(max_retries: int, outcomes: Seq<ExecutionOutcome>)
    requires
        outcomes.len() >= 1,
        outcomes.len() >= max_retries,
        forall|j: int| 0 <= j < outcomes.len() ==> outcomes[j] == ExecutionOutcome::SpawnFailed,
    ensures
        run_spec(max_retries, outcomes) == Some(
            (if max_retries <= 1 { 1int } else { max_retries }, DEFAULT_ERROR_CODE as int),
        ),
    decreases max_retries,
{
    if max_retries > 1 {
        assert forall|j: int| 0 <= j < outcomes.drop_first().len() implies outcomes.drop_first()[j]
            == ExecutionOutcome::SpawnFailed by {
            assert(outcomes.drop_first()[j] == outcomes[j + 1]);
        }
        lemma_spawn_failure_fallback(max_retries - 1, outcomes.drop_first());
    }
}

/// Law: the retry budget is monotonic. A step taken from an attempting state
/// either ends the run or strictly decreases `retries_left`; it never
/// increases it.
pub proof fn lemma_budget_never_increases(retries_left: i32, o: ExecutionOutcome)
    ensures
        step_spec(RunnerState::Attempting(retries_left), o) matches RunnerState::Attempting(m)
            ==> m < retries_left,
{
}

/// Law: replaying outcomes is the same as iterating the state machine. The
/// first outcome either ends the run as [`step_spec`] says, or the run goes
/// on with the stepped budget and one attempt on the books.
pub proof fn lemma_run_follows_steps(retries_left: i32, outcomes: Seq<ExecutionOutcome>)
    requires
        outcomes.len() >= 1,
    ensures
        run_spec(retries_left as int, outcomes) == (match step_spec(
            RunnerState::Attempting(retries_left),
            outcomes[0],
        ) {
            RunnerState::Succeeded => Some((1int, DEFAULT_SUCCESS_CODE as int)),
            RunnerState::Failed(code) => Some((1int, code as int)),
            RunnerState::Attempting(m) => shift_attempts(
                run_spec(m as int, outcomes.drop_first()),
                1,
            ),
        }),
{
}

/// Law: a run never makes more attempts than the budget allows; it always
/// makes at least one.
pub proof fn lemma_attempts_within_budget(retries_left: int, outcomes: Seq<ExecutionOutcome>)
    ensures
        run_spec(retries_left, outcomes) matches Some(p) ==> 1 <= p.0 <= (if retries_left <= 1 {
            1int
        } else {
            retries_left
        }),
    decreases outcomes.len(),
{
    if outcomes.len() > 0 && candidate_code_spec(outcomes[0]) != DEFAULT_SUCCESS_CODE as int
        && retries_left > 1 {
        lemma_attempts_within_budget(retries_left - 1, outcomes.drop_first());
    }
}

/// Runs the retry loop against a pre-recorded sequence of attempt outcomes:
/// the pure counterpart of the live loop, with the spawning of processes
/// replaced by reading the next outcome. Returns `None` when the outcomes
/// run out before the loop terminates.
pub fn run_to_completion(max_retries: i32, outcomes: &Vec<ExecutionOutcome>) -> (r: Option<
    ExecutionResult,
>)
    ensures
        (match r {
            Some(res) => run_spec(max_retries as int, outcomes@) == Some(
                (res.attempts as int, res.code as int),
            ),
            None => run_spec(max_retries as int, outcomes@) is None,
        }),
{
    let mut retries_left: i32 = max_retries;
    let mut i: usize = 0;
    proof {
        assert(outcomes@.skip(0) =~= outcomes@);
        let r0 = run_spec(max_retries as int, outcomes@);
        assert(shift_attempts(r0, 0) == r0);
    }
    loop
        invariant
            i <= outcomes.len(),
            run_spec(max_retries as int, outcomes@) == shift_attempts(
                run_spec(retries_left as int, outcomes@.skip(i as int)),
                i as int,
            ),
        decreases outcomes.len() - i,
    {
        if i >= outcomes.len() {
            proof {
                assert(outcomes@.skip(i as int) =~= Seq::<ExecutionOutcome>::empty());
            }
            return None;
        }
        let code = candidate_code(&outcomes[i]);
        proof {
            assert(outcomes@.skip(i as int)[0] == outcomes@[i as int]);
            assert(outcomes@.skip(i as int).drop_first() =~= outcomes@.skip(i as int + 1));
        }
        if code == DEFAULT_SUCCESS_CODE {
            return Some(ExecutionResult { attempts: i + 1, code: DEFAULT_SUCCESS_CODE });
        }
        if retries_left > 1 {
            retries_left = retries_left - 1;
            i = i + 1;
        } else {
            return Some(ExecutionResult { attempts: i + 1, code });
        }
    }
}

} // verus!

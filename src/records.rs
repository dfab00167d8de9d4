use vstd::prelude::*;

use crate::state::{is_passed_prefix, passed_prefix, CaseStatus, JobState, JobView};

verus! {

/// Most recent runs kept per user and problem.
pub const MAX_RUNS_PER_USER: i64 = 25;

/// A judging run as it is kept in the history.
#[derive(Debug)]
pub struct RunRecord {
    pub problem_id: i64,
    pub user_id: i64,
    /// Cases that ran and passed, from the first on: those before the first
    /// failure, or before a cancellation stopped the run.
    pub amount_run: i64,
    pub program: String,
    pub language: String,
    pub total_cases: i64,
    /// Message of the first failure.
    pub error: Option<String>,
    /// When the run started, in seconds since the epoch.
    pub ran_at: i64,
}

impl RunRecord {
    /// The record of a finished run in state `state`.
    pub fn from_job_state(
        problem_id: i64,
        user_id: i64,
        program: String,
        language: String,
        state: &JobState,
        ran_at: i64,
    ) -> (r: Self)
        requires
            state@.len() <= i64::MAX,
        ensures
            r.problem_id == problem_id,
            r.user_id == user_id,
            r.program == program,
            r.language == language,
            r.ran_at == ran_at,
            r.amount_run == state@.amount_run(),
            r.total_cases == state@.len(),
            r.error == state@.last_error().2,
    {
        let (_, _, error) = state.last_error();
        let amount_run = state.amount_run();
        RunRecord {
            problem_id,
            user_id,
            amount_run: amount_run as i64,
            program,
            language,
            total_cases: state.len() as i64,
            error,
            ran_at,
        }
    }

    /// Whether every case ran and passed: a run stopped early by a failure or
    /// a cancellation ran fewer cases than it has.
    pub fn success(&self) -> (r: bool)
        ensures
            r == (self.amount_run == self.total_cases),
    {
        self.amount_run == self.total_cases
    }
}

/// Number of the oldest runs to drop so that `count` runs of one user and
/// problem keep within the limit.
pub fn excess_runs(count: i64) -> (r: i64)
    ensures
        count > MAX_RUNS_PER_USER ==> r == count - MAX_RUNS_PER_USER,
        count <= MAX_RUNS_PER_USER ==> r == 0,
{
    if count > MAX_RUNS_PER_USER {
        count - MAX_RUNS_PER_USER
    } else {
        0
    }
}

/// A participant's standing on one problem: when it was first solved, and
/// the penalized failures before that.
#[derive(Debug, Clone, Copy, PartialEq, Eq, Structural)]
pub struct ProblemCompletion {
    pub participant_id: i64,
    pub problem_id: i64,
    /// When the problem was first solved, in seconds since the epoch.
    pub completed_at: Option<i64>,
    pub number_wrong: i64,
}

/// The standing after an attempt: the first success sets the completion
/// time; a penalized failure before any success counts one more wrong attempt.
pub open spec fn after_attempt(c: ProblemCompletion, success: bool, penalized: bool, ran_at: i64) -> ProblemCompletion {
    if c.completed_at is Some {
        c
    } else if success {
        ProblemCompletion { completed_at: Some(ran_at), ..c }
    } else if penalized {
        ProblemCompletion { number_wrong: (c.number_wrong + 1) as i64, ..c }
    } else {
        c
    }
}

/// The participant's id, where there is one.
pub open spec fn participant_id_of(participant: Option<(i64, bool)>) -> i64 {
    match participant {
        Some(p) => p.0,
        None => 0,
    }
}

/// What is written once a judging run of a participant ends.
#[derive(Debug)]
pub struct Persistence {
    pub run: RunRecord,
    pub completion: ProblemCompletion,
    /// The attempt solved the problem for the first time: standings change.
    pub newly_completed: bool,
}

/// What to write once a run in state `state` ends: nothing for a test run, nor
/// where the contest is missing or not running (`contest_running`), nor where
/// the user is no participant or a judge (`participant`: id and judge flag).
/// Otherwise the run record and the standing after the attempt, starting from
/// `existing` or from an empty standing.
pub fn plan_persistence(
    state: &JobState,
    problem_id: i64,
    user_id: i64,
    program: String,
    language: String,
    ran_at: i64,
    contest_running: Option<bool>,
    participant: Option<(i64, bool)>,
    existing: Option<ProblemCompletion>,
) -> (r: Option<Persistence>)
    requires
        state@.len() <= i64::MAX,
        existing matches Some(c) ==> c.number_wrong < i64::MAX,
    ensures
        r is Some <==> (state@ is Judging && contest_running == Some(true) && (participant matches Some(
            p,
        ) && !p.1)),
        r matches Some(plan) ==> {
            let base = match existing {
                Some(c) => c,
                None => ProblemCompletion {
                    participant_id: participant_id_of(participant),
                    problem_id,
                    completed_at: None,
                    number_wrong: 0,
                },
            };
            let success = state@.succeeded();
            &&& plan.run.problem_id == problem_id
            &&& plan.run.user_id == user_id
            &&& plan.run.program == program
            &&& plan.run.language == language
            &&& plan.run.ran_at == ran_at
            &&& plan.run.amount_run == state@.amount_run()
            &&& plan.run.total_cases == state@.len()
            &&& plan.run.error == state@.last_error().2
            &&& plan.completion == after_attempt(base, success, state@.last_error().1, ran_at)
            &&& plan.newly_completed == (base.completed_at is None && success)
        },
{
    if let JobState::Testing { .. } = state {
        return None;
    }
    match contest_running {
        Some(true) => {},
        _ => {
            return None;
        },
    }
    let (participant_id, is_judge) = match participant {
        Some(p) => p,
        None => {
            return None;
        },
    };
    if is_judge {
        return None;
    }
    let (_, penalized, _) = state.last_error();
    let run = RunRecord::from_job_state(problem_id, user_id, program, language, state, ran_at);
    let success = state.succeeded();
    let base = match existing {
        Some(c) => c,
        None => ProblemCompletion { participant_id, problem_id, completed_at: None, number_wrong: 0 },
    };
    let newly_completed = base.completed_at.is_none() && success;
    let completion = if base.completed_at.is_some() {
        base
    } else if success {
        ProblemCompletion { completed_at: Some(ran_at), ..base }
    } else if penalized {
        ProblemCompletion { number_wrong: base.number_wrong + 1, ..base }
    } else {
        base
    };
    Some(Persistence { run, completion, newly_completed })
}

/// A run that did not complete, such as one cancelled between cases, is no
/// success: it records only the cases that passed before it stopped, and it
/// neither sets the completion time nor counts as a new completion.
pub proof fn lemma_unfinished_run_completes_nothing(
    v: JobView,
    c: ProblemCompletion,
    penalized: bool,
    ran_at: i64,
)
    requires
        !v.is_complete(),
    ensures
        !v.succeeded(),
        after_attempt(c, v.succeeded(), penalized, ran_at).completed_at == c.completed_at,
        !(c.completed_at is None && v.succeeded()),
{
}

/// Every list of cases has a passed prefix at least `k` long where its first
/// `k` cases passed.
proof fn lemma_passed_prefix_exists(cases: Seq<CaseStatus>, k: int)
    requires
        0 <= k <= cases.len(),
        forall|j: int| 0 <= j < k ==> #[trigger] cases[j] is Passed,
    ensures
        exists|m: int| is_passed_prefix(cases, m),
    decreases cases.len() - k,
{
    if k == cases.len() || !(cases[k] is Passed) {
        assert(is_passed_prefix(cases, k));
    } else {
        lemma_passed_prefix_exists(cases, k + 1);
    }
}

/// The record of a successful run counts every case as run, and a record
/// that counts every case as run comes from a run in which every case passed.
pub proof fn lemma_success_counts_every_case(v: JobView)
    ensures
        v.succeeded() ==> v.amount_run() == v.len(),
        v is Judging && v.amount_run() == v.len() ==> forall|j: int|
            0 <= j < v.len() ==> #[trigger] v->Judging_cases[j] is Passed,
{
    if let JobView::Judging { cases, .. } = v {
        if passed_prefix(cases) == cases.len() {
            if exists|k: int| is_passed_prefix(cases, k) {
                let k = choose|k: int| is_passed_prefix(cases, k);
                assert(is_passed_prefix(cases, k));
            } else {
                lemma_passed_prefix_exists(cases, 0);
            }
        }
    }
}

} // verus!

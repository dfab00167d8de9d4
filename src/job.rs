use vstd::prelude::*;
use vstd::string::StringExecFns;

use crate::cases::TestCase;
use crate::runner::{CaseError, Runner};
use crate::state::{CaseStatus, JobState, JobView};

verus! {

/// What a job does: judge against every case, or run once on an input.
#[derive(Debug)]
pub enum JobOperation {
    Judging(Vec<TestCase>),
    Testing(String),
}

/// A copy of `cases`.
pub fn clone_cases(cases: &Vec<TestCase>) -> (r: Vec<TestCase>)
    ensures
        r@ == cases@,
{
    let mut copy: Vec<TestCase> = Vec::new();
    let mut i: usize = 0;
    while i < cases.len()
        invariant
            i <= cases@.len(),
            copy@ == cases@.subrange(0, i as int),
        decreases cases@.len() - i,
    {
        copy.push(cases[i].clone());
        i = i + 1;
    }
    assert(cases@.subrange(0, cases@.len() as int) == cases@);
    copy
}

/// A request to run a program, from a user already allowed to submit it.
#[derive(Debug)]
pub struct JobRequest {
    pub user_id: i64,
    pub problem_id: i64,
    pub contest_id: i64,
    pub program: String,
    /// Key of the language in the runner's configuration.
    pub language: String,
    /// CPU time allowed to each run, in seconds.
    pub cpu_time: i64,
    pub op: JobOperation,
}

/// The next thing a job asks of whoever drives it.
#[derive(Debug, PartialEq, Eq, Structural)]
pub enum JobStep {
    /// Compile the program.
    Compile,
    /// Run the case of this index.
    RunCase(usize),
    /// Run the program once on the test input.
    RunTest,
    /// Stop: the job is over.
    Finish,
}

/// `s` is the failed status that the error `e` is recorded as.
pub open spec fn failure_status(e: CaseError, s: CaseStatus) -> bool {
    s matches CaseStatus::Failed(p, m) && p == e.penalized() && m@ == e.message()
}

/// `s` is the status that a case's outcome is recorded as: passed, without
/// the output, or the failure of its error.
pub open spec fn case_status(result: Result<String, CaseError>, s: CaseStatus) -> bool {
    match result {
        Ok(_) => s == CaseStatus::Passed(None),
        Err(e) => failure_status(e, s),
    }
}

/// `s` is the status that a test run's outcome is recorded as: passed with
/// its output, a penalized failure that quotes a runtime error, or the failure
/// of any other error.
pub open spec fn test_status(result: Result<String, CaseError>, s: CaseStatus) -> bool {
    match result {
        Ok(out) => s == CaseStatus::Passed(Some(out)),
        Err(CaseError::Runtime(msg)) => s matches CaseStatus::Failed(p, m) && p && m@
            == test_runtime_message(msg@),
        Err(e) => failure_status(e, s),
    }
}

/// The state of a fresh job for `op`: every case pending.
pub open spec fn initial_view(op: JobOperation) -> JobView {
    match op {
        JobOperation::Judging(cases) => JobView::Judging {
            cases: Seq::new(cases.len() as nat, |_i: int| CaseStatus::Pending),
            complete: false,
        },
        JobOperation::Testing(_) => JobView::Testing { status: CaseStatus::Pending },
    }
}

/// The message recorded where a test run fails at run time.
pub open spec fn test_runtime_message(msg: Seq<char>) -> Seq<char> {
    "Runtime Error: "@ + msg
}

/// One run of a program: its state, the runner that executes it (absent where
/// none could be made), and when it started.
#[derive(Debug)]
pub struct Job {
    id: u64,
    user_id: i64,
    runner: Option<Runner>,
    op: JobOperation,
    state: JobState,
    started_at: i64,
}

impl Job {
    pub closed spec fn spec_op(&self) -> JobOperation {
        self.op
    }

    pub closed spec fn spec_state(&self) -> JobView {
        self.state@
    }

    pub closed spec fn has_runner(&self) -> bool {
        self.runner is Some
    }

    pub closed spec fn spec_runner(&self) -> Runner {
        self.runner->0
    }

    pub closed spec fn spec_id(&self) -> u64 {
        self.id
    }

    pub closed spec fn spec_user_id(&self) -> i64 {
        self.user_id
    }

    pub closed spec fn spec_started_at(&self) -> i64 {
        self.started_at
    }

    /// The state has the shape of the operation.
    pub open spec fn wf(&self) -> bool {
        match self.spec_op() {
            JobOperation::Judging(cases) => self.spec_state() is Judging && self.spec_state().len()
                == cases.len() && cases.len() > 0,
            JobOperation::Testing(_) => self.spec_state() is Testing,
        }
    }

    /// Case `idx` is the one running, and the run is not complete.
    pub open spec fn runs_case(&self, idx: int) -> bool {
        &&& self.wf()
        &&& self.has_runner()
        &&& self.spec_state() is Judging
        &&& 0 <= idx < self.spec_state().len()
        &&& self.spec_state()->Judging_cases[idx] is Running
        &&& !self.spec_state().is_complete()
    }

    /// The test run is running.
    pub open spec fn runs_test(&self) -> bool {
        &&& self.wf()
        &&& self.has_runner()
        &&& self.spec_state() == (JobView::Testing { status: CaseStatus::Running })
    }

    /// A job for `request`, with the runner made for it or the error that
    /// prevented it, started at `started_at`. Without a runner, the first case
    /// fails at once with a judge failure and the job never runs.
    pub fn new(id: u64, request: JobRequest, runner: Result<Runner, CaseError>, started_at: i64) -> (r:
        Self)
        requires
            request.op matches JobOperation::Judging(cases) ==> cases.len() > 0,
        ensures
            r.wf(),
            r.spec_id() == id,
            r.spec_op() == request.op,
            r.spec_user_id() == request.user_id,
            r.spec_started_at() == started_at,
            r.has_runner() == runner is Ok,
            runner matches Ok(rn) ==> r.spec_runner() == rn,
            runner is Ok ==> r.spec_state() == initial_view(request.op),
            runner is Err ==> r.spec_state().is_complete(),
            runner is Err ==> exists|m: String|
                m@ == "Couldn't create runner"@ && r.spec_state() == initial_view(request.op).completed(
                    0,
                    CaseStatus::Failed(false, m),
                ),
    {
        let mut state = match &request.op {
            JobOperation::Judging(cases) => JobState::new_judging(cases.len()),
            JobOperation::Testing(_) => JobState::new_testing(),
        };
        let runner = match runner {
            Ok(rn) => Some(rn),
            Err(_) => {
                let m = String::from_str("Couldn't create runner");
                state.complete_case(0, CaseStatus::Failed(false, m));
                None
            },
        };
        Job { id, user_id: request.user_id, runner, op: request.op, state, started_at }
    }

    /// The current state.
    pub fn state(&self) -> (r: &JobState)
        ensures
            r@ == self.spec_state(),
    {
        &self.state
    }

    /// The job's number.
    pub fn id(&self) -> (r: u64)
        ensures
            r == self.spec_id(),
    {
        self.id
    }

    /// The user who asked for the job.
    pub fn user_id(&self) -> (r: i64)
        ensures
            r == self.spec_user_id(),
    {
        self.user_id
    }

    /// When the job started.
    pub fn started_at(&self) -> (r: i64)
        ensures
            r == self.spec_started_at(),
    {
        self.started_at
    }

    /// The operation.
    pub fn op(&self) -> (r: &JobOperation)
        ensures
            *r == self.spec_op(),
    {
        &self.op
    }

    /// The runner, where one was made.
    pub fn runner(&self) -> (r: Option<&Runner>)
        ensures
            r is Some == self.has_runner(),
            r matches Some(rn) ==> *rn == self.spec_runner(),
    {
        match &self.runner {
            Some(rn) => Some(rn),
            None => None,
        }
    }

    /// Starts the job: without a runner it finishes at once; otherwise the first
    /// case is set running and the program is compiled first where its language
    /// asks for it.
    pub fn start(&mut self) -> (r: JobStep)
        requires
            old(self).wf(),
            old(self).has_runner() ==> !old(self).spec_state().is_complete(),
        ensures
            final(self).wf(),
            final(self).spec_op() == old(self).spec_op(),
            final(self).has_runner() == old(self).has_runner(),
            final(self).has_runner() ==> final(self).spec_runner() == old(self).spec_runner(),
            final(self).spec_started_at() == old(self).spec_started_at(),
            final(self).spec_user_id() == old(self).spec_user_id(),
            final(self).spec_id() == old(self).spec_id(),
            !old(self).has_runner() ==> r == JobStep::Finish && final(self).spec_state() == old(
                self,
            ).spec_state(),
            old(self).has_runner() ==> final(self).spec_state() == old(self).spec_state().started(),
            old(self).has_runner() && old(self).spec_runner().spec_compile_cmd().len() > 0 ==> r
                == JobStep::Compile,
            old(self).has_runner() && old(self).spec_runner().spec_compile_cmd().len() == 0
                && old(self).spec_op() is Judging ==> r == JobStep::RunCase(0),
            old(self).has_runner() && old(self).spec_runner().spec_compile_cmd().len() == 0
                && old(self).spec_op() is Testing ==> r == JobStep::RunTest,
            r == JobStep::Compile ==> final(self).wf() && final(self).has_runner(),
            r matches JobStep::RunCase(i) ==> final(self).runs_case(i as int),
            r == JobStep::RunTest ==> final(self).runs_test(),
    {
        let needs_compile = match &self.runner {
            None => {
                return JobStep::Finish;
            },
            Some(rn) => rn.needs_compile(),
        };
        self.state.start_first();
        if needs_compile {
            JobStep::Compile
        } else {
            self.first_run()
        }
    }

    /// Records the compile step: where it failed, the first case fails with the
    /// compile error and the job finishes; otherwise the first run is asked for.
    pub fn record_compile(&mut self, result: Result<(), CaseError>) -> (r: JobStep)
        requires
            old(self).runs_case(0) || old(self).runs_test(),
        ensures
            final(self).wf(),
            final(self).spec_op() == old(self).spec_op(),
            final(self).has_runner(),
            final(self).spec_runner() == old(self).spec_runner(),
            final(self).spec_started_at() == old(self).spec_started_at(),
            final(self).spec_user_id() == old(self).spec_user_id(),
            final(self).spec_id() == old(self).spec_id(),
            result is Ok ==> final(self).spec_state() == old(self).spec_state(),
            result is Ok && old(self).spec_op() is Judging ==> r == JobStep::RunCase(0)
                && final(self).runs_case(0),
            result is Ok && old(self).spec_op() is Testing ==> r == JobStep::RunTest
                && final(self).runs_test(),
            result matches Err(e) ==> (r == JobStep::Finish && exists|s: CaseStatus|
                failure_status(e, s) && final(self).spec_state() == old(self).spec_state().completed(
                    0,
                    s,
                )),
    {
        match result {
            Ok(()) => self.first_run(),
            Err(e) => {
                let ghost err = e;
                let s = e.into_status();
                let ghost st = s;
                self.state.complete_case(0, s);
                assert(failure_status(err, st));
                JobStep::Finish
            },
        }
    }

    /// Records the outcome of case `idx`, and whether cancellation was asked
    /// for meanwhile. The job finishes once the run is complete or cancelled;
    /// otherwise the next case is asked for. A cancellation that stops an
    /// incomplete run starts no further case: the next case stays as it was.
    pub fn record_case(&mut self, idx: usize, result: Result<String, CaseError>, cancelled: bool) -> (r:
        JobStep)
        requires
            old(self).runs_case(idx as int),
        ensures
            final(self).wf(),
            final(self).spec_op() == old(self).spec_op(),
            final(self).has_runner(),
            final(self).spec_runner() == old(self).spec_runner(),
            final(self).spec_started_at() == old(self).spec_started_at(),
            final(self).spec_user_id() == old(self).spec_user_id(),
            final(self).spec_id() == old(self).spec_id(),
            exists|s: CaseStatus|
                case_status(result, s) && if cancelled && !old(self).spec_state().completed(
                    idx as int,
                    s,
                ).is_complete() {
                    final(self).spec_state() == (JobView::Judging {
                        cases: old(self).spec_state()->Judging_cases.update(idx as int, s),
                        complete: false,
                    })
                } else {
                    final(self).spec_state() == old(self).spec_state().completed(idx as int, s)
                },
            final(self).spec_state().is_complete() || cancelled ==> r == JobStep::Finish,
            !final(self).spec_state().is_complete() && !cancelled ==> r == JobStep::RunCase(
                (idx + 1) as usize,
            ) && final(self).runs_case(idx + 1),
    {
        let status = match result {
            Ok(_) => CaseStatus::Passed(None),
            Err(e) => e.into_status(),
        };
        let ghost st = status;
        assert(case_status(result, st));
        let next = match &self.state {
            JobState::Judging { cases, .. } => if idx + 1 < cases.len() {
                Some(cases[idx + 1].clone())
            } else {
                None
            },
            JobState::Testing { .. } => None,
        };
        self.state.complete_case(idx, status);
        assert(self.state@ == old(self).spec_state().completed(idx as int, st));
        if self.state.complete() {
            JobStep::Finish
        } else if cancelled {
            if let (JobState::Judging { cases, .. }, Some(n)) = (&mut self.state, next) {
                cases.set(idx + 1, n);
            }
            proof {
                let c = old(self).spec_state()->Judging_cases;
                assert(self.state@->Judging_cases == c.update(idx as int, st));
            }
            JobStep::Finish
        } else {
            proof {
                let v = old(self).spec_state();
                assert(idx + 1 < v.len());
            }
            JobStep::RunCase(idx + 1)
        }
    }

    /// Records the outcome of the test run; the job then finishes.
    pub fn record_test(&mut self, result: Result<String, CaseError>) -> (r: JobStep)
        requires
            old(self).runs_test(),
        ensures
            final(self).wf(),
            final(self).spec_op() == old(self).spec_op(),
            final(self).has_runner(),
            final(self).spec_runner() == old(self).spec_runner(),
            final(self).spec_started_at() == old(self).spec_started_at(),
            final(self).spec_user_id() == old(self).spec_user_id(),
            final(self).spec_id() == old(self).spec_id(),
            r == JobStep::Finish,
            exists|s: CaseStatus|
                test_status(result, s) && final(self).spec_state() == (JobView::Testing { status: s }),
    {
        let status = match result {
            Ok(out) => CaseStatus::Passed(Some(out)),
            Err(CaseError::Runtime(msg)) => {
                let mut m = String::from_str("Runtime Error: ");
                m.append(msg.as_str());
                CaseStatus::Failed(true, m)
            },
            Err(e) => e.into_status(),
        };
        let ghost st = status;
        assert(test_status(result, st));
        self.state.complete_case(0, status);
        JobStep::Finish
    }

    /// Ends the job: its final state, when it started, and its runner for cleanup.
    pub fn finish(self) -> (r: (JobState, i64, Option<Runner>))
        ensures
            r.0@ == self.spec_state(),
            r.1 == self.spec_started_at(),
            r.2 is Some == self.has_runner(),
            r.2 matches Some(rn) ==> rn == self.spec_runner(),
    {
        (self.state, self.started_at, self.runner)
    }

    /// The first run that the operation asks for.
    fn first_run(&self) -> (r: JobStep)
        ensures
            self.spec_op() is Judging ==> r == JobStep::RunCase(0),
            self.spec_op() is Testing ==> r == JobStep::RunTest,
    {
        match &self.op {
            JobOperation::Judging(_) => JobStep::RunCase(0),
            JobOperation::Testing(_) => JobStep::RunTest,
        }
    }
}

} // verus!

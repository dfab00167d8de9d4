use vstd::prelude::*;

verus! {

/// Status of one test case.
#[derive(Debug)]
pub enum CaseStatus {
    Pending,
    Running,
    /// Passed, with the captured output where it is kept (test runs).
    Passed(Option<String>),
    NotRun,
    /// Failed: whether the failure counts against the submitter, and a message.
    Failed(bool, String),
}

impl Clone for CaseStatus {
    fn clone(&self) -> (r: Self)
        ensures
            r == *self,
    {
        match self {
            CaseStatus::Pending => CaseStatus::Pending,
            CaseStatus::Running => CaseStatus::Running,
            CaseStatus::Passed(out) => CaseStatus::Passed(
                match out {
                    Some(o) => Some(o.clone()),
                    None => None,
                },
            ),
            CaseStatus::NotRun => CaseStatus::NotRun,
            CaseStatus::Failed(p, m) => CaseStatus::Failed(*p, m.clone()),
        }
    }
}

impl CaseStatus {
    /// The name of the variant.
    pub fn to_name(&self) -> (r: &'static str)
        ensures
            r@ == self.spec_name(),
    {
        match self {
            CaseStatus::Pending => "Pending",
            CaseStatus::Running => "Running",
            CaseStatus::Passed(_) => "Passed",
            CaseStatus::NotRun => "NotRun",
            CaseStatus::Failed(..) => "Failed",
        }
    }

    pub open spec fn spec_name(&self) -> Seq<char> {
        match self {
            CaseStatus::Pending => "Pending"@,
            CaseStatus::Running => "Running"@,
            CaseStatus::Passed(_) => "Passed"@,
            CaseStatus::NotRun => "NotRun"@,
            CaseStatus::Failed(..) => "Failed"@,
        }
    }

    /// A status after which the case needs no more work.
    pub open spec fn is_terminal(&self) -> bool {
        self is Passed || self is Failed || self is NotRun
    }
}

/// Progress of a job: every case of a judging run, or the single status of a test run.
#[derive(Debug)]
pub enum JobState {
    Judging { cases: Vec<CaseStatus>, complete: bool },
    Testing { status: CaseStatus },
}

/// Mathematical model of a [`JobState`].
pub enum JobView {
    Judging { cases: Seq<CaseStatus>, complete: bool },
    Testing { status: CaseStatus },
}

/// `i` is the index of the first failed case of `cases`.
pub open spec fn is_first_failure(cases: Seq<CaseStatus>, i: int) -> bool {
    &&& 0 <= i < cases.len()
    &&& cases[i] is Failed
    &&& forall|j: int| 0 <= j < i ==> !(#[trigger] cases[j] is Failed)
}

/// At most one index is the first failure.
pub proof fn lemma_first_failure_unique(cases: Seq<CaseStatus>, i: int)
    requires
        is_first_failure(cases, i),
    ensures
        first_failure(cases) == i,
{
    let k = first_failure(cases);
    assert(is_first_failure(cases, k));
    if k < i {
        assert(!(cases[k] is Failed));
    } else if k > i {
        assert(!(cases[i] is Failed));
    }
}

/// Index of the first failed case of `cases`, or its length if none failed.
pub open spec fn first_failure(cases: Seq<CaseStatus>) -> int {
    if exists|i: int| is_first_failure(cases, i) {
        choose|i: int| is_first_failure(cases, i)
    } else {
        cases.len() as int
    }
}

/// The first `k` cases passed, and case `k`, where there is one, did not.
pub open spec fn is_passed_prefix(cases: Seq<CaseStatus>, k: int) -> bool {
    &&& 0 <= k <= cases.len()
    &&& forall|j: int| 0 <= j < k ==> #[trigger] cases[j] is Passed
    &&& (k == cases.len() || !(cases[k] is Passed))
}

/// Number of cases that passed before the first case that did not.
pub open spec fn passed_prefix(cases: Seq<CaseStatus>) -> int {
    if exists|k: int| is_passed_prefix(cases, k) {
        choose|k: int| is_passed_prefix(cases, k)
    } else {
        cases.len() as int
    }
}

/// At most one count is the passed prefix.
pub proof fn lemma_passed_prefix_unique(cases: Seq<CaseStatus>, k: int)
    requires
        is_passed_prefix(cases, k),
    ensures
        passed_prefix(cases) == k,
{
    let m = passed_prefix(cases);
    assert(is_passed_prefix(cases, m));
    if m < k {
        assert(cases[m] is Passed);
    } else if m > k {
        assert(cases[k] is Passed);
    }
}

impl JobView {
    pub open spec fn len(self) -> nat {
        match self {
            JobView::Judging { cases, .. } => cases.len(),
            JobView::Testing { .. } => 1,
        }
    }

    pub open spec fn is_complete(self) -> bool {
        match self {
            JobView::Judging { complete, .. } => complete,
            JobView::Testing { status } => status.is_terminal(),
        }
    }

    /// The first case is set running.
    pub open spec fn started(self) -> JobView {
        match self {
            JobView::Judging { cases, complete } => JobView::Judging {
                cases: cases.update(0, CaseStatus::Running),
                complete,
            },
            JobView::Testing { .. } => JobView::Testing { status: CaseStatus::Running },
        }
    }

    /// Case `idx` finished with `status`. In a judging run the next case starts,
    /// or, after the last case or a failure, the run is complete and every later
    /// case is marked not run.
    pub open spec fn completed(self, idx: int, status: CaseStatus) -> JobView {
        match self {
            JobView::Judging { cases, complete } => {
                let n = cases.len() as int;
                if idx == n - 1 {
                    JobView::Judging { cases: cases.update(idx, status), complete: true }
                } else if status is Failed {
                    JobView::Judging {
                        cases: Seq::new(
                            n as nat,
                            |j: int|
                                if j < idx {
                                    cases[j]
                                } else if j == idx {
                                    status
                                } else {
                                    CaseStatus::NotRun
                                },
                        ),
                        complete: true,
                    }
                } else {
                    JobView::Judging {
                        cases: cases.update(idx + 1, CaseStatus::Running).update(idx, status),
                        complete,
                    }
                }
            },
            JobView::Testing { .. } => JobView::Testing { status },
        }
    }

    /// Number of cases that ran and passed, from the first on: in a
    /// cancelled run, only those that finished before the cancellation.
    pub open spec fn amount_run(self) -> int {
        match self {
            JobView::Judging { cases, .. } => passed_prefix(cases),
            JobView::Testing { status } => if status is Passed { 1 } else { 0 },
        }
    }

    /// The run is over and every case passed.
    pub open spec fn succeeded(self) -> bool {
        match self {
            JobView::Judging { .. } => self.is_complete() && self.last_error().0 == self.len()
                && self.amount_run() == self.len(),
            JobView::Testing { status } => status is Passed,
        }
    }

    /// Index of the first failure (the length if none), whether it is
    /// penalized, and its message.
    pub open spec fn last_error(self) -> (int, bool, Option<String>) {
        match self {
            JobView::Judging { cases, .. } => {
                let i = first_failure(cases);
                match if 0 <= i < cases.len() { cases[i] } else { CaseStatus::Pending } {
                    CaseStatus::Failed(p, m) => (i, p, Some(m)),
                    _ => (cases.len() as int, false, None),
                }
            },
            JobView::Testing { status } => match status {
                CaseStatus::Failed(p, m) => (0, p, Some(m)),
                _ => (0, false, None),
            },
        }
    }
}

impl Clone for JobState {
    fn clone(&self) -> (r: Self)
        ensures
            r@ == self@,
    {
        match self {
            JobState::Judging { cases, complete } => {
                let mut copy: Vec<CaseStatus> = Vec::new();
                let mut i: usize = 0;
                while i < cases.len()
                    invariant
                        i <= cases@.len(),
                        copy@ == cases@.subrange(0, i as int),
                    decreases cases@.len() - i,
                {
                    copy.push(cases[i].clone());
                    i = i + 1;
                }
                assert(cases@.subrange(0, cases@.len() as int) == cases@);
                JobState::Judging { cases: copy, complete: *complete }
            },
            JobState::Testing { status } => JobState::Testing { status: status.clone() },
        }
    }
}

impl JobState {
    /// A judging run over `cases` cases, all pending.
    pub fn new_judging(cases: usize) -> (r: Self)
        ensures
            r@ == (JobView::Judging {
                cases: Seq::new(cases as nat, |_i: int| CaseStatus::Pending),
                complete: false,
            }),
    {
        let mut v: Vec<CaseStatus> = Vec::new();
        let mut i: usize = 0;
        while i < cases
            invariant
                i <= cases,
                v@ == Seq::new(i as nat, |_i: int| CaseStatus::Pending),
            decreases cases - i,
        {
            v.push(CaseStatus::Pending);
            i = i + 1;
        }
        JobState::Judging { cases: v, complete: false }
    }

    /// A test run, pending.
    pub fn new_testing() -> (r: Self)
        ensures
            r@ == (JobView::Testing { status: CaseStatus::Pending }),
    {
        JobState::Testing { status: CaseStatus::Pending }
    }

    /// Index of the first failure (the number of cases if none failed),
    /// whether that failure is penalized, and its message.
    pub fn last_error(&self) -> (r: (usize, bool, Option<String>))
        ensures
            (r.0 as int, r.1, r.2) == self@.last_error(),
    {
        match self {
            JobState::Judging { cases, .. } => {
                let mut i: usize = 0;
                while i < cases.len()
                    invariant
                        self@ is Judging,
                        self@->Judging_cases == cases@,
                        i <= cases@.len(),
                        forall|j: int| 0 <= j < i ==> !(#[trigger] cases@[j] is Failed),
                    decreases cases@.len() - i,
                {
                    if let CaseStatus::Failed(p, m) = &cases[i] {
                        proof {
                            lemma_first_failure_unique(cases@, i as int);
                        }
                        return (i, *p, Some(m.clone()));
                    }
                    i = i + 1;
                }
                assert(!exists|k: int| is_first_failure(cases@, k));
                (cases.len(), false, None)
            },
            JobState::Testing { status } => match status {
                CaseStatus::Failed(p, m) => (0, *p, Some(m.clone())),
                _ => (0, false, None),
            },
        }
    }

    /// Number of cases that ran and passed, from the first on.
    pub fn amount_run(&self) -> (r: usize)
        ensures
            r as int == self@.amount_run(),
            r as int <= self@.len(),
    {
        match self {
            JobState::Judging { cases, .. } => {
                let mut i: usize = 0;
                while i < cases.len() && matches!(cases[i], CaseStatus::Passed(_))
                    invariant
                        self@ is Judging,
                        self@->Judging_cases == cases@,
                        i <= cases@.len(),
                        forall|j: int| 0 <= j < i ==> #[trigger] cases@[j] is Passed,
                    decreases cases@.len() - i,
                {
                    i = i + 1;
                }
                proof {
                    lemma_passed_prefix_unique(cases@, i as int);
                }
                i
            },
            JobState::Testing { status } => match status {
                CaseStatus::Passed(_) => 1,
                _ => 0,
            },
        }
    }

    /// Whether the run is over and every case passed.
    pub fn succeeded(&self) -> (r: bool)
        ensures
            r == self@.succeeded(),
    {
        match self {
            JobState::Judging { .. } => {
                let (first_failure, _, _) = self.last_error();
                self.complete() && first_failure == self.len() && self.amount_run() == self.len()
            },
            JobState::Testing { status } => matches!(status, CaseStatus::Passed(_)),
        }
    }

    /// Number of cases: one for a test run.
    pub fn len(&self) -> (r: usize)
        ensures
            r as nat == self@.len(),
    {
        match self {
            JobState::Judging { cases, .. } => cases.len(),
            JobState::Testing { .. } => 1,
        }
    }

    /// Whether no further case will be started.
    pub fn complete(&self) -> (r: bool)
        ensures
            r == self@.is_complete(),
    {
        match self {
            JobState::Judging { complete, .. } => *complete,
            JobState::Testing { status } => match status {
                CaseStatus::Passed(_) | CaseStatus::Failed(..) | CaseStatus::NotRun => true,
                _ => false,
            },
        }
    }

    /// Sets the first case running.
    pub fn start_first(&mut self)
        requires
            old(self)@.len() > 0,
        ensures
            final(self)@ == old(self)@.started(),
    {
        match self {
            JobState::Judging { cases, .. } => {
                cases.set(0, CaseStatus::Running);
            },
            JobState::Testing { status } => {
                *status = CaseStatus::Running;
            },
        }
    }

    /// Records that case `idx` finished with `status` and moves the run on.
    pub fn complete_case(&mut self, idx: usize, status: CaseStatus)
        requires
            old(self)@ is Judging ==> idx < old(self)@.len(),
        ensures
            final(self)@ == old(self)@.completed(idx as int, status),
    {
        match self {
            JobState::Judging { cases, complete } => {
                let ghost before = cases@;
                if idx == cases.len() - 1 {
                    *complete = true;
                } else if matches!(status, CaseStatus::Failed(..)) {
                    let mut j: usize = idx + 1;
                    while j < cases.len()
                        invariant
                            idx < j <= cases@.len(),
                            cases@.len() == before.len(),
                            forall|k: int| 0 <= k < j ==> #[trigger] cases@[k] == before[k] || k > idx && cases@[k] == CaseStatus::NotRun,
                            forall|k: int| idx < k < j ==> #[trigger] cases@[k] == CaseStatus::NotRun,
                            forall|k: int| j <= k < cases@.len() ==> #[trigger] cases@[k] == before[k],
                            forall|k: int| 0 <= k <= idx ==> #[trigger] cases@[k] == before[k],
                        decreases cases@.len() - j,
                    {
                        cases.set(j, CaseStatus::NotRun);
                        j = j + 1;
                    }
                    *complete = true;
                } else {
                    cases.set(idx + 1, CaseStatus::Running);
                }
                cases.set(idx, status);
                proof {
                    let v = old(self)@.completed(idx as int, status);
                    assert(cases@ == v->Judging_cases);
                }
            },
            JobState::Testing { status: mine } => {
                *mine = status;
            },
        }
    }
}

impl View for JobState {
    type V = JobView;

    open spec fn view(&self) -> JobView {
        match self {
            JobState::Judging { cases, complete } => JobView::Judging {
                cases: cases@,
                complete: *complete,
            },
            JobState::Testing { status } => JobView::Testing { status: *status },
        }
    }
}

/// Completing the last case of a judging run, whatever its status, completes the run.
pub proof fn lemma_last_case_completes(v: JobView, status: CaseStatus)
    requires
        v is Judging,
        v.len() > 0,
    ensures
        v.completed(v.len() - 1, status).is_complete(),
{
}

/// Completing a case before the last one with a failure completes the run at once
/// and marks every later case not run, so no later case is ever started.
pub proof fn lemma_failure_stops_run(v: JobView, idx: int, status: CaseStatus)
    requires
        v is Judging,
        0 <= idx < v.len() - 1,
        status is Failed,
    ensures
        v.completed(idx, status).is_complete(),
        v.completed(idx, status).len() == v.len(),
        forall|j: int|
            idx < j < v.len() ==> #[trigger] v.completed(idx, status)->Judging_cases[j]
                == CaseStatus::NotRun,
{
}

/// Cases are driven left to right: a case that left `Pending` has only
/// finished cases before it. So at most one case is running.
pub open spec fn driven_in_order(cases: Seq<CaseStatus>) -> bool {
    forall|i: int, j: int|
        0 <= i < j < cases.len() && !(#[trigger] cases[j] is Pending) ==> (#[trigger] cases[i]).is_terminal()
}

/// Under that order no two cases run at once.
pub proof fn lemma_single_running(cases: Seq<CaseStatus>, i: int, j: int)
    requires
        driven_in_order(cases),
        0 <= i < cases.len(),
        0 <= j < cases.len(),
        cases[i] is Running,
        cases[j] is Running,
    ensures
        i == j,
{
    if i < j {
        assert(cases[i].is_terminal());
    } else if j < i {
        assert(cases[j].is_terminal());
    }
}

/// Starting a judging run whose cases are all pending keeps the order, and
/// completing the running case with a finished status keeps it too.
pub proof fn lemma_transitions_keep_order(v: JobView, idx: int, status: CaseStatus)
    requires
        v is Judging,
        driven_in_order(v->Judging_cases),
    ensures
        (forall|k: int| 0 <= k < v.len() ==> #[trigger] v->Judging_cases[k] is Pending) && v.len() > 0
            ==> driven_in_order(v.started()->Judging_cases),
        0 <= idx < v.len() && v->Judging_cases[idx] is Running && status.is_terminal()
            ==> driven_in_order(v.completed(idx, status)->Judging_cases),
{
    let cases = v->Judging_cases;
    if (forall|k: int| 0 <= k < v.len() ==> #[trigger] cases[k] is Pending) && v.len() > 0 {
        let s = v.started()->Judging_cases;
        assert forall|i: int, j: int|
            0 <= i < j < s.len() && !(#[trigger] s[j] is Pending) implies (#[trigger] s[i]).is_terminal() by {
            assert(cases[j] is Pending);
        }
    }
    if 0 <= idx < v.len() && cases[idx] is Running && status.is_terminal() {
        let c = v.completed(idx, status)->Judging_cases;
        assert forall|i: int, j: int|
            0 <= i < j < c.len() && !(#[trigger] c[j] is Pending) implies (#[trigger] c[i]).is_terminal() by {
            if i < idx {
                assert(!(cases[idx] is Pending));
                assert(cases[i].is_terminal());
            }
            if j > idx + 1 && !(status is Failed) && idx != v.len() - 1 {
                assert(!(cases[j] is Pending));
                assert(cases[idx].is_terminal());
            }
        }
    }
}

} // verus!

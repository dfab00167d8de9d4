use wcpc::{
    default_max_program_length, excess_runs, plan_persistence, AdmissionError, CaseError,
    CaseStatus, ColorScheme, Job, JobOperation, JobRequest, JobState, JobStep, LanguageConfig,
    Problem, ProblemCompletion, RunConfig, RunManager, RunRecord, Runner, Session, SessionAction,
    SessionEvent, TestCase, User, WebSocketMessage, WebSocketRequest, MAX_RUNS_PER_USER,
};

fn lang(compile: &str) -> LanguageConfig {
    LanguageConfig {
        name: "Python 3".to_string(),
        tabler_icon: "brand-python".to_string(),
        monaco_contribution: "python".to_string(),
        default_code: String::new(),
        file_name: "main.py".to_string(),
        compile_cmd: compile.to_string(),
        run_cmd: "python3 main.py".to_string(),
    }
}

fn tc(input: &str, expected: &str) -> TestCase {
    TestCase {
        stdin: input.to_string(),
        expected_pattern: expected.to_string(),
        use_regex: false,
        case_insensitive: false,
    }
}

fn judging_request(user_id: i64, n: usize) -> JobRequest {
    JobRequest {
        user_id,
        problem_id: 10,
        contest_id: 3,
        program: "print(1)".to_string(),
        language: "python".to_string(),
        cpu_time: 1,
        op: JobOperation::Judging((0..n).map(|i| tc(&i.to_string(), "1")).collect()),
    }
}

fn runner(compile: &str) -> Runner {
    Runner::new(&lang(compile), "/tmp/w".to_string(), 1)
}

fn cases_of(state: &JobState) -> Vec<CaseStatus> {
    match state {
        JobState::Judging { cases, .. } => cases.clone(),
        JobState::Testing { status } => vec![status.clone()],
    }
}

#[test]
fn three_passing_cases_complete() {
    let mut job = Job::new(1, judging_request(5, 3), Ok(runner("")), 100);
    let mut step = job.start();
    let mut ran = 0;
    while let JobStep::RunCase(i) = step {
        ran += 1;
        step = job.record_case(i, Ok("1".to_string()), false);
    }
    assert_eq!(step, JobStep::Finish);
    assert_eq!(ran, 3);
    let (state, started_at, r) = job.finish();
    assert_eq!(started_at, 100);
    assert!(r.is_some());
    assert!(state.complete());
    assert!(cases_of(&state).iter().all(|c| matches!(c, CaseStatus::Passed(None))));
    let record = RunRecord::from_job_state(10, 5, "p".to_string(), "python".to_string(), &state, 100);
    assert_eq!(record.amount_run, 3);
    assert_eq!(record.total_cases, 3);
    assert!(record.success());
    assert_eq!(record.error, None);
}

#[test]
fn failing_second_case_stops_judging() {
    let mut job = Job::new(2, judging_request(5, 3), Ok(runner("")), 0);
    assert_eq!(job.start(), JobStep::RunCase(0));
    assert_eq!(job.record_case(0, Ok("1".to_string()), false), JobStep::RunCase(1));
    assert_eq!(job.record_case(1, Err(CaseError::Logic), false), JobStep::Finish);
    let (state, _, _) = job.finish();
    assert!(state.complete());
    let c = cases_of(&state);
    assert!(matches!(c[0], CaseStatus::Passed(None)));
    assert!(matches!(&c[1], CaseStatus::Failed(true, m) if m == "Logic error"));
    assert!(matches!(c[2], CaseStatus::NotRun));
    assert_eq!(state.last_error(), (1, true, Some("Logic error".to_string())));
}

#[test]
fn cancellation_between_cases_stops_without_filling() {
    let mut job = Job::new(3, judging_request(5, 3), Ok(runner("")), 7);
    assert_eq!(job.start(), JobStep::RunCase(0));
    assert_eq!(job.record_case(0, Ok("1".to_string()), true), JobStep::Finish);
    let (state, started_at, _) = job.finish();
    assert_eq!(started_at, 7);
    assert!(!state.complete());
    let c = cases_of(&state);
    assert!(matches!(c[0], CaseStatus::Passed(None)));
    assert!(matches!(c[1], CaseStatus::Pending));
    assert!(matches!(c[2], CaseStatus::Pending));
    assert!(!c.iter().any(|s| matches!(s, CaseStatus::NotRun)));
}

#[test]
fn cancelled_case_is_recorded_unpenalized() {
    let mut job = Job::new(4, judging_request(5, 2), Ok(runner("")), 0);
    job.start();
    assert_eq!(job.record_case(0, Err(CaseError::Cancelled), true), JobStep::Finish);
    let (state, _, _) = job.finish();
    assert_eq!(state.last_error(), (0, false, Some("Run Cancelled".to_string())));
}

#[test]
fn missing_runner_fails_first_case() {
    let mut job = Job::new(5, judging_request(5, 2), Err(CaseError::Judge("disk".to_string())), 0);
    assert!(job.runner().is_none());
    assert!(job.state().complete());
    assert_eq!(job.start(), JobStep::Finish);
    let (state, _, r) = job.finish();
    assert!(r.is_none());
    assert_eq!(state.last_error(), (0, false, Some("Couldn't create runner".to_string())));
    assert!(matches!(cases_of(&state)[1], CaseStatus::NotRun));
}

#[test]
fn compile_failure_fails_first_case() {
    let mut job = Job::new(6, judging_request(5, 2), Ok(runner("gcc main.c")), 0);
    assert_eq!(job.start(), JobStep::Compile);
    let step = job.record_compile(Err(CaseError::Compilation("syntax".to_string())));
    assert_eq!(step, JobStep::Finish);
    let (state, _, _) = job.finish();
    assert!(state.complete());
    assert_eq!(state.last_error(), (0, false, Some("Compile error".to_string())));
}

#[test]
fn compile_success_runs_first_case() {
    let mut job = Job::new(7, judging_request(5, 1), Ok(runner("gcc main.c")), 0);
    assert_eq!(job.start(), JobStep::Compile);
    assert_eq!(job.record_compile(Ok(())), JobStep::RunCase(0));
    assert_eq!(job.record_case(0, Ok("1".to_string()), false), JobStep::Finish);
    assert!(job.state().complete());
}

fn testing_job(input: &str) -> Job {
    let request = JobRequest {
        op: JobOperation::Testing(input.to_string()),
        ..judging_request(9, 1)
    };
    Job::new(8, request, Ok(runner("")), 0)
}

#[test]
fn test_run_keeps_output() {
    let mut job = testing_job("5");
    assert_eq!(job.start(), JobStep::RunTest);
    assert_eq!(job.record_test(Ok("25\n".to_string())), JobStep::Finish);
    assert!(matches!(job.state(), JobState::Testing { status: CaseStatus::Passed(Some(o)) } if o == "25\n"));
}

#[test]
fn test_run_quotes_runtime_error() {
    let mut job = testing_job("5");
    job.start();
    job.record_test(Err(CaseError::Runtime("Process exited with error 1".to_string())));
    assert_eq!(
        job.state().last_error(),
        (0, true, Some("Runtime Error: Process exited with error 1".to_string()))
    );
}

fn config() -> RunConfig {
    let mut c = RunConfig::new(20, "python".to_string());
    c.add_language("python".to_string(), lang(""));
    c
}

#[test]
fn language_table() {
    assert_eq!(default_max_program_length(), 100_000);
    let mut c = config();
    assert!(c.language("python").is_some());
    assert!(c.language("cobol").is_none());
    c.add_language("rust".to_string(), lang("rustc main.rs"));
    c.add_language("python".to_string(), LanguageConfig { name: "CPython".to_string(), ..lang("") });
    assert_eq!(c.language("python").map(|l| l.name.clone()), Some("CPython".to_string()));
    assert_eq!(
        c.get_languages_for_dropdown(),
        vec![
            ("python".to_string(), "CPython".to_string()),
            ("rust".to_string(), "Python 3".to_string())
        ]
    );
}

#[test]
fn admission_assigns_increasing_ids() {
    let mut m: RunManager<&str> = RunManager::new(config());
    let a = m.request_job(&judging_request(1, 1), "h1").unwrap();
    let b = m.request_job(&judging_request(2, 1), "h2").unwrap();
    assert_eq!(a.job_id, 1);
    assert_eq!(b.job_id, 2);
    assert_eq!(a.language.run_cmd, "python3 main.py");
    let mut active = m.all_active_jobs();
    active.sort();
    assert_eq!(active, vec![(1, 10), (2, 10)]);
}

#[test]
fn second_request_of_same_user_is_refused() {
    let mut m: RunManager<&str> = RunManager::new(config());
    let first = m.request_job(&judging_request(1, 1), "first").unwrap();
    let second = m.request_job(&judging_request(1, 2), "second");
    assert!(matches!(second, Err(AdmissionError::AlreadyRunning)));
    assert_eq!(m.get_handle(1, 10), Some(&"first"));
    assert_eq!(m.finish_job(1, first.job_id), Some("first"));
    assert!(m.request_job(&judging_request(1, 1), "again").is_ok());
}

#[test]
fn long_program_is_refused() {
    let mut m: RunManager<&str> = RunManager::new(config());
    let mut request = judging_request(1, 1);
    request.program = "x".repeat(21);
    let r = m.request_job(&request, "h");
    assert!(matches!(r, Err(AdmissionError::ProgramTooLong(20))));
    assert!(m.all_active_jobs().is_empty());
    assert_eq!(
        r.unwrap_err().message(),
        "Program too long, max length is 20 bytes"
    );
    request.program = "é".repeat(10);
    assert!(m.request_job(&request, "h").is_ok());
}

#[test]
fn unsupported_language_is_refused() {
    let mut m: RunManager<&str> = RunManager::new(config());
    let mut request = judging_request(1, 1);
    request.language = "cobol".to_string();
    let r = m.request_job(&request, "h");
    match r {
        Err(e) => {
            assert!(matches!(&e, AdmissionError::UnsupportedLanguage(l) if l == "cobol"));
            assert_eq!(e.message(), "Language cobol not supported by runner");
        }
        Ok(_) => panic!("admitted"),
    }
    assert_eq!(AdmissionError::AlreadyRunning.message(), "User already has a job running");
}

#[test]
fn handles_follow_registry() {
    let mut m: RunManager<u32> = RunManager::new(config());
    let a = m.request_job(&judging_request(1, 1), 11).unwrap();
    m.request_job(&judging_request(2, 1), 22).unwrap();
    assert_eq!(m.get_handle(1, 10), Some(&11));
    assert_eq!(m.get_handle(1, 99), None);
    assert_eq!(m.shutdown_job(2), Some(&22));
    assert_eq!(m.shutdown_job(2), Some(&22));
    let mut all: Vec<u32> = m.shutdown().into_iter().copied().collect();
    all.sort();
    assert_eq!(all, vec![11, 22]);
    assert_eq!(m.finish_job(1, a.job_id + 100), None);
    assert_eq!(m.finish_job(1, a.job_id), Some(11));
    assert_eq!(m.get_handle(1, 10), None);
}

fn problem() -> Problem {
    Problem {
        id: 10,
        contest_id: 3,
        name: "Sum".to_string(),
        slug: "sum".to_string(),
        description: String::new(),
        cpu_time: 2,
    }
}

#[test]
fn reconnect_sends_current_state_first() {
    let mut current = JobState::new_judging(2);
    current.start_first();
    let (_, first) = Session::connect(1, problem(), vec![tc("1", "1")], Some(current)).unwrap();
    assert_eq!(first.len(), 1);
    match &first[0] {
        WebSocketMessage::StateUpdate { state } => {
            assert!(matches!(cases_of(state)[0], CaseStatus::Running));
            assert!(matches!(cases_of(state)[1], CaseStatus::Pending));
        }
        other => panic!("unexpected {:?}", other),
    }
    let (_, none) = Session::connect(1, problem(), vec![tc("1", "1")], None).unwrap();
    assert!(none.is_empty());
    assert!(Session::connect(1, problem(), vec![], None).is_none());
}

#[test]
fn session_steps() {
    let (s, _) = Session::connect(4, problem(), vec![tc("1", "1"), tc("2", "2")], None).unwrap();
    assert!(matches!(
        s.step(SessionEvent::JobStarted { user_id: 4, problem_id: 10, stream: 9u8 }),
        SessionAction::Observe(9)
    ));
    assert!(matches!(
        s.step(SessionEvent::JobStarted { user_id: 5, problem_id: 10, stream: 9u8 }),
        SessionAction::Ignore
    ));
    assert!(matches!(
        s.step(SessionEvent::JobStarted { user_id: 4, problem_id: 11, stream: 9u8 }),
        SessionAction::Ignore
    ));
    match s.step::<u8>(SessionEvent::Request(WebSocketRequest::Judge {
        program: "p".to_string(),
        language: "python".to_string(),
    })) {
        SessionAction::StartJob(j) => {
            assert_eq!((j.user_id, j.problem_id, j.contest_id, j.cpu_time), (4, 10, 3, 2));
            assert_eq!(j.program, "p");
            assert!(matches!(j.op, JobOperation::Judging(ref c) if c.len() == 2 && c[1].stdin == "2"));
        }
        other => panic!("unexpected {:?}", other),
    }
    match s.step::<u8>(SessionEvent::Request(WebSocketRequest::Test {
        program: "p".to_string(),
        language: "python".to_string(),
        input: "in".to_string(),
    })) {
        SessionAction::StartJob(j) => assert!(matches!(j.op, JobOperation::Testing(ref i) if i == "in")),
        other => panic!("unexpected {:?}", other),
    }
    assert!(matches!(
        s.step::<u8>(SessionEvent::Unreadable),
        SessionAction::Send(WebSocketMessage::Invalid { error }) if error == "Invalid request"
    ));
    assert!(matches!(s.step::<u8>(SessionEvent::Ping(vec![1, 2])), SessionAction::Pong(b) if b == vec![1, 2]));
    assert!(matches!(s.step::<u8>(SessionEvent::Closed), SessionAction::Stop));
    assert!(matches!(s.step::<u8>(SessionEvent::Shutdown), SessionAction::Stop));
    assert!(matches!(s.step::<u8>(SessionEvent::Other), SessionAction::Ignore));
    assert!(matches!(
        s.step::<u8>(SessionEvent::StateChanged(JobState::new_testing())),
        SessionAction::Send(WebSocketMessage::StateUpdate { .. })
    ));
}

#[test]
fn request_accessors() {
    let r = WebSocketRequest::Test {
        program: "code".to_string(),
        language: "rust".to_string(),
        input: "x".to_string(),
    };
    assert_eq!(r.program(), "code");
    assert_eq!(r.language(), "rust");
}

#[test]
fn job_responses() {
    let mut m: RunManager<u8> = RunManager::new(config());
    let ok = m.request_job(&judging_request(1, 1), 0);
    assert!(matches!(Session::job_response(&ok), WebSocketMessage::RunStarted));
    let denied = m.request_job(&judging_request(1, 1), 0);
    assert!(matches!(
        Session::job_response(&denied),
        WebSocketMessage::RunDenied { reason } if reason == "User already has a job running"
    ));
}

fn judged(cases: Vec<CaseStatus>) -> JobState {
    JobState::Judging { cases, complete: true }
}

#[test]
fn persistence_only_for_running_contest_participants() {
    let state = judged(vec![CaseStatus::Passed(None)]);
    let plan = |running, participant| {
        plan_persistence(&state, 10, 1, "p".to_string(), "py".to_string(), 50, running, participant, None)
    };
    assert!(plan(Some(true), Some((8, false))).is_some());
    assert!(plan(Some(false), Some((8, false))).is_none());
    assert!(plan(None, Some((8, false))).is_none());
    assert!(plan(Some(true), None).is_none());
    assert!(plan(Some(true), Some((8, true))).is_none());
    let test = JobState::new_testing();
    assert!(plan_persistence(&test, 10, 1, "p".to_string(), "py".to_string(), 50, Some(true), Some((8, false)), None).is_none());
}

#[test]
fn first_success_completes_problem() {
    let state = judged(vec![CaseStatus::Passed(None), CaseStatus::Passed(None)]);
    let p = plan_persistence(&state, 10, 1, "p".to_string(), "py".to_string(), 50, Some(true), Some((8, false)), None).unwrap();
    assert!(p.newly_completed);
    assert_eq!(p.completion, ProblemCompletion { participant_id: 8, problem_id: 10, completed_at: Some(50), number_wrong: 0 });
    assert_eq!((p.run.amount_run, p.run.total_cases), (2, 2));
    let again = plan_persistence(&state, 10, 1, "p".to_string(), "py".to_string(), 60, Some(true), Some((8, false)), Some(p.completion)).unwrap();
    assert!(!again.newly_completed);
    assert_eq!(again.completion.completed_at, Some(50));
}

#[test]
fn penalized_failures_count_before_success_only() {
    let wrong = judged(vec![CaseStatus::Failed(true, "Logic error".to_string()), CaseStatus::NotRun]);
    let judge_err = judged(vec![CaseStatus::Failed(false, "Judge error".to_string()), CaseStatus::NotRun]);
    let existing = ProblemCompletion { participant_id: 8, problem_id: 10, completed_at: None, number_wrong: 2 };
    let p = plan_persistence(&wrong, 10, 1, "p".to_string(), "py".to_string(), 50, Some(true), Some((8, false)), Some(existing.clone())).unwrap();
    assert_eq!(p.completion.number_wrong, 3);
    assert!(!p.newly_completed);
    assert_eq!(p.run.error, Some("Logic error".to_string()));
    assert_eq!(p.run.amount_run, 0);
    let q = plan_persistence(&judge_err, 10, 1, "p".to_string(), "py".to_string(), 50, Some(true), Some((8, false)), Some(existing)).unwrap();
    assert_eq!(q.completion.number_wrong, 2);
    let solved = ProblemCompletion { participant_id: 8, problem_id: 10, completed_at: Some(1), number_wrong: 2 };
    let s = plan_persistence(&wrong, 10, 1, "p".to_string(), "py".to_string(), 50, Some(true), Some((8, false)), Some(solved)).unwrap();
    assert_eq!(s.completion.number_wrong, 2);
}

#[test]
fn run_history_limit() {
    assert_eq!(MAX_RUNS_PER_USER, 25);
    assert_eq!(excess_runs(26), 1);
    assert_eq!(excess_runs(30), 5);
    assert_eq!(excess_runs(25), 0);
    assert_eq!(excess_runs(0), 0);
}

#[test]
fn users_and_schemes() {
    let mut u = User::temporary("a@b.c".to_string(), "Ada".to_string(), "python", 99);
    assert_eq!(u.display_name(), "Ada");
    assert_eq!(u.id, 0);
    assert_eq!(u.color_scheme, ColorScheme::UseSystem);
    assert_eq!(u.default_language, "python");
    assert_eq!(u.created_at, 99);
    u.display_name = Some("Countess".to_string());
    assert_eq!(u.display_name(), "Countess");
    assert_eq!(ColorScheme::from("Dark".to_string()), ColorScheme::Dark);
    assert_eq!(ColorScheme::from("Light".to_string()), ColorScheme::Light);
    assert_eq!(ColorScheme::from("purple".to_string()), ColorScheme::UseSystem);
    assert_eq!(ColorScheme::default(), ColorScheme::UseSystem);
    assert_eq!(ColorScheme::Dark.name(), "Dark");
}

#[test]
fn problem_notifiers_fire_once() {
    let mut n: wcpc::ProblemNotifiers<&str> = wcpc::ProblemNotifiers::new();
    assert!(n.get(10).is_none());
    n.insert(10, "ten");
    assert_eq!(n.get(10), Some(&"ten"));
    assert_eq!(n.update_problem(10), Some("ten"));
    assert_eq!(n.update_problem(10), None);
    assert!(n.get(10).is_none());
}

#[test]
fn runner_removed_once_after_any_outcome() {
    let outcomes: Vec<Result<String, CaseError>> = vec![
        Ok("1".to_string()),
        Err(CaseError::Logic),
        Err(CaseError::Cancelled),
    ];
    for outcome in outcomes {
        let mut job = Job::new(1, judging_request(5, 2), Ok(runner("")), 0);
        job.start();
        job.record_case(0, outcome, true);
        let (_, _, r) = job.finish();
        let mut r = r.unwrap();
        assert!(r.cleanup());
        assert!(!r.cleanup());
        assert!(!r.teardown());
    }
}

#[test]
fn cancelled_run_is_not_persisted_as_success() {
    let mut job = Job::new(3, judging_request(5, 3), Ok(runner("")), 7);
    job.start();
    assert_eq!(job.record_case(0, Ok("1".to_string()), true), JobStep::Finish);
    let (state, _, _) = job.finish();
    assert_eq!(state.amount_run(), 1);
    assert!(!state.succeeded());
    let p = plan_persistence(&state, 10, 5, "p".to_string(), "py".to_string(), 50, Some(true), Some((8, false)), None).unwrap();
    assert_eq!((p.run.amount_run, p.run.total_cases), (1, 3));
    assert!(!p.run.success());
    assert_eq!(p.run.error, None);
    assert_eq!(p.completion.completed_at, None);
    assert_eq!(p.completion.number_wrong, 0);
    assert!(!p.newly_completed);
}

#[test]
fn refused_requests_take_no_job_number() {
    let mut m: RunManager<u8> = RunManager::new(config());
    assert_eq!(m.next_job_id(), 1);
    let mut long = judging_request(1, 1);
    long.program = "x".repeat(21);
    assert!(m.request_job(&long, 0).is_err());
    let mut unknown = judging_request(1, 1);
    unknown.language = "cobol".to_string();
    assert!(m.request_job(&unknown, 0).is_err());
    assert_eq!(m.next_job_id(), 1);
    let a = m.request_job(&judging_request(1, 1), 0).unwrap();
    assert_eq!(a.job_id, 1);
    assert!(m.request_job(&judging_request(1, 1), 0).is_err());
    assert_eq!(m.next_job_id(), 2);
}

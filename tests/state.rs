use wcpc::{CaseStatus, JobState};

fn cases_of(state: &JobState) -> Vec<CaseStatus> {
    match state {
        JobState::Judging { cases, .. } => cases.clone(),
        JobState::Testing { status } => vec![status.clone()],
    }
}

fn failed(msg: &str) -> CaseStatus {
    CaseStatus::Failed(true, msg.to_string())
}

fn is_complete_flag(state: &JobState) -> bool {
    match state {
        JobState::Judging { complete, .. } => *complete,
        JobState::Testing { .. } => state.complete(),
    }
}

#[test]
fn new_judging_makes_pending_cases() {
    for n in [0usize, 1, 3, 7] {
        let s = JobState::new_judging(n);
        assert_eq!(s.len(), n);
        assert!(!s.complete());
        assert!(cases_of(&s).iter().all(|c| matches!(c, CaseStatus::Pending)));
    }
}

#[test]
fn new_testing_is_pending_single_slot() {
    let s = JobState::new_testing();
    assert_eq!(s.len(), 1);
    assert!(!s.complete());
    assert!(matches!(s, JobState::Testing { status: CaseStatus::Pending }));
}

#[test]
fn start_then_pass_first_of_three() {
    let mut s = JobState::new_judging(3);
    s.start_first();
    s.complete_case(0, CaseStatus::Passed(None));
    let c = cases_of(&s);
    assert!(matches!(c[0], CaseStatus::Passed(None)));
    assert!(matches!(c[1], CaseStatus::Running));
    assert!(matches!(c[2], CaseStatus::Pending));
    assert!(!is_complete_flag(&s));
}

#[test]
fn completing_last_case_completes_whatever_status() {
    let statuses = vec![
        CaseStatus::Passed(None),
        failed("x"),
        CaseStatus::NotRun,
        CaseStatus::Pending,
        CaseStatus::Running,
    ];
    for st in statuses {
        let mut s = JobState::new_judging(2);
        s.start_first();
        s.complete_case(0, CaseStatus::Passed(None));
        s.complete_case(1, st);
        assert!(s.complete());
    }
    let mut one = JobState::new_judging(1);
    one.start_first();
    one.complete_case(0, failed("late"));
    assert!(one.complete());
}

#[test]
fn failure_before_last_marks_rest_not_run() {
    let mut s = JobState::new_judging(5);
    s.start_first();
    s.complete_case(0, CaseStatus::Passed(None));
    s.complete_case(1, failed("wrong"));
    assert!(s.complete());
    let c = cases_of(&s);
    assert!(matches!(c[0], CaseStatus::Passed(None)));
    assert!(matches!(&c[1], CaseStatus::Failed(true, m) if m == "wrong"));
    for later in &c[2..] {
        assert!(matches!(later, CaseStatus::NotRun));
    }
}

#[test]
fn last_error_reports_first_failure() {
    let s = JobState::Judging {
        cases: vec![CaseStatus::Passed(None), failed("x"), CaseStatus::NotRun],
        complete: true,
    };
    assert_eq!(s.last_error(), (1, true, Some("x".to_string())));
}

#[test]
fn last_error_picks_leftmost_failure() {
    let s = JobState::Judging {
        cases: vec![
            CaseStatus::Passed(None),
            CaseStatus::Failed(false, "first".to_string()),
            failed("second"),
        ],
        complete: true,
    };
    assert_eq!(s.last_error(), (1, false, Some("first".to_string())));
}

#[test]
fn last_error_without_failure_is_length() {
    let s = JobState::Judging {
        cases: vec![CaseStatus::Passed(None), CaseStatus::Passed(None)],
        complete: true,
    };
    assert_eq!(s.last_error(), (2, false, None));
    let empty = JobState::new_judging(0);
    assert_eq!(empty.last_error(), (0, false, None));
}

#[test]
fn last_error_of_test_run() {
    let s = JobState::Testing { status: failed("boom") };
    assert_eq!(s.last_error(), (0, true, Some("boom".to_string())));
    let ok = JobState::Testing { status: CaseStatus::Passed(Some("out".to_string())) };
    assert_eq!(ok.last_error(), (0, false, None));
}

#[test]
fn test_run_completes_on_terminal_status_only() {
    let mut s = JobState::new_testing();
    s.start_first();
    assert!(matches!(s, JobState::Testing { status: CaseStatus::Running }));
    assert!(!s.complete());
    s.complete_case(0, CaseStatus::NotRun);
    assert!(s.complete());
    let mut p = JobState::new_testing();
    p.complete_case(0, CaseStatus::Passed(Some("1".to_string())));
    assert!(p.complete());
    let mut r = JobState::new_testing();
    r.complete_case(0, CaseStatus::Running);
    assert!(!r.complete());
}

#[test]
fn case_status_names() {
    assert_eq!(CaseStatus::Pending.to_name(), "Pending");
    assert_eq!(CaseStatus::Running.to_name(), "Running");
    assert_eq!(CaseStatus::Passed(None).to_name(), "Passed");
    assert_eq!(CaseStatus::NotRun.to_name(), "NotRun");
    assert_eq!(failed("m").to_name(), "Failed");
}

#[test]
fn job_state_clone_keeps_cases() {
    let s = JobState::Judging {
        cases: vec![CaseStatus::Passed(Some("a".to_string())), failed("b")],
        complete: true,
    };
    let c = s.clone();
    assert_eq!(c.last_error(), (1, true, Some("b".to_string())));
    assert!(matches!(&cases_of(&c)[0], CaseStatus::Passed(Some(o)) if o == "a"));
}

#[test]
fn amount_run_counts_passed_cases_from_the_first() {
    let done = JobState::Judging {
        cases: vec![CaseStatus::Passed(None), CaseStatus::Passed(None)],
        complete: true,
    };
    assert_eq!(done.amount_run(), 2);
    assert!(done.succeeded());
    let stopped = JobState::Judging {
        cases: vec![CaseStatus::Passed(None), CaseStatus::Running, CaseStatus::Pending],
        complete: false,
    };
    assert_eq!(stopped.amount_run(), 1);
    assert!(!stopped.succeeded());
    let failed_run = JobState::Judging {
        cases: vec![CaseStatus::Passed(None), failed("x"), CaseStatus::NotRun],
        complete: true,
    };
    assert_eq!(failed_run.amount_run(), 1);
    assert!(!failed_run.succeeded());
    assert_eq!(JobState::new_judging(0).amount_run(), 0);
    let passed_test = JobState::Testing { status: CaseStatus::Passed(Some("o".to_string())) };
    assert_eq!(passed_test.amount_run(), 1);
    assert!(passed_test.succeeded());
}

use vstd::prelude::*;
use vstd::string::StringExecFns;

use crate::cases::TestCase;
use crate::job::{clone_cases, JobOperation, JobRequest};
use crate::manager::{Admission, AdmissionError};
use crate::state::JobState;

verus! {

/// A problem as a session sees it.
#[derive(Debug)]
pub struct Problem {
    pub id: i64,
    pub contest_id: i64,
    pub name: String,
    pub slug: String,
    pub description: String,
    /// CPU time allowed to each run, in seconds.
    pub cpu_time: i64,
}

/// A request sent by the client.
#[derive(Debug)]
pub enum WebSocketRequest {
    /// Judge the program against every case of the problem.
    Judge { program: String, language: String },
    /// Run the program once on `input`.
    Test { program: String, language: String, input: String },
}

impl WebSocketRequest {
    pub open spec fn spec_program(&self) -> String {
        match self {
            WebSocketRequest::Judge { program, .. } => *program,
            WebSocketRequest::Test { program, .. } => *program,
        }
    }

    pub open spec fn spec_language(&self) -> String {
        match self {
            WebSocketRequest::Judge { language, .. } => *language,
            WebSocketRequest::Test { language, .. } => *language,
        }
    }

    /// The submitted program.
    pub fn program(&self) -> (r: &str)
        ensures
            r@ == self.spec_program()@,
    {
        match self {
            WebSocketRequest::Judge { program, .. } => program.as_str(),
            WebSocketRequest::Test { program, .. } => program.as_str(),
        }
    }

    /// The key of the program's language.
    pub fn language(&self) -> (r: &str)
        ensures
            r@ == self.spec_language()@,
    {
        match self {
            WebSocketRequest::Judge { language, .. } => language.as_str(),
            WebSocketRequest::Test { language, .. } => language.as_str(),
        }
    }
}

/// A message sent to the client.
#[derive(Debug)]
pub enum WebSocketMessage {
    StateUpdate { state: JobState },
    RunStarted,
    RunDenied { reason: String },
    Invalid { error: String },
}

/// What happened on a session's connection.
#[derive(Debug)]
pub enum SessionEvent<S> {
    /// A job was started for a user and problem; `stream` shows its state.
    JobStarted { user_id: i64, problem_id: i64, stream: S },
    /// The client sent a request.
    Request(WebSocketRequest),
    /// The client sent text that is no request.
    Unreadable,
    /// The client pinged.
    Ping(Vec<u8>),
    /// The client closed the connection, or it ended.
    Closed,
    /// Another frame, or a frame that could not be read.
    Other,
    /// The observed job's state changed.
    StateChanged(JobState),
    /// The service is shutting down.
    Shutdown,
}

/// What the session does about an event.
#[derive(Debug)]
pub enum SessionAction<S> {
    /// Send the message to the client.
    Send(WebSocketMessage),
    /// Answer a ping.
    Pong(Vec<u8>),
    /// Ask the manager to start the job, then send what it answers.
    StartJob(JobRequest),
    /// Observe this stream from now on, and send its current state.
    Observe(S),
    /// End the session.
    Stop,
    /// Nothing.
    Ignore,
}

/// `job` is the request that the session of `user_id` on `problem` with
/// `test_cases` makes from the client's `request`.
pub open spec fn request_for(
    job: JobRequest,
    user_id: i64,
    problem: Problem,
    test_cases: Seq<TestCase>,
    request: WebSocketRequest,
) -> bool {
    &&& job.user_id == user_id
    &&& job.problem_id == problem.id
    &&& job.contest_id == problem.contest_id
    &&& job.cpu_time == problem.cpu_time
    &&& job.program@ == request.spec_program()@
    &&& job.language@ == request.spec_language()@
    &&& request is Judge ==> (job.op matches JobOperation::Judging(c) && c@ == test_cases)
    &&& request matches WebSocketRequest::Test { input, .. } ==> job.op == JobOperation::Testing(input)
}

/// One client's connection for one user and problem.
#[derive(Debug)]
pub struct Session {
    user_id: i64,
    problem: Problem,
    test_cases: Vec<TestCase>,
}

impl Session {
    pub closed spec fn spec_user_id(&self) -> i64 {
        self.user_id
    }

    pub closed spec fn spec_problem(&self) -> Problem {
        self.problem
    }

    pub closed spec fn spec_test_cases(&self) -> Seq<TestCase> {
        self.test_cases@
    }

    /// Opens a session, where the problem has cases, together with the
    /// messages sent before anything else: the current state of the user's job
    /// in flight on this problem, where there is one.
    pub fn connect(user_id: i64, problem: Problem, test_cases: Vec<TestCase>, current: Option<JobState>) -> (r:
        Option<(Session, Vec<WebSocketMessage>)>)
        ensures
            r is Some <==> test_cases@.len() > 0,
            r matches Some(p) ==> {
                &&& p.0.spec_user_id() == user_id
                &&& p.0.spec_problem() == problem
                &&& p.0.spec_test_cases() == test_cases@
                &&& current is None ==> p.1@.len() == 0
                &&& current matches Some(st) ==> p.1@ == seq![WebSocketMessage::StateUpdate { state: st }]
            },
    {
        if test_cases.len() == 0 {
            return None;
        }
        let mut first: Vec<WebSocketMessage> = Vec::new();
        if let Some(st) = current {
            first.push(WebSocketMessage::StateUpdate { state: st });
        }
        Some((Session { user_id, problem, test_cases }, first))
    }

    /// The job that `request` asks for, for this session's user and problem.
    pub fn build_request(&self, request: &WebSocketRequest) -> (r: JobRequest)
        ensures
            request_for(r, self.spec_user_id(), self.spec_problem(), self.spec_test_cases(), *request),
    {
        let op = match request {
            WebSocketRequest::Judge { .. } => JobOperation::Judging(clone_cases(&self.test_cases)),
            WebSocketRequest::Test { input, .. } => JobOperation::Testing(input.clone()),
        };
        JobRequest {
            user_id: self.user_id,
            problem_id: self.problem.id,
            contest_id: self.problem.contest_id,
            program: String::from_str(request.program()),
            language: String::from_str(request.language()),
            cpu_time: self.problem.cpu_time,
            op,
        }
    }

    /// What the session does about `event`.
    pub fn step<S>(&self, event: SessionEvent<S>) -> (r: SessionAction<S>)
        ensures
            event matches SessionEvent::JobStarted { user_id, problem_id, stream } ==> if user_id
                == self.spec_user_id() && problem_id == self.spec_problem().id {
                r == SessionAction::Observe(stream)
            } else {
                r is Ignore
            },
            event matches SessionEvent::Request(q) ==> (r matches SessionAction::StartJob(j)
                && request_for(j, self.spec_user_id(), self.spec_problem(), self.spec_test_cases(), q)),
            event is Unreadable ==> (r matches SessionAction::Send(WebSocketMessage::Invalid { error })
                && error@ == "Invalid request"@),
            event matches SessionEvent::Ping(b) ==> r == SessionAction::<S>::Pong(b),
            event is Closed || event is Shutdown ==> r is Stop,
            event is Other ==> r is Ignore,
            event matches SessionEvent::StateChanged(st) ==> r == SessionAction::<S>::Send(
                WebSocketMessage::StateUpdate { state: st },
            ),
    {
        match event {
            SessionEvent::JobStarted { user_id, problem_id, stream } => {
                if user_id == self.user_id && problem_id == self.problem.id {
                    SessionAction::Observe(stream)
                } else {
                    SessionAction::Ignore
                }
            },
            SessionEvent::Request(q) => SessionAction::StartJob(self.build_request(&q)),
            SessionEvent::Unreadable => SessionAction::Send(
                WebSocketMessage::Invalid { error: String::from_str("Invalid request") },
            ),
            SessionEvent::Ping(b) => SessionAction::Pong(b),
            SessionEvent::Closed => SessionAction::Stop,
            SessionEvent::Other => SessionAction::Ignore,
            SessionEvent::StateChanged(st) => SessionAction::Send(
                WebSocketMessage::StateUpdate { state: st },
            ),
            SessionEvent::Shutdown => SessionAction::Stop,
        }
    }

    /// The answer to a job request: started, or denied with the reason.
    pub fn job_response(result: &Result<Admission, AdmissionError>) -> (r: WebSocketMessage)
        ensures
            result is Ok ==> r is RunStarted,
            result matches Err(e) ==> (r matches WebSocketMessage::RunDenied { reason } && reason@
                == e.spec_message()),
    {
        match result {
            Ok(_) => WebSocketMessage::RunStarted,
            Err(e) => WebSocketMessage::RunDenied { reason: e.message() },
        }
    }
}

} // verus!

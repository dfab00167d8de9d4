//! Judging engine of a programming-contest platform: per-case state machine,
//! sandbox runner decisions, job driver, run registry and live session protocol.

pub mod cases;
pub mod job;
pub mod languages;
pub mod manager;
pub mod records;
pub mod runner;
pub mod session;
pub mod state;
mod text;
pub mod users;

pub use cases::TestCase;
pub use job::{clone_cases, Job, JobOperation, JobRequest, JobStep};
pub use languages::{default_max_program_length, LanguageConfig, RunConfig};
pub use manager::{Admission, AdmissionError, ProblemNotifiers, Registration, RunManager};
pub use records::{
    excess_runs, plan_persistence, Persistence, ProblemCompletion, RunRecord, MAX_RUNS_PER_USER,
};
pub use runner::{work_dir_name, CaseError, Runner};
pub use session::{
    Problem, Session, SessionAction, SessionEvent, WebSocketMessage, WebSocketRequest,
};
pub use state::{CaseStatus, JobState};
pub use users::{ColorScheme, User};

use vstd::prelude::*;
use vstd::string::StringExecFns;

use crate::languages::LanguageConfig;
use crate::state::CaseStatus;
use crate::text::{
    decimal, lemma_joined_decimals_injective, push_decimal, push_signed_decimal, replace_all, replaced, signed_decimal,
};

verus! {

/// Why a case did not pass.
#[derive(Debug)]
pub enum CaseError {
    /// The output did not meet the expected pattern.
    Logic,
    /// The program exited with an error; the text says how.
    Runtime(String),
    /// The program did not compile; the compiler's error output.
    Compilation(String),
    /// The judge itself failed.
    Judge(String),
    /// The run was cancelled.
    Cancelled,
}

impl Clone for CaseError {
    fn clone(&self) -> (r: Self)
        ensures
            r == *self,
    {
        match self {
            CaseError::Logic => CaseError::Logic,
            CaseError::Runtime(m) => CaseError::Runtime(m.clone()),
            CaseError::Compilation(m) => CaseError::Compilation(m.clone()),
            CaseError::Judge(m) => CaseError::Judge(m.clone()),
            CaseError::Cancelled => CaseError::Cancelled,
        }
    }
}

impl CaseError {
    /// Whether the error counts against the submitter.
    pub open spec fn penalized(&self) -> bool {
        self is Logic || self is Runtime
    }

    /// The message recorded for the error.
    pub open spec fn message(&self) -> Seq<char> {
        match self {
            CaseError::Logic => "Logic error"@,
            CaseError::Runtime(_) => "Runtime error"@,
            CaseError::Compilation(_) => "Compile error"@,
            CaseError::Judge(_) => "Judge error"@,
            CaseError::Cancelled => "Run Cancelled"@,
        }
    }

    /// The failed status recorded for the error.
    pub fn into_status(self) -> (r: CaseStatus)
        ensures
            r matches CaseStatus::Failed(p, m) && p == self.penalized() && m@ == self.message(),
    {
        let penalized = match &self {
            CaseError::Logic | CaseError::Runtime(_) => true,
            _ => false,
        };
        let message = match self {
            CaseError::Logic => String::from_str("Logic error"),
            CaseError::Runtime(_) => String::from_str("Runtime error"),
            CaseError::Compilation(_) => String::from_str("Compile error"),
            CaseError::Judge(_) => String::from_str("Judge error"),
            CaseError::Cancelled => String::from_str("Run Cancelled"),
        };
        CaseStatus::Failed(penalized, message)
    }
}

/// Name of the working directory of job `id`, made at `nanos` nanoseconds.
pub open spec fn work_dir_name_spec(id: nat, nanos: nat) -> Seq<char> {
    "run_job_wcpc_"@ + decimal(id) + "_"@ + decimal(nanos)
}

/// Name of the working directory of job `id`, made at `nanos` nanoseconds
/// since the epoch: distinct jobs, or one job at distinct times, get distinct
/// names (see [`lemma_work_dir_names_distinct`]).
pub fn work_dir_name(id: u64, nanos: u128) -> (r: String)
    ensures
        r@ == work_dir_name_spec(id as nat, nanos as nat),
{
    let mut r = String::from_str("run_job_wcpc_");
    push_decimal(&mut r, id as u128);
    r.append("_");
    push_decimal(&mut r, nanos);
    r
}

/// Distinct jobs, or one job at distinct times, get distinct working
/// directory names.
pub proof fn lemma_work_dir_names_distinct(id: nat, nanos: nat, other_id: nat, other_nanos: nat)
    requires
        work_dir_name_spec(id, nanos) == work_dir_name_spec(other_id, other_nanos),
    ensures
        id == other_id,
        nanos == other_nanos,
{
    reveal_strlit("_");
    let p = "run_job_wcpc_"@;
    let x = decimal(id) + seq!['_'] + decimal(nanos);
    let y = decimal(other_id) + seq!['_'] + decimal(other_nanos);
    assert(work_dir_name_spec(id, nanos) == p + x);
    assert(work_dir_name_spec(other_id, other_nanos) == p + y);
    assert((p + x).subrange(p.len() as int, (p + x).len() as int) == x);
    assert((p + y).subrange(p.len() as int, (p + y).len() as int) == y);
    lemma_joined_decimals_injective(id, nanos, other_id, other_nanos);
}

/// The text put in place of the program's path in error output.
pub open spec fn redacted_name() -> Seq<char> {
    "<your program>"@
}

/// Message of a run that exited with status `code`, with error output `stderr`
/// in which `path` is redacted.
pub open spec fn runtime_message(code: int, stderr: Seq<char>, path: Seq<char>) -> Seq<char> {
    "Process exited with error "@ + signed_decimal(code) + ":\n\n "@ + replaced(
        stderr,
        path,
        redacted_name(),
    )
}

/// A program saved in its own working directory, with the commands that
/// compile and run it. The directory is removed exactly once.
#[derive(Debug)]
pub struct Runner {
    run_cmd: String,
    compile_cmd: String,
    file_name: String,
    work_dir: String,
    max_cpu_time: i64,
    cleaned: bool,
}

impl Runner {
    pub closed spec fn spec_run_cmd(&self) -> Seq<char> {
        self.run_cmd@
    }

    pub closed spec fn spec_compile_cmd(&self) -> Seq<char> {
        self.compile_cmd@
    }

    pub closed spec fn spec_work_dir(&self) -> Seq<char> {
        self.work_dir@
    }

    pub closed spec fn spec_file_name(&self) -> Seq<char> {
        self.file_name@
    }

    pub closed spec fn spec_max_cpu_time(&self) -> i64 {
        self.max_cpu_time
    }

    /// Whether the working directory has been removed, or its removal begun.
    pub closed spec fn is_cleaned(&self) -> bool {
        self.cleaned
    }

    /// The runner once its cleanup has begun: the same in all but the flag.
    pub closed spec fn after_cleanup(&self) -> Runner {
        Runner { cleaned: true, ..*self }
    }

    /// Number of directory removals that `k` calls of [`Runner::cleanup`]
    /// and then [`Runner::teardown`] make, by their contracts.
    pub open spec fn removals(&self, k: nat) -> nat
        decreases k,
    {
        if k == 0 {
            if self.is_cleaned() { 0 } else { 1 }
        } else {
            (if self.is_cleaned() { 0nat } else { 1nat }) + self.after_cleanup().removals((k - 1) as nat)
        }
    }

    /// Path of the program file: the file name inside the working directory.
    pub open spec fn spec_program_path(&self) -> Seq<char> {
        self.spec_work_dir() + "/"@ + self.spec_file_name()
    }

    /// A runner for a program in `language`, in the working directory `work_dir`.
    pub fn new(language: &LanguageConfig, work_dir: String, max_cpu_time: i64) -> (r: Self)
        ensures
            r.spec_run_cmd() == language.run_cmd@,
            r.spec_compile_cmd() == language.compile_cmd@,
            r.spec_file_name() == language.file_name@,
            r.spec_work_dir() == work_dir@,
            r.spec_max_cpu_time() == max_cpu_time,
            !r.is_cleaned(),
    {
        Runner {
            run_cmd: language.run_cmd.clone(),
            compile_cmd: language.compile_cmd.clone(),
            file_name: language.file_name.clone(),
            work_dir,
            max_cpu_time,
            cleaned: false,
        }
    }

    /// The command that runs the program.
    pub fn run_command(&self) -> (r: &str)
        ensures
            r@ == self.spec_run_cmd(),
    {
        self.run_cmd.as_str()
    }

    /// The command that compiles the program; empty where there is none.
    pub fn compile_command(&self) -> (r: &str)
        ensures
            r@ == self.spec_compile_cmd(),
    {
        self.compile_cmd.as_str()
    }

    pub fn work_dir(&self) -> (r: &str)
        ensures
            r@ == self.spec_work_dir(),
    {
        self.work_dir.as_str()
    }

    /// CPU time allowed to each run, in seconds.
    pub fn max_cpu_time(&self) -> (r: i64)
        ensures
            r == self.spec_max_cpu_time(),
    {
        self.max_cpu_time
    }

    /// Path of the program file.
    pub fn program_path(&self) -> (r: String)
        ensures
            r@ == self.spec_program_path(),
    {
        let mut p = self.work_dir.clone();
        p.append("/");
        p.append(self.file_name.as_str());
        p
    }

    /// Whether the language has a compile step.
    pub fn needs_compile(&self) -> (r: bool)
        ensures
            r == (self.spec_compile_cmd().len() > 0),
    {
        !self.compile_cmd.as_str().is_empty()
    }

    /// Outcome of the compile step, from whether the compiler succeeded and its error output.
    pub fn compile_outcome(&self, success: bool, stderr: String) -> (r: Result<(), CaseError>)
        ensures
            success ==> r is Ok,
            !success ==> r == Err::<(), CaseError>(CaseError::Compilation(stderr)),
    {
        if success {
            Ok(())
        } else {
            Err(CaseError::Compilation(stderr))
        }
    }

    /// Outcome of one run that exited: its output where it exited with success,
    /// else a runtime error that gives the exit code (-1 where there is none)
    /// and the error output with the program's path redacted.
    pub fn run_outcome(&self, success: bool, code: Option<i32>, stdout: String, stderr: &str) -> (r:
        Result<String, CaseError>)
        ensures
            success ==> r == Ok::<String, CaseError>(stdout),
            !success ==> (r matches Err(CaseError::Runtime(m)) && m@ == runtime_message(
                match code {
                    Some(c) => c as int,
                    None => -1,
                },
                stderr@,
                self.spec_program_path(),
            )),
    {
        if success {
            return Ok(stdout);
        }
        let c: i32 = match code {
            Some(c) => c,
            None => -1,
        };
        let path = self.program_path();
        let cleaned_err = replace_all(stderr, path.as_str(), "<your program>");
        let mut m = String::from_str("Process exited with error ");
        push_signed_decimal(&mut m, c as i64);
        m.append(":\n\n ");
        m.append(cleaned_err.as_str());
        Err(CaseError::Runtime(m))
    }

    /// Outcome of a case whose run printed `output`, given the verdict of
    /// checking it: the output where it was accepted, a logic error where it was
    /// not, a judge error where the check itself failed.
    pub fn judge_output(output: String, verdict: Result<bool, String>) -> (r: Result<String, CaseError>)
        ensures
            verdict matches Ok(true) ==> r == Ok::<String, CaseError>(output),
            verdict matches Ok(false) ==> r == Err::<String, CaseError>(CaseError::Logic),
            verdict matches Err(e) ==> r == Err::<String, CaseError>(CaseError::Judge(e)),
    {
        match verdict {
            Ok(true) => Ok(output),
            Ok(false) => Err(CaseError::Logic),
            Err(e) => Err(CaseError::Judge(e)),
        }
    }

    /// Begins the explicit cleanup: true where the working directory must now
    /// be removed, which is the case only at the first call.
    pub fn cleanup(&mut self) -> (r: bool)
        ensures
            r == !old(self).is_cleaned(),
            *final(self) == old(self).after_cleanup(),
            final(self).is_cleaned(),
            final(self).spec_work_dir() == old(self).spec_work_dir(),
    {
        let first = !self.cleaned;
        self.cleaned = true;
        first
    }

    /// Teardown: true where the working directory must still be removed
    /// because no cleanup was made.
    pub fn teardown(self) -> (r: bool)
        ensures
            r == !self.is_cleaned(),
    {
        !self.cleaned
    }
}

/// A runner's working directory is removed exactly once, whatever number of
/// explicit cleanups precede its teardown. Running, compiling and judging
/// borrow the runner without changing it, so this holds whether the job
/// passed, failed or was cancelled.
pub proof fn lemma_removed_exactly_once(r: Runner, k: nat)
    requires
        !r.is_cleaned(),
    ensures
        r.removals(k) == 1,
    decreases k,
{
    if k > 0 {
        lemma_cleaned_never_removes(r.after_cleanup(), (k - 1) as nat);
    }
}

/// Once its cleanup has begun, neither cleanup nor teardown removes anything.
pub proof fn lemma_cleaned_never_removes(r: Runner, k: nat)
    requires
        r.is_cleaned(),
    ensures
        r.removals(k) == 0,
    decreases k,
{
    if k > 0 {
        lemma_cleaned_never_removes(r.after_cleanup(), (k - 1) as nat);
    }
}

} // verus!

use vstd::prelude::*;
use vstd::std_specs::iter::IteratorSpec;
use vstd::string::StringExecFns;
use std::collections::HashMap;

use crate::job::JobRequest;
use crate::languages::{LanguageConfig, RunConfig};
use crate::text::push_decimal;

verus! {

broadcast use vstd::std_specs::hash::group_hash_axioms;

/// Why a job was not admitted.
#[derive(Debug)]
pub enum AdmissionError {
    /// The user already has a job in flight.
    AlreadyRunning,
    /// The program is longer than the limit, given in bytes.
    ProgramTooLong(usize),
    /// No language is configured under the key.
    UnsupportedLanguage(String),
}

impl AdmissionError {
    /// Text of the refusal shown to the user.
    pub open spec fn spec_message(&self) -> Seq<char> {
        match self {
            AdmissionError::AlreadyRunning => "User already has a job running"@,
            AdmissionError::ProgramTooLong(max) => "Program too long, max length is "@
                + crate::text::decimal(*max as nat) + " bytes"@,
            AdmissionError::UnsupportedLanguage(l) => "Language "@ + l@ + " not supported by runner"@,
        }
    }

    /// Text of the refusal shown to the user.
    pub fn message(&self) -> (r: String)
        ensures
            r@ == self.spec_message(),
    {
        match self {
            AdmissionError::AlreadyRunning => String::from_str("User already has a job running"),
            AdmissionError::ProgramTooLong(max) => {
                let mut m = String::from_str("Program too long, max length is ");
                push_decimal(&mut m, *max as u128);
                m.append(" bytes");
                m
            },
            AdmissionError::UnsupportedLanguage(l) => {
                let mut m = String::from_str("Language ");
                m.append(l.as_str());
                m.append(" not supported by runner");
                m
            },
        }
    }
}

/// What an admitted job runs with: its number and its language.
#[derive(Debug)]
pub struct Admission {
    pub job_id: u64,
    pub language: LanguageConfig,
}

/// The registry entry of a user's job in flight: its problem, its number and
/// the handle through which it is observed and cancelled.
#[derive(Debug)]
pub struct Registration<H> {
    pub problem_id: i64,
    pub job_id: u64,
    pub handle: H,
}

/// Length of `program` in bytes, as `str::len` gives it.
pub open spec fn program_bytes(program: Seq<char>) -> usize {
    vstd::utf8::encode_utf8(program).len() as usize
}

/// The jobs in flight, at most one per user, the configuration they are
/// admitted under, and the number the next job gets.
#[derive(Debug)]
pub struct RunManager<H> {
    config: RunConfig,
    id_counter: u64,
    jobs: HashMap<i64, Registration<H>>,
}

impl<H> RunManager<H> {
    pub closed spec fn spec_config(&self) -> RunConfig {
        self.config
    }

    /// Number of the next admitted job.
    pub closed spec fn next_id(&self) -> u64 {
        self.id_counter
    }

    /// The registry: each user's job in flight.
    pub closed spec fn registry(&self) -> Map<i64, Registration<H>> {
        self.jobs@
    }

    pub open spec fn wf(&self) -> bool {
        self.spec_config().wf()
    }

    /// What admission decides on `request`.
    pub open spec fn verdict(&self, request: JobRequest) -> Result<(), AdmissionError> {
        if self.registry().contains_key(request.user_id) {
            Err(AdmissionError::AlreadyRunning)
        } else if program_bytes(request.program@) > self.spec_config().max_program_length {
            Err(AdmissionError::ProgramTooLong(self.spec_config().max_program_length))
        } else if !self.spec_config().has_language(request.language@) {
            Err(AdmissionError::UnsupportedLanguage(request.language))
        } else {
            Ok(())
        }
    }

    /// A manager with no job, whose first job gets number 1.
    pub fn new(config: RunConfig) -> (r: Self)
        requires
            config.wf(),
        ensures
            r.wf(),
            r.spec_config() == config,
            r.next_id() == 1,
            r.registry() == Map::<i64, Registration<H>>::empty(),
    {
        RunManager { config, id_counter: 1, jobs: HashMap::new() }
    }

    /// Number of the next admitted job.
    pub fn next_job_id(&self) -> (r: u64)
        ensures
            r == self.next_id(),
    {
        self.id_counter
    }

    /// The configuration.
    pub fn config(&self) -> (r: &RunConfig)
        ensures
            *r == self.spec_config(),
    {
        &self.config
    }

    /// Admits `request` and registers it under its user with `handle`, or says
    /// why not. A user with a job in flight is refused before anything else.
    /// Only an admitted job takes a number; a refusal changes nothing.
    pub fn request_job(&mut self, request: &JobRequest, handle: H) -> (r: Result<Admission, AdmissionError>)
        requires
            old(self).wf(),
            old(self).verdict(*request) is Ok ==> old(self).next_id() < u64::MAX,
        ensures
            final(self).wf(),
            final(self).spec_config() == old(self).spec_config(),
            r is Ok <==> old(self).verdict(*request) is Ok,
            r matches Err(e) ==> old(self).verdict(*request) == Err::<(), AdmissionError>(e),
            r is Err ==> final(self).registry() == old(self).registry(),
            r is Err ==> final(self).next_id() == old(self).next_id(),
            r is Ok ==> final(self).next_id() == old(self).next_id() + 1,
            r matches Ok(a) ==> a.job_id == old(self).next_id() && a.language
                == old(self).spec_config().language_spec(request.language@) && final(self).registry()
                == old(self).registry().insert(
                request.user_id,
                Registration { problem_id: request.problem_id, job_id: a.job_id, handle },
            ),
    {
        if self.jobs.contains_key(&request.user_id) {
            return Err(AdmissionError::AlreadyRunning);
        }
        if request.program.as_str().len() > self.config.max_program_length {
            return Err(AdmissionError::ProgramTooLong(self.config.max_program_length));
        }
        let language = match self.config.language(request.language.as_str()) {
            Some(l) => l.clone(),
            None => {
                return Err(AdmissionError::UnsupportedLanguage(request.language.clone()));
            },
        };
        let id = self.id_counter;
        self.id_counter = self.id_counter + 1;
        self.jobs.insert(
            request.user_id,
            Registration { problem_id: request.problem_id, job_id: id, handle },
        );
        Ok(Admission { job_id: id, language })
    }

    /// Removes the entry of `user_id` where it is the job `job_id`, so the user
    /// may submit again; gives back its handle.
    pub fn finish_job(&mut self, user_id: i64, job_id: u64) -> (r: Option<H>)
        requires
            old(self).wf(),
        ensures
            final(self).wf(),
            final(self).spec_config() == old(self).spec_config(),
            final(self).next_id() == old(self).next_id(),
            old(self).registry().contains_key(user_id) && old(self).registry()[user_id].job_id
                == job_id ==> final(self).registry() == old(self).registry().remove(user_id) && r
                == Some(old(self).registry()[user_id].handle),
            !(old(self).registry().contains_key(user_id) && old(self).registry()[user_id].job_id
                == job_id) ==> final(self).registry() == old(self).registry() && r is None,
    {
        let ours = match self.jobs.get(&user_id) {
            Some(reg) => reg.job_id == job_id,
            None => false,
        };
        if ours {
            match self.jobs.remove(&user_id) {
                Some(reg) => Some(reg.handle),
                None => None,
            }
        } else {
            None
        }
    }

    /// The handle of the user's job in flight, where it is for `problem_id`.
    pub fn get_handle(&self, user_id: i64, problem_id: i64) -> (r: Option<&H>)
        ensures
            r is Some <==> self.registry().contains_key(user_id) && self.registry()[user_id].problem_id
                == problem_id,
            r matches Some(h) ==> *h == self.registry()[user_id].handle,
    {
        match self.jobs.get(&user_id) {
            Some(reg) => {
                if reg.problem_id == problem_id {
                    Some(&reg.handle)
                } else {
                    None
                }
            },
            None => None,
        }
    }

    /// The handle through which the user's job in flight is cancelled. The
    /// entry stays until the job itself finishes.
    pub fn shutdown_job(&self, user_id: i64) -> (r: Option<&H>)
        ensures
            r is Some <==> self.registry().contains_key(user_id),
            r matches Some(h) ==> *h == self.registry()[user_id].handle,
    {
        match self.jobs.get(&user_id) {
            Some(reg) => Some(&reg.handle),
            None => None,
        }
    }

    /// Every job in flight: its user and problem.
    pub fn all_active_jobs(&self) -> (r: Vec<(i64, i64)>)
        ensures
            r@.len() == self.registry().dom().len(),
            forall|i: int|
                0 <= i < r@.len() ==> self.registry().contains_key(#[trigger] r@[i].0)
                    && self.registry()[r@[i].0].problem_id == r@[i].1,
            forall|u: i64|
                #[trigger] self.registry().contains_key(u) ==> exists|i: int|
                    0 <= i < r@.len() && r@[i].0 == u,
    {
        let mut r: Vec<(i64, i64)> = Vec::new();
        let ghost v = self.jobs.iter().remaining();
        for entry in it: self.jobs.iter()
            invariant
                it.seq() == v,
                r@.len() == it.index(),
                forall|i: int|
                    0 <= i < it.index() ==> #[trigger] r@[i] == (*it.seq()[i].0, it.seq()[i].1.problem_id),
        {
            r.push((*entry.0, entry.1.problem_id));
        }
        proof {
            assert forall|u: i64| #[trigger] self.registry().contains_key(u) implies exists|i: int|
                0 <= i < r@.len() && r@[i].0 == u by {
                assert(v.contains((&u, &self.jobs@[u])));
                let i = choose|i: int| 0 <= i < v.len() && v[i] == (&u, &self.jobs@[u]);
                assert(r@[i].0 == u);
            }
        }
        r
    }

    /// The handles of every job in flight, through which they are all cancelled.
    pub fn shutdown(&self) -> (r: Vec<&H>)
        ensures
            r@.len() == self.registry().dom().len(),
            forall|u: i64|
                #[trigger] self.registry().contains_key(u) ==> exists|i: int|
                    0 <= i < r@.len() && *r@[i] == self.registry()[u].handle,
    {
        let mut r: Vec<&H> = Vec::new();
        let ghost v = self.jobs.iter().remaining();
        for entry in it: self.jobs.iter()
            invariant
                it.seq() == v,
                r@.len() == it.index(),
                forall|i: int| 0 <= i < it.index() ==> #[trigger] r@[i] == &it.seq()[i].1.handle,
        {
            r.push(&entry.1.handle);
        }
        proof {
            assert forall|u: i64| #[trigger] self.registry().contains_key(u) implies exists|i: int|
                0 <= i < r@.len() && *r@[i] == self.registry()[u].handle by {
                assert(v.contains((&u, &self.jobs@[u])));
                let i = choose|i: int| 0 <= i < v.len() && v[i] == (&u, &self.jobs@[u]);
                assert(*r@[i] == self.registry()[u].handle);
            }
        }
        r
    }
}

/// For each problem, the notifier that tells its sessions the problem changed.
#[derive(Debug)]
pub struct ProblemNotifiers<N> {
    notifiers: HashMap<i64, N>,
}

impl<N> ProblemNotifiers<N> {
    pub closed spec fn spec_notifiers(&self) -> Map<i64, N> {
        self.notifiers@
    }

    /// No notifier.
    pub fn new() -> (r: Self)
        ensures
            r.spec_notifiers() == Map::<i64, N>::empty(),
    {
        ProblemNotifiers { notifiers: HashMap::new() }
    }

    /// The notifier of `problem_id`, where there is one.
    pub fn get(&self, problem_id: i64) -> (r: Option<&N>)
        ensures
            r is Some <==> self.spec_notifiers().contains_key(problem_id),
            r matches Some(n) ==> *n == self.spec_notifiers()[problem_id],
    {
        self.notifiers.get(&problem_id)
    }

    /// Sets the notifier of `problem_id`.
    pub fn insert(&mut self, problem_id: i64, notifier: N)
        ensures
            final(self).spec_notifiers() == old(self).spec_notifiers().insert(problem_id, notifier),
    {
        self.notifiers.insert(problem_id, notifier);
    }

    /// Takes out the notifier of `problem_id`, to be fired: its sessions learn
    /// that the problem changed, and later ones get a fresh notifier.
    pub fn update_problem(&mut self, problem_id: i64) -> (r: Option<N>)
        ensures
            final(self).spec_notifiers() == old(self).spec_notifiers().remove(problem_id),
            r is Some <==> old(self).spec_notifiers().contains_key(problem_id),
            r matches Some(n) ==> n == old(self).spec_notifiers()[problem_id],
    {
        self.notifiers.remove(&problem_id)
    }
}

/// Once a user's request is admitted, every further request from that user is
/// refused as already running until the job finishes, and the first job's
/// entry stays as it was.
pub proof fn lemma_one_job_per_user<H>(
    before: RunManager<H>,
    first: JobRequest,
    admitted: Admission,
    handle: H,
    after: RunManager<H>,
    second: JobRequest,
)
    requires
        before.verdict(first) is Ok,
        after.registry() == before.registry().insert(
            first.user_id,
            Registration { problem_id: first.problem_id, job_id: admitted.job_id, handle },
        ),
        second.user_id == first.user_id,
    ensures
        after.verdict(second) == Err::<(), AdmissionError>(AdmissionError::AlreadyRunning),
        after.registry()[first.user_id] == (Registration {
            problem_id: first.problem_id,
            job_id: admitted.job_id,
            handle,
        }),
{
}

} // verus!

use vstd::prelude::*;

use crate::error::AgentError;
use crate::job::{outcome_status, reply_of, status_of_outcome, JobStatus, ProcessOutcome};
use crate::registry::JobRegistry;
use crate::workdir::{is_valid_workdir, validate_workdir};

verus! {

/// What one round of a wait finds for a job.
#[derive(Debug, Clone, Copy, PartialEq, Eq, Structural)]
pub enum WaitStep {
    /// The identifier was never registered: the wait ends with an error.
    NotFound,
    /// The job still runs: the waiter suspends until the next signal.
    Pending,
    /// The job reached this terminal status: the wait ends with it.
    Finished(JobStatus),
}

/// The step a waiter takes when the registry holds `m`.
pub open spec fn wait_step_of(m: Map<Seq<char>, JobStatus>, id: Seq<char>) -> WaitStep {
    if !m.contains_key(id) {
        WaitStep::NotFound
    } else if m[id] is Running {
        WaitStep::Pending
    } else {
        WaitStep::Finished(m[id])
    }
}

/// The registry after a submission under `id`: a known identifier is refused.
pub open spec fn after_submit(m: Map<Seq<char>, JobStatus>, id: Seq<char>) -> Map<
    Seq<char>,
    JobStatus,
> {
    if m.contains_key(id) {
        m
    } else {
        m.insert(id, JobStatus::Running)
    }
}

/// The registry after the job `id` ended with `o`: only a running job turns.
pub open spec fn after_finish(
    m: Map<Seq<char>, JobStatus>,
    id: Seq<char>,
    o: ProcessOutcome,
) -> Map<Seq<char>, JobStatus> {
    if m.get(id) == Some(JobStatus::Running) {
        m.insert(id, status_of_outcome(o))
    } else {
        m
    }
}

/// Relies on uuid::Uuid::new_v4, rendered by its `Display`: a random identifier
/// in the 36-character hyphenated form.
#[verifier::external_body]
fn new_job_id() -> (r: String)
    ensures
        r@.len() == 36,
{
    uuid::Uuid::new_v4().to_string()
}

impl JobRegistry {
    /// Registers `id` as a running job, unless it is already known.
    pub fn register(&mut self, id: String) -> (r: Result<String, AgentError>)
        requires
            old(self).wf(),
        ensures
            final(self).wf(),
            final(self)@ == after_submit(old(self)@, id@),
            r == (if old(self)@.contains_key(id@) {
                Err::<String, AgentError>(AgentError::DuplicateJobId)
            } else {
                Ok(id)
            }),
    {
        if self.get(&id).is_some() {
            return Err(AgentError::DuplicateJobId);
        }
        self.create(id.clone());
        Ok(id)
    }

    /// Validates the working directory, draws a fresh identifier and
    /// registers a running job under it.
    pub fn start_job(&mut self, workdir: &str) -> (r: Result<String, AgentError>)
        requires
            old(self).wf(),
        ensures
            final(self).wf(),
            !is_valid_workdir(workdir@) ==> r == Err::<String, AgentError>(
                AgentError::InvalidWorkdir,
            ) && final(self)@ == old(self)@,
            is_valid_workdir(workdir@) && old(self)@.dom().is_empty() ==> r is Ok,
            is_valid_workdir(workdir@) ==> match r {
                Ok(id) => !old(self)@.contains_key(id@) && final(self)@ == old(self)@.insert(
                    id@,
                    JobStatus::Running,
                ),
                Err(e) => e == AgentError::DuplicateJobId && final(self)@ == old(self)@,
            },
    {
        validate_workdir(workdir)?;
        let id = new_job_id();
        self.register(id)
    }

    /// Records how the process of job `id` ended; tells whether the job turned
    /// terminal now, which is when waiters are to be signalled.
    pub fn finish_job(&mut self, id: &String, o: ProcessOutcome) -> (changed: bool)
        requires
            old(self).wf(),
        ensures
            final(self).wf(),
            final(self)@ == after_finish(old(self)@, id@, o),
            changed == (old(self)@.get(id@) == Some(JobStatus::Running)),
    {
        match self.get(id) {
            Some(JobStatus::Running) => {
                self.set_terminal(id.clone(), outcome_status(o));
                true
            },
            _ => false,
        }
    }

    /// One round of a wait on job `id`.
    pub fn wait_step(&self, id: &String) -> (r: WaitStep)
        requires
            self.wf(),
        ensures
            r == wait_step_of(self@, id@),
    {
        match self.get(id) {
            None => WaitStep::NotFound,
            Some(JobStatus::Running) => WaitStep::Pending,
            Some(s) => WaitStep::Finished(s),
        }
    }
}

/// A change to the registry: a submission or the end of a job's process.
pub enum RegistryEvent {
    Submitted(String),
    Completed(String, ProcessOutcome),
}

pub open spec fn apply_event(m: Map<Seq<char>, JobStatus>, e: RegistryEvent) -> Map<
    Seq<char>,
    JobStatus,
> {
    match e {
        RegistryEvent::Submitted(id) => after_submit(m, id@),
        RegistryEvent::Completed(id, o) => after_finish(m, id@, o),
    }
}

/// The registry after the events `evs`, in order.
pub open spec fn apply_events(m: Map<Seq<char>, JobStatus>, evs: Seq<RegistryEvent>) -> Map<
    Seq<char>,
    JobStatus,
>
    decreases evs.len(),
{
    if evs.len() == 0 {
        m
    } else {
        apply_events(apply_event(m, evs[0]), evs.drop_first())
    }
}

/// A running job whose process exits with code 0 is then reported `ok` by a
/// wait; one that ends in any other way is reported `failed`.
pub proof fn lemma_outcome_decides_reply(
    m: Map<Seq<char>, JobStatus>,
    id: Seq<char>,
    o: ProcessOutcome,
)
    requires
        m.get(id) == Some(JobStatus::Running),
    ensures
        wait_step_of(after_finish(m, id, o), id) == WaitStep::Finished(status_of_outcome(o)),
        o == ProcessOutcome::Exited(0) ==> reply_of(status_of_outcome(o)) == "ok"@,
        o != ProcessOutcome::Exited(0) ==> reply_of(status_of_outcome(o)) == "failed"@,
{
}

/// Starting from an empty registry, a wait on an identifier that no event
/// submitted reports not-found at once.
pub proof fn lemma_unsubmitted_not_found(evs: Seq<RegistryEvent>, id: Seq<char>)
    requires
        forall|i: int|
            0 <= i < evs.len() ==> !(#[trigger] evs[i] matches RegistryEvent::Submitted(s)
                && s@ == id),
    ensures
        wait_step_of(apply_events(Map::empty(), evs), id) == WaitStep::NotFound,
{
    lemma_never_added(Map::empty(), evs, id);
}

proof fn lemma_never_added(m: Map<Seq<char>, JobStatus>, evs: Seq<RegistryEvent>, id: Seq<char>)
    requires
        !m.contains_key(id),
        forall|i: int|
            0 <= i < evs.len() ==> !(#[trigger] evs[i] matches RegistryEvent::Submitted(s)
                && s@ == id),
    ensures
        !apply_events(m, evs).contains_key(id),
    decreases evs.len(),
{
    if evs.len() > 0 {
        let rest = evs.drop_first();
        assert forall|i: int| 0 <= i < rest.len() implies !(#[trigger] rest[i] matches RegistryEvent::Submitted(s)
            && s@ == id) by {
            assert(rest[i] == evs[i + 1]);
        }
        assert(!(evs[0] matches RegistryEvent::Submitted(s) && s@ == id));
        lemma_never_added(apply_event(m, evs[0]), rest, id);
    }
}

/// Once a job is terminal, no later submission or completion changes it: every
/// waiter on it, whenever it looks, finds the same terminal status.
pub proof fn lemma_terminal_is_final(
    m: Map<Seq<char>, JobStatus>,
    evs: Seq<RegistryEvent>,
    id: Seq<char>,
)
    requires
        m.contains_key(id),
        m[id].is_terminal(),
    ensures
        apply_events(m, evs).contains_key(id),
        apply_events(m, evs)[id] == m[id],
        wait_step_of(apply_events(m, evs), id) == wait_step_of(m, id),
        wait_step_of(m, id) == WaitStep::Finished(m[id]),
    decreases evs.len(),
{
    if evs.len() > 0 {
        let n = apply_event(m, evs[0]);
        assert(n.contains_key(id) && n[id] == m[id]);
        lemma_terminal_is_final(n, evs.drop_first(), id);
    }
}

} // verus!

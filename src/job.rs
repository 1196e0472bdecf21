use vstd::prelude::*;

verus! {

/// Lifecycle status of a job: `Running` until it turns, once, terminal.
#[derive(Debug, Clone, Copy, PartialEq, Eq, Structural)]
pub enum JobStatus {
    Running,
    Succeeded,
    Failed,
}

impl JobStatus {
    pub open spec fn spec_is_terminal(&self) -> bool {
        !(self is Running)
    }

    #[verifier::when_used_as_spec(spec_is_terminal)]
    pub fn is_terminal(&self) -> (r: bool)
        ensures
            r == self.spec_is_terminal(),
    {
        !matches!(self, JobStatus::Running)
    }
}

/// How the execution of a job's command ended, as seen by the runner.
#[derive(Debug, Clone, Copy, PartialEq, Eq, Structural)]
pub enum ProcessOutcome {
    /// The process could not be started.
    SpawnFailed,
    /// The process exited with this code.
    Exited(u32),
    /// The process was terminated by this signal.
    Signaled(u8),
    /// Another platform-specific termination.
    Other(i32),
    /// The exit status could not be obtained.
    Undetermined,
}

/// The terminal status that an outcome gives: success exactly for exit code 0.
pub open spec fn status_of_outcome(o: ProcessOutcome) -> JobStatus {
    if o == ProcessOutcome::Exited(0) {
        JobStatus::Succeeded
    } else {
        JobStatus::Failed
    }
}

/// Maps how a process ended to the job's terminal status.
pub fn outcome_status(o: ProcessOutcome) -> (r: JobStatus)
    ensures
        r == status_of_outcome(o),
        r.is_terminal(),
{
    match o {
        ProcessOutcome::Exited(code) => {
            if code == 0 {
                JobStatus::Succeeded
            } else {
                JobStatus::Failed
            }
        },
        _ => JobStatus::Failed,
    }
}

/// The text that a finished wait reports for a status.
pub open spec fn reply_of(s: JobStatus) -> Seq<char> {
    if s is Succeeded {
        "ok"@
    } else {
        "failed"@
    }
}

/// The reply of a completed wait: `ok` for success, `failed` otherwise.
pub fn status_reply(s: JobStatus) -> (r: &'static str)
    requires
        s.is_terminal(),
    ensures
        r@ == reply_of(s),
{
    proof {
        reveal_strlit("ok");
        reveal_strlit("failed");
    }
    match s {
        JobStatus::Succeeded => "ok",
        _ => "failed",
    }
}

} // verus!

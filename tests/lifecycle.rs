use remote_agent::error::AgentError;
use remote_agent::job::{outcome_status, status_reply, JobStatus, ProcessOutcome};
use remote_agent::registry::JobRegistry;
use remote_agent::runner::WaitStep;
use remote_agent::workdir::validate_workdir;

#[test]
fn absolute_workdir_is_accepted() {
    assert_eq!(validate_workdir("/tmp/x"), Ok(()));
    assert_eq!(validate_workdir("/"), Ok(()));
}

#[test]
fn relative_or_home_workdir_is_rejected() {
    assert_eq!(validate_workdir("relative/path"), Err(AgentError::InvalidWorkdir));
    assert_eq!(validate_workdir(""), Err(AgentError::InvalidWorkdir));
    assert_eq!(validate_workdir("~/build"), Err(AgentError::InvalidWorkdir));
    assert_eq!(validate_workdir("/home/~user/x"), Err(AgentError::InvalidWorkdir));
}

#[test]
fn exit_code_zero_succeeds() {
    assert_eq!(outcome_status(ProcessOutcome::Exited(0)), JobStatus::Succeeded);
    assert_eq!(status_reply(JobStatus::Succeeded), "ok");
}

#[test]
fn other_outcomes_fail() {
    for o in [
        ProcessOutcome::Exited(1),
        ProcessOutcome::Exited(255),
        ProcessOutcome::SpawnFailed,
        ProcessOutcome::Signaled(9),
        ProcessOutcome::Other(3),
        ProcessOutcome::Undetermined,
    ] {
        assert_eq!(outcome_status(o), JobStatus::Failed);
    }
    assert_eq!(status_reply(JobStatus::Failed), "failed");
}

#[test]
fn run_then_wait_reports_ok_and_failed() {
    let mut reg = JobRegistry::new();
    let j = reg.start_job("/tmp/x").unwrap();
    let k = reg.start_job("/tmp/x").unwrap();
    assert_ne!(j, k);
    assert_eq!(reg.wait_step(&j), WaitStep::Pending);
    assert!(reg.finish_job(&j, ProcessOutcome::Exited(0)));
    assert!(reg.finish_job(&k, ProcessOutcome::Exited(1)));
    match reg.wait_step(&j) {
        WaitStep::Finished(s) => assert_eq!(status_reply(s), "ok"),
        other => panic!("unexpected {:?}", other),
    }
    match reg.wait_step(&k) {
        WaitStep::Finished(s) => assert_eq!(status_reply(s), "failed"),
        other => panic!("unexpected {:?}", other),
    }
}

#[test]
fn relative_workdir_creates_no_job() {
    let mut reg = JobRegistry::new();
    assert_eq!(reg.start_job("relative/path"), Err(AgentError::InvalidWorkdir));
    assert_eq!(reg.get(&"relative/path".to_string()), None);
}

#[test]
fn unknown_id_is_not_found() {
    let mut reg = JobRegistry::new();
    assert_eq!(reg.wait_step(&"no-such-job".to_string()), WaitStep::NotFound);
    reg.start_job("/tmp/x").unwrap();
    assert_eq!(reg.wait_step(&"no-such-job".to_string()), WaitStep::NotFound);
}

#[test]
fn terminal_status_does_not_change() {
    let mut reg = JobRegistry::new();
    let id = reg.register("job-a".to_string()).unwrap();
    assert!(reg.finish_job(&id, ProcessOutcome::Exited(2)));
    assert!(!reg.finish_job(&id, ProcessOutcome::Exited(0)));
    assert_eq!(reg.register("job-a".to_string()), Err(AgentError::DuplicateJobId));
    let first = reg.wait_step(&id);
    let second = reg.wait_step(&id);
    assert_eq!(first, WaitStep::Finished(JobStatus::Failed));
    assert_eq!(first, second);
}

#[test]
fn finishing_an_unknown_job_changes_nothing() {
    let mut reg = JobRegistry::new();
    assert!(!reg.finish_job(&"ghost".to_string(), ProcessOutcome::Exited(0)));
    assert_eq!(reg.get(&"ghost".to_string()), None);
}

#[test]
fn set_terminal_overwrites() {
    let mut reg = JobRegistry::new();
    reg.create("a".to_string());
    reg.create("b".to_string());
    assert_eq!(reg.get(&"a".to_string()), Some(JobStatus::Running));
    reg.set_terminal("a".to_string(), JobStatus::Succeeded);
    assert_eq!(reg.get(&"a".to_string()), Some(JobStatus::Succeeded));
    assert_eq!(reg.get(&"b".to_string()), Some(JobStatus::Running));
}

#[test]
fn generated_ids_are_uuid_text() {
    let mut reg = JobRegistry::new();
    let id = reg.start_job("/tmp/x").unwrap();
    assert_eq!(id.len(), 36);
    assert_eq!(reg.get(&id), Some(JobStatus::Running));
}

#[test]
fn error_reasons_are_not_empty() {
    for e in [
        AgentError::InvalidWorkdir,
        AgentError::UnknownJob,
        AgentError::DuplicateJobId,
        AgentError::MalformedPayload,
        AgentError::MissingFile,
    ] {
        assert!(!e.reason().is_empty());
    }
}

#[test]
fn error_reasons_are_exact() {
    assert_eq!(AgentError::InvalidWorkdir.reason(), "path must be absolute and must not contain '~'");
    assert_eq!(AgentError::UnknownJob.reason(), "run not found");
    assert_eq!(AgentError::DuplicateJobId.reason(), "job identifier already in use");
    assert_eq!(AgentError::MalformedPayload.reason(), "payload is not valid base64");
    assert_eq!(AgentError::MissingFile.reason(), "file not found");
}

#[test]
fn valid_workdir_on_empty_registry_starts_a_job() {
    let mut reg = JobRegistry::new();
    let id = reg.start_job("/tmp/x").unwrap();
    assert_eq!(reg.wait_step(&id), WaitStep::Pending);
}

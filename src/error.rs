use vstd::prelude::*;

verus! {

/// The failures that the agent reports to its caller.
#[derive(Debug, Clone, Copy, PartialEq, Eq, Structural)]
pub enum AgentError {
    /// The working directory is not absolute or holds a home-directory shorthand.
    InvalidWorkdir,
    /// No job was ever registered under the given identifier.
    UnknownJob,
    /// A freshly drawn job identifier is already registered.
    DuplicateJobId,
    /// A file payload is not valid transport encoding.
    MalformedPayload,
    /// The requested file does not exist in the working directory.
    MissingFile,
}

impl AgentError {
    /// The text that reports each failure.
    pub open spec fn reason_text(self) -> Seq<char> {
        match self {
            AgentError::InvalidWorkdir => "path must be absolute and must not contain '~'"@,
            AgentError::UnknownJob => "run not found"@,
            AgentError::DuplicateJobId => "job identifier already in use"@,
            AgentError::MalformedPayload => "payload is not valid base64"@,
            AgentError::MissingFile => "file not found"@,
        }
    }

    /// A short human-readable reason.
    pub fn reason(&self) -> (r: &'static str)
        ensures
            r@ == self.reason_text(),
    {
        proof {
            reveal_strlit("path must be absolute and must not contain '~'");
            reveal_strlit("run not found");
            reveal_strlit("job identifier already in use");
            reveal_strlit("payload is not valid base64");
            reveal_strlit("file not found");
        }
        match self {
            AgentError::InvalidWorkdir => "path must be absolute and must not contain '~'",
            AgentError::UnknownJob => "run not found",
            AgentError::DuplicateJobId => "job identifier already in use",
            AgentError::MalformedPayload => "payload is not valid base64",
            AgentError::MissingFile => "file not found",
        }
    }
}

} // verus!

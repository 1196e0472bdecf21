use vstd::prelude::*;
use vstd::string::StrSliceExecFns;

use crate::error::AgentError;

verus! {

/// A working directory is accepted when it is absolute and holds no `~`.
pub open spec fn is_valid_workdir(p: Seq<char>) -> bool {
    &&& p.len() > 0
    &&& p[0] == '/'
    &&& !p.contains('~')
}

/// Checks a caller-supplied working directory before any job is created.
pub fn validate_workdir(p: &str) -> (r: Result<(), AgentError>)
    ensures
        r == (if is_valid_workdir(p@) {
            Ok::<(), AgentError>(())
        } else {
            Err(AgentError::InvalidWorkdir)
        }),
{
    let n = p.unicode_len();
    if n == 0 || p.get_char(0) != '/' {
        return Err(AgentError::InvalidWorkdir);
    }
    let mut i: usize = 0;
    while i < n
        invariant
            n == p@.len(),
            i <= n,
            forall|j: int| 0 <= j < i ==> p@[j] != '~',
        decreases n - i,
    {
        if p.get_char(i) == '~' {
            assert(p@.contains('~'));
            return Err(AgentError::InvalidWorkdir);
        }
        i = i + 1;
    }
    Ok(())
}

} // verus!

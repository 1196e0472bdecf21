use vstd::prelude::*;

use crate::error::AgentError;
use crate::job::{outcome_status, status_of_outcome, JobStatus, ProcessOutcome};

verus! {

/// The map that a list of (identifier, status) entries stands for: a later
/// entry for the same identifier overrides an earlier one.
pub open spec fn entries_map(s: Seq<(String, JobStatus)>) -> Map<Seq<char>, JobStatus>
    decreases s.len(),
{
    if s.len() == 0 {
        Map::empty()
    } else {
        entries_map(s.drop_last()).insert(s.last().0@, s.last().1)
    }
}

/// No two entries carry the same identifier.
pub open spec fn unique_ids(s: Seq<(String, JobStatus)>) -> bool {
    forall|i: int, j: int|
        0 <= i < s.len() && 0 <= j < s.len() && i != j ==> s[i].0@ != s[j].0@
}

proof fn lemma_absent(s: Seq<(String, JobStatus)>, k: Seq<char>)
    requires
        forall|i: int| 0 <= i < s.len() ==> s[i].0@ != k,
    ensures
        !entries_map(s).contains_key(k),
    decreases s.len(),
{
    if s.len() > 0 {
        lemma_absent(s.drop_last(), k);
    }
}

proof fn lemma_present(s: Seq<(String, JobStatus)>, i: int)
    requires
        unique_ids(s),
        0 <= i < s.len(),
    ensures
        entries_map(s).contains_key(s[i].0@),
        entries_map(s)[s[i].0@] == s[i].1,
    decreases s.len(),
{
    if i < s.len() - 1 {
        lemma_present(s.drop_last(), i);
    }
}

proof fn lemma_update(s: Seq<(String, JobStatus)>, i: int, v: JobStatus)
    requires
        unique_ids(s),
        0 <= i < s.len(),
    ensures
        unique_ids(s.update(i, (s[i].0, v))),
        entries_map(s.update(i, (s[i].0, v))) =~= entries_map(s).insert(s[i].0@, v),
    decreases s.len(),
{
    let t = s.update(i, (s[i].0, v));
    if i == s.len() - 1 {
        assert(t.drop_last() =~= s.drop_last());
    } else {
        let d = s.drop_last();
        lemma_update(d, i, v);
        assert(t.drop_last() =~= d.update(i, (s[i].0, v)));
        assert(s.last().0@ != s[i].0@);
    }
}

proof fn lemma_push(s: Seq<(String, JobStatus)>, e: (String, JobStatus))
    requires
        unique_ids(s),
        !entries_map(s).contains_key(e.0@),
    ensures
        unique_ids(s.push(e)),
        entries_map(s.push(e)) == entries_map(s).insert(e.0@, e.1),
{
    assert(s.push(e).drop_last() =~= s);
    assert forall|i: int| 0 <= i < s.len() implies s[i].0@ != e.0@ by {
        lemma_present(s, i);
    }
}

/// The registry of jobs: for each identifier ever issued, its latest status.
pub struct JobRegistry {
    entries: Vec<(String, JobStatus)>,
}

impl View for JobRegistry {
    type V = Map<Seq<char>, JobStatus>;

    closed spec fn view(&self) -> Map<Seq<char>, JobStatus> {
        entries_map(self.entries@)
    }
}

impl JobRegistry {
    /// Identifiers are unique among the entries.
    pub closed spec fn wf(&self) -> bool {
        unique_ids(self.entries@)
    }

    /// An empty registry.
    pub fn new() -> (r: Self)
        ensures
            r.wf(),
            r@ == Map::<Seq<char>, JobStatus>::empty(),
    {
        JobRegistry { entries: Vec::new() }
    }

    fn find(&self, id: &String) -> (r: Option<usize>)
        requires
            self.wf(),
        ensures
            match r {
                Some(i) => i < self.entries@.len() && self.entries@[i as int].0@ == id@
                    && self@.contains_key(id@) && self@[id@] == self.entries@[i as int].1,
                None => !self@.contains_key(id@),
            },
    {
        let mut i: usize = 0;
        while i < self.entries.len()
            invariant
                self.wf(),
                i <= self.entries@.len(),
                forall|j: int| 0 <= j < i ==> self.entries@[j].0@ != id@,
            decreases self.entries@.len() - i,
        {
            if self.entries[i].0 == *id {
                proof {
                    lemma_present(self.entries@, i as int);
                }
                return Some(i);
            }
            i = i + 1;
        }
        proof {
            lemma_absent(self.entries@, id@);
        }
        None
    }

    /// The status of a job, if the identifier was ever registered.
    pub fn get(&self, id: &String) -> (r: Option<JobStatus>)
        requires
            self.wf(),
        ensures
            r == self@.get(id@),
    {
        match self.find(id) {
            Some(i) => Some(self.entries[i].1),
            None => None,
        }
    }

    /// Registers a new job as `Running`.
    pub fn create(&mut self, id: String)
        requires
            old(self).wf(),
            !old(self)@.contains_key(id@),
        ensures
            final(self).wf(),
            final(self)@ == old(self)@.insert(id@, JobStatus::Running),
    {
        proof {
            lemma_push(self.entries@, (id, JobStatus::Running));
        }
        self.entries.push((id, JobStatus::Running));
    }

    /// Records a terminal status for a job, overwriting what was there.
    pub fn set_terminal(&mut self, id: String, status: JobStatus)
        requires
            old(self).wf(),
            status.is_terminal(),
        ensures
            final(self).wf(),
            final(self)@ == old(self)@.insert(id@, status),
    {
        match self.find(&id) {
            Some(i) => {
                proof {
                    lemma_update(self.entries@, i as int, status);
                }
                let key = self.entries[i].0.clone();
                self.entries.set(i, (key, status));
                assert(self.entries@ =~= old(self).entries@.update(
                    i as int,
                    (old(self).entries@[i as int].0, status),
                ));
            },
            None => {
                proof {
                    lemma_push(self.entries@, (id, status));
                }
                self.entries.push((id, status));
            },
        }
    }
}

} // verus!

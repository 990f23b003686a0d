//! The session store: scan jobs and source bindings, keyed by job identifier.
//!
//! Every change goes through `create_binding` and `poll_next_page`. Both take
//! the store by `&mut`, so the read, the decision and the write of one poll
//! are a single step: whoever shares a store between tasks puts it behind a
//! lock and thereby polls in some total order.

use std::collections::HashMap;
use vstd::prelude::*;
use crate::model::{JobId, PageDecision, ScanJob, ScanSource};
use crate::pagination::{next_page, spec_next_page};

verus! {

/// What a session store holds, as two mathematical maps.
#[verifier::ext_equal]
pub struct SessionState {
    /// The jobs that were polled at least once.
    pub jobs: Map<JobId, ScanJob>,
    /// The sources chosen when jobs were created.
    pub sources: Map<JobId, ScanSource>,
}

impl SessionState {
    /// The state of a store that has seen no request.
    pub open spec fn empty() -> SessionState {
        SessionState { jobs: Map::empty(), sources: Map::empty() }
    }

    /// The job recorded for `id`, if it was polled before.
    pub open spec fn job(self, id: JobId) -> Option<ScanJob> {
        if self.jobs.contains_key(id) {
            Some(self.jobs[id])
        } else {
            None
        }
    }

    /// The source chosen for `id` at creation, if any.
    pub open spec fn binding(self, id: JobId) -> Option<ScanSource> {
        if self.sources.contains_key(id) {
            Some(self.sources[id])
        } else {
            None
        }
    }

    /// The source that a first poll for `id` gives the job.
    pub open spec fn source_of(self, id: JobId) -> ScanSource {
        ScanSource::spec_resolve(self.binding(id))
    }

    /// The state after `source` was recorded for `id`; the last write wins.
    pub open spec fn bind(self, id: JobId, source: ScanSource) -> SessionState {
        SessionState { jobs: self.jobs, sources: self.sources.insert(id, source) }
    }

    /// What the next poll for `id` is answered with.
    pub open spec fn decision(self, id: JobId) -> PageDecision {
        spec_next_page(self.job(id), self.source_of(id)).1
    }

    /// The state after one poll for `id`.
    pub open spec fn poll(self, id: JobId) -> SessionState {
        SessionState {
            jobs: self.jobs.insert(id, spec_next_page(self.job(id), self.source_of(id)).0),
            sources: self.sources,
        }
    }

    /// Every recorded job has served at least its first page, none more than
    /// its budget, and the budget is that of its source.
    pub open spec fn wf(self) -> bool {
        forall|id: JobId| #[trigger]
            self.jobs.contains_key(id) ==> self.jobs[id].wf() && 1 <= self.jobs[id].retrieved_pages
    }
}

/// In-memory registry of scan jobs and of the sources bound to them.
pub struct SessionStore {
    jobs: HashMap<JobId, ScanJob>,
    sources: HashMap<JobId, ScanSource>,
}

impl View for SessionStore {
    type V = SessionState;

    closed spec fn view(&self) -> SessionState {
        SessionState { jobs: self.jobs@, sources: self.sources@ }
    }
}

impl SessionStore {
    #[verifier::type_invariant]
    spec fn inv(self) -> bool {
        self@.wf()
    }

    /// A store without jobs and without bindings.
    pub fn new() -> (store: SessionStore)
        ensures
            store@ == SessionState::empty(),
    {
        SessionStore { jobs: HashMap::new(), sources: HashMap::new() }
    }

    /// Records the source chosen for a job that was not polled yet. A second
    /// call for the same identifier overwrites the first.
    pub fn create_binding(&mut self, id: JobId, source: ScanSource)
        ensures
            final(self)@ == old(self)@.bind(id, source),
            final(self)@.wf(),
    {
        broadcast use vstd::std_specs::hash::group_hash_axioms;

        proof {
            use_type_invariant(&*self);
        }
        let mut sources = HashMap::new();
        std::mem::swap(&mut sources, &mut self.sources);
        sources.insert(id, source);
        self.sources = sources;
    }

    /// Serves the next page of job `id`, or tells that there is none.
    ///
    /// The first poll creates the job with the source bound to `id`, the
    /// flatbed if none was. A poll beyond the budget changes nothing.
    pub fn poll_next_page(&mut self, id: JobId) -> (decision: PageDecision)
        ensures
            decision == old(self)@.decision(id),
            final(self)@ == old(self)@.poll(id),
            final(self)@.wf(),
    {
        broadcast use vstd::std_specs::hash::group_hash_axioms;

        proof {
            use_type_invariant(&*self);
        }
        let source = ScanSource::resolve(self.bound_source(id));
        let existing = self.job(id);
        let (job, decision) = next_page(existing, source);
        let mut jobs = HashMap::new();
        std::mem::swap(&mut jobs, &mut self.jobs);
        jobs.insert(id, job);
        self.jobs = jobs;
        decision
    }

    /// Shows that the store is well-formed, as every store always is.
    pub fn invariant_holds(&self)
        ensures
            self@.wf(),
    {
        proof {
            use_type_invariant(self);
        }
    }

    /// The job recorded for `id`, if it was polled before.
    pub fn job(&self, id: JobId) -> (job: Option<ScanJob>)
        ensures
            job == self@.job(id),
            job matches Some(j) ==> j.wf() && 1 <= j.retrieved_pages,
    {
        broadcast use vstd::std_specs::hash::group_hash_axioms;

        proof {
            use_type_invariant(self);
        }
        match self.jobs.get(&id) {
            Some(job) => Some(*job),
            None => None,
        }
    }

    /// The source chosen for `id` at creation, if any.
    pub fn bound_source(&self, id: JobId) -> (source: Option<ScanSource>)
        ensures
            source == self@.binding(id),
    {
        broadcast use vstd::std_specs::hash::group_hash_axioms;

        match self.sources.get(&id) {
            Some(source) => Some(*source),
            None => None,
        }
    }
}

} // verus!

//! The pagination engine: from a job's current state to its next page.
//!
//! The engine is a pure function. It never fails: every poll gets a decision,
//! and a poll beyond the budget leaves the job as it was.

use vstd::prelude::*;
use crate::model::{PageDecision, ScanJob, ScanSource};

verus! {

/// The job after one poll, and what the poll is answered with.
///
/// Without a job the first page of `source` is served. With one, the page
/// after the last served is served unless it is over budget.
pub open spec fn spec_next_page(existing: Option<ScanJob>, source: ScanSource) -> (
    ScanJob,
    PageDecision,
) {
    match existing {
        None => (
            ScanJob::spec_first_page(source),
            PageDecision::Served(1, source.spec_budget()),
        ),
        Some(job) => if job.retrieved_pages + 1 > job.max_pages {
            (job, PageDecision::Exhausted)
        } else {
            (
                ScanJob {
                    retrieved_pages: (job.retrieved_pages + 1) as u32,
                    scan_source: job.scan_source,
                    max_pages: job.max_pages,
                },
                PageDecision::Served((job.retrieved_pages + 1) as u32, job.max_pages),
            )
        },
    }
}

/// Decides one poll: `existing` is the job as recorded so far, if any, and
/// `source` the source to give a job that does not exist yet.
pub fn next_page(existing: Option<ScanJob>, source: ScanSource) -> (step: (ScanJob, PageDecision))
    ensures
        step == spec_next_page(existing, source),
{
    match existing {
        None => (ScanJob::first_page(source), PageDecision::Served(1, source.budget())),
        Some(job) => {
            if job.is_exhausted() {
                (job, PageDecision::Exhausted)
            } else {
                let next: u32 = job.retrieved_pages + 1;
                (
                    ScanJob {
                        retrieved_pages: next,
                        scan_source: job.scan_source,
                        max_pages: job.max_pages,
                    },
                    PageDecision::Served(next, job.max_pages),
                )
            }
        },
    }
}

/// A poll serves a page exactly when the job is new or has budget left, and
/// the page served is the one after the last.
pub proof fn lemma_next_page_serves(existing: Option<ScanJob>, source: ScanSource)
    ensures
        spec_next_page(existing, source).1 is Exhausted <==> existing is Some
            && existing->0.spec_is_exhausted(),
        spec_next_page(existing, source).1 is Exhausted ==> spec_next_page(existing, source).0
            == existing->0,
        spec_next_page(existing, source).1 matches PageDecision::Served(page, total) ==> {
            &&& 1 <= page <= total
            &&& spec_next_page(existing, source).0.retrieved_pages == page
            &&& spec_next_page(existing, source).0.max_pages == total
            &&& existing matches Some(job) ==> page == job.retrieved_pages + 1
        },
{
}

/// A poll never changes the source or the budget of a job that exists, and
/// keeps a well-formed job well-formed.
pub proof fn lemma_next_page_keeps_job(job: ScanJob, source: ScanSource)
    ensures
        spec_next_page(Some(job), source).0.scan_source == job.scan_source,
        spec_next_page(Some(job), source).0.max_pages == job.max_pages,
        job.wf() ==> spec_next_page(Some(job), source).0.wf(),
        spec_next_page(None, source).0.wf(),
{
}

} // verus!

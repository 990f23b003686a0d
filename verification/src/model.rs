//! Shared types of the scan-job session model.

use vstd::prelude::*;

verus! {

/// Pages that the emulated document feeder hands out for one job.
pub const FEEDER_PAGE_COUNT: u32 = 5;

/// Identifier of a scan job: the 128 bits of a UUID, most significant first.
pub type JobId = u128;

/// The emulated origin of scanned pages.
#[derive(Debug, Clone, Copy, PartialEq, Eq, Structural)]
pub enum ScanSource {
    /// Flatbed: a single page.
    Platen,
    /// Automatic document feeder: a short batch of pages.
    Adf,
}

impl ScanSource {
    /// Number of pages a job reading from this source may serve.
    pub open spec fn spec_budget(self) -> u32 {
        match self {
            ScanSource::Platen => 1,
            ScanSource::Adf => FEEDER_PAGE_COUNT,
        }
    }

    /// Number of pages a job reading from this source may serve.
    #[verifier::when_used_as_spec(spec_budget)]
    pub fn budget(self) -> (pages: u32)
        ensures
            pages == self.spec_budget(),
    {
        match self {
            ScanSource::Platen => 1,
            ScanSource::Adf => FEEDER_PAGE_COUNT,
        }
    }

    /// The source a job reads from when nothing was recorded for it.
    pub open spec fn spec_resolve(bound: Option<ScanSource>) -> ScanSource {
        match bound {
            Some(source) => source,
            None => ScanSource::Platen,
        }
    }

    /// The source a job reads from: the recorded one, the flatbed otherwise.
    #[verifier::when_used_as_spec(spec_resolve)]
    pub fn resolve(bound: Option<ScanSource>) -> (source: ScanSource)
        ensures
            source == Self::spec_resolve(bound),
    {
        match bound {
            Some(source) => source,
            None => ScanSource::Platen,
        }
    }
}

impl Default for ScanSource {
    fn default() -> (source: Self)
        ensures
            source == ScanSource::Platen,
    {
        ScanSource::Platen
    }
}

/// One client scan session: how many pages of a bounded run have been served.
#[derive(Debug, Clone, Copy, PartialEq, Eq, Structural)]
pub struct ScanJob {
    /// Number of the page most recently handed out; 0 before the first poll.
    pub retrieved_pages: u32,
    /// Where the pages come from; never changes once the job exists.
    pub scan_source: ScanSource,
    /// Page budget of the job, given by its source.
    pub max_pages: u32,
}

impl ScanJob {
    /// The budget is that of the source, and no page beyond it was served.
    pub open spec fn wf(self) -> bool {
        &&& self.max_pages == self.scan_source.spec_budget()
        &&& self.retrieved_pages <= self.max_pages
    }

    /// A job is exhausted when the page after the last served one is over budget.
    pub open spec fn spec_is_exhausted(&self) -> bool {
        self.retrieved_pages + 1 > self.max_pages
    }

    /// The job as the session store records it when its first page is served.
    pub open spec fn spec_first_page(source: ScanSource) -> ScanJob {
        ScanJob { retrieved_pages: 1, scan_source: source, max_pages: source.spec_budget() }
    }

    /// The job as the session store records it when its first page is served.
    #[verifier::when_used_as_spec(spec_first_page)]
    pub fn first_page(source: ScanSource) -> (job: ScanJob)
        ensures
            job == Self::spec_first_page(source),
            job.wf(),
    {
        ScanJob { retrieved_pages: 1, scan_source: source, max_pages: source.budget() }
    }

    /// Whether no further page can be served.
    #[verifier::when_used_as_spec(spec_is_exhausted)]
    pub fn is_exhausted(&self) -> (done: bool)
        ensures
            done == self.spec_is_exhausted(),
    {
        self.retrieved_pages >= self.max_pages
    }
}

impl Default for ScanJob {
    /// A flatbed job that has not served its page yet.
    fn default() -> (job: Self)
        ensures
            job == (ScanJob { retrieved_pages: 0, scan_source: ScanSource::Platen, max_pages: 1 }),
            job.wf(),
    {
        ScanJob { retrieved_pages: 0, scan_source: ScanSource::Platen, max_pages: 1 }
    }
}

/// Outcome of one poll for the next document of a job.
#[derive(Debug, Clone, Copy, PartialEq, Eq, Structural)]
pub enum PageDecision {
    /// The page exists: its 1-based number and the job's page budget.
    Served(u32, u32),
    /// The requested page is beyond the budget; nothing was recorded.
    Exhausted,
}

} // verus!

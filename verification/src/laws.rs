//! What holds of every session store, stated over its mathematical state.
//!
//! `SessionStore::poll_next_page` answers with `SessionState::decision` and
//! moves the store to `SessionState::poll`, so each statement here holds of
//! every run of the executable store.

use vstd::prelude::*;
use crate::model::{JobId, PageDecision, ScanSource};
use crate::session::SessionState;

verus! {

/// The state after `n` polls for `id` in a row.
pub open spec fn polls(s: SessionState, id: JobId, n: nat) -> SessionState
    decreases n,
{
    if n == 0 {
        s
    } else {
        polls(s, id, (n - 1) as nat).poll(id)
    }
}

/// The answer to the `k`-th of a run of polls for `id`, counted from 1.
pub open spec fn nth_decision(s: SessionState, id: JobId, k: nat) -> PageDecision
    recommends
        k >= 1,
{
    polls(s, id, (k - 1) as nat).decision(id)
}

/// The answer that the `k`-th poll of a job with a budget of `total` pages is
/// owed: page `k` while the budget lasts, then the end signal.
pub open spec fn expected_decision(k: nat, total: u32) -> PageDecision {
    if k <= total {
        PageDecision::Served(k as u32, total)
    } else {
        PageDecision::Exhausted
    }
}

/// Polls touch neither the bindings nor any job but the polled one, and a
/// new job that was polled at least once has served `min(n, budget)` pages.
pub proof fn lemma_polls_of_new_job(s: SessionState, id: JobId, n: nat)
    requires
        s.job(id) is None,
    ensures
        polls(s, id, n).sources == s.sources,
        n >= 1 ==> (polls(s, id, n).job(id) matches Some(job) && {
            &&& job.scan_source == s.source_of(id)
            &&& job.max_pages == s.source_of(id).spec_budget()
            &&& job.retrieved_pages == if n <= job.max_pages {
                n
            } else {
                job.max_pages as nat
            }
        }),
    decreases n,
{
    if n >= 1 {
        lemma_polls_of_new_job(s, id, (n - 1) as nat);
    }
}

/// A job that did not exist is served its pages in order, each once, and
/// every poll after the last page is answered with the end signal.
pub proof fn lemma_new_job_serves_budget_in_order(s: SessionState, id: JobId, k: nat)
    requires
        s.job(id) is None,
        k >= 1,
    ensures
        nth_decision(s, id, k) == expected_decision(k, s.source_of(id).spec_budget()),
{
    lemma_polls_of_new_job(s, id, (k - 1) as nat);
}

/// A flatbed job: the first poll serves page 1 of 1, every later poll finds
/// the job exhausted.
pub proof fn lemma_platen_job_serves_one_page(s: SessionState, id: JobId, k: nat)
    requires
        s.job(id) is None,
        s.source_of(id) == ScanSource::Platen,
        k >= 1,
    ensures
        nth_decision(s, id, 1) == PageDecision::Served(1, 1),
        k >= 2 ==> nth_decision(s, id, k) == PageDecision::Exhausted,
{
    lemma_new_job_serves_budget_in_order(s, id, 1);
    lemma_new_job_serves_budget_in_order(s, id, k);
}

/// A feeder job with a budget of `N` pages: polls 1 to `N` serve pages 1 to
/// `N` of `N` in order, poll `N + 1` and all after it find the job exhausted.
pub proof fn lemma_feeder_job_serves_budget(s: SessionState, id: JobId, k: nat)
    requires
        s.job(id) is None,
        s.source_of(id) == ScanSource::Adf,
        k >= 1,
    ensures
        k <= ScanSource::Adf.spec_budget() ==> nth_decision(s, id, k) == PageDecision::Served(
            k as u32,
            ScanSource::Adf.spec_budget(),
        ),
        k > ScanSource::Adf.spec_budget() ==> nth_decision(s, id, k) == PageDecision::Exhausted,
{
    lemma_new_job_serves_budget_in_order(s, id, k);
}

/// Once a poll for `id` was answered with the end signal, no number of
/// further polls changes the store, and each is answered the same way.
pub proof fn lemma_exhaustion_is_final(s: SessionState, id: JobId, n: nat)
    requires
        s.decision(id) == PageDecision::Exhausted,
    ensures
        polls(s, id, n) == s,
        polls(s, id, n).job(id) == s.job(id),
        polls(s, id, n).decision(id) == PageDecision::Exhausted,
    decreases n,
{
    if n >= 1 {
        lemma_exhaustion_is_final(s, id, (n - 1) as nat);
        assert(s.poll(id).jobs =~= s.jobs);
    }
}

/// Polling job `a` changes neither the record of another job `b` (its pages
/// served, its source, its budget), nor its binding, nor what the next poll
/// for `b` is answered with.
pub proof fn lemma_polls_are_isolated(s: SessionState, a: JobId, b: JobId)
    requires
        a != b,
    ensures
        s.poll(a).job(b) == s.job(b),
        s.poll(a).binding(b) == s.binding(b),
        s.poll(a).decision(b) == s.decision(b),
        s.poll(a).poll(b) == s.poll(b).poll(a),
{
    assert(s.poll(a).poll(b).jobs =~= s.poll(b).poll(a).jobs);
}

/// Recording a source for job `a` changes no job, and nothing of another
/// job `b`.
pub proof fn lemma_bindings_are_isolated(s: SessionState, a: JobId, b: JobId, source: ScanSource)
    requires
        a != b,
    ensures
        s.bind(a, source).jobs == s.jobs,
        s.bind(a, source).binding(b) == s.binding(b),
        s.bind(a, source).decision(b) == s.decision(b),
{
}

/// An identifier that nothing was bound to is polled exactly as one bound
/// to the flatbed: the same answer to every poll, and the same job record.
pub proof fn lemma_unbound_job_is_platen(s: SessionState, id: JobId, n: nat)
    requires
        s.binding(id) is None,
    ensures
        polls(s, id, n).jobs == polls(s.bind(id, ScanSource::Platen), id, n).jobs,
        polls(s, id, n).decision(id) == polls(s.bind(id, ScanSource::Platen), id, n).decision(id),
    decreases n,
{
    let t = s.bind(id, ScanSource::Platen);
    lemma_polls_keep_bindings(s, id, n);
    lemma_polls_keep_bindings(t, id, n);
    if n >= 1 {
        lemma_unbound_job_is_platen(s, id, (n - 1) as nat);
        lemma_polls_keep_bindings(s, id, (n - 1) as nat);
        lemma_polls_keep_bindings(t, id, (n - 1) as nat);
    }
}

/// Polls never change a binding.
pub proof fn lemma_polls_keep_bindings(s: SessionState, id: JobId, n: nat)
    ensures
        polls(s, id, n).sources == s.sources,
    decreases n,
{
    if n >= 1 {
        lemma_polls_keep_bindings(s, id, (n - 1) as nat);
    }
}

/// Both operations of the store keep its invariant: a recorded job has
/// served between one page and its budget, and its budget is its source's.
pub proof fn lemma_operations_keep_invariant(s: SessionState, id: JobId, source: ScanSource)
    requires
        s.wf(),
    ensures
        SessionState::empty().wf(),
        s.bind(id, source).wf(),
        s.poll(id).wf(),
{
}

/// A poll never changes the source or the budget of a job that exists, and
/// moves its page count by one or not at all.
pub proof fn lemma_poll_keeps_source_and_budget(s: SessionState, id: JobId)
    requires
        s.job(id) is Some,
    ensures
        s.poll(id).job(id) matches Some(after) && {
            &&& after.scan_source == s.job(id)->0.scan_source
            &&& after.max_pages == s.job(id)->0.max_pages
            &&& after.retrieved_pages == s.job(id)->0.retrieved_pages || after.retrieved_pages
                == s.job(id)->0.retrieved_pages + 1
        },
{
}

/// A job created under an identifier that no job has yet serves the budget
/// of the source chosen at its creation, page by page, whatever was bound
/// to the identifier before.
pub proof fn lemma_created_job_serves_budget(
    s: SessionState,
    id: JobId,
    source: ScanSource,
    k: nat,
)
    requires
        s.job(id) is None,
        k >= 1,
    ensures
        nth_decision(s.bind(id, source), id, k) == expected_decision(k, source.spec_budget()),
{
    lemma_new_job_serves_budget_in_order(s.bind(id, source), id, k);
}

/// The state after the polls of `schedule`, taken in order. A schedule is
/// the order in which a lock lets concurrent polls, for any jobs, through.
pub open spec fn run(s: SessionState, schedule: Seq<JobId>) -> SessionState
    decreases schedule.len(),
{
    if schedule.len() == 0 {
        s
    } else {
        run(s, schedule.drop_last()).poll(schedule.last())
    }
}

/// The answer to poll `i` of `schedule`, counted from 0.
pub open spec fn answer(s: SessionState, schedule: Seq<JobId>, i: int) -> PageDecision
    recommends
        0 <= i < schedule.len(),
{
    run(s, schedule.take(i)).decision(schedule[i])
}

/// How many of the first `i` polls of `schedule` are for `id`.
pub open spec fn polls_before(schedule: Seq<JobId>, id: JobId, i: int) -> nat
    decreases i,
{
    if i <= 0 {
        0
    } else {
        polls_before(schedule, id, i - 1) + if schedule[i - 1] == id {
            1nat
        } else {
            0nat
        }
    }
}

/// After the first `i` polls of any schedule, a job that did not exist
/// before has served as many pages as it was polled, up to its budget, and
/// does not exist if it was not polled.
pub proof fn lemma_run_of_new_job(s: SessionState, schedule: Seq<JobId>, id: JobId, i: int)
    requires
        s.job(id) is None,
        0 <= i <= schedule.len(),
    ensures
        run(s, schedule.take(i)).sources == s.sources,
        polls_before(schedule, id, i) == 0 ==> run(s, schedule.take(i)).job(id) is None,
        polls_before(schedule, id, i) >= 1 ==> (run(s, schedule.take(i)).job(id) matches Some(
            job,
        ) && {
            &&& job.scan_source == s.source_of(id)
            &&& job.max_pages == s.source_of(id).spec_budget()
            &&& job.retrieved_pages == if polls_before(schedule, id, i) <= job.max_pages {
                polls_before(schedule, id, i)
            } else {
                job.max_pages as nat
            }
        }),
    decreases i,
{
    if i >= 1 {
        lemma_run_of_new_job(s, schedule, id, i - 1);
        assert(schedule.take(i).drop_last() =~= schedule.take(i - 1));
        assert(schedule.take(i).last() == schedule[i - 1]);
    }
}

/// Polls that a lock lets through in any order, mixed with polls for other
/// jobs: the polls for a job that did not exist are served its pages in
/// order, the first `min(K, N)` of `K` polls one page each of a budget of
/// `N`, and every poll after those is answered with the end signal.
pub proof fn lemma_concurrent_polls_served_in_order(
    s: SessionState,
    schedule: Seq<JobId>,
    id: JobId,
    i: int,
)
    requires
        s.job(id) is None,
        0 <= i < schedule.len(),
        schedule[i] == id,
    ensures
        answer(s, schedule, i) == expected_decision(
            polls_before(schedule, id, i) + 1,
            s.source_of(id).spec_budget(),
        ),
{
    lemma_run_of_new_job(s, schedule, id, i);
}

/// The count of earlier polls for `id` never falls, and rises past a poll
/// for `id`.
pub proof fn lemma_polls_before_grows(schedule: Seq<JobId>, id: JobId, i: int, j: int)
    requires
        0 <= i <= j <= schedule.len(),
    ensures
        polls_before(schedule, id, i) <= polls_before(schedule, id, j),
        i < j && schedule[i] == id ==> polls_before(schedule, id, i) < polls_before(
            schedule,
            id,
            j,
        ),
    decreases j - i,
{
    if i < j {
        lemma_polls_before_grows(schedule, id, i, j - 1);
    }
}

/// No page of a job is served twice, whatever the order of the polls: of two
/// polls for a job that did not exist, the later is served a later page.
pub proof fn lemma_no_page_served_twice(
    s: SessionState,
    schedule: Seq<JobId>,
    id: JobId,
    i: int,
    j: int,
)
    requires
        s.job(id) is None,
        0 <= i < j < schedule.len(),
        schedule[i] == id,
        schedule[j] == id,
    ensures
        answer(s, schedule, i) matches PageDecision::Served(p, _) ==> (answer(
            s,
            schedule,
            j,
        ) matches PageDecision::Served(q, _) ==> p < q),
        answer(s, schedule, i) is Exhausted ==> answer(s, schedule, j) is Exhausted,
{
    lemma_concurrent_polls_served_in_order(s, schedule, id, i);
    lemma_concurrent_polls_served_in_order(s, schedule, id, j);
    lemma_polls_before_grows(schedule, id, i, j);
}

/// Each page up to `min(K, N)` is served to one of the `K` polls that a
/// schedule holds for a job with a budget of `N` that did not exist.
pub proof fn lemma_every_page_served(
    s: SessionState,
    schedule: Seq<JobId>,
    id: JobId,
    page: nat,
) -> (i: int)
    requires
        s.job(id) is None,
        1 <= page <= polls_before(schedule, id, schedule.len() as int),
        page <= s.source_of(id).spec_budget(),
    ensures
        0 <= i < schedule.len(),
        schedule[i] == id,
        answer(s, schedule, i) == PageDecision::Served(
            page as u32,
            s.source_of(id).spec_budget(),
        ),
{
    let i = lemma_poll_with_count(schedule, id, (page - 1) as nat, schedule.len() as int);
    lemma_concurrent_polls_served_in_order(s, schedule, id, i);
    i
}

/// Among the first `n` polls of a schedule that hold more than `count`
/// polls for `id`, one poll for `id` has exactly `count` such polls before it.
pub proof fn lemma_poll_with_count(schedule: Seq<JobId>, id: JobId, count: nat, n: int) -> (i: int)
    requires
        0 <= n <= schedule.len(),
        count < polls_before(schedule, id, n),
    ensures
        0 <= i < n,
        schedule[i] == id,
        polls_before(schedule, id, i) == count,
    decreases n,
{
    if schedule[n - 1] == id && polls_before(schedule, id, n - 1) == count {
        n - 1
    } else {
        lemma_poll_with_count(schedule, id, count, n - 1)
    }
}

} // verus!

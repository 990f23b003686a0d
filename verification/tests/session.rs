use escl_mock_server::model::{PageDecision, ScanJob, ScanSource, FEEDER_PAGE_COUNT};
use escl_mock_server::pagination::next_page;
use escl_mock_server::session::SessionStore;

#[test]
fn platen_job_serves_one_page_then_is_exhausted() {
    let mut store = SessionStore::new();
    store.create_binding(7, ScanSource::Platen);
    assert_eq!(store.poll_next_page(7), PageDecision::Served(1, 1));
    for _ in 0..10 {
        assert_eq!(store.poll_next_page(7), PageDecision::Exhausted);
    }
}

#[test]
fn feeder_job_serves_its_budget_in_order() {
    let mut store = SessionStore::new();
    store.create_binding(9, ScanSource::Adf);
    for page in 1..=FEEDER_PAGE_COUNT {
        assert_eq!(store.poll_next_page(9), PageDecision::Served(page, FEEDER_PAGE_COUNT));
    }
    assert_eq!(store.poll_next_page(9), PageDecision::Exhausted);
    assert_eq!(store.poll_next_page(9), PageDecision::Exhausted);
}

#[test]
fn feeder_budget_is_five_pages() {
    assert_eq!(FEEDER_PAGE_COUNT, 5);
    assert_eq!(ScanSource::Adf.budget(), 5);
    assert_eq!(ScanSource::Platen.budget(), 1);
}

#[test]
fn exhaustion_leaves_pages_served_unchanged() {
    let mut store = SessionStore::new();
    store.create_binding(3, ScanSource::Adf);
    for _ in 0..6 {
        store.poll_next_page(3);
    }
    let pinned = store.job(3);
    assert_eq!(
        pinned,
        Some(ScanJob { retrieved_pages: 5, scan_source: ScanSource::Adf, max_pages: 5 })
    );
    for _ in 0..100 {
        assert_eq!(store.poll_next_page(3), PageDecision::Exhausted);
        assert_eq!(store.job(3), pinned);
    }
}

#[test]
fn polling_one_job_leaves_another_alone() {
    let mut store = SessionStore::new();
    store.create_binding(1, ScanSource::Adf);
    store.create_binding(2, ScanSource::Adf);
    assert_eq!(store.poll_next_page(2), PageDecision::Served(1, 5));
    let before = store.job(2);
    for _ in 0..7 {
        store.poll_next_page(1);
    }
    assert_eq!(store.job(2), before);
    assert_eq!(store.bound_source(2), Some(ScanSource::Adf));
    assert_eq!(store.poll_next_page(2), PageDecision::Served(2, 5));
}

#[test]
fn unbound_job_is_polled_like_a_platen_job() {
    let mut unbound = SessionStore::new();
    let mut bound = SessionStore::new();
    bound.create_binding(11, ScanSource::Platen);
    for _ in 0..4 {
        assert_eq!(unbound.poll_next_page(11), bound.poll_next_page(11));
        assert_eq!(unbound.job(11), bound.job(11));
    }
    assert_eq!(
        unbound.job(11),
        Some(ScanJob { retrieved_pages: 1, scan_source: ScanSource::Platen, max_pages: 1 })
    );
    assert_eq!(unbound.bound_source(11), None);
}

#[test]
fn job_exists_only_after_its_first_poll() {
    let mut store = SessionStore::new();
    store.create_binding(5, ScanSource::Adf);
    assert_eq!(store.job(5), None);
    store.poll_next_page(5);
    assert_eq!(
        store.job(5),
        Some(ScanJob { retrieved_pages: 1, scan_source: ScanSource::Adf, max_pages: 5 })
    );
}

#[test]
fn second_binding_overwrites_the_first() {
    let mut store = SessionStore::new();
    store.create_binding(5, ScanSource::Adf);
    store.create_binding(5, ScanSource::Platen);
    assert_eq!(store.bound_source(5), Some(ScanSource::Platen));
    assert_eq!(store.poll_next_page(5), PageDecision::Served(1, 1));
}

#[test]
fn binding_after_the_first_poll_does_not_change_the_job() {
    let mut store = SessionStore::new();
    assert_eq!(store.poll_next_page(5), PageDecision::Served(1, 1));
    store.create_binding(5, ScanSource::Adf);
    assert_eq!(store.poll_next_page(5), PageDecision::Exhausted);
}

#[test]
fn engine_serves_first_page_of_a_new_job() {
    assert_eq!(
        next_page(None, ScanSource::Adf),
        (
            ScanJob { retrieved_pages: 1, scan_source: ScanSource::Adf, max_pages: 5 },
            PageDecision::Served(1, 5)
        )
    );
}

#[test]
fn engine_leaves_an_exhausted_job_as_it_is() {
    let job = ScanJob { retrieved_pages: 5, scan_source: ScanSource::Adf, max_pages: 5 };
    assert_eq!(next_page(Some(job), ScanSource::Platen), (job, PageDecision::Exhausted));
}

#[test]
fn engine_serves_the_default_job_its_single_page() {
    let (job, decision) = next_page(Some(ScanJob::default()), ScanSource::default());
    assert_eq!(decision, PageDecision::Served(1, 1));
    assert_eq!(job.retrieved_pages, 1);
}

#[test]
fn engine_does_not_overflow_at_the_largest_count() {
    let job = ScanJob { retrieved_pages: u32::MAX, scan_source: ScanSource::Adf, max_pages: u32::MAX };
    assert_eq!(next_page(Some(job), ScanSource::Adf), (job, PageDecision::Exhausted));
}

#[test]
fn polls_in_any_order_serve_each_page_once() {
    let mut store = SessionStore::new();
    store.create_binding(42, ScanSource::Adf);
    store.create_binding(43, ScanSource::Adf);
    let schedule = [42u128, 43, 42, 42, 44, 43, 42, 42, 42, 44, 42, 42];
    let mut pages = Vec::new();
    let mut exhausted = 0;
    for id in schedule {
        let decision = store.poll_next_page(id);
        if id == 42 {
            match decision {
                PageDecision::Served(page, total) => {
                    assert_eq!(total, 5);
                    pages.push(page);
                }
                PageDecision::Exhausted => exhausted += 1,
            }
        }
    }
    assert_eq!(pages, vec![1, 2, 3, 4, 5]);
    assert_eq!(exhausted, 3);
}

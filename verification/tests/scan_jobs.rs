use escl_mock_server::escl_server::{
    detect_scan_source, job_location, next_doc, scan_job, start_job, NextDocument,
};
use escl_mock_server::job_id::{job_id_text, new_job_id, parse_job_id, InvalidJobId};
use escl_mock_server::model::{PageDecision, ScanJob, ScanSource};
use escl_mock_server::session::SessionStore;

const EXAMPLE_ID: u128 = 0xd290f1ee_6c54_4b01_90e6_d701748f0851;
const EXAMPLE_TEXT: &str = "d290f1ee-6c54-4b01-90e6-d701748f0851";

const FEEDER_REQUEST: &str = "<?xml version=\"1.0\" encoding=\"UTF-8\"?>\
<scan:ScanSettings xmlns:scan=\"http://schemas.hp.com/imaging/escl/2011/05/03\">\
<scan:InputSource>Feeder</scan:InputSource></scan:ScanSettings>";

const PLATEN_REQUEST: &str = "<?xml version=\"1.0\" encoding=\"UTF-8\"?>\
<scan:ScanSettings xmlns:scan=\"http://schemas.hp.com/imaging/escl/2011/05/03\">\
<scan:ColorMode>RGB24</scan:ColorMode></scan:ScanSettings>";

#[test]
fn feeder_job_is_polled_five_times_then_exhausted() {
    let mut store = SessionStore::new();
    let id = parse_job_id(EXAMPLE_TEXT).unwrap();
    assert_eq!(id, EXAMPLE_ID);
    assert_eq!(start_job(&mut store, id, FEEDER_REQUEST.as_bytes()), ScanSource::Adf);
    for page in 1..=5 {
        assert_eq!(next_doc(&mut store, EXAMPLE_TEXT), NextDocument::Page(page, 5));
    }
    assert_eq!(next_doc(&mut store, EXAMPLE_TEXT), NextDocument::NoMoreDocuments);
    assert_eq!(
        store.job(EXAMPLE_ID),
        Some(ScanJob { retrieved_pages: 5, scan_source: ScanSource::Adf, max_pages: 5 })
    );
}

#[test]
fn platen_request_gets_a_single_page() {
    let mut store = SessionStore::new();
    assert_eq!(start_job(&mut store, EXAMPLE_ID, PLATEN_REQUEST.as_bytes()), ScanSource::Platen);
    assert_eq!(next_doc(&mut store, EXAMPLE_TEXT), NextDocument::Page(1, 1));
    assert_eq!(next_doc(&mut store, EXAMPLE_TEXT), NextDocument::NoMoreDocuments);
}

#[test]
fn poll_of_a_job_that_was_never_created_gets_a_single_page() {
    let mut store = SessionStore::new();
    assert_eq!(next_doc(&mut store, EXAMPLE_TEXT), NextDocument::Page(1, 1));
    assert_eq!(next_doc(&mut store, EXAMPLE_TEXT), NextDocument::NoMoreDocuments);
}

#[test]
fn poll_with_a_malformed_id_leaves_the_store_alone() {
    let mut store = SessionStore::new();
    store.create_binding(EXAMPLE_ID, ScanSource::Adf);
    assert_eq!(next_doc(&mut store, "not-a-job"), NextDocument::InvalidJobId);
    assert_eq!(next_doc(&mut store, ""), NextDocument::InvalidJobId);
    assert_eq!(next_doc(&mut store, "d290f1ee-6c54-4b01-90e6-d701748f085"), NextDocument::InvalidJobId);
    assert_eq!(next_doc(&mut store, "d290f1ee-6c54-4b01-90e6-d701748f085g"), NextDocument::InvalidJobId);
    assert_eq!(store.job(EXAMPLE_ID), None);
    assert_eq!(next_doc(&mut store, EXAMPLE_TEXT), NextDocument::Page(1, 5));
}

#[test]
fn scan_job_binds_the_source_under_a_fresh_id() {
    let mut store = SessionStore::new();
    let first = scan_job(&mut store, FEEDER_REQUEST.as_bytes());
    let second = scan_job(&mut store, PLATEN_REQUEST.as_bytes());
    assert_ne!(first, second);
    assert_eq!(store.bound_source(first), Some(ScanSource::Adf));
    assert_eq!(store.bound_source(second), Some(ScanSource::Platen));
    assert_eq!(store.job(first), None);
    assert_eq!(store.poll_next_page(first), PageDecision::Served(1, 5));
    assert_eq!(store.poll_next_page(second), PageDecision::Served(1, 1));
}

#[test]
fn minted_id_is_found_again_through_its_text() {
    let mut store = SessionStore::new();
    let id = scan_job(&mut store, FEEDER_REQUEST.as_bytes());
    let text = job_id_text(id);
    assert_eq!(next_doc(&mut store, &text), NextDocument::Page(1, 5));
    assert_eq!(store.job(id).map(|job| job.retrieved_pages), Some(1));
}

#[test]
fn feeder_markers_are_found_in_either_case() {
    assert_eq!(detect_scan_source(b"Feeder"), ScanSource::Adf);
    assert_eq!(detect_scan_source(b"feeder"), ScanSource::Adf);
    assert_eq!(detect_scan_source(b"use the FEEDER please"), ScanSource::Adf);
    assert_eq!(detect_scan_source(b"ADF"), ScanSource::Adf);
    assert_eq!(detect_scan_source(b"xx adf xx"), ScanSource::Adf);
    assert_eq!(detect_scan_source(b"<scan:InputSource>Adf</scan:InputSource>"), ScanSource::Adf);
    assert_eq!(detect_scan_source(b"<SCAN:INPUTSOURCE>aDf</SCAN:INPUTSOURCE>"), ScanSource::Adf);
}

#[test]
fn body_without_marker_selects_the_platen() {
    assert_eq!(detect_scan_source(b""), ScanSource::Platen);
    assert_eq!(detect_scan_source(b"<scan:InputSource>Platen</scan:InputSource>"), ScanSource::Platen);
    assert_eq!(detect_scan_source(b"feed"), ScanSource::Platen);
    assert_eq!(detect_scan_source(b"a d f"), ScanSource::Platen);
    assert_eq!(detect_scan_source("fe\u{212a}der".as_bytes()), ScanSource::Platen);
}

#[test]
fn body_that_is_not_text_selects_the_platen() {
    assert_eq!(detect_scan_source(&[0x41, 0x44, 0x46, 0xff]), ScanSource::Platen);
    assert_eq!(detect_scan_source(&[0xc3, 0x28, b'F', b'e', b'e', b'd', b'e', b'r']), ScanSource::Platen);
    assert_eq!(detect_scan_source("\u{e9} Feeder".as_bytes()), ScanSource::Adf);
}

#[test]
fn job_id_text_is_hyphenated_lower_case() {
    assert_eq!(job_id_text(EXAMPLE_ID), EXAMPLE_TEXT);
    assert_eq!(job_id_text(0), "00000000-0000-0000-0000-000000000000");
    assert_eq!(job_id_text(u128::MAX), "ffffffff-ffff-ffff-ffff-ffffffffffff");
    assert_eq!(
        job_id_text(0x0123456789abcdef_fedcba9876543210),
        "01234567-89ab-cdef-fedc-ba9876543210"
    );
}

#[test]
fn job_id_is_read_back_from_its_text() {
    for id in [0u128, 1, EXAMPLE_ID, u128::MAX, 0x0123456789abcdef_fedcba9876543210] {
        assert_eq!(parse_job_id(&job_id_text(id)), Ok(id));
    }
}

#[test]
fn job_id_is_read_from_every_form_of_a_uuid() {
    assert_eq!(parse_job_id("D290F1EE-6C54-4B01-90E6-D701748F0851"), Ok(EXAMPLE_ID));
    assert_eq!(parse_job_id("d290f1ee6c544b0190e6d701748f0851"), Ok(EXAMPLE_ID));
    assert_eq!(parse_job_id("{d290f1ee-6c54-4b01-90e6-d701748f0851}"), Ok(EXAMPLE_ID));
    assert_eq!(parse_job_id("urn:uuid:d290f1ee-6c54-4b01-90e6-d701748f0851"), Ok(EXAMPLE_ID));
}

#[test]
fn malformed_job_id_is_refused() {
    assert_eq!(parse_job_id(""), Err(InvalidJobId));
    assert_eq!(parse_job_id("scan-job-1"), Err(InvalidJobId));
    assert_eq!(parse_job_id("d290f1ee_6c54_4b01_90e6_d701748f0851"), Err(InvalidJobId));
    assert_eq!(parse_job_id(" d290f1ee-6c54-4b01-90e6-d701748f0851"), Err(InvalidJobId));
}

#[test]
fn new_job_id_is_a_random_uuid() {
    let first = new_job_id();
    let second = new_job_id();
    assert_ne!(first, second);
    for id in [first, second] {
        assert_eq!((id >> 76) & 0xf, 4);
        assert_eq!((id >> 62) & 0x3, 2);
        assert_eq!(uuid::Uuid::from_u128(id).get_version_num(), 4);
    }
}

#[test]
fn job_location_appends_the_id_to_the_request_url() {
    assert_eq!(
        job_location("http://192.168.1.5:8080/eSCL/ScanJobs", EXAMPLE_ID),
        "http://192.168.1.5:8080/eSCL/ScanJobs/d290f1ee-6c54-4b01-90e6-d701748f0851"
    );
    assert_eq!(job_location("", 0), "/00000000-0000-0000-0000-000000000000");
}

#[test]
fn answers_carry_their_status() {
    assert_eq!(NextDocument::Page(1, 5).status(), 200);
    assert_eq!(NextDocument::NoMoreDocuments.status(), 404);
    assert_eq!(NextDocument::InvalidJobId.status(), 400);
    assert_eq!(NextDocument::from_decision(PageDecision::Served(3, 5)), NextDocument::Page(3, 5));
    assert_eq!(NextDocument::from_decision(PageDecision::Exhausted), NextDocument::NoMoreDocuments);
}

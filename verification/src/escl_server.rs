//! What the scan-job endpoints decide: the source a new job reads from, the
//! identifier it gets, and the answer to a poll for its next document.
//!
//! The functions take what a request carried (its body, the identifier in
//! its path) and a session store; whoever serves HTTP reads the request,
//! locks the store, calls them and writes the response.

use vstd::prelude::*;
use vstd::string::{StrSliceExecFns, StringExecFns, StringSliceAdditionalSpecFns};
use vstd::utf8::valid_utf8;
use crate::job_id::{
    hyphenated, is_random_uuid, job_id_text, new_job_id, parse_job_id, uuid_parse_str,
};
use crate::model::{JobId, PageDecision, ScanSource};
use crate::session::SessionStore;
use crate::text::{
    begins_with, chars_of, contains, contains_ignore_ascii_case, last_index_of, occurs, replace_all,
    replaced, rfind, same_text, starts_with,
};

verus! {

/// Trusted: `std::str::from_utf8`, which accepts exactly the byte strings
/// that are well-formed UTF-8.
#[verifier::external_body]
fn is_utf8(bytes: &[u8]) -> (valid: bool)
    ensures
        valid == valid_utf8(bytes@),
{
    std::str::from_utf8(bytes).is_ok()
}

/// Whether a job-creation body asks for the document feeder: it is text
/// and holds one of the feeder markers, in letters of either case.
pub open spec fn asks_for_feeder(body: Seq<u8>) -> bool {
    &&& valid_utf8(body)
    &&& {
        ||| occurs(body, "<scan:InputSource>Adf</scan:InputSource>".spec_bytes(), true)
        ||| occurs(body, "Feeder".spec_bytes(), true)
        ||| occurs(body, "ADF".spec_bytes(), true)
    }
}

/// The source that a job-creation body selects: the feeder where the body
/// asks for it, the flatbed otherwise.
pub open spec fn spec_detect_scan_source(body: Seq<u8>) -> ScanSource {
    if asks_for_feeder(body) {
        ScanSource::Adf
    } else {
        ScanSource::Platen
    }
}

/// Chooses the source of a new job from the body of the request that
/// creates it. A body that is not text selects the flatbed.
pub fn detect_scan_source(body: &[u8]) -> (source: ScanSource)
    ensures
        source == spec_detect_scan_source(body@),
{
    if !is_utf8(body) {
        return ScanSource::Platen;
    }
    if contains_ignore_ascii_case(body, "<scan:InputSource>Adf</scan:InputSource>".as_bytes())
        || contains_ignore_ascii_case(body, "Feeder".as_bytes())
        || contains_ignore_ascii_case(body, "ADF".as_bytes())
    {
        ScanSource::Adf
    } else {
        ScanSource::Platen
    }
}

/// Creates the job `id` from the body of its request: binds the source that
/// the body selects. No job record exists until the first poll.
pub fn start_job(store: &mut SessionStore, id: JobId, body: &[u8]) -> (source: ScanSource)
    ensures
        source == spec_detect_scan_source(body@),
        final(store)@ == old(store)@.bind(id, source),
        final(store)@.wf(),
{
    let source = detect_scan_source(body);
    store.create_binding(id, source);
    source
}

/// Handles a job-creation request: mints an identifier and creates the job
/// under it. Which identifier comes out is left to chance.
pub fn scan_job(store: &mut SessionStore, body: &[u8]) -> (id: JobId)
    ensures
        is_random_uuid(id),
        final(store)@ == old(store)@.bind(id, spec_detect_scan_source(body@)),
        final(store)@.wf(),
{
    let id = new_job_id();
    start_job(store, id, body);
    id
}

/// The address of a new job: that of the request, a slash, and the
/// identifier in its canonical text.
pub fn job_location(full_url: &str, id: JobId) -> (location: String)
    ensures
        location@ == full_url@ + "/"@ + hyphenated(id),
{
    let mut location = String::from_str(full_url);
    location.append("/");
    let text = job_id_text(id);
    location.append(text.as_str());
    location
}

/// The answer to a request for the next document of a job.
#[derive(Debug, Clone, Copy, PartialEq, Eq, Structural)]
pub enum NextDocument {
    /// A page is to be sent: its number and the job's page budget.
    Page(u32, u32),
    /// The job has no further page.
    NoMoreDocuments,
    /// The path did not name a job; the store was not touched.
    InvalidJobId,
}

impl NextDocument {
    /// The HTTP status the answer is sent with.
    pub open spec fn spec_status(self) -> u16 {
        match self {
            NextDocument::Page(_, _) => 200,
            NextDocument::NoMoreDocuments => 404,
            NextDocument::InvalidJobId => 400,
        }
    }

    /// The HTTP status the answer is sent with.
    #[verifier::when_used_as_spec(spec_status)]
    pub fn status(self) -> (code: u16)
        ensures
            code == self.spec_status(),
    {
        match self {
            NextDocument::Page(_, _) => 200,
            NextDocument::NoMoreDocuments => 404,
            NextDocument::InvalidJobId => 400,
        }
    }

    /// The answer that a page decision is sent as.
    pub open spec fn spec_from_decision(decision: PageDecision) -> NextDocument {
        match decision {
            PageDecision::Served(page, total) => NextDocument::Page(page, total),
            PageDecision::Exhausted => NextDocument::NoMoreDocuments,
        }
    }

    /// The answer that a page decision is sent as.
    #[verifier::when_used_as_spec(spec_from_decision)]
    pub fn from_decision(decision: PageDecision) -> (answer: NextDocument)
        ensures
            answer == Self::spec_from_decision(decision),
    {
        match decision {
            PageDecision::Served(page, total) => NextDocument::Page(page, total),
            PageDecision::Exhausted => NextDocument::NoMoreDocuments,
        }
    }
}

/// Handles a poll for the next document of the job whose path segment is
/// `job`. A segment that is no UUID is turned down before the store is
/// touched; otherwise the store is polled once.
pub fn next_doc(store: &mut SessionStore, job: &str) -> (answer: NextDocument)
    ensures
        match uuid_parse_str(job@) {
            Some(id) => {
                &&& answer == NextDocument::spec_from_decision(old(store)@.decision(id))
                &&& final(store)@ == old(store)@.poll(id)
            },
            None => answer == NextDocument::InvalidJobId && final(store)@ == old(store)@,
        },
        final(store)@.wf(),
{
    match parse_job_id(job) {
        Ok(id) => NextDocument::from_decision(store.poll_next_page(id)),
        Err(_) => {
            store.invariant_holds();
            NextDocument::InvalidJobId
        },
    }
}

/// The characters of a text that may be missing.
pub open spec fn spec_text(text: Option<&str>) -> Option<Seq<char>> {
    match text {
        Some(text) => Some(text@),
        None => None,
    }
}

/// The text that names the server to a client: the `Host` header where the
/// request has one, else the host of the connection.
pub open spec fn spec_effective_host(
    host_header: Option<Seq<char>>,
    connection_host: Seq<char>,
) -> Seq<char> {
    match host_header {
        Some(host) => host,
        None => connection_host,
    }
}

/// The address part of a host text: what stands before its last colon, or
/// all of it where it has none.
pub open spec fn spec_host_address(host: Seq<char>) -> Seq<char> {
    match last_index_of(host, ':') {
        Some(at) => host.take(at),
        None => host,
    }
}

/// The port part of a host text: what stands after its last colon, or
/// `8080` where it has none.
pub open spec fn spec_host_port(host: Seq<char>) -> Seq<char> {
    match last_index_of(host, ':') {
        Some(at) => host.skip(at + 1),
        None => "8080"@,
    }
}

/// Splits a host text into address and port at its last colon.
pub fn split_host(host: &str) -> (parts: (String, String))
    ensures
        parts.0@ == spec_host_address(host@),
        parts.1@ == spec_host_port(host@),
{
    let chars = chars_of(host);
    proof {
        crate::text::lemma_last_index_of(host@, ':');
    }
    match rfind(&chars, ':') {
        Some(at) => {
            let address = host.substring_char(0, at);
            let port = host.substring_char(at + 1, chars.len());
            (String::from_str(address), String::from_str(port))
        },
        None => (String::from_str(host), String::from_str("8080")),
    }
}

/// The address and port under which a client reached the server: those of
/// the `Host` header where the request has one, else those of the
/// connection's host.
pub fn get_server_address(host_header: Option<&str>, connection_host: &str) -> (parts: (String, String))
    ensures
        parts.0@ == spec_host_address(
            spec_effective_host(spec_text(host_header), connection_host@),
        ),
        parts.1@ == spec_host_port(spec_effective_host(spec_text(host_header), connection_host@)),
{
    match host_header {
        Some(host) => split_host(host),
        None => split_host(connection_host),
    }
}

/// The scheme to build addresses with: `https` for a connection over
/// `https`, `http` for any other.
pub open spec fn spec_url_scheme(scheme: Seq<char>) -> Seq<char> {
    if scheme == "https"@ {
        "https"@
    } else {
        "http"@
    }
}

/// What the server's own addresses begin with: scheme, address and port.
pub open spec fn spec_server_url_prefix(host: Seq<char>, scheme: Seq<char>) -> Seq<char> {
    spec_url_scheme(scheme) + "://"@ + spec_host_address(host) + ":"@ + spec_host_port(host)
}

/// What the server's own addresses begin with: scheme, address and port.
pub fn get_server_url_prefix(
    host_header: Option<&str>,
    connection_host: &str,
    scheme: &str,
) -> (prefix: String)
    ensures
        prefix@ == spec_server_url_prefix(
            spec_effective_host(spec_text(host_header), connection_host@),
            scheme@,
        ),
{
    let (address, port) = get_server_address(host_header, connection_host);
    let mut prefix = if same_text(scheme, "https") {
        String::from_str("https")
    } else {
        String::from_str("http")
    };
    prefix.append("://");
    prefix.append(address.as_str());
    prefix.append(":");
    prefix.append(port.as_str());
    prefix
}

/// Whether the configured image path is written from the root although the
/// resource directory is meant: it begins with `/res/` or `\res\`.
pub open spec fn is_rooted_resource(path: Seq<char>) -> bool {
    begins_with(path, "/res/"@) || begins_with(path, "\\res\\"@)
}

/// The files to try for the document image, in order: for a path written
/// from the root into the resource directory, the path without its first
/// character and then the path itself; for any other, the path alone.
pub open spec fn spec_image_paths(path: Seq<char>) -> Seq<Seq<char>> {
    if is_rooted_resource(path) {
        seq![path.skip(1), path]
    } else {
        seq![path]
    }
}

/// The files to try for the document image, in order. Where none can be
/// opened the built-in image is served.
pub fn image_paths(path: &str) -> (paths: Vec<String>)
    ensures
        paths@.len() == spec_image_paths(path@).len(),
        forall|i: int|
            0 <= i < paths@.len() ==> (#[trigger] paths@[i])@ == spec_image_paths(path@)[i],
{
    let chars = chars_of(path);
    let mut paths: Vec<String> = Vec::new();
    if starts_with(&chars, "/res/") || starts_with(&chars, "\\res\\") {
        proof {
            reveal_strlit("/res/");
            reveal_strlit("\\res\\");
        }
        let relative = path.substring_char(1, chars.len());
        paths.push(String::from_str(relative));
    }
    paths.push(String::from_str(path));
    paths
}

/// The answer to a request to validate scan settings.
#[derive(Debug, Clone, Copy, PartialEq, Eq, Structural)]
pub enum ScanBufferInfo {
    /// The settings are accepted; the buffer description is sent.
    Accepted,
    /// The body holds no scan settings; an error ticket is sent.
    InvalidScanTicket,
}

impl ScanBufferInfo {
    /// The HTTP status the answer is sent with.
    pub open spec fn spec_status(self) -> u16 {
        match self {
            ScanBufferInfo::Accepted => 200,
            ScanBufferInfo::InvalidScanTicket => 409,
        }
    }

    /// The HTTP status the answer is sent with.
    #[verifier::when_used_as_spec(spec_status)]
    pub fn status(self) -> (code: u16)
        ensures
            code == self.spec_status(),
    {
        match self {
            ScanBufferInfo::Accepted => 200,
            ScanBufferInfo::InvalidScanTicket => 409,
        }
    }
}

/// Whether a body holds scan settings: one of the setting names stands in
/// it.
pub open spec fn has_scan_settings(body: Seq<u8>) -> bool {
    ||| occurs(body, "<scan:ScanSettings".spec_bytes(), false)
    ||| occurs(body, "InputSource".spec_bytes(), false)
    ||| occurs(body, "ColorMode".spec_bytes(), false)
    ||| occurs(body, "XResolution".spec_bytes(), false)
}

/// Validates the scan settings of a request body.
pub fn scan_buffer_info(body: &[u8]) -> (answer: ScanBufferInfo)
    ensures
        answer == if has_scan_settings(body@) {
            ScanBufferInfo::Accepted
        } else {
            ScanBufferInfo::InvalidScanTicket
        },
{
    if contains(body, "<scan:ScanSettings".as_bytes()) || contains(body, "InputSource".as_bytes())
        || contains(body, "ColorMode".as_bytes()) || contains(body, "XResolution".as_bytes()) {
        ScanBufferInfo::Accepted
    } else {
        ScanBufferInfo::InvalidScanTicket
    }
}

/// The message that answers a device-discovery request.
#[derive(Debug, Clone, Copy, PartialEq, Eq, Structural)]
pub enum WsdReply {
    /// The device metadata, to a request for it.
    Metadata,
    /// A subscription, to a request for scan events.
    Subscription,
    /// The hello message, to anything else.
    Hello,
}

/// The message that answers a device-discovery body: the first of the two
/// request names that the body holds decides.
pub open spec fn spec_wsd_reply(body: Seq<u8>) -> WsdReply {
    if occurs(body, "GetMetadataRequest".spec_bytes(), false) {
        WsdReply::Metadata
    } else if occurs(body, "ScanAvailableEvent".spec_bytes(), false) {
        WsdReply::Subscription
    } else {
        WsdReply::Hello
    }
}

/// Chooses the message that answers a device-discovery request.
pub fn wsd_post(body: &[u8]) -> (reply: WsdReply)
    ensures
        reply == spec_wsd_reply(body@),
{
    if contains(body, "GetMetadataRequest".as_bytes()) {
        WsdReply::Metadata
    } else if contains(body, "ScanAvailableEvent".as_bytes()) {
        WsdReply::Subscription
    } else {
        WsdReply::Hello
    }
}

/// The host that a request names: its `Host` header, or `localhost:8080`
/// where it has none.
pub open spec fn spec_request_host(host_header: Option<Seq<char>>) -> Seq<char> {
    match host_header {
        Some(host) => host,
        None => "localhost:8080"@,
    }
}

/// The host that a request names: its `Host` header, or `localhost:8080`
/// where it has none.
pub fn request_host(host_header: Option<&str>) -> (host: String)
    ensures
        host@ == spec_request_host(spec_text(host_header)),
{
    match host_header {
        Some(host) => String::from_str(host),
        None => String::from_str("localhost:8080"),
    }
}

/// The capabilities document as a client gets it: the configured document
/// with the placeholders for the administration page and for the icon
/// replaced by their addresses on the host that the request names.
pub open spec fn spec_scanner_capabilities(
    caps: Seq<char>,
    host_header: Option<Seq<char>>,
    scheme: Seq<char>,
) -> Seq<char> {
    let base = spec_url_scheme(scheme) + "://"@ + spec_request_host(host_header);
    replaced(
        replaced(caps, "DYNAMIC_ADMIN_URI"@, base + "/admin"@),
        "DYNAMIC_ICON_URI"@,
        base + "/icon.png"@,
    )
}

/// Fills the addresses of the administration page and of the icon into the
/// configured capabilities document.
pub fn scanner_capabilities(caps: &str, host_header: Option<&str>, scheme: &str) -> (document: String)
    ensures
        document@ == spec_scanner_capabilities(caps@, spec_text(host_header), scheme@),
{
    let mut base = if same_text(scheme, "https") {
        String::from_str("https")
    } else {
        String::from_str("http")
    };
    base.append("://");
    let host = request_host(host_header);
    base.append(host.as_str());
    let mut admin = base.clone();
    admin.append("/admin");
    let mut icon = base;
    icon.append("/icon.png");
    let with_admin = replace_all(caps, "DYNAMIC_ADMIN_URI", admin.as_str());
    replace_all(with_admin.as_str(), "DYNAMIC_ICON_URI", icon.as_str())
}

} // verus!

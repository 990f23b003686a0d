//! The request log's middleware: what it notes of a request before handing
//! it on, and of the response on its way back.

use vstd::prelude::*;
use vstd::string::StringSliceAdditionalSpecFns;
use crate::text::{contains, occurs};

verus! {

/// The kind of client that a `User-Agent` header gives away.
#[derive(Debug, Clone, Copy, PartialEq, Eq, Structural)]
pub enum ClientKind {
    /// The NAPS2 scanning program.
    Naps2,
    /// A Windows device-discovery request.
    WindowsDiscovery,
    /// Another Microsoft client.
    Microsoft,
    /// Anything else.
    Other,
}

/// The endpoint that a request path is for.
#[derive(Debug, Clone, Copy, PartialEq, Eq, Structural)]
pub enum EndpointKind {
    /// The scanner's capabilities.
    ScannerCapabilities,
    /// Creating a scan job, or anything below a job.
    ScanJobs,
    /// The scanner's status.
    ScannerStatus,
    /// The next document of a job.
    NextDocument,
    /// The device icon.
    Icon,
    /// The root of the server.
    Root,
    /// Anything else.
    Other,
}

/// How a response turned out, by its status.
#[derive(Debug, Clone, Copy, PartialEq, Eq, Structural)]
pub enum ResponseOutcome {
    /// A status of the 2xx class.
    Success,
    /// Status 404: the endpoint does not exist.
    NotFound,
    /// Any other status.
    Failure,
}

/// What the log notes of a request.
#[derive(Debug, Clone, Copy, PartialEq, Eq, Structural)]
pub struct RequestNote {
    /// Who is asking.
    pub client: ClientKind,
    /// What is asked for.
    pub endpoint: EndpointKind,
}

/// The kind of client: the first of `NAPS2`, `WSD` and `Microsoft` that the
/// header holds decides.
pub open spec fn spec_client_kind(user_agent: Seq<u8>) -> ClientKind {
    if occurs(user_agent, "NAPS2".spec_bytes(), false) {
        ClientKind::Naps2
    } else if occurs(user_agent, "WSD".spec_bytes(), false) {
        ClientKind::WindowsDiscovery
    } else if occurs(user_agent, "Microsoft".spec_bytes(), false) {
        ClientKind::Microsoft
    } else {
        ClientKind::Other
    }
}

/// The endpoint of a path: the first of the endpoint names that the path
/// holds decides; the path `/` is the root.
pub open spec fn spec_endpoint_kind(path: Seq<u8>) -> EndpointKind {
    if occurs(path, "ScannerCapabilities".spec_bytes(), false) {
        EndpointKind::ScannerCapabilities
    } else if occurs(path, "ScanJobs".spec_bytes(), false) {
        EndpointKind::ScanJobs
    } else if occurs(path, "ScannerStatus".spec_bytes(), false) {
        EndpointKind::ScannerStatus
    } else if occurs(path, "NextDocument".spec_bytes(), false) {
        EndpointKind::NextDocument
    } else if occurs(path, "icon".spec_bytes(), false) {
        EndpointKind::Icon
    } else if path == "/".spec_bytes() {
        EndpointKind::Root
    } else {
        EndpointKind::Other
    }
}

/// The outcome that a status stands for.
pub open spec fn spec_response_outcome(status: u16) -> ResponseOutcome {
    if 200 <= status < 300 {
        ResponseOutcome::Success
    } else if status == 404 {
        ResponseOutcome::NotFound
    } else {
        ResponseOutcome::Failure
    }
}

/// Tells the kind of client from its `User-Agent` header.
pub fn client_kind(user_agent: &str) -> (kind: ClientKind)
    ensures
        kind == spec_client_kind(user_agent.spec_bytes()),
{
    let bytes = user_agent.as_bytes();
    if contains(bytes, "NAPS2".as_bytes()) {
        ClientKind::Naps2
    } else if contains(bytes, "WSD".as_bytes()) {
        ClientKind::WindowsDiscovery
    } else if contains(bytes, "Microsoft".as_bytes()) {
        ClientKind::Microsoft
    } else {
        ClientKind::Other
    }
}

/// Tells the endpoint that a request path is for.
pub fn endpoint_kind(path: &str) -> (kind: EndpointKind)
    ensures
        kind == spec_endpoint_kind(path.spec_bytes()),
{
    let bytes = path.as_bytes();
    if contains(bytes, "ScannerCapabilities".as_bytes()) {
        EndpointKind::ScannerCapabilities
    } else if contains(bytes, "ScanJobs".as_bytes()) {
        EndpointKind::ScanJobs
    } else if contains(bytes, "ScannerStatus".as_bytes()) {
        EndpointKind::ScannerStatus
    } else if contains(bytes, "NextDocument".as_bytes()) {
        EndpointKind::NextDocument
    } else if contains(bytes, "icon".as_bytes()) {
        EndpointKind::Icon
    } else if is_root(bytes) {
        EndpointKind::Root
    } else {
        EndpointKind::Other
    }
}

/// Whether a path is the single slash.
fn is_root(path: &[u8]) -> (root: bool)
    ensures
        root == (path@ == "/".spec_bytes()),
{
    let slash = "/".as_bytes();
    proof {
        reveal_strlit("/");
        vstd::string::is_ascii_spec_bytes("/");
    }
    if path.len() == 1 && path[0] == slash[0] {
        assert(path@ =~= slash@);
        true
    } else {
        false
    }
}

/// Tells how a response turned out from its status.
pub fn response_outcome(status: u16) -> (outcome: ResponseOutcome)
    ensures
        outcome == spec_response_outcome(status),
{
    if 200 <= status && status < 300 {
        ResponseOutcome::Success
    } else if status == 404 {
        ResponseOutcome::NotFound
    } else {
        ResponseOutcome::Failure
    }
}

/// Builds the logging service around a service.
pub struct LoggingMiddleware;

impl LoggingMiddleware {
    /// Wraps `service`, which is handed every request once it is noted.
    pub fn new_transform<S>(&self, service: S) -> (wrapped: LoggingMiddlewareService<S>)
        ensures
            wrapped.service == service,
    {
        LoggingMiddlewareService { service }
    }
}

/// A service that notes each request and response and otherwise leaves the
/// work to the service inside.
pub struct LoggingMiddlewareService<S> {
    /// The service that answers the requests.
    pub service: S,
}

impl<S> LoggingMiddlewareService<S> {
    /// What to note of a request, before the inner service gets it.
    pub fn note_request(&self, user_agent: &str, path: &str) -> (note: RequestNote)
        ensures
            note.client == spec_client_kind(user_agent.spec_bytes()),
            note.endpoint == spec_endpoint_kind(path.spec_bytes()),
    {
        RequestNote { client: client_kind(user_agent), endpoint: endpoint_kind(path) }
    }

    /// What to note of the response that the inner service gave.
    pub fn note_response(&self, status: u16) -> (outcome: ResponseOutcome)
        ensures
            outcome == spec_response_outcome(status),
    {
        response_outcome(status)
    }
}

} // verus!

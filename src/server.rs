use vstd::prelude::*;
use crate::metrics::{MetricRegistry, MetricsError};

verus! {

/// Status of a served exposition.
pub const STATUS_OK: u16 = 200;

/// Status of a request for anything but the exposition.
pub const STATUS_NOT_FOUND: u16 = 404;

/// Status of an exposition that could not be written out.
pub const STATUS_SERVER_ERROR: u16 = 500;

/// The answer to one request of the exposition endpoint.
#[derive(Debug, Clone)]
pub struct Response {
    pub status: u16,
    pub body: String,
}

/// Whether a request asks for the exposition: `GET /metrics`.
pub open spec fn asks_for_metrics(method: Seq<char>, path: Seq<char>) -> bool {
    method == "GET"@ && path == "/metrics"@
}

/// Whether a request asks for the exposition.
pub fn is_metrics_request(method: &str, path: &str) -> (r: bool)
    ensures
        r == asks_for_metrics(method@, path@),
{
    let get = String::from_str("GET");
    let metrics = String::from_str("/metrics");
    method.to_owned() == get && path.to_owned() == metrics
}

/// The answer to a request for anything but the exposition.
pub fn not_found() -> (r: Response)
    ensures
        r.status == STATUS_NOT_FOUND,
        r.body@ == "Not Found"@,
{
    Response { status: STATUS_NOT_FOUND, body: String::from_str("Not Found") }
}

/// The answer to a request for the exposition, given what rendering the
/// registry gave: the text itself, or a server error for this request alone.
pub fn metrics_response(rendered: Result<String, MetricsError>) -> (r: Response)
    ensures
        rendered matches Ok(s) ==> r.status == STATUS_OK && r.body@ == s@,
        rendered is Err ==> r.status == STATUS_SERVER_ERROR && r.body@
            == "Internal Server Error"@,
{
    match rendered {
        Ok(s) => Response { status: STATUS_OK, body: s },
        Err(_) => Response {
            status: STATUS_SERVER_ERROR,
            body: String::from_str("Internal Server Error"),
        },
    }
}

/// Answers one request: `GET /metrics` gets the current exposition of the
/// registry; any other method or path gets a not-found answer.
pub fn handle_request(registry: &MetricRegistry, method: &str, path: &str) -> (r: Response)
    requires
        registry.wf(),
    ensures
        !asks_for_metrics(method@, path@) ==> r.status == STATUS_NOT_FOUND && r.body@
            == "Not Found"@,
        asks_for_metrics(method@, path@) ==> r.status == STATUS_OK && r.body@
            == registry.exposition(),
{
    if is_metrics_request(method, path) {
        metrics_response(registry.render())
    } else {
        not_found()
    }
}

} // verus!

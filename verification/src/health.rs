//! The health check: an endpoint that answers as long as the service runs.

use crate::http::{
    Body, BodyView, Endpoint, Header, HeaderView, Method, Response, ResponseView, RouteView,
    ServiceConfig, OK,
};
use vstd::prelude::*;
use vstd::string::StringExecFns;

verus! {

/// The version that the health check reports.
pub const API_VERSION: &'static str = "v0.0.1";

/// The route of the health check.
pub open spec fn health_route() -> RouteView {
    RouteView { method: Method::Get, path: "/health_check"@, endpoint: Endpoint::HealthCheck }
}

/// What the health check answers: status 200, the version in a header, no
/// body.
pub open spec fn health_answer() -> ResponseView {
    ResponseView {
        status: OK,
        headers: seq![HeaderView { name: "version"@, value: API_VERSION@ }],
        body: BodyView::Empty,
    }
}

/// Registers the health check at the end of `cfg`.
pub fn service(cfg: &mut ServiceConfig)
    ensures
        final(cfg)@ == old(cfg)@.push(health_route()),
{
    cfg.route(Method::Get, "/health_check", Endpoint::HealthCheck);
}

/// Answers a health check.
pub fn health_check() -> (response: Response)
    ensures
        response@ == health_answer(),
{
    let mut headers: Vec<Header> = Vec::new();
    headers.push(
        Header { name: String::from_str("version"), value: String::from_str(API_VERSION) },
    );
    let response = Response { status: OK, headers, body: Body::Empty };
    assert(response@.headers =~= health_answer().headers);
    response
}

} // verus!

//! One proxy round trip, as pure decisions: route the inbound request,
//! build the outbound request for the chosen backend, and translate the
//! transport's outcome into the reply for the original caller. The transport
//! itself (issuing the outbound request and collecting the backend's answer)
//! runs outside the library and reports back one `DispatchOutcome`.

use crate::backend::BackendAddr;
use crate::message::{InboundRequest, OutboundRequest, Response};
use crate::message::response_view;
use crate::router::{RoutingTable, Route, first_match};
use vstd::prelude::*;
use vstd::string::*;
use vstd::utf8::encode_scalar;
use vstd::utf8::encode_utf8;

verus! {

/// Why a round trip was given back to the surrounding framework as a
/// rejection instead of being answered by the engine.
#[derive(Debug, Clone, PartialEq, Eq)]
pub enum ForwardError {
    /// The outbound request could not be constructed by the transport.
    FailBuildingQuery(String),
    /// The reply to the caller could not be assembled by the server layer.
    HttpResponse(String),
    /// The backend's body could not be read after its status and headers
    /// had already arrived.
    ReturnBytes(String),
}

/// What the transport reports after it was asked to carry out one outbound
/// round trip. Each failure variant carries the failure's description.
#[derive(Debug, Clone, PartialEq, Eq)]
pub enum DispatchOutcome {
    /// The backend answered and its body was read in full.
    Delivered(Response),
    /// The outbound request could not even be constructed.
    BuildFailed(String),
    /// The request never completed at the network level: connection
    /// refused, timeout, name resolution failure, and the like.
    TransportFailed(String),
    /// The backend's status and headers arrived but reading its body
    /// failed part-way.
    BodyReadFailed(String),
}

/// The engine's verdict on one round trip: a response of its own for the
/// caller, or a rejection that the surrounding framework renders.
#[derive(Debug, Clone, PartialEq, Eq)]
pub enum ProxyOutcome {
    Answered(Response),
    Rejected(ForwardError),
}

/// How the reply relates to the transport's report: a delivered response is
/// copied verbatim; a network-level failure is answered as status 500 whose
/// body is the failure's description; a build failure and a body-read
/// failure are rejections, never answered by the engine.
pub open spec fn reply_matches(outcome: DispatchOutcome, r: ProxyOutcome) -> bool {
    match outcome {
        DispatchOutcome::Delivered(resp) => r == ProxyOutcome::Answered(resp),
        DispatchOutcome::BuildFailed(e) => r == ProxyOutcome::Rejected(
            ForwardError::FailBuildingQuery(e),
        ),
        DispatchOutcome::TransportFailed(e) => r matches ProxyOutcome::Answered(a) && a.status
            == 500 && a.headers@.len() == 0 && a.body@ == encode_utf8(e@),
        DispatchOutcome::BodyReadFailed(e) => r == ProxyOutcome::Rejected(
            ForwardError::ReturnBytes(e),
        ),
    }
}

/// Translates the transport's report into the reply for the caller, exactly
/// as `reply_matches` says. This is the engine's whole error policy: only a
/// network-level dispatch failure is converted into a well-formed response;
/// every other failure is surfaced as a rejection.
pub fn respond(outcome: DispatchOutcome) -> (r: ProxyOutcome)
    ensures
        reply_matches(outcome, r),
{
    match outcome {
        DispatchOutcome::Delivered(resp) => ProxyOutcome::Answered(resp),
        DispatchOutcome::BuildFailed(e) => ProxyOutcome::Rejected(
            ForwardError::FailBuildingQuery(e),
        ),
        DispatchOutcome::TransportFailed(e) => {
            let body = e.as_str().as_bytes_vec();
            ProxyOutcome::Answered(Response { status: 500, headers: Vec::new(), body })
        },
        DispatchOutcome::BodyReadFailed(e) => ProxyOutcome::Rejected(ForwardError::ReturnBytes(e)),
    }
}

/// Constructs the outbound request for a chosen backend: the target URL is
/// the backend's base address with the inbound path grafted on verbatim (no
/// prefix stripping); method, headers and body move over unchanged.
pub fn build_outbound(backend: &BackendAddr, req: InboundRequest) -> (r: OutboundRequest)
    ensures
        r.url@ == backend.base_view() + req.path@,
        r.method == req.method,
        r.headers == req.headers,
        r.body == req.body,
{
    let url = backend.target_url(req.path.as_str());
    OutboundRequest { url, method: req.method, headers: req.headers, body: req.body }
}

/// The engine's routing verdict on one inbound request: an outbound request
/// to issue, or the request handed back untouched because no registered
/// prefix matched it.
#[derive(Debug, Clone, PartialEq, Eq)]
pub enum RoutingDecision {
    Forward(OutboundRequest),
    Unmatched(InboundRequest),
}

/// How the routing verdict relates to the table and the request: when some
/// registered prefix matches the path, the earliest such route's backend is
/// targeted and the request's parts are carried over unchanged; otherwise
/// the request is handed back as it came.
pub open spec fn decision_matches(
    routes: Seq<Route>,
    req: InboundRequest,
    d: RoutingDecision,
) -> bool {
    match first_match(routes, req.path@) {
        Some(i) => d matches RoutingDecision::Forward(o) && o.url@ == routes[i].backend.base_view()
            + req.path@ && o.method == req.method && o.headers == req.headers && o.body == req.body,
        None => d == RoutingDecision::Unmatched(req),
    }
}

/// Routes one inbound request against the table and, when a route matches,
/// builds the outbound request for its backend.
pub fn plan(table: &RoutingTable, req: InboundRequest) -> (d: RoutingDecision)
    requires
        req.path@.len() > 0,
    ensures
        decision_matches(table.routes@, req, d),
{
    match table.route(req.path.as_str()) {
        Some(backend) => RoutingDecision::Forward(build_outbound(backend, req)),
        None => RoutingDecision::Unmatched(req),
    }
}

/// A UTF-8 encoding of a non-empty text is itself non-empty.
pub proof fn lemma_encode_utf8_nonempty(chars: Seq<char>)
    requires
        chars.len() > 0,
    ensures
        encode_utf8(chars).len() > 0,
{
    assert(encode_scalar(chars[0] as u32).len() >= 1);
}

/// A reply built from a delivered backend response is byte-identical to it:
/// the same status, the same headers in the same order, the same body.
pub proof fn lemma_delivered_verbatim(resp: Response, r: ProxyOutcome)
    requires
        reply_matches(DispatchOutcome::Delivered(resp), r),
    ensures
        r matches ProxyOutcome::Answered(a) && response_view(a) == response_view(resp),
{
}

/// A network-level dispatch failure with a non-empty description is
/// answered, never rejected: status 500 and a non-empty body holding that
/// description's bytes.
pub proof fn lemma_transport_failure_answered(e: String, r: ProxyOutcome)
    requires
        e@.len() > 0,
        reply_matches(DispatchOutcome::TransportFailed(e), r),
    ensures
        r matches ProxyOutcome::Answered(a) && a.status == 500 && a.body@ == encode_utf8(e@)
            && a.body@.len() > 0,
{
    lemma_encode_utf8_nonempty(e@);
}

/// Routing keeps no state between round trips: two routing verdicts for the
/// same table and the same request agree on everything observable — the
/// same target URL text, and the very same method, headers and body; or
/// both hand the request back unmatched.
pub proof fn lemma_plan_stateless(
    routes: Seq<Route>,
    req: InboundRequest,
    d1: RoutingDecision,
    d2: RoutingDecision,
)
    requires
        decision_matches(routes, req, d1),
        decision_matches(routes, req, d2),
    ensures
        (d1 matches RoutingDecision::Forward(o1) && d2 matches RoutingDecision::Forward(o2)
            && o1.url@ == o2.url@ && o1.method == o2.method && o1.headers == o2.headers && o1.body
            == o2.body) || (d1 == RoutingDecision::Unmatched(req) && d2
            == RoutingDecision::Unmatched(req)),
{
}

/// Replying keeps no state between round trips: two replies to the same
/// transport report agree on everything observable — equal answered
/// responses byte for byte, or equal rejections.
pub proof fn lemma_respond_stateless(
    outcome: DispatchOutcome,
    r1: ProxyOutcome,
    r2: ProxyOutcome,
)
    requires
        reply_matches(outcome, r1),
        reply_matches(outcome, r2),
    ensures
        (r1 matches ProxyOutcome::Answered(a1) && r2 matches ProxyOutcome::Answered(a2)
            && response_view(a1) == response_view(a2)) || (r1 matches ProxyOutcome::Rejected(e1)
            && r2 matches ProxyOutcome::Rejected(e2) && e1 == e2),
{
}

} // verus!

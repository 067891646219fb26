use prefix_proxy::backend::BackendAddr;
use prefix_proxy::forward::{
    build_outbound, plan, respond, DispatchOutcome, ForwardError, ProxyOutcome, RoutingDecision,
};
use prefix_proxy::message::{Header, InboundRequest, Response};
use prefix_proxy::router::{Route, RoutingTable};

fn addr(port: u16) -> BackendAddr {
    BackendAddr { scheme: "http".to_string(), host: "localhost".to_string(), port }
}

fn header(name: &str, value: &str) -> Header {
    Header { name: name.to_string(), value: value.as_bytes().to_vec() }
}

#[test]
fn base_url_renders_scheme_host_port() {
    assert_eq!(addr(3001).base_url(), "http://localhost:3001");
    assert_eq!(addr(80).base_url(), "http://localhost:80");
    assert_eq!(addr(0).base_url(), "http://localhost:0");
    assert_eq!(addr(65535).base_url(), "http://localhost:65535");
    let https = BackendAddr { scheme: "https".to_string(), host: "10.0.0.7".to_string(), port: 8443 };
    assert_eq!(https.base_url(), "https://10.0.0.7:8443");
}

#[test]
fn target_url_grafts_the_full_path() {
    assert_eq!(addr(3001).target_url("/v1/items/42"), "http://localhost:3001/v1/items/42");
    assert_eq!(addr(3002).target_url("/v2"), "http://localhost:3002/v2");
}

#[test]
fn outbound_request_copies_everything_verbatim() {
    let req = InboundRequest {
        path: "/v1/items/42".to_string(),
        method: "PUT".to_string(),
        headers: vec![header("x-test", "abc"), header("accept", "*/*"), header("x-test", "again")],
        body: b"payload".to_vec(),
    };
    let out = build_outbound(&addr(3001), req.clone());
    assert_eq!(out.url, "http://localhost:3001/v1/items/42");
    assert_eq!(out.method, req.method);
    // The header bag keeps order and duplicates; the body is untouched.
    assert_eq!(out.headers, req.headers);
    assert_eq!(out.body, req.body);
}

#[test]
fn outbound_request_keeps_empty_body_empty() {
    let req = InboundRequest {
        path: "/v1".to_string(),
        method: "GET".to_string(),
        headers: vec![],
        body: vec![],
    };
    let out = build_outbound(&addr(3001), req);
    assert_eq!(out.url, "http://localhost:3001/v1");
    assert!(out.headers.is_empty());
    assert!(out.body.is_empty());
}

#[test]
fn delivered_response_is_answered_verbatim() {
    let resp = Response {
        status: 404,
        headers: vec![header("content-type", "text/plain"), header("x-extra", "1")],
        body: b"not found".to_vec(),
    };
    let reply = respond(DispatchOutcome::Delivered(resp.clone()));
    assert_eq!(reply, ProxyOutcome::Answered(resp));
}

#[test]
fn transport_failure_becomes_status_500_with_description_body() {
    let reply = respond(DispatchOutcome::TransportFailed("connection refused".to_string()));
    match reply {
        ProxyOutcome::Answered(a) => {
            assert_eq!(a.status, 500);
            assert!(a.headers.is_empty());
            assert_eq!(a.body, b"connection refused".to_vec());
            assert!(!a.body.is_empty());
        }
        ProxyOutcome::Rejected(_) => panic!("a transport failure must be answered, not rejected"),
    }
}

#[test]
fn body_read_failure_is_rejected() {
    let reply = respond(DispatchOutcome::BodyReadFailed("connection reset".to_string()));
    assert_eq!(
        reply,
        ProxyOutcome::Rejected(ForwardError::ReturnBytes("connection reset".to_string()))
    );
}

#[test]
fn build_failure_is_rejected() {
    let reply = respond(DispatchOutcome::BuildFailed("bad target".to_string()));
    assert_eq!(
        reply,
        ProxyOutcome::Rejected(ForwardError::FailBuildingQuery("bad target".to_string()))
    );
}

#[test]
fn plan_forwards_through_the_matching_route() {
    let table = RoutingTable {
        routes: vec![
            Route { prefix: "/v1".to_string(), backend: addr(3001) },
            Route { prefix: "/v2".to_string(), backend: addr(3002) },
        ],
    };
    let req = InboundRequest {
        path: "/v2/submit".to_string(),
        method: "POST".to_string(),
        headers: vec![],
        body: b"hello".to_vec(),
    };
    match plan(&table, req) {
        RoutingDecision::Forward(out) => {
            assert_eq!(out.url, "http://localhost:3002/v2/submit");
            assert_eq!(out.method, "POST");
            assert_eq!(out.body, b"hello".to_vec());
        }
        RoutingDecision::Unmatched(_) => panic!("/v2/submit must match the /v2 route"),
    }
}

#[test]
fn plan_hands_back_an_unmatched_request() {
    let table = RoutingTable { routes: vec![Route { prefix: "/v1".to_string(), backend: addr(3001) }] };
    let req = InboundRequest {
        path: "/static/index.html".to_string(),
        method: "GET".to_string(),
        headers: vec![],
        body: vec![],
    };
    assert_eq!(plan(&table, req.clone()), RoutingDecision::Unmatched(req));
}

#[test]
fn repeated_request_gets_the_same_decision_and_reply() {
    // Two round trips with the same request and the same backend behaviour
    // are independent and agree on everything observable.
    let table = RoutingTable { routes: vec![Route { prefix: "/v1".to_string(), backend: addr(3001) }] };
    let req = InboundRequest {
        path: "/v1/items/42".to_string(),
        method: "GET".to_string(),
        headers: vec![header("x-test", "abc")],
        body: vec![],
    };
    let d1 = plan(&table, req.clone());
    let d2 = plan(&table, req.clone());
    assert_eq!(d1, d2);

    let resp = Response { status: 200, headers: vec![], body: b"ok".to_vec() };
    let r1 = respond(DispatchOutcome::Delivered(resp.clone()));
    let r2 = respond(DispatchOutcome::Delivered(resp));
    assert_eq!(r1, r2);
}

#[test]
fn scenario_get_through_v1_backend() {
    // Route /v1 -> http://localhost:3001; GET /v1/items/42 with X-Test: abc;
    // the backend answers 200, Content-Type: application/json, {"id":42}.
    let table = RoutingTable { routes: vec![Route { prefix: "/v1".to_string(), backend: addr(3001) }] };
    let req = InboundRequest {
        path: "/v1/items/42".to_string(),
        method: "GET".to_string(),
        headers: vec![header("X-Test", "abc")],
        body: vec![],
    };
    let out = match plan(&table, req) {
        RoutingDecision::Forward(out) => out,
        RoutingDecision::Unmatched(_) => panic!("/v1/items/42 must match the /v1 route"),
    };
    assert_eq!(out.url, "http://localhost:3001/v1/items/42");
    assert_eq!(out.method, "GET");
    assert_eq!(out.headers, vec![header("X-Test", "abc")]);

    let backend_reply = Response {
        status: 200,
        headers: vec![header("Content-Type", "application/json")],
        body: b"{\"id\":42}".to_vec(),
    };
    match respond(DispatchOutcome::Delivered(backend_reply)) {
        ProxyOutcome::Answered(a) => {
            assert_eq!(a.status, 200);
            assert!(a.headers.contains(&header("Content-Type", "application/json")));
            assert_eq!(a.body, b"{\"id\":42}".to_vec());
        }
        ProxyOutcome::Rejected(_) => panic!("a delivered response must be answered"),
    }
}

#[test]
fn scenario_post_to_unreachable_v2_backend() {
    // Route /v2 -> http://localhost:3002; the backend is not listening, so
    // the transport reports a connection failure for POST /v2/submit.
    let table = RoutingTable { routes: vec![Route { prefix: "/v2".to_string(), backend: addr(3002) }] };
    let req = InboundRequest {
        path: "/v2/submit".to_string(),
        method: "POST".to_string(),
        headers: vec![],
        body: b"hello".to_vec(),
    };
    let out = match plan(&table, req) {
        RoutingDecision::Forward(out) => out,
        RoutingDecision::Unmatched(_) => panic!("/v2/submit must match the /v2 route"),
    };
    assert_eq!(out.url, "http://localhost:3002/v2/submit");

    let failure = "error sending request: connection refused (os error 111)";
    match respond(DispatchOutcome::TransportFailed(failure.to_string())) {
        ProxyOutcome::Answered(a) => {
            assert_eq!(a.status, 500);
            assert!(!a.body.is_empty());
            assert_eq!(a.body, failure.as_bytes().to_vec());
        }
        ProxyOutcome::Rejected(_) => panic!("a transport failure must be answered, not rejected"),
    }
}

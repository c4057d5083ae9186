use ccproxy::access_list::{parse_blacklist, AccessList};
use ccproxy::classify::{classify, ProxyDecision, RejectReason};
use ccproxy::forward::{finish_forward, plan_forward, UpstreamOutcome, UpstreamRequest};
use ccproxy::proxy::{forward_proxy, is_on_blacklist, Denial, Proxy, Step};
use ccproxy::request::{Header, InboundRequest};
use ccproxy::response::{
    bad_gateway, create_response, rejection, tunnel_established, Response, BAD_GATEWAY, BAD_REQUEST, FORBIDDEN, OK,
};
use ccproxy::target::Authority;

fn header(name: &str, value: &str) -> Header {
    Header { name: name.to_string(), value: value.as_bytes().to_vec() }
}

fn signal() -> Header {
    header("Proxy-Connection", "Keep-Alive")
}

fn status_only(status: u16) -> Response {
    Response { status, headers: vec![], body: vec![] }
}

fn respond(status: u16) -> Option<Step> {
    Some(Step::Respond { response: status_only(status), denial: None })
}

fn deny(client: &str, host: &str) -> Option<Step> {
    Some(Step::Respond {
        response: status_only(403),
        denial: Some(Denial { client: client.to_string(), host: host.to_string() }),
    })
}

fn rules() -> AccessList {
    parse_blacklist("blocked.example\nads.example\n")
}

#[test]
fn connect_without_header_is_bad_request() {
    let req = InboundRequest::new("CONNECT", "example.com:443", vec![header("Host", "example.com:443")], "127.0.0.1:4000");
    assert_eq!(classify(&req, &rules()), ProxyDecision::Reject(RejectReason::BadRequest));
    assert_eq!(forward_proxy(req, &rules()), respond(400));
}

#[test]
fn get_to_blocked_host_is_forbidden() {
    let list = parse_blacklist("blocked.example");
    let req = InboundRequest::new("GET", "http://blocked.example/", vec![signal()], "127.0.0.1:4000");
    assert_eq!(classify(&req, &list), ProxyDecision::Reject(RejectReason::Forbidden));
    assert_eq!(forward_proxy(req, &list), deny("127.0.0.1:4000", "blocked.example"));
}

#[test]
fn get_to_reachable_host_returns_upstream_response() {
    let req = InboundRequest::new("GET", "http://up.example/", vec![signal()], "127.0.0.1:4000");
    let step = forward_proxy(req, &rules());
    assert_eq!(
        step,
        Some(Step::Forward(UpstreamRequest {
            host: "up.example".to_string(),
            port: 80,
            method: "GET".to_string(),
            target: "http://up.example/".to_string(),
            headers: vec![signal()],
        }))
    );
    let upstream = Response { status: 200, headers: vec![header("Content-Length", "2")], body: b"ok".to_vec() };
    let resp = finish_forward(UpstreamOutcome::Complete(upstream.clone()));
    assert_eq!(resp.status, 200);
    assert_eq!(resp.body, b"ok".to_vec());
    assert_eq!(resp, upstream);
}

#[test]
fn connect_to_reachable_host_is_tunnelled() {
    let req = InboundRequest::new("CONNECT", "good.example:443", vec![signal()], "127.0.0.1:4000");
    assert_eq!(classify(&req, &rules()), ProxyDecision::Tunnel);
    assert_eq!(forward_proxy(req, &rules()), Some(Step::Tunnel("good.example:443".to_string())));
}

#[test]
fn tunnel_address_is_the_authority_of_the_target() {
    let req = InboundRequest::new("CONNECT", "http://good.example:8443/path", vec![signal()], "c");
    assert_eq!(forward_proxy(req, &rules()), Some(Step::Tunnel("good.example:8443".to_string())));
}

#[test]
fn missing_header_is_bad_request_whatever_else() {
    for method in ["GET", "CONNECT", "POST", ""] {
        for target in ["http://up.example/", "http://blocked.example/", "blocked.example:443", "/", "%%%"] {
            let req = InboundRequest::new(method, target, vec![header("User-Agent", "x")], "c");
            assert_eq!(classify(&req, &rules()), ProxyDecision::Reject(RejectReason::BadRequest));
            assert_eq!(forward_proxy(req, &rules()), respond(400), "{method} {target}");
        }
    }
}

#[test]
fn other_methods_are_bad_requests() {
    for method in ["POST", "PUT", "HEAD", "DELETE", "OPTIONS", "get", "connect", ""] {
        let req = InboundRequest::new(method, "http://up.example/", vec![signal()], "c");
        assert_eq!(classify(&req, &rules()), ProxyDecision::Reject(RejectReason::BadRequest), "{method}");
    }
}

#[test]
fn method_is_checked_before_the_access_list() {
    let req = InboundRequest::new("POST", "http://blocked.example/", vec![signal()], "c");
    assert_eq!(forward_proxy(req, &rules()), respond(400));
}

#[test]
fn blocked_host_is_forbidden_for_both_methods() {
    let get = InboundRequest::new("GET", "http://ads.example:8080/banner?id=1", vec![signal()], "c");
    assert_eq!(forward_proxy(get, &rules()), deny("c", "ads.example"));
    let connect = InboundRequest::new("CONNECT", "blocked.example:443", vec![signal()], "c");
    assert_eq!(forward_proxy(connect, &rules()), deny("c", "blocked.example"));
}

#[test]
fn only_the_host_is_held_against_the_list() {
    let list = parse_blacklist("blocked.example:443\nhttp://blocked.example/\n/blocked.example\nexample\n");
    let get = InboundRequest::new("GET", "http://blocked.example/blocked.example", vec![signal()], "c");
    assert_eq!(classify(&get, &list), ProxyDecision::Forward);
    let connect = InboundRequest::new("CONNECT", "blocked.example:443", vec![signal()], "c");
    assert_eq!(classify(&connect, &list), ProxyDecision::Tunnel);
    let sub = InboundRequest::new("GET", "http://www.blocked.example/", vec![signal()], "c");
    assert_eq!(classify(&sub, &rules()), ProxyDecision::Forward);
}

#[test]
fn approved_request_without_authority_has_no_step() {
    let get = InboundRequest::new("GET", "/index.html", vec![signal()], "c");
    assert_eq!(classify(&get, &rules()), ProxyDecision::Forward);
    assert_eq!(forward_proxy(get, &rules()), None);
    let connect = InboundRequest::new("CONNECT", "*", vec![signal()], "c");
    assert_eq!(classify(&connect, &rules()), ProxyDecision::Tunnel);
    assert_eq!(forward_proxy(connect, &rules()), None);
}

#[test]
fn request_is_replayed_as_it_came() {
    let headers = vec![
        header("Host", "up.example:8080"),
        header("pRoXy-CoNnEcTiOn", "Keep-Alive"),
        header("User-Agent", "curl/8.0"),
        Header { name: "X-Bytes".to_string(), value: vec![0xff, 0x00, 0x80] },
        header("Accept", "*/*"),
        header("Accept", "text/html"),
    ];
    let req = InboundRequest::new("GET", "http://up.example:8080/a/b?c=d", headers.clone(), "10.0.0.7:1234");
    let plan = plan_forward(req).unwrap();
    assert_eq!(plan.host, "up.example");
    assert_eq!(plan.port, 8080);
    assert_eq!(plan.method, "GET");
    assert_eq!(plan.target, "http://up.example:8080/a/b?c=d");
    assert_eq!(plan.headers, headers);
}

#[test]
fn plan_takes_the_authority_it_is_given() {
    let req = InboundRequest {
        method: "GET".to_string(),
        target: "http://up.example/".to_string(),
        authority: Some(Authority { text: "up.example".to_string(), host: "up.example".to_string(), port: None }),
        headers: vec![signal()],
        client: "c".to_string(),
    };
    let plan = plan_forward(req).unwrap();
    assert_eq!(plan.host, "up.example");
    assert_eq!(plan.port, 80);
    let none = InboundRequest {
        method: "GET".to_string(),
        target: "http://up.example/".to_string(),
        authority: None,
        headers: vec![signal()],
        client: "c".to_string(),
    };
    assert_eq!(plan_forward(none), None);
}

#[test]
fn unreachable_upstream_is_bad_gateway() {
    assert_eq!(finish_forward(UpstreamOutcome::DialFailed), status_only(502));
    assert_eq!(finish_forward(UpstreamOutcome::HandshakeFailed), status_only(502));
}

#[test]
fn upstream_response_is_not_touched() {
    for status in [200u16, 204, 301, 404, 500, 502] {
        let upstream = Response {
            status,
            headers: vec![header("Content-Type", "application/octet-stream"), header("X-Empty", "")],
            body: vec![0, 1, 2, 0xfe, 0xff, b'\r', b'\n'],
        };
        assert_eq!(finish_forward(UpstreamOutcome::Complete(upstream.clone())), upstream);
    }
}

#[test]
fn truncated_response_goes_out_as_far_as_it_came() {
    let partial = Response { status: 200, headers: vec![header("Content-Length", "10")], body: b"abc".to_vec() };
    assert_eq!(finish_forward(UpstreamOutcome::Truncated(partial.clone())), partial);
}

#[test]
fn refusal_is_answered_only_for_listed_hosts() {
    let blocked = InboundRequest::new("GET", "http://blocked.example/", vec![], "c");
    assert_eq!(is_on_blacklist(&rules(), &blocked), Some(status_only(403)));
    let fine = InboundRequest::new("GET", "http://up.example/", vec![], "c");
    assert_eq!(is_on_blacklist(&rules(), &fine), None);
    let nowhere = InboundRequest::new("GET", "/", vec![], "c");
    assert_eq!(is_on_blacklist(&rules(), &nowhere), None);
}

#[test]
fn refusal_is_put_on_record_with_client_and_host() {
    let blocked = InboundRequest::new("CONNECT", "blocked.example:443", vec![signal()], "10.0.0.7:1234");
    assert_eq!(forward_proxy(blocked, &rules()), deny("10.0.0.7:1234", "blocked.example"));
}

#[test]
fn breach_of_protocol_is_not_put_on_record() {
    let no_header = InboundRequest::new("CONNECT", "blocked.example:443", vec![], "10.0.0.7:1234");
    assert_eq!(forward_proxy(no_header, &rules()), respond(400));
    let bad_method = InboundRequest::new("POST", "http://blocked.example/", vec![signal()], "10.0.0.7:1234");
    assert_eq!(forward_proxy(bad_method, &rules()), respond(400));
}

#[test]
fn responses_carry_their_status() {
    assert_eq!((OK, BAD_REQUEST, FORBIDDEN, BAD_GATEWAY), (200, 400, 403, 502));
    assert_eq!(RejectReason::BadRequest.status(), 400);
    assert_eq!(RejectReason::Forbidden.status(), 403);
    assert_eq!(rejection(RejectReason::BadRequest), status_only(400));
    assert_eq!(rejection(RejectReason::Forbidden), status_only(403));
    assert_eq!(bad_gateway(), status_only(502));
    assert_eq!(tunnel_established(), status_only(200));
    assert_eq!(
        create_response(b"diagnostic".to_vec(), 418),
        Response { status: 418, headers: vec![], body: b"diagnostic".to_vec() }
    );
}

#[test]
fn proxy_wraps_a_service() {
    let proxy = Proxy::new(7u32);
    assert_eq!(*proxy.get_ref(), 7);
    assert_eq!(proxy.clone().into_inner(), 7);
    let named = Proxy::new("inner".to_string());
    assert_eq!(named.into_inner(), "inner");
}

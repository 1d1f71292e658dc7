use jq_gateway::config::{default_listen, default_paths, AppConfig, PathConfig, RouteEntry};
use jq_gateway::dispatch::{accept_upstream, finish, plan, PlanOutcome, UpstreamDecision};
use jq_gateway::fetch::{plan_request, FetchMode, FetchOutcome, InboundRequest, UpstreamResponse};
use jq_gateway::response::{error_body, json_escape_str, success_response, u16_decimal, Header};
use jq_gateway::routes::{ConfigError, RouteTable};

fn entry(path: &str, url: &str, filter: &str) -> RouteEntry {
    RouteEntry {
        path: path.to_string(),
        target: PathConfig { source_url: url.to_string(), jq_filter: filter.to_string() },
    }
}

fn two_route_config() -> AppConfig {
    AppConfig {
        listen: default_listen(),
        paths: vec![
            entry("/a", "http://upstream/a.json", ".foo"),
            entry("/b", "http://upstream/b.json", "."),
        ],
    }
}

fn header(name: &str, value: &str) -> Header {
    Header { name: name.to_string(), value: value.to_string() }
}

fn empty_inbound() -> InboundRequest {
    InboundRequest { method: "GET".to_string(), headers: Vec::new(), body: Vec::new() }
}

#[test]
fn defaults_are_the_documented_ones() {
    assert_eq!(default_listen(), "0.0.0.0:8080");
    assert!(default_paths().is_empty());
}

#[test]
fn build_rejects_an_empty_route_set() {
    let config = AppConfig { listen: default_listen(), paths: default_paths() };
    match RouteTable::build(&config) {
        Err(ConfigError::NoRoutes) => {}
        Ok(_) => panic!("an empty route set must not build"),
    }
}

#[test]
fn build_accepts_a_non_empty_route_set() {
    let table = RouteTable::build(&two_route_config()).unwrap();
    assert_eq!(table.len(), 2);
}

#[test]
fn lookup_answers_each_configured_path_with_its_own_entry() {
    let table = RouteTable::build(&two_route_config()).unwrap();
    let a = table.lookup("/a").unwrap();
    assert_eq!(a.source_url, "http://upstream/a.json");
    assert_eq!(a.jq_filter, ".foo");
    let b = table.lookup("/b").unwrap();
    assert_eq!(b.source_url, "http://upstream/b.json");
    assert_eq!(b.jq_filter, ".");
}

#[test]
fn lookup_is_an_exact_match_without_normalization() {
    let table = RouteTable::build(&two_route_config()).unwrap();
    assert!(table.lookup("/a/").is_none());
    assert!(table.lookup("/A").is_none());
    assert!(table.lookup("a").is_none());
}

#[test]
fn unconfigured_paths_answer_404_with_the_error_body() {
    let table = RouteTable::build(&two_route_config()).unwrap();
    let inbound = empty_inbound();
    match plan(&table, FetchMode::Forward, "/missing", &inbound) {
        PlanOutcome::Respond(resp) => {
            assert_eq!(resp.status, 404);
            assert_eq!(
                resp.body,
                "{\"is_error\":true,\"message\":\"No route configured for this path\"}"
            );
            assert!(resp.headers.is_empty());
        }
        PlanOutcome::Upstream(..) => panic!("a missing path must not reach the upstream"),
    }
}

#[test]
fn a_configured_path_plans_a_call_to_its_own_upstream() {
    let table = RouteTable::build(&two_route_config()).unwrap();
    let inbound = empty_inbound();
    match plan(&table, FetchMode::Fetch, "/a", &inbound) {
        PlanOutcome::Upstream(out, target) => {
            assert_eq!(out.url, "http://upstream/a.json");
            assert_eq!(out.method, "GET");
            assert_eq!(target.source_url, "http://upstream/a.json");
            assert_eq!(target.jq_filter, ".foo");
        }
        PlanOutcome::Respond(_) => panic!("a configured path must plan an upstream call"),
    }
}

#[test]
fn fetch_mode_plans_a_bare_get_whatever_came_in() {
    let target = PathConfig {
        source_url: "http://upstream/x".to_string(),
        jq_filter: ".".to_string(),
    };
    let inbound = InboundRequest {
        method: "POST".to_string(),
        headers: vec![header("x-trace", "abc")],
        body: b"payload".to_vec(),
    };
    let out = plan_request(FetchMode::Fetch, &target, &inbound);
    assert_eq!(out.method, "GET");
    assert_eq!(out.url, "http://upstream/x");
    assert!(out.headers.is_empty());
    assert!(out.body.is_none());
}

#[test]
fn forward_mode_mirrors_method_headers_and_non_empty_body() {
    let target = PathConfig {
        source_url: "http://upstream/x".to_string(),
        jq_filter: ".".to_string(),
    };
    let inbound = InboundRequest {
        method: "POST".to_string(),
        headers: vec![header("accept", "application/json"), header("x-trace", "1")],
        body: b"payload".to_vec(),
    };
    let out = plan_request(FetchMode::Forward, &target, &inbound);
    assert_eq!(out.method, "POST");
    assert_eq!(out.url, "http://upstream/x");
    assert_eq!(out.headers.len(), 2);
    assert_eq!(out.headers[0].name, "accept");
    assert_eq!(out.headers[0].value, "application/json");
    assert_eq!(out.headers[1].name, "x-trace");
    assert_eq!(out.body.as_deref(), Some(b"payload".as_slice()));
}

#[test]
fn forward_mode_sends_no_body_when_the_inbound_body_is_empty() {
    let target = PathConfig {
        source_url: "http://upstream/x".to_string(),
        jq_filter: ".".to_string(),
    };
    let out = plan_request(FetchMode::Forward, &target, &empty_inbound());
    assert!(out.body.is_none());
}

#[test]
fn a_transport_failure_answers_502_and_never_200() {
    let outcome = FetchOutcome::TransportFailure("connection refused".to_string());
    match accept_upstream(FetchMode::Fetch, outcome) {
        UpstreamDecision::Respond(resp) => {
            assert_eq!(resp.status, 502);
            assert_ne!(resp.status, 200);
            assert_eq!(
                resp.body,
                "{\"is_error\":true,\"message\":\"Failed to fetch from upstream: connection refused\"}"
            );
        }
        UpstreamDecision::RunFilter(..) => panic!("a transport failure must not reach the filter"),
    }
}

#[test]
fn fetch_mode_passes_a_non_success_upstream_status_through_as_an_error() {
    let outcome = FetchOutcome::Response(UpstreamResponse {
        status: 404,
        headers: Vec::new(),
        body: b"{}".to_vec(),
    });
    match accept_upstream(FetchMode::Fetch, outcome) {
        UpstreamDecision::Respond(resp) => {
            assert_eq!(resp.status, 404);
            assert_eq!(
                resp.body,
                "{\"is_error\":true,\"message\":\"Upstream returned a non-success status: 404\"}"
            );
        }
        UpstreamDecision::RunFilter(..) => {
            panic!("fetch mode must fail hard on a non-success status")
        }
    }
}

#[test]
fn forward_mode_runs_the_filter_whatever_the_upstream_status_was() {
    let outcome = FetchOutcome::Response(UpstreamResponse {
        status: 404,
        headers: Vec::new(),
        body: b"{\"gone\":true}".to_vec(),
    });
    match accept_upstream(FetchMode::Forward, outcome) {
        UpstreamDecision::RunFilter(text, _) => assert_eq!(text, "{\"gone\":true}"),
        UpstreamDecision::Respond(_) => panic!("forward mode has no status gate"),
    }
}

#[test]
fn a_body_that_is_not_utf8_answers_502() {
    let outcome = FetchOutcome::Response(UpstreamResponse {
        status: 200,
        headers: Vec::new(),
        body: vec![0xff, 0xfe, 0x00],
    });
    match accept_upstream(FetchMode::Fetch, outcome) {
        UpstreamDecision::Respond(resp) => {
            assert_eq!(resp.status, 502);
            assert_eq!(
                resp.body,
                "{\"is_error\":true,\"message\":\"Upstream body is not valid UTF-8\"}"
            );
        }
        UpstreamDecision::RunFilter(..) => panic!("an undecodable body must not reach the filter"),
    }
}

#[test]
fn a_valid_body_is_decoded_exactly_including_multibyte_text() {
    let text = "{\"name\":\"caf\u{e9}\"}";
    let outcome = FetchOutcome::Response(UpstreamResponse {
        status: 200,
        headers: vec![header("x-upstream", "yes")],
        body: text.as_bytes().to_vec(),
    });
    match accept_upstream(FetchMode::Forward, outcome) {
        UpstreamDecision::RunFilter(decoded, kept) => {
            assert_eq!(decoded, text);
            assert_eq!(kept.len(), 1);
            assert_eq!(kept[0].name, "x-upstream");
        }
        UpstreamDecision::Respond(_) => panic!("a valid body must reach the filter"),
    }
}

#[test]
fn a_failed_transform_answers_500_with_the_standard_error_body() {
    let filtered = Err("jq: error (at <stdin>:0): Cannot index string with \"foo\"".to_string());
    let resp = finish(FetchMode::Fetch, &Vec::new(), filtered);
    assert_eq!(resp.status, 500);
    assert_eq!(
        resp.body,
        "{\"is_error\":true,\"message\":\"Failed to run jq: jq: error (at <stdin>:0): Cannot index string with \\\"foo\\\"\"}"
    );
    assert!(resp.headers.is_empty());
}

#[test]
fn a_successful_transform_answers_200_with_the_filter_output() {
    let resp = finish(FetchMode::Fetch, &Vec::new(), Ok("1\n".to_string()));
    assert_eq!(resp.status, 200);
    assert_eq!(resp.body, "1\n");
    assert!(resp.headers.is_empty());
}

#[test]
fn forward_mode_forwards_upstream_headers_except_content_type() {
    let upstream = vec![
        header("Content-Type", "text/plain"),
        header("x-one", "1"),
        header("content-type", "text/html"),
        header("x-one", "2"),
        header("CONTENT-TYPE", "application/xml"),
        header("x-two", "3"),
    ];
    let resp = finish(FetchMode::Forward, &upstream, Ok("{}".to_string()));
    assert_eq!(resp.status, 200);
    let kept: Vec<(&str, &str)> = resp
        .headers
        .iter()
        .map(|h| (h.name.as_str(), h.value.as_str()))
        .collect();
    assert_eq!(kept, vec![("x-one", "1"), ("x-one", "2"), ("x-two", "3")]);
}

#[test]
fn the_error_body_escapes_the_message_for_json() {
    assert_eq!(
        error_body("a \"quoted\" \\ back\nslash"),
        "{\"is_error\":true,\"message\":\"a \\\"quoted\\\" \\\\ back\\nslash\"}"
    );
}

#[test]
fn escaping_handles_controls_tabs_and_plain_text() {
    assert_eq!(json_escape_str("plain text"), "plain text");
    assert_eq!(json_escape_str("a\tb\rc"), "a\\tb\\rc");
    assert_eq!(json_escape_str("bell\u{7}end"), "bell end");
    assert_eq!(json_escape_str(""), "");
}

#[test]
fn a_pipeline_success_end_to_end_reserializes_the_upstream_document() {
    let table = RouteTable::build(&two_route_config()).unwrap();
    let inbound = empty_inbound();
    let target = match plan(&table, FetchMode::Fetch, "/b", &inbound) {
        PlanOutcome::Upstream(_, target) => target,
        PlanOutcome::Respond(_) => panic!("/b is configured"),
    };
    assert_eq!(target.jq_filter, ".");
    let outcome = FetchOutcome::Response(UpstreamResponse {
        status: 200,
        headers: Vec::new(),
        body: b"{\"foo\":1,\"bar\":2}".to_vec(),
    });
    let text = match accept_upstream(FetchMode::Fetch, outcome) {
        UpstreamDecision::RunFilter(text, _) => text,
        UpstreamDecision::Respond(_) => panic!("a success must reach the filter"),
    };
    assert_eq!(text, "{\"foo\":1,\"bar\":2}");
    // What the identity filter prints for this document: the same JSON,
    // reserialized, with a trailing newline.
    let resp = finish(FetchMode::Fetch, &Vec::new(), Ok("{\"foo\":1,\"bar\":2}\n".to_string()));
    assert_eq!(resp.status, 200);
    assert_eq!(resp.body, "{\"foo\":1,\"bar\":2}\n");
}

#[test]
fn decimal_rendering_is_exact() {
    assert_eq!(u16_decimal(0), "0");
    assert_eq!(u16_decimal(7), "7");
    assert_eq!(u16_decimal(404), "404");
    assert_eq!(u16_decimal(65535), "65535");
}

#[test]
fn a_field_extraction_success_answers_200_with_the_filter_output() {
    // A `.foo` filter over `{"foo": 1, "bar": 2}` prints `1` and a newline;
    // the dispatcher must hand that output through untouched.
    let outcome = FetchOutcome::Response(UpstreamResponse {
        status: 200,
        headers: Vec::new(),
        body: b"{\"foo\": 1, \"bar\": 2}".to_vec(),
    });
    let text = match accept_upstream(FetchMode::Fetch, outcome) {
        UpstreamDecision::RunFilter(text, _) => text,
        UpstreamDecision::Respond(_) => panic!("a success must reach the filter"),
    };
    assert_eq!(text, "{\"foo\": 1, \"bar\": 2}");
    let resp = finish(FetchMode::Fetch, &Vec::new(), Ok("1\n".to_string()));
    assert_eq!(resp.status, 200);
    assert_eq!(resp.body, "1\n");
    assert!(resp.headers.is_empty());
}

#[test]
fn a_failed_evaluation_of_a_non_json_body_answers_500() {
    // A body of plain text reaches the filter only as text; the evaluator
    // rejects it, and that rejection must become a `500` with the standard
    // error shape.
    let outcome = FetchOutcome::Response(UpstreamResponse {
        status: 200,
        headers: Vec::new(),
        body: b"hello".to_vec(),
    });
    let text = match accept_upstream(FetchMode::Fetch, outcome) {
        UpstreamDecision::RunFilter(text, _) => text,
        UpstreamDecision::Respond(_) => panic!("decoding plain text succeeds"),
    };
    assert_eq!(text, "hello");
    let resp = finish(FetchMode::Fetch, &Vec::new(), Err("hello is not valid JSON".to_string()));
    assert_eq!(resp.status, 500);
    assert_eq!(
        resp.body,
        "{\"is_error\":true,\"message\":\"Failed to run jq: hello is not valid JSON\"}"
    );
}

#[test]
fn a_forward_mode_success_forwards_headers_and_output_together() {
    let outcome = FetchOutcome::Response(UpstreamResponse {
        status: 200,
        headers: vec![header("content-type", "text/plain"), header("x-extra", "kept")],
        body: b"{\"foo\": \"x\"}".to_vec(),
    });
    let kept = match accept_upstream(FetchMode::Forward, outcome) {
        UpstreamDecision::RunFilter(_, kept) => kept,
        UpstreamDecision::Respond(_) => panic!("a success must reach the filter"),
    };
    let resp = finish(FetchMode::Forward, &kept, Ok("\"x\"\n".to_string()));
    assert_eq!(resp.status, 200);
    assert_eq!(resp.body, "\"x\"\n");
    assert_eq!(resp.headers.len(), 1);
    assert_eq!(resp.headers[0].name, "x-extra");
    assert_eq!(resp.headers[0].value, "kept");
}

#[test]
fn success_response_overrides_content_type_and_keeps_the_body() {
    let resp = success_response(&vec![header("content-type", "text/csv")], "[]".to_string());
    assert_eq!(resp.status, 200);
    assert_eq!(resp.body, "[]");
    assert!(resp.headers.is_empty());
}

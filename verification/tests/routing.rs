use route_proxy::message::{Header, Request, Response};
use route_proxy::request_filter::filter_request;
use route_proxy::request_handler::{
    handle_request, match_uri, proxy_request, relay_response, resolve, Outcome, Resolution,
};
use route_proxy::rewrite::{remove_extra_slashes, remove_prefix_from_uri, rewrite_target};
use route_proxy::settings::{LoggingDetails, RequestPlugins, Settings, SvcDetails};

fn rule(pattern: &str, address: &str, prefix: &str, plugins: &[&str]) -> SvcDetails {
    let mut list = Vec::new();
    for name in plugins {
        list.push(RequestPlugins::new(name.to_string(), String::new()));
    }
    SvcDetails::new(pattern.to_string(), address.to_string(), list, prefix.to_string())
}

fn api_table() -> Vec<SvcDetails> {
    vec![rule("^/api/.*", "http://backend:9000", "/api", &[])]
}

fn get(uri: &str) -> Request {
    Request {
        method: "GET".to_string(),
        uri: uri.to_string(),
        headers: vec![Header { name: "x-a".to_string(), value: b"1".to_vec() }],
        body: b"payload".to_vec(),
    }
}

fn no_plugins(_p: &RequestPlugins, r: Request) -> Option<Request> {
    Some(r)
}

fn tagging(p: &RequestPlugins, mut r: Request) -> Option<Request> {
    let name = p.name();
    if name == "missing" {
        return None;
    }
    r.uri.push_str(name);
    Some(r)
}

#[test]
fn strip_prefix_removes_leading_prefix() {
    assert_eq!(remove_prefix_from_uri("/api/users", "/api"), "/users");
    assert_eq!(remove_prefix_from_uri("/api", "/api"), "");
}

#[test]
fn strip_prefix_leaves_other_uris_unchanged() {
    assert_eq!(remove_prefix_from_uri("/other/api", "/api"), "/other/api");
    assert_eq!(remove_prefix_from_uri("/ap", "/api"), "/ap");
    assert_eq!(remove_prefix_from_uri("", "/api"), "");
}

#[test]
fn strip_prefix_with_empty_prefix_is_identity() {
    assert_eq!(remove_prefix_from_uri("/api/users", ""), "/api/users");
}

#[test]
fn strip_prefix_counts_whole_characters() {
    assert_eq!(remove_prefix_from_uri("/caf\u{e9}/x", "/caf\u{e9}"), "/x");
    assert_eq!(remove_prefix_from_uri("/caf\u{e9}/x", "/cafe"), "/caf\u{e9}/x");
}

#[test]
fn collapse_keeps_scheme_separator() {
    assert_eq!(remove_extra_slashes("http://backend:9000//users"), "http://backend:9000/users");
    assert_eq!(remove_extra_slashes("http://h///a//b/c////"), "http://h/a/b/c/");
    assert_eq!(remove_extra_slashes("http:///x"), "http:///x");
    assert_eq!(remove_extra_slashes("http:////x"), "http:///x");
}

#[test]
fn collapse_without_separator_is_identity() {
    assert_eq!(remove_extra_slashes("backend:9000//users"), "backend:9000//users");
    assert_eq!(remove_extra_slashes(""), "");
    assert_eq!(remove_extra_slashes(":/"), ":/");
}

#[test]
fn collapse_uses_first_separator_only() {
    assert_eq!(remove_extra_slashes("a://b://c//d"), "a://b:/c/d");
}

#[test]
fn collapse_is_idempotent() {
    for input in ["http://h///a//b", "a://b://c//d", "no-separator//x", "x:////"] {
        let once = remove_extra_slashes(input);
        let twice = remove_extra_slashes(&once);
        assert_eq!(once, twice);
    }
}

#[test]
fn rewrite_strips_then_concatenates() {
    assert_eq!(
        rewrite_target("/api/users?id=1", "/api", "http://backend:9000"),
        "http://backend:9000/users?id=1"
    );
}

#[test]
fn rewrite_normalizes_double_slash() {
    assert_eq!(rewrite_target("//users", "", "http://backend:9000"), "http://backend:9000/users");
    assert_eq!(
        rewrite_target("/api//users", "/api", "http://backend:9000/"),
        "http://backend:9000/users"
    );
}

#[test]
fn resolve_selects_matching_rule() {
    let table = api_table();
    assert!(matches!(resolve("/api/users?id=1", &table), Resolution::Matched(0)));
    assert!(matches!(resolve("/other", &table), Resolution::Unmatched));
}

#[test]
fn resolve_prefers_earliest_match() {
    let table = vec![
        rule("^/static/", "http://files:1", "", &[]),
        rule("^/api/", "http://first:1", "/api", &[]),
        rule("^/api/users", "http://second:1", "/api/users", &[]),
    ];
    assert!(matches!(resolve("/api/users/7", &table), Resolution::Matched(1)));
    let (address, prefix, plugins) = match_uri("/api/users/7", &table);
    assert_eq!(address, "http://first:1");
    assert_eq!(prefix, "/api");
    assert!(plugins.is_empty());
}

#[test]
fn resolve_matches_against_query_string() {
    let table = vec![rule("id=1$", "http://q:1", "", &[])];
    assert!(matches!(resolve("/x?id=1", &table), Resolution::Matched(0)));
    assert!(matches!(resolve("/x?id=12", &table), Resolution::Unmatched));
}

#[test]
fn resolve_reports_broken_pattern() {
    let table = vec![
        rule("^/a", "http://a:1", "", &[]),
        rule("(", "http://broken:1", "", &[]),
        rule("^/c", "http://c:1", "", &[]),
    ];
    assert!(matches!(resolve("/a/x", &table), Resolution::Matched(0)));
    assert!(matches!(resolve("/c/x", &table), Resolution::BadPattern(1)));
    let (address, prefix, plugins) = match_uri("/c/x", &table);
    assert_eq!(address, "");
    assert_eq!(prefix, "");
    assert!(plugins.is_empty());
}

#[test]
fn resolve_on_empty_table_is_unmatched() {
    let table: Vec<SvcDetails> = Vec::new();
    assert!(matches!(resolve("/anything", &table), Resolution::Unmatched));
}

#[test]
fn match_uri_returns_rule_fields() {
    let table = vec![rule("^/api/", "http://b:1", "/api", &["one.so", "two.so"])];
    let (address, prefix, plugins) = match_uri("/api/x", &table);
    assert_eq!(address, "http://b:1");
    assert_eq!(prefix, "/api");
    assert_eq!(plugins.len(), 2);
    assert_eq!(plugins[0].name(), "one.so");
    assert_eq!(plugins[1].clone().get_name(), "two.so");
}

#[test]
fn empty_pipeline_is_identity() {
    let out = filter_request(get("/api/x"), &Vec::new(), &tagging).unwrap();
    assert_eq!(out.method, "GET");
    assert_eq!(out.uri, "/api/x");
    assert_eq!(out.headers.len(), 1);
    assert_eq!(out.headers[0].name, "x-a");
    assert_eq!(out.headers[0].value, b"1".to_vec());
    assert_eq!(out.body, b"payload".to_vec());
}

#[test]
fn pipeline_applies_plugins_in_declared_order() {
    let plugins = vec![
        RequestPlugins::new("-one".to_string(), String::new()),
        RequestPlugins::new("-two".to_string(), String::new()),
    ];
    let out = filter_request(get("/x"), &plugins, &tagging).unwrap();
    assert_eq!(out.uri, "/x-one-two");
}

#[test]
fn pipeline_stops_at_first_failure() {
    let plugins = vec![
        RequestPlugins::new("-one".to_string(), String::new()),
        RequestPlugins::new("missing".to_string(), String::new()),
        RequestPlugins::new("-three".to_string(), String::new()),
    ];
    let failure = filter_request(get("/x"), &plugins, &tagging).unwrap_err();
    assert_eq!(failure.index, 1);
}

#[test]
fn scenario_api_request_is_rewritten() {
    let table = api_table();
    match handle_request(get("/api/users?id=1"), &table, &no_plugins) {
        Outcome::Forward(out) => {
            assert_eq!(out.uri, "http://backend:9000/users?id=1");
            assert_eq!(out.method, "GET");
            assert_eq!(out.headers.len(), 1);
            assert_eq!(out.body, b"payload".to_vec());
        }
        Outcome::Reply(_) => panic!("the request has a route"),
    }
}

#[test]
fn scenario_unrouted_request_gets_no_route_status() {
    let table = api_table();
    match handle_request(get("/other"), &table, &no_plugins) {
        Outcome::Reply(resp) => {
            assert_eq!(resp.status, 421);
            assert_eq!(resp.body, b"No route for the requested URI".to_vec());
            assert!(resp.headers.is_empty());
        }
        Outcome::Forward(_) => panic!("nothing may be sent without a route"),
    }
}

#[test]
fn scenario_backend_refused_gets_substitute() {
    let resp = relay_response(None);
    assert_eq!(resp.status, 404);
    assert_eq!(resp.body, b"404 Not Found".to_vec());
    assert!(resp.headers.is_empty());
}

#[test]
fn relay_keeps_backend_response() {
    let backend = Response {
        status: 201,
        headers: vec![
            Header { name: "set-cookie".to_string(), value: b"a=1".to_vec() },
            Header { name: "set-cookie".to_string(), value: b"b=2".to_vec() },
        ],
        body: vec![0, 159, 146, 150],
    };
    let resp = relay_response(Some(backend));
    assert_eq!(resp.status, 201);
    assert_eq!(resp.headers.len(), 2);
    assert_eq!(resp.headers[1].value, b"b=2".to_vec());
    assert_eq!(resp.body, vec![0, 159, 146, 150]);
}

#[test]
fn scenario_failing_plugin_fails_one_request_only() {
    let table = vec![
        rule("^/broken/", "http://a:1", "/broken", &["missing"]),
        rule("^/fine/", "http://b:1", "/fine", &["-tag"]),
    ];
    match handle_request(get("/broken/x"), &table, &tagging) {
        Outcome::Reply(resp) => {
            assert_eq!(resp.status, 502);
            assert_eq!(resp.body, b"Request plugin failed".to_vec());
        }
        Outcome::Forward(_) => panic!("the plugin failed"),
    }
    match handle_request(get("/fine/x"), &table, &tagging) {
        Outcome::Forward(out) => assert_eq!(out.uri, "http://b:1/x-tag"),
        Outcome::Reply(_) => panic!("the second route is unaffected"),
    }
}

#[test]
fn handle_request_rewrites_plugin_result() {
    let table = vec![rule("^/api/", "http://b:1/", "/api", &["/extra", "//more"])];
    match handle_request(get("/api/x"), &table, &tagging) {
        Outcome::Forward(out) => assert_eq!(out.uri, "http://b:1/x/extra/more"),
        Outcome::Reply(_) => panic!("the request has a route"),
    }
}

#[test]
fn handle_request_with_broken_pattern_is_unroutable() {
    let table = vec![rule("(", "http://a:1", "", &[]), rule("^/", "http://b:1", "", &[])];
    match handle_request(get("/x"), &table, &no_plugins) {
        Outcome::Reply(resp) => assert_eq!(resp.status, 421),
        Outcome::Forward(_) => panic!("a broken pattern ends the lookup"),
    }
}

#[test]
fn proxy_request_rejects_unparsable_target() {
    match proxy_request(get("/a b"), "http://backend:9000", "") {
        Outcome::Reply(resp) => {
            assert_eq!(resp.status, 500);
            assert_eq!(resp.body, b"Invalid backend target".to_vec());
        }
        Outcome::Forward(_) => panic!("a space is not allowed in a URI"),
    }
}

#[test]
fn proxy_request_keeps_everything_but_the_uri() {
    match proxy_request(get("/api/users"), "http://backend:9000", "/api") {
        Outcome::Forward(out) => {
            assert_eq!(out.uri, "http://backend:9000/users");
            assert_eq!(out.method, "GET");
            assert_eq!(out.headers[0].name, "x-a");
            assert_eq!(out.body, b"payload".to_vec());
        }
        Outcome::Reply(_) => panic!("the target is a URI"),
    }
}

#[test]
fn substitute_responses_have_distinct_statuses() {
    let statuses = [
        Response::not_found().status,
        Response::no_route().status,
        Response::bad_target().status,
        Response::plugin_failed().status,
    ];
    assert_eq!(statuses, [404, 421, 500, 502]);
}

#[test]
fn settings_getters_return_fields() {
    let logging = LoggingDetails::new(
        "logs/app.log".to_string(),
        "info".to_string(),
        "true".to_string(),
        "2048".to_string(),
        "false".to_string(),
        "TRUE".to_string(),
    );
    assert_eq!(logging.clone().get_log_path(), "logs/app.log");
    assert_eq!(logging.clone().get_log_level(), "info");
    assert_eq!(logging.clone().get_std_out(), "true");
    assert_eq!(logging.clone().get_log_file_size_in_bytes(), "2048");
    assert_eq!(logging.clone().get_log_response_header_and_body(), "false");
    assert_eq!(logging.clone().get_log_request_header_and_body(), "TRUE");
    let plugin = RequestPlugins::new("lib.so".to_string(), "k=v".to_string());
    assert_eq!(plugin.clone().get_name(), "lib.so");
    assert_eq!(plugin.clone().get_parameters(), "k=v");
    assert_eq!(plugin.duplicate().get_parameters(), "k=v");
    let svc = SvcDetails::new(
        "^/api".to_string(),
        "http://b:1".to_string(),
        vec![plugin],
        "/api".to_string(),
    );
    assert_eq!(svc.clone().get_url_matching_expression(), "^/api");
    assert_eq!(svc.clone().get_service_address(), "http://b:1");
    assert_eq!(svc.clone().get_backend_prefix_removal(), "/api");
    assert_eq!(svc.clone().get_request_plugins().len(), 1);
    assert_eq!(svc.url_matching_expression(), "^/api");
    let settings = Settings::from_parts("127.0.0.1:8080".to_string(), vec![svc], logging);
    assert_eq!(settings.service_mapping().len(), 1);
    assert_eq!(settings.clone().get_listening_address(), "127.0.0.1:8080");
    assert_eq!(settings.clone().get_logging().get_log_level(), "info");
    assert_eq!(settings.get_service_mapping()[0].service_address(), "http://b:1");
}

use podman_socket_proxy::config::{check_config_filters, Filters, Proxy};
use podman_socket_proxy::filter::{FilterResult, FiltersHandler};
use podman_socket_proxy::request::{Header, ParsedRequest};

fn rule(allowed: bool, regex: &str) -> Proxy {
    Proxy { allowed, regex: regex.to_string() }
}

fn only_get(regex: &str) -> Filters {
    Filters {
        get: rule(true, regex),
        head: rule(false, ""),
        post: rule(false, ""),
        put: rule(false, ""),
        patch: rule(false, ""),
        delete: rule(false, ""),
    }
}

fn request(method: Option<&str>, path: Option<&str>, headers: &[(&str, &str)]) -> ParsedRequest {
    ParsedRequest {
        method: method.map(|m| m.to_string()),
        path: path.map(|p| p.to_string()),
        headers: headers
            .iter()
            .map(|(n, v)| Header { name: n.to_string(), value: v.as_bytes().to_vec() })
            .collect(),
    }
}

fn handler(filters: Filters) -> FiltersHandler {
    FiltersHandler::try_new(filters).ok().expect("patterns compile")
}

#[test]
fn allowed_when_pattern_matches() {
    let h = handler(only_get("^/_ping$"));
    let r = h.is_action_allowed(&request(Some("GET"), Some("/_ping"), &[("Host", "d")]));
    assert_eq!(r, FilterResult::Allowed);
}

#[test]
fn forbidden_when_pattern_does_not_match() {
    let h = handler(only_get("^/_ping$"));
    let r = h.is_action_allowed(&request(Some("GET"), Some("/containers/create"), &[]));
    assert_eq!(r, FilterResult::Forbidden);
}

#[test]
fn pattern_search_is_unanchored() {
    let h = handler(only_get("_ping"));
    let r = h.is_action_allowed(&request(Some("GET"), Some("/v1.41/_ping?x=1"), &[]));
    assert_eq!(r, FilterResult::Allowed);
}

#[test]
fn disallowed_method_is_forbidden_even_if_pattern_matches() {
    let mut f = only_get(".*");
    f.post = rule(false, ".*");
    let h = handler(f);
    let r = h.is_action_allowed(&request(Some("POST"), Some("/containers/create"), &[]));
    assert_eq!(r, FilterResult::Forbidden);
}

#[test]
fn each_method_uses_its_own_rule() {
    let f = Filters {
        get: rule(false, ""),
        head: rule(true, "^/h$"),
        post: rule(true, "^/po$"),
        put: rule(true, "^/pu$"),
        patch: rule(true, "^/pa$"),
        delete: rule(true, "^/d$"),
    };
    let h = handler(f);
    for (m, p) in [("HEAD", "/h"), ("POST", "/po"), ("PUT", "/pu"), ("PATCH", "/pa"), ("DELETE", "/d")] {
        assert_eq!(h.is_action_allowed(&request(Some(m), Some(p), &[])), FilterResult::Allowed);
        assert_eq!(h.is_action_allowed(&request(Some(m), Some("/h/x"), &[])), FilterResult::Forbidden);
    }
    assert_eq!(h.is_action_allowed(&request(Some("GET"), Some("/h"), &[])), FilterResult::Forbidden);
}

#[test]
fn connection_header_vetoes_any_request() {
    let h = handler(only_get(".*"));
    let r = h.is_action_allowed(&request(
        Some("GET"),
        Some("/_ping"),
        &[("Host", "d"), ("Connection", "Upgrade"), ("Upgrade", "h2c")],
    ));
    assert_eq!(r, FilterResult::Forbidden);
}

#[test]
fn connection_header_is_matched_in_any_case() {
    let h = handler(only_get(".*"));
    let r = h.is_action_allowed(&request(Some("GET"), Some("/"), &[("cOnNeCtIoN", "close")]));
    assert_eq!(r, FilterResult::Forbidden);
    let r = h.is_action_allowed(&request(Some("GET"), Some("/"), &[("Connections", "x")]));
    assert_eq!(r, FilterResult::Allowed);
}

#[test]
fn connection_header_vetoes_unknown_and_missing_methods() {
    let h = handler(only_get(".*"));
    let r = h.is_action_allowed(&request(Some("FOO"), Some("/"), &[("connection", "x")]));
    assert_eq!(r, FilterResult::Forbidden);
    let r = h.is_action_allowed(&request(None, None, &[("CONNECTION", "x")]));
    assert_eq!(r, FilterResult::Forbidden);
}

#[test]
fn unknown_method_is_bad_request() {
    let h = handler(only_get(".*"));
    for m in ["FOO", "get", "OPTIONS", "CONNECT", "TRACE", ""] {
        let r = h.is_action_allowed(&request(Some(m), Some("/x"), &[]));
        assert_eq!(r, FilterResult::BadRequest, "method {:?}", m);
    }
}

#[test]
fn missing_method_is_not_allowed() {
    let h = handler(only_get(".*"));
    assert_eq!(h.is_action_allowed(&request(None, Some("/x"), &[])), FilterResult::MethodNotAllowed);
    assert_eq!(h.is_action_allowed(&request(None, None, &[])), FilterResult::MethodNotAllowed);
}

#[test]
fn missing_path_is_forbidden() {
    let h = handler(only_get(".*"));
    assert_eq!(h.is_action_allowed(&request(Some("GET"), None, &[])), FilterResult::Forbidden);
    assert_eq!(h.is_action_allowed(&request(Some("FOO"), None, &[])), FilterResult::Forbidden);
}

#[test]
fn decision_is_repeatable() {
    let h = handler(only_get("^/_ping$"));
    let req = request(Some("GET"), Some("/_ping"), &[]);
    let first = h.is_action_allowed(&req);
    let second = h.is_action_allowed(&req);
    assert_eq!(first, second);
    assert_eq!(req.path.as_deref(), Some("/_ping"));
}

#[test]
fn invalid_pattern_of_allowed_method_is_rejected() {
    let mut f = only_get(".*");
    f.post = rule(true, "foo(bar");
    f.delete = rule(true, "(");
    let e = check_config_filters(&f).err().expect("pattern fails");
    assert_eq!(e.method(), "POST");
    let e = FiltersHandler::try_new(f).err().expect("pattern fails");
    assert_eq!(e.method(), "POST");
}

#[test]
fn invalid_pattern_of_disallowed_method_is_ignored() {
    let mut f = only_get("^/$");
    f.put = rule(false, "foo(bar");
    assert!(check_config_filters(&f).is_ok());
    let h = FiltersHandler::try_new(f).ok().expect("valid");
    assert_eq!(h.is_action_allowed(&request(Some("PUT"), Some("/"), &[])), FilterResult::Forbidden);
}

#[test]
fn new_builds_the_same_policy() {
    let h = FiltersHandler::new(only_get("^/a"));
    assert_eq!(h.is_action_allowed(&request(Some("GET"), Some("/ab"), &[])), FilterResult::Allowed);
    assert_eq!(h.is_action_allowed(&request(Some("GET"), Some("/b"), &[])), FilterResult::Forbidden);
}

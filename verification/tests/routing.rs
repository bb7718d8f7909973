use api_server::{
    dispatch, health_check, not_found, str_eq, Reply, ServerConfig, DEFAULT_GRACE_MS,
    DEFAULT_PORT, STATUS_NOT_FOUND, STATUS_OK,
};

#[test]
fn health_route_answers_200_ok() {
    let reply = dispatch("GET", "/health");
    assert_eq!(reply.status, 200);
    assert_eq!(reply.body, "OK");
}

#[test]
fn health_body_is_exactly_two_bytes() {
    let reply = dispatch("GET", "/health");
    assert_eq!(reply.body.as_bytes(), &[b'O', b'K']);
}

#[test]
fn health_handler_is_fixed() {
    let reply = health_check();
    assert_eq!(reply, Reply { status: 200, body: String::from("OK") });
    assert_eq!(health_check(), health_check());
}

#[test]
fn not_found_handler_has_empty_body() {
    let reply = not_found();
    assert_eq!(reply.status, 404);
    assert!(reply.body.is_empty());
}

#[test]
fn status_constants() {
    assert_eq!(STATUS_OK, 200);
    assert_eq!(STATUS_NOT_FOUND, 404);
}

#[test]
fn missing_path_is_not_found() {
    let reply = dispatch("GET", "/missing");
    assert_eq!(reply.status, 404);
    assert_eq!(reply.body, "");
}

#[test]
fn paths_other_than_health_are_not_found() {
    let paths = [
        "",
        "/",
        "health",
        "/health/",
        "/health/live",
        "/healthz",
        "/healt",
        "/Health",
        "/HEALTH",
        "//health",
        "/health?verbose=1",
        "/health#top",
        " /health",
        "/health ",
        "/h\u{e9}alth",
        "/api/health",
    ];
    for path in paths {
        let reply = dispatch("GET", path);
        assert_eq!(reply, not_found(), "path {:?}", path);
    }
}

#[test]
fn paths_other_than_health_are_not_found_for_every_method() {
    for method in ["GET", "HEAD", "POST", "PUT", "DELETE", "OPTIONS", "PATCH", ""] {
        for path in ["/", "/missing", "/health/", "/healthy"] {
            assert_eq!(dispatch(method, path).status, 404, "{} {}", method, path);
        }
    }
}

#[test]
fn other_methods_on_health_are_not_found() {
    for method in ["HEAD", "POST", "PUT", "DELETE", "OPTIONS", "PATCH", "TRACE", "CONNECT"] {
        let reply = dispatch(method, "/health");
        assert_eq!(reply.status, 404, "method {}", method);
        assert_eq!(reply.body, "");
    }
}

#[test]
fn method_match_is_exact() {
    for method in ["get", "Get", "GET ", " GET", "GE", "GETT", ""] {
        assert_eq!(dispatch(method, "/health").status, 404, "method {:?}", method);
    }
}

#[test]
fn health_reply_does_not_depend_on_history() {
    let first = dispatch("GET", "/health");
    let _ = dispatch("GET", "/missing");
    let _ = dispatch("POST", "/health");
    let _ = dispatch("DELETE", "/");
    let second = dispatch("GET", "/health");
    for _ in 0..100 {
        assert_eq!(dispatch("GET", "/health"), first);
    }
    assert_eq!(first, second);
    assert_eq!(second.status, 200);
    assert_eq!(second.body, "OK");
}

#[test]
fn reply_clone_is_equal() {
    let reply = dispatch("GET", "/health");
    let copy = reply.clone();
    assert_eq!(copy.status, 200);
    assert_eq!(copy.body, "OK");
    assert_eq!(copy, reply);
}

#[test]
fn str_eq_on_equal_text() {
    assert!(str_eq("", ""));
    assert!(str_eq("/health", "/health"));
    assert!(str_eq("gr\u{fc}\u{df}e", "gr\u{fc}\u{df}e"));
}

#[test]
fn str_eq_on_different_text() {
    assert!(!str_eq("/health", "/healtH"));
    assert!(!str_eq("/health", "/healt"));
    assert!(!str_eq("/healt", "/health"));
    assert!(!str_eq("", "x"));
    assert!(!str_eq("a", "b"));
    assert!(!str_eq("\u{e9}", "e\u{301}"));
    assert!(!str_eq("\u{e9}", "\u{e8}"));
}

#[test]
fn default_config_is_all_interfaces_port_8080_one_second() {
    let config = ServerConfig::default();
    assert_eq!(config.host, [0, 0, 0, 0]);
    assert_eq!(config.port, 8080);
    assert_eq!(config.grace_ms, 1000);
    assert_eq!(DEFAULT_PORT, 8080);
    assert_eq!(DEFAULT_GRACE_MS, 1000);
}

use sharp::gateway_service::{bad_gateway_response, rewrite_target, version_string};

#[test]
fn connect_failure_yields_502_with_version() {
    let r = bad_gateway_response("connection refused");
    assert_eq!(r.status, 502);
    assert_eq!(
        r.body,
        format!(
            "failed to connect to upstream server\nconnection refused\n\n{}",
            version_string()
        )
    );
    assert!(r.body.contains(version_string()));
}

#[test]
fn target_is_rewritten_to_upstream_with_path_and_query() {
    let pq = "/a/b?c=d".to_string();
    assert_eq!(
        rewrite_target("127.0.0.1:8080", Some(&pq)),
        "http://127.0.0.1:8080/a/b?c=d"
    );
}

#[test]
fn target_without_path_defaults_to_root() {
    assert_eq!(rewrite_target("backend:80", None), "http://backend:80/");
}

use cargo_mini_repo::config::{decimal_text, registry_config_json, Config};
use cargo_mini_repo::responses::{
    error_body, error_body_quoted, not_found_body, publish_ok_body, unknown_endpoint_detail,
    unknown_endpoint_status,
};

#[test]
fn error_body_quotes_detail() {
    assert_eq!(error_body("Unexpected endpoint"), "{\"errors\":[{\"detail\":\"Unexpected endpoint\"}]}");
    assert_eq!(error_body("a \"q\"\nb"), "{\"errors\":[{\"detail\":\"a \\\"q\\\"\\nb\"}]}");
}

#[test]
fn error_body_escapes_control_characters() {
    assert_eq!(
        error_body("\u{1}\t\\/"),
        "{\"errors\":[{\"detail\":\"\\u0001\\t\\\\/\"}]}"
    );
    assert_eq!(error_body(""), "{\"errors\":[{\"detail\":\"\"}]}");
}

#[test]
fn error_body_around_quoted_detail() {
    assert_eq!(error_body_quoted("\"x\""), "{\"errors\":[{\"detail\":\"x\"}]}");
}

#[test]
fn fixed_bodies() {
    assert_eq!(
        publish_ok_body(),
        "{\"warnings\":{\"invalid_categories\":[],\"invalid_badges\":[],\"other\":[]}}"
    );
    assert_eq!(not_found_body(), "Crate not found");
    assert_eq!(unknown_endpoint_detail(), "Unexpected endpoint");
    assert_eq!(unknown_endpoint_status(), 404);
}

#[test]
fn config_getters() {
    let cfg = Config {
        port: 8080,
        bare_repo: "/srv/bare".to_string(),
        repo: "/srv/index".to_string(),
        crates: "/srv/crates".to_string(),
    };
    assert_eq!(cfg.port(), 8080);
    assert_eq!(cfg.crates_root(), "/srv/crates");
    assert_eq!(cfg.repo_root(), "/srv/index");
    assert_eq!(cfg.bare_repo_root(), "/srv/bare");
}

#[test]
fn registry_config_for_port() {
    assert_eq!(decimal_text(0), "0");
    assert_eq!(decimal_text(8080), "8080");
    assert_eq!(decimal_text(65535), "65535");
    assert_eq!(
        registry_config_json(8080),
        "{\n    \"dl\":\"http://localhost:8080/api/v1/crates/download/{crate}/{version}\",\n    \"api\": \"http://localhost:8080\"\n}"
    );
}

use ipdata::Config;
use ipdata::IpAddr;
use ipdata::api_endpoint;
use ipdata::build_request_url;
use ipdata::handle_response;
use ipdata::request_error;
use ipdata::resolve_config;

#[test]
fn rate_limit_status_surfaces_upstream_message() {
    let err = handle_response(429, r#"{"message":"rate limit exceeded"}"#).unwrap_err();
    assert_eq!(err.message().as_str(), "rate limit exceeded");
}

#[test]
fn server_error_with_unparseable_body_is_generic() {
    let err = handle_response(500, "<html>oops</html>").unwrap_err();
    assert_eq!(err.message().as_str(), "unknown failure occurred");
}

#[test]
fn failure_body_without_message_is_generic() {
    let err = handle_response(404, r#"{"detail":"gone"}"#).unwrap_err();
    assert_eq!(err.message().as_str(), "unknown failure occurred");
}

#[test]
fn failure_body_with_non_string_message_is_generic() {
    let err = handle_response(400, r#"{"message": 12}"#).unwrap_err();
    assert_eq!(err.message().as_str(), "unknown failure occurred");
}

#[test]
fn transport_failure_without_status_is_unknown_error() {
    let err = request_error(None);
    assert_eq!(err.message().as_str(), "unknown error");
}

#[test]
fn transport_failure_with_known_status_uses_reason_phrase() {
    assert_eq!(request_error(Some(404)).message().as_str(), "Not Found");
    assert_eq!(
        request_error(Some(429)).message().as_str(),
        "Too Many Requests"
    );
}

#[test]
fn transport_failure_with_unknown_status_is_unknown_error() {
    assert_eq!(request_error(Some(599)).message().as_str(), "unknown error");
    assert_eq!(request_error(Some(1)).message().as_str(), "unknown error");
}

#[test]
fn default_endpoint_with_address_and_no_key() {
    let cfg = resolve_config(None, None);
    assert_eq!(cfg.base_url.as_str(), "https://api.ipdata.co");
    assert!(cfg.api_key.is_none());
    let addr = Some(IpAddr::V4(1, 1, 1, 1));
    let url = build_request_url(&cfg, &addr).unwrap();
    assert_eq!(url.as_str(), "https://api.ipdata.co/1.1.1.1");
    assert!(!url.contains('?'));
}

#[test]
fn configured_key_lands_in_query() {
    let cfg = resolve_config(None, Some("abc123".to_string()));
    let addr = Some(IpAddr::V4(1, 1, 1, 1));
    let url = build_request_url(&cfg, &addr).unwrap();
    assert_eq!(url.as_str(), "https://api.ipdata.co/1.1.1.1?api-key=abc123");
    assert!(url.contains("?api-key=abc123"));
}

#[test]
fn empty_url_override_falls_back_to_default() {
    let cfg = resolve_config(Some(String::new()), None);
    assert_eq!(cfg.base_url.as_str(), "https://api.ipdata.co");
}

#[test]
fn url_override_is_kept() {
    let cfg = resolve_config(Some("https://example.com".to_string()), None);
    assert_eq!(cfg.base_url.as_str(), "https://example.com");
}

#[test]
fn unparseable_base_url_is_config_error() {
    let err = api_endpoint("not a url", &None).unwrap_err();
    assert_eq!(err.message().as_str(), "invalid endpoint URL");
}

#[test]
fn endpoint_without_address_is_normalized_base() {
    let url = api_endpoint("https://api.ipdata.co", &None).unwrap();
    assert_eq!(url.as_str(), "https://api.ipdata.co/");
}

#[test]
fn ipv6_address_joins_in_canonical_form() {
    let cfg = Config {
        base_url: "https://api.ipdata.co".to_string(),
        api_key: None,
    };
    let addr = Some(IpAddr::V6(0x2001, 0xdb8, 0, 0, 0, 0, 0, 1));
    let url = build_request_url(&cfg, &addr).unwrap();
    assert_eq!(url.as_str(), "https://api.ipdata.co/2001:db8::1");
}

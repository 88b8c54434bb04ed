use acp::captive_portal::{
    describe_status, extract_captive_portal_url, extract_magic_value, is_redirection, is_success,
    login_request, read_probe, settle_probe, verify_internet_connectivity, ConnectivityResult,
    HttpReply, ProbeFailure, ProbeReading, PORTAL_LOGIN_URL,
};
use acp::error::AppError;

fn response(status: u16, body: &str) -> HttpReply {
    HttpReply::Response { status, body: body.to_string(), status_error: None }
}

#[test]
fn test_extract_captive_portal_url_valid() {
    let html = r#"<script>window.location="https://login.iitmandi.ac.in:1003/portal"</script>"#;
    assert_eq!(
        extract_captive_portal_url(html),
        Some("https://login.iitmandi.ac.in:1003/portal".to_string())
    );
}

#[test]
fn test_extract_captive_portal_url_missing() {
    let html = r#"<html><body>No redirect here</body></html>"#;
    assert_eq!(extract_captive_portal_url(html), None);
}

#[test]
fn test_extract_magic_value_valid() {
    let html = r#"<form><input type="hidden" name="magic" value="abc123def456"></form>"#;
    assert_eq!(extract_magic_value(html), Some("abc123def456".to_string()));
}

#[test]
fn test_extract_magic_value_missing() {
    let html = r#"<form><input type="text" name="username"></form>"#;
    assert_eq!(extract_magic_value(html), None);
}

#[test]
fn test_extract_magic_value_empty() {
    // An empty value is no token.
    let html = r#"<input type="hidden" name="magic" value="">"#;
    assert_eq!(extract_magic_value(html), None);
}

#[test]
fn test_extract_portal_url_with_special_chars() {
    let html = r#"window.location="https://portal.example.com/login?redirect=http://example.com&token=xyz""#;
    assert_eq!(
        extract_captive_portal_url(html),
        Some(
            "https://portal.example.com/login?redirect=http://example.com&token=xyz"
                .to_string()
        )
    );
}

#[test]
fn redirect_round_trip_over_url_shapes() {
    let urls = [
        "http://10.0.0.1/login",
        "https://[2001:db8::1]:8443/portal?a=1&b=2#frag",
        "https://login.example/portal?next=https%3A%2F%2Fexample.com%2F",
        "",
        "http://example.com/path with spaces/'single'",
        "https://пример.example/ünïcödé",
    ];
    for url in urls {
        let html = format!("<html><head><script>window.location=\"{}\";</script></head></html>", url);
        assert_eq!(extract_captive_portal_url(&html), Some(url.to_string()));
    }
}

#[test]
fn redirect_first_of_several_wins() {
    let html = r#"<script>window.location="http://first.example/"</script>
<script>window.location="http://second.example/"</script>"#;
    assert_eq!(extract_captive_portal_url(html), Some("http://first.example/".to_string()));
}

#[test]
fn redirect_without_closing_quote_is_no_redirect() {
    assert_eq!(extract_captive_portal_url("window.location=\"http://example.com"), None);
    assert_eq!(extract_captive_portal_url("window.location="), None);
    assert_eq!(extract_captive_portal_url(""), None);
}

#[test]
fn redirect_is_case_sensitive_and_literal() {
    assert_eq!(extract_captive_portal_url("Window.Location=\"http://a/\""), None);
    assert_eq!(extract_captive_portal_url("windowXlocation=\"http://a/\""), None);
    assert_eq!(extract_captive_portal_url("window.location='http://a/'"), None);
    assert_eq!(extract_captive_portal_url("window.location = \"http://a/\""), None);
}

#[test]
fn redirect_after_unicode_text() {
    let html = "<p>Zugang gesperrt — bitte anmelden ✓</p>window.location=\"http://a/b\"";
    assert_eq!(extract_captive_portal_url(html), Some("http://a/b".to_string()));
}

#[test]
fn magic_absent_for_wrong_case() {
    let html = r#"<input type="hidden" name="MAGIC" value="abc">"#;
    assert_eq!(extract_magic_value(html), None);
}

#[test]
fn magic_absent_for_single_quotes() {
    let html = r#"<input type='hidden' name='magic' value='abc'>"#;
    assert_eq!(extract_magic_value(html), None);
}

#[test]
fn magic_needs_the_tag_to_close_after_the_value() {
    let html = r#"<input type="hidden" name="magic" value="abc" class="x">"#;
    assert_eq!(extract_magic_value(html), None);
}

#[test]
fn magic_skips_a_field_that_does_not_close_and_takes_the_next() {
    let html = r#"<input type="hidden" name="magic" value="abc" ><input type="hidden" name="magic" value="def">"#;
    assert_eq!(extract_magic_value(html), Some("def".to_string()));
}

#[test]
fn magic_first_field_decides_even_when_empty() {
    let html = r#"<input type="hidden" name="magic" value=""><input type="hidden" name="magic" value="later">"#;
    assert_eq!(extract_magic_value(html), None);
}

#[test]
fn magic_first_of_several_wins() {
    let html = r#"<input type="hidden" name="magic" value="one"><input type="hidden" name="magic" value="two">"#;
    assert_eq!(extract_magic_value(html), Some("one".to_string()));
}

#[test]
fn status_classes() {
    assert!(!is_success(199));
    assert!(is_success(200));
    assert!(is_success(204));
    assert!(is_success(299));
    assert!(!is_success(300));
    assert!(!is_redirection(299));
    assert!(is_redirection(300));
    assert!(is_redirection(302));
    assert!(is_redirection(399));
    assert!(!is_redirection(400));
}

#[test]
fn probe_no_content_is_clear() {
    assert_eq!(read_probe(&response(204, "")), ProbeReading::Clear);
    assert_eq!(
        read_probe(&response(204, "window.location=\"http://a/\"")),
        ProbeReading::Clear
    );
}

#[test]
fn probe_success_with_redirect_is_portal() {
    assert_eq!(
        read_probe(&response(200, "window.location=\"https://login.example/portal\"")),
        ProbeReading::Portal { redirect_url: "https://login.example/portal".to_string() }
    );
}

#[test]
fn probe_success_without_redirect_is_indistinct() {
    assert_eq!(read_probe(&response(200, "<html></html>")), ProbeReading::Indistinct);
    assert_eq!(read_probe(&response(203, "")), ProbeReading::Indistinct);
}

#[test]
fn status_is_written_with_its_reason_phrase() {
    assert_eq!(describe_status(100), "100 Continue");
    assert_eq!(describe_status(200), "200 OK");
    assert_eq!(describe_status(204), "204 No Content");
    assert_eq!(describe_status(302), "302 Found");
    assert_eq!(describe_status(403), "403 Forbidden");
    assert_eq!(describe_status(503), "503 Service Unavailable");
    assert_eq!(describe_status(299), "299 <unknown status code>");
    assert_eq!(describe_status(999), "999 <unknown status code>");
}

#[test]
fn status_that_no_response_carries_is_written_as_a_number() {
    assert_eq!(describe_status(0), "0");
    assert_eq!(describe_status(99), "99");
    assert_eq!(describe_status(1000), "1000");
    assert_eq!(describe_status(u16::MAX), "65535");
}

#[test]
fn probe_other_status_fails() {
    let cases = [
        (100u16, "100 Continue"),
        (301, "301 Moved Permanently"),
        (302, "302 Found"),
        (400, "400 Bad Request"),
        (404, "404 Not Found"),
        (500, "500 Internal Server Error"),
        (503, "503 Service Unavailable"),
    ];
    for (status, text) in cases {
        assert_eq!(
            read_probe(&response(status, "window.location=\"http://a/\"")),
            ProbeReading::Failed {
                cause: ProbeFailure::Status { status, cause: text.to_string() }
            }
        );
    }
}

#[test]
fn probe_status_failure_keeps_what_the_transport_said() {
    let said = "HTTP status client error (404 Not Found) for url (http://clients3.google.com/generate_204)";
    let reply = HttpReply::Response {
        status: 404,
        body: String::new(),
        status_error: Some(said.to_string()),
    };
    assert_eq!(
        read_probe(&reply),
        ProbeReading::Failed { cause: ProbeFailure::Status { status: 404, cause: said.to_string() } }
    );
    // What the transport says of a status does not make a good status bad.
    let reply = HttpReply::Response {
        status: 204,
        body: String::new(),
        status_error: Some("odd".to_string()),
    };
    assert_eq!(read_probe(&reply), ProbeReading::Clear);
}

#[test]
fn probe_transport_error_fails() {
    let reply = HttpReply::TransportError { cause: "timed out".to_string() };
    assert_eq!(
        read_probe(&reply),
        ProbeReading::Failed { cause: ProbeFailure::Transport { cause: "timed out".to_string() } }
    );
}

#[test]
fn indistinct_reading_counts_as_clear_the_second_time() {
    assert_eq!(settle_probe(false, ProbeReading::Indistinct), None);
    assert_eq!(settle_probe(true, ProbeReading::Indistinct), Some(ConnectivityResult::Clear));
    assert_eq!(settle_probe(false, ProbeReading::Clear), Some(ConnectivityResult::Clear));
    assert_eq!(
        settle_probe(true, ProbeReading::Portal { redirect_url: "http://p/".to_string() }),
        Some(ConnectivityResult::PortalDetected { redirect_url: "http://p/".to_string() })
    );
    assert_eq!(
        settle_probe(
            true,
            ProbeReading::Failed {
                cause: ProbeFailure::Status { status: 500, cause: "down".to_string() }
            }
        ),
        Some(ConnectivityResult::ProbeFailed {
            cause: ProbeFailure::Status { status: 500, cause: "down".to_string() }
        })
    );
}

#[test]
fn connectivity_is_verified_by_no_content_only() {
    assert_eq!(verify_internet_connectivity(&response(204, "")), Ok(true));
    assert_eq!(verify_internet_connectivity(&response(200, "")), Ok(false));
    assert_eq!(verify_internet_connectivity(&response(302, "")), Ok(false));
    assert_eq!(verify_internet_connectivity(&response(500, "")), Ok(false));
    assert_eq!(
        verify_internet_connectivity(&HttpReply::TransportError { cause: "dns".to_string() }),
        Err(AppError::Network("dns".to_string()))
    );
}

#[test]
fn login_for_known_host_goes_to_fixed_address() {
    let detected = "https://login.iitmandi.ac.in:1003/fgtauth?0123456789abcdef";
    let request = login_request(detected, "user", "secret", "abc123");
    assert_eq!(request.target, "https://login.iitmandi.ac.in:1003/portal?");
    assert_eq!(request.target, PORTAL_LOGIN_URL);
    assert_eq!(request.redirect, detected);
    assert_eq!(request.username, "user");
    assert_eq!(request.password, "secret");
    assert_eq!(request.magic, "abc123");
}

#[test]
fn login_for_other_host_goes_to_detected_address() {
    let detected = "https://login.example/portal";
    let request = login_request(detected, "user", "secret", "abc123");
    assert_eq!(request.target, detected);
    assert_eq!(request.redirect, detected);
}

#[test]
fn login_form_fields_in_order() {
    let request = login_request("https://login.example/portal", "user", "secret", "abc123");
    let fields = request.form();
    let expected = vec![
        ("username".to_string(), "user".to_string()),
        ("password".to_string(), "secret".to_string()),
        ("4Tredir".to_string(), "https://login.example/portal".to_string()),
        ("magic".to_string(), "abc123".to_string()),
    ];
    assert_eq!(fields, expected);
}

use vardy::error::{is_success_status, ExternalError, WebError};
use vardy::rate_limit::{rate_limit_error_response, LimitRejection};
use vardy::reporting::{is_broken_pipe, report_source, ErrorSource};
use vardy::resend::ResendError;
use vardy::unsplash::UnsplashError;

#[test]
fn not_found_is_404() {
    let res = WebError::NotFound.into_response();
    assert_eq!(res.status, 404);
}

#[test]
fn template_error_is_500() {
    let res = WebError::Template("template not found: nope.html".into()).into_response();
    assert_eq!(res.status, 500);
}

#[test]
fn database_error_is_500() {
    let res = WebError::Database("no rows returned".into()).into_response();
    assert_eq!(res.status, 500);
}

#[test]
fn external_error_is_502() {
    let res = WebError::External("boom".into()).into_response();
    assert_eq!(res.status, 502);
}

#[test]
fn resend_error_is_502() {
    let res = WebError::from(ResendError("boom".into())).into_response();
    assert_eq!(res.status, 502);
}

#[test]
fn unsplash_error_is_502() {
    let err = WebError::from(UnsplashError("boom".into()));
    assert!(matches!(&err, WebError::External(m) if m == "boom"));
    assert_eq!(err.into_response().body, "bad gateway");
}

#[test]
fn too_many_requests_is_429_with_body_and_retry_after() {
    let res = WebError::TooManyRequests { retry_after_secs: 7 }.into_response();
    assert_eq!(res.status, 429);
    assert_eq!(res.header("retry-after").map(|v| v.as_str()), Some("7"));
    assert_eq!(res.body, "too many requests");
}

#[test]
fn error_bodies_are_exact() {
    assert_eq!(WebError::NotFound.into_response().body, "not found");
    assert_eq!(WebError::Database(String::new()).into_response().body, "internal server error");
    assert_eq!(WebError::External(String::new()).into_response().body, "bad gateway");
    assert!(WebError::External(String::new()).into_response().headers.is_empty());
}

#[test]
fn too_many_requests_error_maps_to_web_error_shape() {
    let res = rate_limit_error_response(LimitRejection::TooManyRequests { wait_time: 5 }, &Vec::new());
    assert_eq!(res.status, 429);
    assert_eq!(res.header("retry-after").map(|v| v.as_str()), Some("5"));
    assert_eq!(res.body, "too many requests");
}

#[test]
fn other_limiter_failure_is_500() {
    let res = rate_limit_error_response(LimitRejection::Other, &vec![("x-ratelimit-after".to_string(), "5".to_string())]);
    assert_eq!(res.status, 500);
    assert_eq!(res.body, "internal server error");
    assert!(res.headers.is_empty());
}

#[test]
fn retry_after_for_large_wait_is_full_decimal() {
    let res = WebError::TooManyRequests { retry_after_secs: u64::MAX }.into_response();
    assert_eq!(res.header("retry-after").map(|v| v.as_str()), Some("18446744073709551615"));
}

#[test]
fn external_error_implements_error() {
    let err = ExternalError("boom".into());
    assert_eq!(err.to_string(), "boom");
}

#[test]
fn error_source_variants_map_correctly() {
    assert_eq!(ErrorSource::Database.as_tag(), "database");
    assert_eq!(ErrorSource::Template.as_tag(), "template");
    assert_eq!(ErrorSource::External.as_tag(), "external");
}

#[test]
fn broken_pipe_messages_are_recognised() {
    assert!(is_broken_pipe(Some("failed printing to stderr: Broken pipe (os error 32)")));
    assert!(is_broken_pipe(Some("os error 32")));
    assert!(is_broken_pipe(Some("Broken pipe")));
    assert!(!is_broken_pipe(Some("broken pipe")));
    assert!(!is_broken_pipe(Some("index out of bounds")));
    assert!(!is_broken_pipe(None));
}

#[test]
fn upstream_error_messages() {
    assert_eq!(UnsplashError::request_failed("timeout").0, "unsplash request failed: timeout");
    assert_eq!(UnsplashError::bad_status("500 Internal Server Error").0, "unsplash returned status 500 Internal Server Error");
    assert_eq!(UnsplashError::parse_failed("missing field `links`").0, "unsplash response parse failed: missing field `links`");
    assert_eq!(ResendError::request_failed("dns").0, "resend request failed: dns");
    assert_eq!(ResendError::bad_status("422 Unprocessable Entity", "").0, "resend returned status 422 Unprocessable Entity: ");
}

#[test]
fn resend_error_body_truncated_to_500_chars() {
    let body = "é".repeat(600);
    let err = ResendError::bad_status("500 Internal Server Error", &body);
    let expected = format!("resend returned status 500 Internal Server Error: {}", "é".repeat(500));
    assert_eq!(err.0, expected);
    let short = ResendError::bad_status("400 Bad Request", "oops");
    assert_eq!(short.0, "resend returned status 400 Bad Request: oops");
}

#[test]
fn upstream_urls() {
    assert_eq!(vardy::unsplash::random_photo_url("https://api.unsplash.com"), "https://api.unsplash.com/photos/random");
    assert_eq!(vardy::unsplash::authorization_value("k3y"), "Client-ID k3y");
    assert_eq!(vardy::resend::emails_url("https://api.resend.com"), "https://api.resend.com/emails");
}

#[test]
fn limiter_headers_reach_the_429() {
    let limiter = vec![
        ("x-ratelimit-after".to_string(), "5".to_string()),
        ("x-ratelimit-limit".to_string(), "3".to_string()),
    ];
    let res = rate_limit_error_response(LimitRejection::TooManyRequests { wait_time: 5 }, &limiter);
    assert_eq!(res.status, 429);
    assert_eq!(res.body, "too many requests");
    assert_eq!(res.header("retry-after").map(|v| v.as_str()), Some("5"));
    assert_eq!(res.header("x-ratelimit-after").map(|v| v.as_str()), Some("5"));
    assert_eq!(res.header("x-ratelimit-limit").map(|v| v.as_str()), Some("3"));
    assert_eq!(res.header("x-ratelimit-remaining"), None);
}

#[test]
fn limiter_retry_after_overrides_the_web_error_one() {
    let limiter = vec![("retry-after".to_string(), "9".to_string())];
    let res = rate_limit_error_response(LimitRejection::TooManyRequests { wait_time: 5 }, &limiter);
    assert_eq!(res.header("retry-after").map(|v| v.as_str()), Some("9"));
    assert_eq!(res.headers.len(), 1);
}

#[test]
fn only_database_and_template_errors_are_reported() {
    assert_eq!(report_source(&WebError::Database("x".into())), Some(ErrorSource::Database));
    assert_eq!(report_source(&WebError::Template("x".into())), Some(ErrorSource::Template));
    assert_eq!(report_source(&WebError::External("x".into())), None);
    assert_eq!(report_source(&WebError::NotFound), None);
    assert_eq!(report_source(&WebError::TooManyRequests { retry_after_secs: 1 }), None);
}

#[test]
fn only_2xx_statuses_are_success() {
    assert!(!is_success_status(199));
    assert!(is_success_status(200));
    assert!(is_success_status(204));
    assert!(is_success_status(299));
    assert!(!is_success_status(300));
    assert!(!is_success_status(404));
    assert!(!is_success_status(502));
}

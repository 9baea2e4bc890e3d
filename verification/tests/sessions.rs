use rawrcore::errors::{ErrorKind, RawrCoreError, RequestErrorData};
use rawrcore::models::Response;
use rawrcore::sessions::{
    classify, classify_with, handle_redirect, is_success_status, response_to_rawrcore_error,
    FiniteRetryStrategy,
};
use reqwest::header::{HeaderMap, HeaderValue};

fn response(status: u16) -> Response {
    Response { status, headers: HeaderMap::new(), body: "{}".to_string() }
}

fn response_with(status: u16, name: &'static str, value: &[u8], body: &str) -> Response {
    let mut headers = HeaderMap::new();
    headers.insert(name, HeaderValue::from_bytes(value).unwrap());
    Response { status, headers, body: body.to_string() }
}

fn kind_of_status(status: u16) -> Option<ErrorKind> {
    match response_to_rawrcore_error(response(status)) {
        Ok(unchanged) => {
            assert_eq!(unchanged.status, status);
            None
        }
        Err(error) => {
            assert_eq!(error.status_code(), Some(status));
            assert_eq!(error.response().unwrap().body, "{}");
            Some(error.kind())
        }
    }
}

#[test]
fn every_status_of_the_table_has_its_kind() {
    assert_eq!(kind_of_status(400), Some(ErrorKind::BadRequest));
    assert_eq!(kind_of_status(401), Some(ErrorKind::Forbidden));
    assert_eq!(kind_of_status(403), Some(ErrorKind::Forbidden));
    assert_eq!(kind_of_status(404), Some(ErrorKind::NotFound));
    assert_eq!(kind_of_status(409), Some(ErrorKind::Conflict));
    assert_eq!(kind_of_status(413), Some(ErrorKind::TooLarge));
    assert_eq!(kind_of_status(414), Some(ErrorKind::URITooLong));
    assert_eq!(kind_of_status(429), Some(ErrorKind::TooManyRequests));
    assert_eq!(kind_of_status(451), Some(ErrorKind::UnavailableForLegalReasons));
    assert_eq!(kind_of_status(300), Some(ErrorKind::Redirect));
    assert_eq!(kind_of_status(302), Some(ErrorKind::Redirect));
    assert_eq!(kind_of_status(415), Some(ErrorKind::SpecialError));
    for status in [500, 502, 503, 504, 520, 522] {
        assert_eq!(kind_of_status(status), Some(ErrorKind::ServerError), "{}", status);
    }
}

#[test]
fn a_status_in_the_two_hundreds_is_no_error() {
    for status in [200, 201, 202, 204, 206, 299] {
        assert_eq!(kind_of_status(status), None, "{}", status);
    }
}

#[test]
fn a_status_without_an_entry_is_a_response_error() {
    for status in [100, 199, 301, 304, 307, 402, 408, 418, 431, 501, 521, 599, 0, 999] {
        assert_eq!(kind_of_status(status), Some(ErrorKind::ResponseError), "{}", status);
    }
}

#[test]
fn success_statuses_are_ok_created_and_accepted() {
    assert!(is_success_status(&response(200)));
    assert!(is_success_status(&response(201)));
    assert!(is_success_status(&response(202)));
    assert!(!is_success_status(&response(204)));
    assert!(!is_success_status(&response(302)));
    assert!(!is_success_status(&response(500)));
}

#[test]
fn redirect_captures_the_location() {
    let error = handle_redirect(response_with(302, "location", b"/r/rust", "")).unwrap();
    match error {
        RawrCoreError::Redirect(data) => {
            assert_eq!(data.path, "/r/rust");
            assert_eq!(data.response.status, 302);
        }
        other => panic!("{:?}", other),
    }
}

#[test]
fn redirect_without_a_readable_location_has_an_empty_path() {
    match handle_redirect(response(300)).unwrap() {
        RawrCoreError::Redirect(data) => assert_eq!(data.path, ""),
        other => panic!("{:?}", other),
    }
    match response_to_rawrcore_error(response_with(302, "location", b"/caf\xc3\xa9", "")) {
        Err(RawrCoreError::Redirect(data)) => assert_eq!(data.path, ""),
        other => panic!("{:?}", other),
    }
}

#[test]
fn special_error_captures_the_retry_hint() {
    match response_to_rawrcore_error(response_with(415, "x-try-after", b"17", "")) {
        Err(RawrCoreError::SpecialError(data)) => {
            assert_eq!(data.retry_after, 17);
            assert_eq!(data.message, "");
            assert_eq!(data.response.status, 415);
        }
        other => panic!("{:?}", other),
    }
}

#[test]
fn special_error_without_a_readable_hint_has_zero() {
    for value in [&b"soon"[..], b"-1", b"65536", b"\xff", b""] {
        match response_to_rawrcore_error(response_with(415, "x-try-after", value, "")) {
            Err(RawrCoreError::SpecialError(data)) => assert_eq!(data.retry_after, 0),
            other => panic!("{:?}", other),
        }
    }
    match response_to_rawrcore_error(response(415)) {
        Err(RawrCoreError::SpecialError(data)) => assert_eq!(data.retry_after, 0),
        other => panic!("{:?}", other),
    }
}

#[test]
fn a_body_that_is_no_json_spoils_a_success() {
    let bad = Response { status: 200, headers: HeaderMap::new(), body: "{".to_string() };
    match classify(bad) {
        Err(RawrCoreError::BadJSON(data)) => assert_eq!(data.response.body, "{"),
        other => panic!("{:?}", other),
    }
    let empty = Response { status: 201, headers: HeaderMap::new(), body: "".to_string() };
    assert!(matches!(classify(empty), Err(RawrCoreError::BadJSON(_))));
    let good = Response { status: 200, headers: HeaderMap::new(), body: "{\"a\": [1, 2]}".to_string() };
    assert_eq!(classify(good).unwrap().body, "{\"a\": [1, 2]}");
}

#[test]
fn a_body_is_not_looked_at_where_none_is_promised() {
    let no_content = Response { status: 204, headers: HeaderMap::new(), body: "".to_string() };
    assert_eq!(classify(no_content).unwrap().status, 204);
    let failed = Response { status: 404, headers: HeaderMap::new(), body: "<html>".to_string() };
    assert!(matches!(classify(failed), Err(RawrCoreError::NotFound(_))));
}

#[test]
fn classify_with_takes_the_word_on_the_body() {
    assert!(matches!(classify_with(response(200), false), Err(RawrCoreError::BadJSON(_))));
    assert!(classify_with(response(200), true).is_ok());
    assert!(classify_with(response(204), false).is_ok());
    assert!(matches!(classify_with(response(503), true), Err(RawrCoreError::ServerError(_))));
}

#[test]
fn kinds_that_may_be_retried() {
    let retried = [
        ErrorKind::RequestError,
        ErrorKind::ServerError,
        ErrorKind::SpecialError,
        ErrorKind::TooManyRequests,
    ];
    let all = [
        ErrorKind::InvalidInvocation,
        ErrorKind::RequestError,
        ErrorKind::ResponseError,
        ErrorKind::OAuthError,
        ErrorKind::BadJSON,
        ErrorKind::BadRequest,
        ErrorKind::Conflict,
        ErrorKind::Forbidden,
        ErrorKind::InsufficientScope,
        ErrorKind::InvalidToken,
        ErrorKind::NotFound,
        ErrorKind::Redirect,
        ErrorKind::ServerError,
        ErrorKind::SpecialError,
        ErrorKind::TooLarge,
        ErrorKind::TooManyRequests,
        ErrorKind::UnavailableForLegalReasons,
        ErrorKind::URITooLong,
    ];
    for kind in all {
        assert_eq!(kind.is_retryable(), retried.contains(&kind), "{:?}", kind);
    }
}

#[test]
fn errors_without_a_response_have_no_status() {
    assert_eq!(RawrCoreError::InvalidInvocation.kind(), ErrorKind::InvalidInvocation);
    assert_eq!(RawrCoreError::InvalidInvocation.status_code(), None);
    assert!(RawrCoreError::InvalidInvocation.response().is_none());
    let error = RawrCoreError::RequestError(transport_failure());
    assert_eq!(error.kind(), ErrorKind::RequestError);
    assert_eq!(error.status_code(), None);
}

fn transport_failure() -> RequestErrorData {
    let original_error = reqwest::Client::new().get("no url at all").build().unwrap_err();
    let request = reqwest::Request::new(
        reqwest::Method::GET,
        reqwest::Url::parse("https://oauth.reddit.com/api/v1/me").unwrap(),
    );
    RequestErrorData { original_error, request }
}

#[test]
fn strategy_defaults_to_three_retries() {
    assert_eq!(FiniteRetryStrategy::new(None).retries(), 3);
    assert_eq!(FiniteRetryStrategy::new(Some(0)).retries(), 0);
    assert_eq!(FiniteRetryStrategy::new(Some(255)).retries(), 255);
}

#[test]
fn strategy_consumes_retries_down_to_none() {
    let strategy = FiniteRetryStrategy::new(Some(2));
    let once = strategy.consume_available_retry();
    let twice = once.consume_available_retry();
    let thrice = twice.consume_available_retry();
    assert_eq!(strategy.retries(), 2);
    assert_eq!(once.retries(), 1);
    assert_eq!(twice.retries(), 0);
    assert_eq!(thrice.retries(), 0);
}

#[test]
fn strategy_gives_up_when_no_retry_is_left() {
    let mut strategy = FiniteRetryStrategy::new(None);
    let mut retried = 0;
    while !strategy.should_return_on_failure() {
        strategy = strategy.consume_available_retry();
        retried += 1;
    }
    assert_eq!(retried, 3);
    assert!(strategy.should_return_on_failure());
    assert!(FiniteRetryStrategy::new(Some(0)).should_return_on_failure());
    assert!(!FiniteRetryStrategy::new(Some(1)).should_return_on_failure());
}

#[test]
fn backoff_is_two_seconds_and_the_jitter_but_nothing_before_the_last_retry() {
    assert_eq!(FiniteRetryStrategy::new(Some(3)).sleep_millis_with(0), Some(2_000));
    assert_eq!(FiniteRetryStrategy::new(Some(3)).sleep_millis_with(1_999), Some(3_999));
    assert_eq!(FiniteRetryStrategy::new(Some(2)).sleep_millis_with(250), Some(2_250));
    assert_eq!(FiniteRetryStrategy::new(Some(1)).sleep_millis_with(250), Some(0));
    assert_eq!(FiniteRetryStrategy::new(Some(0)).sleep_millis_with(250), None);
}

#[test]
fn backoff_draws_its_jitter_within_two_seconds() {
    let strategy = FiniteRetryStrategy::new(None);
    let mut seen = std::collections::BTreeSet::new();
    for _ in 0..200 {
        let millis = strategy.sleep_millis().unwrap();
        assert!(2_000 <= millis && millis < 4_000, "{}", millis);
        seen.insert(millis);
    }
    assert!(seen.len() > 1);
    assert_eq!(FiniteRetryStrategy::new(Some(1)).sleep_millis(), Some(0));
    assert_eq!(FiniteRetryStrategy::new(Some(0)).sleep_millis(), None);
}

use rawrcore::auth::authenticators::{TrustedAuthenticator, UntrustedAuthenticator};
use rawrcore::auth::authorizers::{
    Authorizer, BaseAuthorizer, DeviceIdAuthorizer, GrantAuthorizer, ImplicitAuthorizer, Lifecycle,
    ReadOnlyAuthorizer, ScriptAuthorizer,
};
use rawrcore::errors::RawrCoreError;
use rawrcore::models::{RequestTokenResponse, Response};
use rawrcore::requestor::Requestor;
use rawrcore::scopes::ScopeSet;
use rawrcore::time::{ClockReading, Timestamp};
use reqwest::header::HeaderMap;

fn requestor() -> Requestor {
    Requestor::new("authorizer tests/0.1", None, None, None).unwrap()
}

fn trusted() -> TrustedAuthenticator {
    TrustedAuthenticator::new(requestor(), "id", "secret", Some("https://app.example/cb"))
}

fn untrusted() -> UntrustedAuthenticator {
    UntrustedAuthenticator::new(requestor(), "id", Some("https://app.example/cb"))
}

fn reply() -> Response {
    Response { status: 200, headers: HeaderMap::new(), body: "{}".to_string() }
}

fn grant(
    access_token: &str,
    expires_in: i32,
    refresh_token: Option<&str>,
    scope: &str,
) -> Option<RequestTokenResponse> {
    Some(RequestTokenResponse {
        expires_in,
        error: None,
        error_description: None,
        access_token: access_token.to_string(),
        refresh_token: refresh_token.map(|token| token.to_string()),
        scope: scope.to_string(),
    })
}

fn refusal(error: &str, description: Option<&str>) -> Option<RequestTokenResponse> {
    Some(RequestTokenResponse {
        expires_in: 0,
        error: Some(error.to_string()),
        error_description: description.map(|text| text.to_string()),
        access_token: String::new(),
        refresh_token: None,
        scope: String::new(),
    })
}

fn status(status: u16) -> Response {
    Response { status, headers: HeaderMap::new(), body: "{}".to_string() }
}

fn sent_at(seconds: i64, nanos: u32) -> ClockReading {
    ClockReading::new(Timestamp::new(seconds, nanos).unwrap()).unwrap()
}

fn pair(key: &str, value: &str) -> (String, String) {
    (key.to_string(), value.to_string())
}

fn names(scopes: &ScopeSet) -> Vec<String> {
    let mut names = scopes.names().clone();
    names.sort();
    names
}

const TOKEN_URL: &str = "https://www.reddit.com/api/v1/access_token";

#[test]
fn scope_set_holds_each_name_once() {
    let scopes = ScopeSet::from_scope("read write read");
    assert_eq!(scopes.len(), 2);
    assert!(scopes.contains("read"));
    assert!(scopes.contains("write"));
    assert!(!scopes.contains("edit"));
    assert!(!scopes.contains(""));
    assert_eq!(names(&scopes), vec!["read".to_string(), "write".to_string()]);
}

#[test]
fn scope_set_of_an_empty_list_holds_the_empty_name() {
    let scopes = ScopeSet::from_scope("");
    assert_eq!(scopes.len(), 1);
    assert!(scopes.contains(""));
    let spaced = ScopeSet::from_scope("a  b");
    assert_eq!(spaced.len(), 3);
    assert!(spaced.contains(""));
}

#[test]
fn scope_set_grows_by_new_names_only() {
    let scopes = ScopeSet::new();
    assert_eq!(scopes.len(), 0);
    let scopes = scopes.with("read".to_string()).with("read".to_string()).with("edit".to_string());
    assert_eq!(scopes.len(), 2);
    assert_eq!(names(&scopes), vec!["edit".to_string(), "read".to_string()]);
}

#[test]
fn base_authorizer_starts_without_a_token() {
    let base = BaseAuthorizer::new(trusted(), true);
    assert_eq!(base.access_token(), None);
    assert_eq!(base.refresh_token(), None);
    assert_eq!(base.expiration_timestamp(), None);
    assert!(base.scopes().is_none());
    assert!(base.authenticator_is_trusted());
    assert!(!base.is_valid());
    assert!(!base.is_valid_at(Timestamp::from_seconds(0)));
    assert!(base.validate_authenticator().is_ok());
    assert!(!BaseAuthorizer::new(untrusted(), false).authenticator_is_trusted());
}

#[test]
fn token_expires_its_lifetime_after_the_request_less_ten_seconds() {
    let mut base = BaseAuthorizer::new(trusted(), true);
    let sent = sent_at(1_000, 777);
    base.request_token(sent, reply(), grant("abc", 3_600, Some("renew"), "read write")).unwrap();
    assert_eq!(base.expiration_timestamp(), Timestamp::new(4_590, 777));
    assert_eq!(base.access_token(), Some("abc"));
    assert_eq!(base.refresh_token(), Some("renew"));
    assert_eq!(names(base.scopes().unwrap()), vec!["read".to_string(), "write".to_string()]);

    base.request_token(sent, reply(), grant("def", 5, None, "edit")).unwrap();
    assert_eq!(base.expiration_timestamp(), Timestamp::new(995, 777));
    assert_eq!(base.access_token(), Some("def"));
    assert_eq!(base.refresh_token(), None);

    base.request_token(sent, reply(), grant("ghi", -20, None, "edit")).unwrap();
    assert_eq!(base.expiration_timestamp(), Timestamp::new(970, 777));
}

#[test]
fn token_of_any_lifetime_is_taken_at_any_clock_reading() {
    for (seconds, expires_in) in
        [(0, i32::MIN), (0, i32::MAX), (0xffff_ffff_ffff, i32::MAX), (0xffff_ffff_ffff, i32::MIN)]
    {
        let mut base = BaseAuthorizer::new(trusted(), true);
        base.request_token(sent_at(seconds, 1), reply(), grant("abc", expires_in, None, "read"))
            .unwrap();
        let expiry = seconds + i64::from(expires_in) - 10;
        assert_eq!(base.expiration_timestamp(), Timestamp::new(expiry, 1));
    }
}

#[test]
fn token_is_valid_strictly_before_its_expiry() {
    let mut base = BaseAuthorizer::new(trusted(), true);
    let sent = sent_at(1_000, 500);
    base.request_token(sent, reply(), grant("abc", 3_600, None, "read")).unwrap();
    assert!(base.is_valid_at(Timestamp::from_seconds(0)));
    assert!(base.is_valid_at(Timestamp::new(4_590, 499).unwrap()));
    assert!(!base.is_valid_at(Timestamp::new(4_590, 500).unwrap()));
    assert!(!base.is_valid_at(Timestamp::new(4_590, 501).unwrap()));
    assert!(!base.is_valid_at(Timestamp::from_seconds(4_591)));
    base.clear_access_token();
    assert!(!base.is_valid_at(Timestamp::from_seconds(0)));
}

#[test]
fn token_goes_from_unauthorized_to_authorized_to_expired_and_back() {
    let mut base = BaseAuthorizer::new(trusted(), true);
    let sent = sent_at(1_000, 0);
    assert_eq!(base.lifecycle_at(sent.timestamp()), Lifecycle::Unauthorized);
    base.request_token(sent, reply(), grant("abc", 3_600, Some("renew"), "read")).unwrap();
    assert_eq!(base.lifecycle_at(sent.timestamp()), Lifecycle::Authorized);
    assert_eq!(base.lifecycle_at(Timestamp::new(4_589, 999_999_999).unwrap()), Lifecycle::Authorized);
    assert_eq!(base.lifecycle_at(Timestamp::from_seconds(4_590)), Lifecycle::Expired);
    assert_eq!(base.lifecycle_at(Timestamp::from_seconds(i64::MAX)), Lifecycle::Expired);
    base.revoke(Ok(reply())).unwrap();
    assert_eq!(base.lifecycle_at(sent.timestamp()), Lifecycle::Unauthorized);
}

#[test]
fn validity_reads_the_clock() {
    let now = chrono::Utc::now().timestamp();
    let mut base = BaseAuthorizer::new(trusted(), true);
    base.request_token(sent_at(now, 0), reply(), grant("abc", 3_600, None, "read"))
        .unwrap();
    assert!(base.is_valid());
    base.request_token(sent_at(now - 3_600, 0), reply(), grant("abc", 10, None, "read"))
        .unwrap();
    assert!(!base.is_valid());
}

#[test]
fn validity_does_not_hang_on_the_clock_where_the_expiry_lies_out_of_its_reach() {
    let mut base = BaseAuthorizer::new(trusted(), true);
    base.request_token(sent_at(0, 0), reply(), grant("abc", -100, None, "read")).unwrap();
    assert_eq!(base.expiration_timestamp(), Timestamp::new(-110, 0));
    assert!(!base.is_valid());
    base.request_token(sent_at(0xffff_ffff_ffff, 0), reply(), grant("abc", i32::MAX, None, "read"))
        .unwrap();
    assert!(base.expiration_timestamp().unwrap().timestamp() >= 1 << 48);
    assert!(base.is_valid());
}

#[test]
fn error_in_the_payload_is_an_oauth_error_and_changes_nothing() {
    let mut base = BaseAuthorizer::new(trusted(), true);
    let sent = sent_at(1_000, 0);
    base.request_token(sent, reply(), grant("abc", 3_600, Some("renew"), "read")).unwrap();
    let answer = Response { status: 200, headers: HeaderMap::new(), body: "refused".to_string() };
    match base.request_token(sent, answer, refusal("invalid_grant", Some("used up"))) {
        Err(RawrCoreError::OAuthError(data)) => {
            assert_eq!(data.error, "invalid_grant");
            assert_eq!(data.description, Some("used up".to_string()));
            assert_eq!(data.response.body, "refused");
        }
        other => panic!("{:?}", other),
    }
    assert_eq!(base.access_token(), Some("abc"));
    assert_eq!(base.refresh_token(), Some("renew"));
    assert_eq!(base.expiration_timestamp(), Timestamp::new(4_590, 0));
    match base.request_token(sent, reply(), refusal("unsupported_grant_type", None)) {
        Err(RawrCoreError::OAuthError(data)) => assert_eq!(data.description, None),
        other => panic!("{:?}", other),
    }
}

#[test]
fn error_in_the_payload_counts_whatever_the_status() {
    let mut base = BaseAuthorizer::new(trusted(), true);
    let sent = sent_at(1_000, 0);
    for code in [200, 400, 401, 500] {
        match base.request_token(sent, status(code), refusal("invalid_grant", None)) {
            Err(RawrCoreError::OAuthError(data)) => assert_eq!(data.response.status, code),
            other => panic!("{:?}", other),
        }
    }
    assert_eq!(base.access_token(), None);
}

#[test]
fn reply_with_another_status_than_ok_is_a_response_error() {
    let mut base = BaseAuthorizer::new(trusted(), true);
    let sent = sent_at(1_000, 0);
    for code in [201, 204, 302, 401, 503] {
        match base.request_token(sent, status(code), grant("abc", 3_600, None, "read")) {
            Err(RawrCoreError::ResponseError(data)) => assert_eq!(data.response.status, code),
            other => panic!("{:?}", other),
        }
        assert!(matches!(
            base.request_token(sent, status(code), None),
            Err(RawrCoreError::ResponseError(_))
        ));
    }
    assert_eq!(base.access_token(), None);
    assert_eq!(base.expiration_timestamp(), None);
}

#[test]
fn reply_without_a_readable_payload_is_bad_json() {
    let mut base = BaseAuthorizer::new(trusted(), true);
    let sent = sent_at(1_000, 0);
    let answer = Response { status: 200, headers: HeaderMap::new(), body: "<html>".to_string() };
    match base.request_token(sent, answer, None) {
        Err(RawrCoreError::BadJSON(data)) => assert_eq!(data.response.body, "<html>"),
        other => panic!("{:?}", other),
    }
    assert_eq!(base.access_token(), None);
}

#[test]
fn base_revoke_takes_an_access_token() {
    let mut base = BaseAuthorizer::new(trusted(), true);
    assert!(matches!(base.revoke_request(), Err(RawrCoreError::InvalidInvocation)));
    assert!(matches!(base.revoke(Ok(reply())), Err(RawrCoreError::InvalidInvocation)));
    let sent = sent_at(1_000, 0);
    base.request_token(sent, reply(), grant("abc", 3_600, Some("renew"), "read")).unwrap();
    let form = base.revoke_request().unwrap();
    assert_eq!(form.url, "https://www.reddit.com/api/v1/revoke_token");
    assert_eq!(form.data, vec![pair("token", "abc"), pair("token_type_hint", "access_token")]);
    assert_eq!(base.access_token(), Some("abc"));
    let empty = Response { status: 200, headers: HeaderMap::new(), body: String::new() };
    base.revoke(Ok(empty)).unwrap();
    assert_eq!(base.access_token(), None);
    assert_eq!(base.expiration_timestamp(), None);
    assert!(base.scopes().is_none());
    assert_eq!(base.refresh_token(), Some("renew"));
    assert!(matches!(base.revoke_request(), Err(RawrCoreError::InvalidInvocation)));
    assert!(matches!(base.revoke(Ok(reply())), Err(RawrCoreError::InvalidInvocation)));
}

#[test]
fn revocation_that_failed_keeps_the_state() {
    let mut authorizer = authorized();
    for only_access in [true, false] {
        match authorizer.revoke(only_access, Ok(status(503))) {
            Err(RawrCoreError::ResponseError(data)) => assert_eq!(data.response.status, 503),
            other => panic!("{:?}", other),
        }
        assert!(matches!(
            authorizer.revoke(only_access, Err(RawrCoreError::InvalidInvocation)),
            Err(RawrCoreError::InvalidInvocation)
        ));
        let failed = Err(RawrCoreError::ServerError(rawrcore::errors::ResponseErrorData {
            response: status(500),
        }));
        assert!(matches!(
            authorizer.revoke(only_access, failed),
            Err(RawrCoreError::ServerError(_))
        ));
        assert_eq!(authorizer.base().access_token(), Some("abc"));
        assert_eq!(authorizer.base().refresh_token(), Some("renew"));
        assert_eq!(authorizer.base().expiration_timestamp(), Timestamp::new(4_590, 0));
        assert!(authorizer.base().scopes().is_some());
    }
    let mut base = BaseAuthorizer::new(trusted(), true);
    base.request_token(sent_at(1_000, 0), reply(), grant("abc", 3_600, None, "read")).unwrap();
    assert!(matches!(base.revoke(Ok(status(204))), Err(RawrCoreError::ResponseError(_))));
    assert_eq!(base.access_token(), Some("abc"));
}

#[test]
fn token_request_goes_to_the_token_endpoint() {
    let base = BaseAuthorizer::new(trusted(), true);
    let form = base.token_request(vec![pair("grant_type", "x")]);
    assert_eq!(form.url, TOKEN_URL);
    assert_eq!(form.data, vec![pair("grant_type", "x")]);
}

#[test]
fn authorize_takes_a_redirect_uri() {
    let authenticator = TrustedAuthenticator::new(requestor(), "id", "secret", None);
    let mut authorizer = Authorizer::new(BaseAuthorizer::new(authenticator, true), false, false);
    assert!(matches!(authorizer.authorize_request("code"), Err(RawrCoreError::InvalidInvocation)));
    let sent = sent_at(1_000, 0);
    assert!(matches!(
        authorizer.authorize(sent, reply(), grant("abc", 3_600, None, "read")),
        Err(RawrCoreError::InvalidInvocation)
    ));
    assert_eq!(authorizer.base().access_token(), None);
}

#[test]
fn authorize_trades_a_code_for_a_token() {
    let mut authorizer = Authorizer::new(BaseAuthorizer::new(trusted(), true), false, false);
    let form = authorizer.authorize_request("the code").unwrap();
    assert_eq!(form.url, TOKEN_URL);
    assert_eq!(
        form.data,
        vec![
            pair("code", "the code"),
            pair("grant_type", "authorization_code"),
            pair("redirect_uri", "https://app.example/cb"),
        ]
    );
    let sent = sent_at(1_000, 0);
    authorizer.authorize(sent, reply(), grant("abc", 3_600, Some("renew"), "read")).unwrap();
    assert_eq!(authorizer.base().access_token(), Some("abc"));
    assert_eq!(authorizer.base().refresh_token(), Some("renew"));
    assert!(authorizer.base().is_valid_at(Timestamp::from_seconds(4_589)));
}

#[test]
fn refresh_takes_a_refresh_token() {
    let mut authorizer = Authorizer::new(BaseAuthorizer::new(trusted(), true), false, false);
    assert!(matches!(authorizer.refresh_request(), Err(RawrCoreError::InvalidInvocation)));
    let sent = sent_at(1_000, 0);
    assert!(matches!(
        authorizer.refresh(sent, reply(), grant("abc", 3_600, None, "read")),
        Err(RawrCoreError::InvalidInvocation)
    ));
    assert_eq!(authorizer.base().access_token(), None);
}

#[test]
fn refresh_of_an_authorizer_without_a_token_ends_with_a_valid_token_and_its_scopes() {
    let mut authorizer = Authorizer::new(BaseAuthorizer::new(trusted(), true), false, false);
    authorizer.set_refresh_token(Some("renew".to_string()));
    assert!(!authorizer.base().is_valid());
    let form = authorizer.refresh_request().unwrap();
    assert_eq!(form.url, TOKEN_URL);
    assert_eq!(form.data, vec![pair("grant_type", "refresh_token"), pair("refresh_token", "renew")]);
    let sent = ClockReading::now();
    authorizer.refresh(sent, reply(), grant("abc", 3_600, None, "read write")).unwrap();
    assert!(authorizer.base().is_valid());
    assert_eq!(authorizer.base().access_token(), Some("abc"));
    let scopes = authorizer.base().scopes().unwrap();
    assert_eq!(names(scopes), vec!["read".to_string(), "write".to_string()]);
    assert_eq!(scopes.len(), 2);
}

#[test]
fn refresh_that_is_refused_keeps_the_state() {
    let mut authorizer = Authorizer::new(BaseAuthorizer::new(trusted(), true), false, false);
    authorizer.set_refresh_token(Some("renew".to_string()));
    let sent = sent_at(1_000, 0);
    assert!(matches!(
        authorizer.refresh(sent, reply(), refusal("invalid_grant", None)),
        Err(RawrCoreError::OAuthError(_))
    ));
    assert_eq!(authorizer.base().access_token(), None);
    assert_eq!(authorizer.base().refresh_token(), Some("renew"));
}

fn authorized() -> Authorizer<TrustedAuthenticator> {
    let mut authorizer = Authorizer::new(BaseAuthorizer::new(trusted(), true), false, false);
    let sent = sent_at(1_000, 0);
    authorizer.authorize(sent, reply(), grant("abc", 3_600, Some("renew"), "read")).unwrap();
    authorizer
}

#[test]
fn revoking_the_access_token_alone_keeps_the_refresh_token() {
    let mut authorizer = authorized();
    let form = authorizer.revoke_request(true).unwrap();
    assert_eq!(form.data, vec![pair("token", "abc"), pair("token_type_hint", "access_token")]);
    authorizer.revoke(true, Ok(reply())).unwrap();
    assert_eq!(authorizer.base().access_token(), None);
    assert_eq!(authorizer.base().expiration_timestamp(), None);
    assert!(authorizer.base().scopes().is_none());
    assert_eq!(authorizer.base().refresh_token(), Some("renew"));
    assert!(matches!(authorizer.revoke_request(true), Err(RawrCoreError::InvalidInvocation)));
    assert!(matches!(
        authorizer.revoke(true, Ok(reply())),
        Err(RawrCoreError::InvalidInvocation)
    ));
    assert_eq!(authorizer.base().refresh_token(), Some("renew"));
}

#[test]
fn revoking_everything_revokes_the_refresh_token_and_clears_the_state() {
    let mut authorizer = authorized();
    let form = authorizer.revoke_request(false).unwrap();
    assert_eq!(form.url, "https://www.reddit.com/api/v1/revoke_token");
    assert_eq!(form.data, vec![pair("token", "renew"), pair("token_type_hint", "refresh_token")]);
    assert_eq!(authorizer.base().access_token(), Some("abc"));
    assert_eq!(authorizer.base().refresh_token(), Some("renew"));
    authorizer.revoke(false, Ok(reply())).unwrap();
    assert_eq!(authorizer.base().access_token(), None);
    assert_eq!(authorizer.base().expiration_timestamp(), None);
    assert!(authorizer.base().scopes().is_none());
    assert_eq!(authorizer.base().refresh_token(), None);
}

#[test]
fn revoking_everything_without_refresh_token_revokes_the_access_token() {
    let mut authorizer = authorized();
    authorizer.set_refresh_token(None);
    let form = authorizer.revoke_request(false).unwrap();
    assert_eq!(form.data, vec![pair("token", "abc"), pair("token_type_hint", "access_token")]);
    authorizer.revoke(false, Ok(reply())).unwrap();
    assert_eq!(authorizer.base().access_token(), None);
    assert!(matches!(authorizer.revoke_request(false), Err(RawrCoreError::InvalidInvocation)));
    assert!(matches!(
        authorizer.revoke(false, Ok(reply())),
        Err(RawrCoreError::InvalidInvocation)
    ));
}

#[test]
fn revoking_everything_works_with_a_refresh_token_alone() {
    let mut authorizer = Authorizer::new(BaseAuthorizer::new(trusted(), true), false, false);
    authorizer.set_refresh_token(Some("renew".to_string()));
    let form = authorizer.revoke_request(false).unwrap();
    assert_eq!(form.data, vec![pair("token", "renew"), pair("token_type_hint", "refresh_token")]);
    authorizer.revoke(false, Ok(reply())).unwrap();
    assert_eq!(authorizer.base().refresh_token(), None);
}

#[test]
fn hooks_run_around_a_renewal_that_is_not_refused() {
    let ok: Result<(), RawrCoreError> = Ok(());
    let failed: Result<(), RawrCoreError> = Err(RawrCoreError::InvalidInvocation);
    let mut hooked = Authorizer::new(BaseAuthorizer::new(trusted(), true), true, true);
    assert!(!hooked.pre_refresh_callback_due());
    hooked.set_refresh_token(Some("renew".to_string()));
    assert!(hooked.pre_refresh_callback_due());
    assert!(hooked.post_refresh_callback_due(&ok));
    assert!(!hooked.post_refresh_callback_due(&failed));
    let mut plain = Authorizer::new(BaseAuthorizer::new(trusted(), true), false, false);
    plain.set_refresh_token(Some("renew".to_string()));
    assert!(!plain.pre_refresh_callback_due());
    assert!(!plain.post_refresh_callback_due(&ok));
    let mut post_only = Authorizer::new(BaseAuthorizer::new(trusted(), true), true, false);
    post_only.set_refresh_token(Some("renew".to_string()));
    assert!(!post_only.pre_refresh_callback_due());
    assert!(post_only.post_refresh_callback_due(&ok));
}

#[test]
fn every_flow_keeps_the_declared_trust_of_its_base() {
    assert!(Authorizer::new(BaseAuthorizer::new(trusted(), true), false, false)
        .base()
        .authenticator_is_trusted());
    assert!(!DeviceIdAuthorizer::new(BaseAuthorizer::new(untrusted(), false), None, None)
        .base()
        .authenticator_is_trusted());
    assert!(ScriptAuthorizer::new(BaseAuthorizer::new(trusted(), true), None, None, None)
        .base()
        .authenticator_is_trusted());
    let inner = Authorizer::new(BaseAuthorizer::new(trusted(), false), false, false);
    assert!(!ReadOnlyAuthorizer::new(inner, None).base().authenticator_is_trusted());
    let made = ImplicitAuthorizer::new_at(
        BaseAuthorizer::new(untrusted(), true),
        "abc".to_string(),
        60,
        String::new(),
        Timestamp::from_seconds(5),
    );
    assert!(made.base().authenticator_is_trusted());
}

#[test]
fn device_flow_names_the_device() {
    let base = BaseAuthorizer::new(untrusted(), false);
    let scopes = Some(vec!["read".to_string(), "identity".to_string()]);
    let mut authorizer = DeviceIdAuthorizer::new(base, Some("device-1".to_string()), scopes);
    let form = authorizer.refresh_request();
    assert_eq!(form.url, TOKEN_URL);
    assert_eq!(
        form.data,
        vec![
            pair("scope", "read identity"),
            pair("grant_type", "https://oauth.reddit.com/grants/installed_client"),
            pair("device_id", "device-1"),
        ]
    );
    let sent = sent_at(1_000, 0);
    authorizer.refresh(sent, reply(), grant("abc", 600, None, "read identity")).unwrap();
    assert_eq!(authorizer.base().access_token(), Some("abc"));
    assert_eq!(authorizer.base().refresh_token(), None);
    assert_eq!(authorizer.base().expiration_timestamp(), Timestamp::new(1_590, 0));
}

#[test]
fn device_flow_without_device_or_scopes() {
    let authorizer = DeviceIdAuthorizer::new(BaseAuthorizer::new(untrusted(), false), None, None);
    assert_eq!(
        authorizer.refresh_request().data,
        vec![
            pair("grant_type", "https://oauth.reddit.com/grants/installed_client"),
            pair("device_id", ""),
        ]
    );
}

#[test]
fn read_only_flow_asks_on_the_client_credentials() {
    let inner = Authorizer::new(BaseAuthorizer::new(trusted(), true), false, false);
    let mut authorizer = ReadOnlyAuthorizer::new(inner, Some(vec!["read".to_string()]));
    let form = authorizer.refresh_request();
    assert_eq!(form.url, TOKEN_URL);
    assert_eq!(form.data, vec![pair("scope", "read"), pair("grant_type", "client_credentials")]);
    let sent = sent_at(1_000, 0);
    authorizer.refresh(sent, reply(), grant("abc", 600, None, "read")).unwrap();
    assert_eq!(authorizer.base().access_token(), Some("abc"));
    let plain = ReadOnlyAuthorizer::new(Authorizer::new(BaseAuthorizer::new(trusted(), true), false, false), None);
    assert_eq!(plain.refresh_request().data, vec![pair("grant_type", "client_credentials")]);
}

#[test]
fn script_flow_signs_in_with_the_password() {
    let base = BaseAuthorizer::new(trusted(), true);
    let mut authorizer = ScriptAuthorizer::new(
        base,
        Some("user".to_string()),
        Some("pass".to_string()),
        Some(vec!["read".to_string(), "edit".to_string()]),
    );
    assert_eq!(
        authorizer.refresh_request(Some("123456")).data,
        vec![
            pair("scope", "read edit"),
            pair("otp", "123456"),
            pair("grant_type", "password"),
            pair("username", "user"),
            pair("password", "pass"),
        ]
    );
    let without = vec![
        pair("scope", "read edit"),
        pair("grant_type", "password"),
        pair("username", "user"),
        pair("password", "pass"),
    ];
    assert_eq!(authorizer.refresh_request(Some("")).data, without);
    assert_eq!(authorizer.refresh_request(None).data, without);
    assert_eq!(authorizer.refresh_request(None).url, TOKEN_URL);
    let sent = sent_at(1_000, 0);
    authorizer.refresh(sent, reply(), grant("abc", 600, None, "read edit")).unwrap();
    assert_eq!(authorizer.base().access_token(), Some("abc"));
}

#[test]
fn script_flow_without_user_sends_empty_fields() {
    let authorizer = ScriptAuthorizer::new(BaseAuthorizer::new(trusted(), true), None, None, None);
    assert_eq!(
        authorizer.refresh_request(None).data,
        vec![pair("grant_type", "password"), pair("username", ""), pair("password", "")]
    );
}

#[test]
fn implicit_flow_holds_the_token_it_was_handed() {
    let now = Timestamp::new(1_000, 9).unwrap();
    let mut base = BaseAuthorizer::new(untrusted(), false);
    base.set_refresh_token(Some("stray".to_string()));
    let authorizer =
        ImplicitAuthorizer::new_at(base, "abc".to_string(), 3_600, "read write".to_string(), now);
    assert_eq!(authorizer.base().access_token(), Some("abc"));
    assert_eq!(authorizer.base().refresh_token(), None);
    assert_eq!(authorizer.base().expiration_timestamp(), Timestamp::new(4_600, 9));
    assert_eq!(
        names(authorizer.base().scopes().unwrap()),
        vec!["read".to_string(), "write".to_string()]
    );
    assert!(authorizer.base().is_valid_at(Timestamp::from_seconds(4_600)));
    assert!(!authorizer.base().is_valid_at(Timestamp::new(4_600, 9).unwrap()));
}

#[test]
fn implicit_flow_reads_the_clock() {
    let before = chrono::Utc::now().timestamp();
    let base = BaseAuthorizer::new(untrusted(), false);
    let authorizer =
        ImplicitAuthorizer::new(base, "abc".to_string(), 3_600, "read".to_string()).unwrap();
    let after = chrono::Utc::now().timestamp();
    let expiry = authorizer.base().expiration_timestamp().unwrap().timestamp();
    assert!(before + 3_600 <= expiry && expiry <= after + 3_600);
    assert!(authorizer.base().is_valid());
    let base = BaseAuthorizer::new(untrusted(), false);
    assert!(ImplicitAuthorizer::new(base, "abc".to_string(), u64::MAX, "read".to_string()).is_none());
    let base = BaseAuthorizer::new(untrusted(), false);
    let long = (i64::MAX - (1 << 48)) as u64;
    assert!(ImplicitAuthorizer::new(base, "abc".to_string(), long, "read".to_string()).is_some());
    let base = BaseAuthorizer::new(untrusted(), false);
    let too_long = i64::MAX as u64;
    assert!(ImplicitAuthorizer::new(base, "abc".to_string(), too_long, "read".to_string()).is_none());
}

#[test]
fn implicit_flow_takes_a_token_where_its_expiry_can_be_formed() {
    let late = Timestamp::new(i64::MAX - 60, 3).unwrap();
    let made = ImplicitAuthorizer::try_new_at(
        BaseAuthorizer::new(untrusted(), false),
        "abc".to_string(),
        60,
        "read".to_string(),
        late,
    )
    .unwrap();
    assert_eq!(made.base().expiration_timestamp(), Timestamp::new(i64::MAX, 3));
    assert_eq!(made.base().access_token(), Some("abc"));
    assert_eq!(made.base().refresh_token(), None);
    for (expires_in, now) in [(61, late), (u64::MAX, late), (i64::MAX as u64 + 1, late)] {
        let base = BaseAuthorizer::new(untrusted(), false);
        let made =
            ImplicitAuthorizer::try_new_at(base, "abc".to_string(), expires_in, String::new(), now);
        assert!(made.is_none(), "{}", expires_in);
    }
    let early = Timestamp::from_seconds(i64::MIN);
    let base = BaseAuthorizer::new(untrusted(), false);
    let made =
        ImplicitAuthorizer::try_new_at(base, "abc".to_string(), i64::MAX as u64, String::new(), early)
            .unwrap();
    assert_eq!(made.base().expiration_timestamp(), Timestamp::new(-1, 0));
}

#[test]
fn implicit_flow_takes_a_token_that_lives_no_seconds_at_any_time() {
    let base = BaseAuthorizer::new(untrusted(), false);
    let made = ImplicitAuthorizer::new(base, "abc".to_string(), 0, "read".to_string()).unwrap();
    assert_eq!(made.base().access_token(), Some("abc"));
    assert!(!made.base().is_valid());
    for now in [Timestamp::from_seconds(i64::MAX), Timestamp::from_seconds(i64::MIN)] {
        let base = BaseAuthorizer::new(untrusted(), false);
        let made =
            ImplicitAuthorizer::try_new_at(base, "abc".to_string(), 0, String::new(), now).unwrap();
        assert_eq!(made.base().expiration_timestamp(), Some(now));
    }
}

#[test]
fn every_flow_but_the_implicit_can_refresh() {
    let now = Timestamp::from_seconds(1_000);
    let code: GrantAuthorizer<TrustedAuthenticator> = GrantAuthorizer::Code(authorized());
    assert!(code.can_refresh());
    assert!(code.is_valid_at(now));
    assert!(!code.is_valid_at(Timestamp::from_seconds(4_590)));
    assert_eq!(code.access_token(), Some("abc"));
    let device: GrantAuthorizer<TrustedAuthenticator> = GrantAuthorizer::DeviceId(
        DeviceIdAuthorizer::new(BaseAuthorizer::new(untrusted(), false), None, None),
    );
    assert!(device.can_refresh());
    assert!(!device.is_valid_at(now));
    assert_eq!(device.access_token(), None);
    let read_only: GrantAuthorizer<TrustedAuthenticator> = GrantAuthorizer::ReadOnly(
        ReadOnlyAuthorizer::new(Authorizer::new(BaseAuthorizer::new(trusted(), true), false, false), None),
    );
    assert!(read_only.can_refresh());
    let script: GrantAuthorizer<TrustedAuthenticator> = GrantAuthorizer::Script(
        ScriptAuthorizer::new(BaseAuthorizer::new(trusted(), true), None, None, None),
    );
    assert!(script.can_refresh());
    let implicit: GrantAuthorizer<TrustedAuthenticator> =
        GrantAuthorizer::Implicit(ImplicitAuthorizer::new_at(
            BaseAuthorizer::new(untrusted(), false),
            "abc".to_string(),
            60,
            "read".to_string(),
            now,
        ));
    assert!(!implicit.can_refresh());
    assert!(implicit.is_valid_at(now));
    assert_eq!(implicit.access_token(), Some("abc"));
}

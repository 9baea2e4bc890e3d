//! The token lifecycle: how a token is obtained, renewed and revoked under
//! each grant flow.

use crate::auth::authenticators::{
    check_status, revoke_form, Authenticator, TrustedAuthenticator, UntrustedAuthenticator, OK_STATUS,
};
use crate::constants::{ACCESS_TOKEN_PATH, REVOKE_TOKEN_PATH};
use crate::errors::{OAuthErrorData, RawrCoreError, ResponseErrorData};
use crate::models::{FormRequest, RequestTokenResponse, Response};
use crate::scopes::ScopeSet;
use crate::time::{now, ClockReading, Timestamp, CLOCK_LIMIT_SECONDS};
use crate::util::{join, join_with, split_on, text_pair};
use vstd::prelude::*;
use vstd::string::*;

verus! {

/// Seconds that a token is taken to expire ahead of what the server says,
/// to make up for the time a request takes.
pub const EXPIRY_SKEW_SECONDS: i64 = 10;

/// What an authorizer knows of its token.
pub struct TokenState {
    pub access_token: Option<Seq<char>>,
    pub refresh_token: Option<Seq<char>>,
    pub expiration_timestamp: Option<Timestamp>,
    pub scopes: Option<Set<Seq<char>>>,
}

/// Where a token stands in its life.
#[derive(Clone, Copy, Debug, PartialEq, Eq, Structural)]
pub enum Lifecycle {
    /// There is no access token.
    Unauthorized,
    /// There is an access token that can be used.
    Authorized,
    /// There is an access token, but its time is over.
    Expired,
}

/// The text that may be there, as characters.
pub open spec fn text_of(text: Option<String>) -> Option<Seq<char>> {
    match text {
        Some(t) => Some(t@),
        None => None,
    }
}

impl TokenState {
    /// The state without any token.
    pub open spec fn unauthorized() -> TokenState {
        TokenState {
            access_token: None,
            refresh_token: None,
            expiration_timestamp: None,
            scopes: None,
        }
    }

    /// Access token, expiry and scopes are there together or not at all.
    pub open spec fn atomic(self) -> bool {
        &&& self.access_token is Some <==> self.expiration_timestamp is Some
        &&& self.access_token is Some <==> self.scopes is Some
    }

    /// Whether the token can be used at `now`: there is one and it expires
    /// strictly later.
    pub open spec fn valid_at(self, now: Timestamp) -> bool {
        &&& self.access_token is Some
        &&& self.expiration_timestamp matches Some(expiry)
        &&& now.is_before(expiry)
    }

    /// Where the token stands in its life at `now`.
    pub open spec fn lifecycle_at(self, now: Timestamp) -> Lifecycle {
        if self.access_token is None {
            Lifecycle::Unauthorized
        } else if self.valid_at(now) {
            Lifecycle::Authorized
        } else {
            Lifecycle::Expired
        }
    }

    /// The state without access token, expiry and scopes; the refresh
    /// token stays.
    pub open spec fn without_access(self) -> TokenState {
        TokenState { access_token: None, expiration_timestamp: None, scopes: None, ..self }
    }

    /// The state that a grant requested at `pre_request_time` makes.
    pub open spec fn granted(
        pre_request_time: Timestamp,
        access_token: Seq<char>,
        refresh_token: Option<Seq<char>>,
        expires_in: int,
        scope: Seq<char>,
    ) -> TokenState {
        TokenState {
            access_token: Some(access_token),
            refresh_token,
            expiration_timestamp: Some(
                pre_request_time.plus_seconds(expires_in - EXPIRY_SKEW_SECONDS),
            ),
            scopes: Some(split_on(scope, ' ').to_set()),
        }
    }
}

/// Grant type of the installed-client flow.
pub const INSTALLED_CLIENT_GRANT: &'static str = "https://oauth.reddit.com/grants/installed_client";

/// The names that may be there, as characters.
pub open spec fn names_of(names: Option<Vec<String>>) -> Option<Seq<Seq<char>>> {
    match names {
        Some(list) => Some(list.deep_view()),
        None => None,
    }
}

/// The text, or the empty text where there is none.
pub open spec fn text_or_empty(text: Option<Seq<char>>) -> Seq<char> {
    match text {
        Some(t) => t,
        None => Seq::<char>::empty(),
    }
}

/// The field that asks for scopes, where any are asked for.
pub open spec fn scope_field(scopes: Option<Seq<Seq<char>>>) -> Seq<(Seq<char>, Seq<char>)> {
    match scopes {
        Some(names) => seq![("scope"@, join_with(names, " "@))],
        None => Seq::<(Seq<char>, Seq<char>)>::empty(),
    }
}

/// The form that trades an authorization code for a token.
pub open spec fn code_form(code: Seq<char>, redirect_uri: Seq<char>) -> Seq<(Seq<char>, Seq<char>)> {
    seq![
        ("code"@, code),
        ("grant_type"@, "authorization_code"@),
        ("redirect_uri"@, redirect_uri),
    ]
}

/// The form that trades a refresh token for a new access token.
pub open spec fn refresh_form(refresh_token: Seq<char>) -> Seq<(Seq<char>, Seq<char>)> {
    seq![("grant_type"@, "refresh_token"@), ("refresh_token"@, refresh_token)]
}

/// The form of the installed-client flow.
pub open spec fn device_form(scopes: Option<Seq<Seq<char>>>, device_id: Option<Seq<char>>) -> Seq<
    (Seq<char>, Seq<char>),
> {
    scope_field(scopes) + seq![
        ("grant_type"@, INSTALLED_CLIENT_GRANT@),
        ("device_id"@, text_or_empty(device_id)),
    ]
}

/// The form of the client-credentials flow.
pub open spec fn read_only_form(scopes: Option<Seq<Seq<char>>>) -> Seq<(Seq<char>, Seq<char>)> {
    scope_field(scopes) + seq![("grant_type"@, "client_credentials"@)]
}

/// The one-time password to send: the one given, unless it is empty.
pub open spec fn otp_field(otp: Option<Seq<char>>) -> Seq<(Seq<char>, Seq<char>)> {
    match otp {
        Some(code) if code.len() > 0 => seq![("otp"@, code)],
        _ => Seq::<(Seq<char>, Seq<char>)>::empty(),
    }
}

/// The form of the password flow.
pub open spec fn script_form(
    scopes: Option<Seq<Seq<char>>>,
    otp: Option<Seq<char>>,
    username: Option<Seq<char>>,
    password: Option<Seq<char>>,
) -> Seq<(Seq<char>, Seq<char>)> {
    scope_field(scopes) + otp_field(otp) + seq![
        ("grant_type"@, "password"@),
        ("username"@, text_or_empty(username)),
        ("password"@, text_or_empty(password)),
    ]
}

/// The field that asks for scopes, where any are asked for.
fn scope_data(scopes: &Option<Vec<String>>) -> (data: Vec<(String, String)>)
    ensures
        data.deep_view() == scope_field(names_of(*scopes)),
{
    let mut data: Vec<(String, String)> = Vec::new();
    match scopes {
        Some(names) => {
            let joined = join(names, " ");
            data.push(text_pair("scope", joined.as_str()));
            assert(data.deep_view() =~= scope_field(names_of(*scopes)));
        },
        None => {
            assert(data.deep_view() =~= scope_field(names_of(*scopes)));
        },
    }
    data
}

/// The text, or the empty text where there is none.
fn or_empty(text: &Option<String>) -> (chosen: &str)
    ensures
        chosen@ == text_or_empty(text_of(*text)),
{
    match text {
        Some(t) => t.as_str(),
        None => {
            proof {
                reveal_strlit("");
            }
            ""
        },
    }
}

/// Whether `result` and the state `after` are what a reply from the token
/// endpoint, asked at `pre_request_time`, makes of the state `before`.
/// `payload` is what the body of the reply holds, or nothing where the
/// body cannot be read. A payload with an error gives that error, whatever
/// the status of the reply. Otherwise a status other than 200 gives a
/// response error and a body that cannot be read a bad-JSON error. Any
/// other reply grants a token. The state changes with a grant only.
pub open spec fn is_token_outcome(
    before: TokenState,
    after: TokenState,
    result: Result<(), RawrCoreError>,
    pre_request_time: Timestamp,
    response: Response,
    payload: Option<RequestTokenResponse>,
) -> bool {
    match payload {
        Some(refused) if refused.error is Some => {
            &&& result matches Err(RawrCoreError::OAuthError(data))
            &&& data.response == response
            &&& data.error == refused.error->0
            &&& data.description == refused.error_description
            &&& after == before
        },
        _ => if response.status != OK_STATUS {
            &&& result matches Err(RawrCoreError::ResponseError(data))
            &&& data.response == response
            &&& after == before
        } else {
            match payload {
                Some(granted) => {
                    &&& result is Ok
                    &&& after == TokenState::granted(
                        pre_request_time,
                        granted.access_token@,
                        text_of(granted.refresh_token),
                        granted.expires_in as int,
                        granted.scope@,
                    )
                },
                None => {
                    &&& result matches Err(RawrCoreError::BadJSON(data))
                    &&& data.response == response
                    &&& after == before
                },
            }
        },
    }
}

/// Whether `result` and the state `after` are what the outcome of a
/// revocation makes of the state `before`, where `access_only` says that
/// the access token alone is to go. Without an access token there is
/// nothing to give up alone: the invocation is invalid. A revocation that
/// failed, or that the server answered with another status than 200,
/// gives its error. In all these cases the state stays as it was. After
/// any other revocation the access token is forgotten, with its expiry and
/// scopes, and unless it alone was to go the refresh token too.
pub open spec fn is_revocation(
    before: TokenState,
    after: TokenState,
    result: Result<(), RawrCoreError>,
    access_only: bool,
    outcome: Result<Response, RawrCoreError>,
) -> bool {
    if access_only && before.access_token is None {
        result == Err::<(), RawrCoreError>(RawrCoreError::InvalidInvocation) && after == before
    } else {
        match outcome {
            Err(error) => result == Err::<(), RawrCoreError>(error) && after == before,
            Ok(response) => if response.status != OK_STATUS {
                &&& result matches Err(RawrCoreError::ResponseError(data))
                &&& data.response == response
                &&& after == before
            } else {
                &&& result is Ok
                &&& after == if access_only {
                    before.without_access()
                } else {
                    TokenState::unauthorized()
                }
            },
        }
    }
}

/// An access token with what comes and goes with it.
#[derive(Debug)]
struct AccessGrant {
    access_token: String,
    expiration_timestamp: Timestamp,
    scopes: ScopeSet,
}

/// What all grant flows share: the client's identity and the token state.
#[derive(Debug)]
pub struct BaseAuthorizer<A: Authenticator> {
    authenticator: A,
    grant: Option<AccessGrant>,
    refresh_token: Option<String>,
    authenticator_is_trusted: bool,
}

impl<A: Authenticator> View for BaseAuthorizer<A> {
    type V = TokenState;

    closed spec fn view(&self) -> TokenState {
        match self.grant {
            Some(grant) => TokenState {
                access_token: Some(grant.access_token@),
                refresh_token: text_of(self.refresh_token),
                expiration_timestamp: Some(grant.expiration_timestamp),
                scopes: Some(grant.scopes@),
            },
            None => TokenState { refresh_token: text_of(self.refresh_token), ..TokenState::unauthorized() },
        }
    }
}

impl<A: Authenticator> BaseAuthorizer<A> {
    /// Access token, expiry and scopes are there together or not at all.
    pub proof fn lemma_token_is_whole(&self)
        ensures
            self@.atomic(),
    {
    }

    /// The identity of the client.
    pub closed spec fn client(&self) -> A {
        self.authenticator
    }

    /// Whether the client was declared to hold a secret.
    pub closed spec fn declared_trusted(&self) -> bool {
        self.authenticator_is_trusted
    }

    /// An authorizer without a token.
    pub fn new(authenticator: A, is_trusted: bool) -> (authorizer: Self)
        ensures
            authorizer@ == TokenState::unauthorized(),
            authorizer.client() == authenticator,
            authorizer.declared_trusted() == is_trusted,
    {
        Self { authenticator, grant: None, refresh_token: None, authenticator_is_trusted: is_trusted }
    }

    /// The identity of the client.
    pub fn authenticator(&self) -> (authenticator: &A)
        ensures
            *authenticator == self.client(),
    {
        &self.authenticator
    }

    /// Whether the client was declared to hold a secret.
    pub fn authenticator_is_trusted(&self) -> (trusted: bool)
        ensures
            trusted == self.declared_trusted(),
    {
        self.authenticator_is_trusted
    }

    /// The access token, where there is one.
    pub fn access_token(&self) -> (token: Option<&str>)
        ensures
            token is Some <==> self@.access_token is Some,
            token matches Some(t) ==> self@.access_token == Some(t@),
    {
        match &self.grant {
            Some(grant) => Some(grant.access_token.as_str()),
            None => None,
        }
    }

    /// The refresh token, where there is one.
    pub fn refresh_token(&self) -> (token: Option<&str>)
        ensures
            token is Some <==> self@.refresh_token is Some,
            token matches Some(t) ==> self@.refresh_token == Some(t@),
    {
        match &self.refresh_token {
            Some(token) => Some(token.as_str()),
            None => None,
        }
    }

    /// When the access token expires.
    pub fn expiration_timestamp(&self) -> (expiry: Option<Timestamp>)
        ensures
            expiry == self@.expiration_timestamp,
    {
        match &self.grant {
            Some(grant) => Some(grant.expiration_timestamp),
            None => None,
        }
    }

    /// The scopes that the access token grants.
    pub fn scopes(&self) -> (scopes: Option<&ScopeSet>)
        ensures
            scopes is Some <==> self@.scopes is Some,
            scopes matches Some(s) ==> self@.scopes == Some(s@),
    {
        match &self.grant {
            Some(grant) => Some(&grant.scopes),
            None => None,
        }
    }

    /// Sets or forgets the refresh token.
    pub fn set_refresh_token(&mut self, token: Option<String>)
        ensures
            final(self)@ == (TokenState { refresh_token: text_of(token), ..old(self)@ }),
            final(self).client() == old(self).client(),
            final(self).declared_trusted() == old(self).declared_trusted(),
    {
        self.refresh_token = token;
    }

    /// Forgets access token, expiry and scopes.
    pub fn clear_access_token(&mut self)
        ensures
            final(self)@ == old(self)@.without_access(),
            final(self).client() == old(self).client(),
            final(self).declared_trusted() == old(self).declared_trusted(),
    {
        self.grant = None;
    }

    /// Nothing is asked of the client's identity here: every authenticator
    /// passes.
    pub fn validate_authenticator(&self) -> (checked: Result<(), RawrCoreError>)
        ensures
            checked is Ok,
    {
        Ok(())
    }

    /// Whether the token can be used at `now`.
    pub fn is_valid_at(&self, now: Timestamp) -> (valid: bool)
        ensures
            valid == self@.valid_at(now),
    {
        match &self.grant {
            Some(grant) => now.before(&grant.expiration_timestamp),
            None => false,
        }
    }

    /// Where the token stands in its life at `now`.
    pub fn lifecycle_at(&self, now: Timestamp) -> (stage: Lifecycle)
        ensures
            stage == self@.lifecycle_at(now),
    {
        match &self.grant {
            Some(grant) => if now.before(&grant.expiration_timestamp) {
                Lifecycle::Authorized
            } else {
                Lifecycle::Expired
            },
            None => Lifecycle::Unauthorized,
        }
    }

    /// Whether the token can be used, by a reading of the clock. A token
    /// that expired before 1970 is never valid, one that expires
    /// beyond every clock reading always.
    pub fn is_valid(&self) -> (valid: bool)
        ensures
            self@.access_token is None ==> !valid,
            self@.expiration_timestamp is None ==> !valid,
            exists|now: Timestamp| now.is_clock_reading() && valid == #[trigger] self@.valid_at(now),
            self@.expiration_timestamp matches Some(expiry) && expiry.seconds() < 0 ==> !valid,
            self@.expiration_timestamp matches Some(expiry) && expiry.seconds()
                >= CLOCK_LIMIT_SECONDS ==> valid,
    {
        let now = now();
        self.is_valid_at(now)
    }
}

impl<A: Authenticator> BaseAuthorizer<A> {
    /// The form that asks the token endpoint for a token, with the given
    /// fields.
    pub fn token_request(&self, data: Vec<(String, String)>) -> (request: FormRequest)
        ensures
            request.url@ == self.client().requestor().reddit_url@ + ACCESS_TOKEN_PATH@,
            request.data == data,
    {
        let mut url = self.authenticator.get_requestor().reddit_url.clone();
        url.append(ACCESS_TOKEN_PATH);
        FormRequest { url, data }
    }

    /// Takes in the reply of the token endpoint to a request that was sent
    /// at `pre_request_time`, with the payload that its body holds, if it
    /// holds one. A token that is granted expires `expires_in` seconds
    /// after that time, less ten seconds.
    pub fn request_token(
        &mut self,
        pre_request_time: ClockReading,
        response: Response,
        payload: Option<RequestTokenResponse>,
    ) -> (result: Result<(), RawrCoreError>)
        ensures
            is_token_outcome(
                old(self)@,
                final(self)@,
                result,
                pre_request_time@,
                response,
                payload,
            ),
            final(self).client() == old(self).client(),
            final(self).declared_trusted() == old(self).declared_trusted(),
    {
        let payload = match payload {
            Some(RequestTokenResponse { error: Some(error), error_description, .. }) => {
                return Err(
                    RawrCoreError::OAuthError(
                        OAuthErrorData { response, error, description: error_description },
                    ),
                );
            },
            other => match check_status(response, None) {
                Ok(response) => match other {
                    Some(payload) => payload,
                    None => {
                        return Err(RawrCoreError::BadJSON(ResponseErrorData { response }));
                    },
                },
                Err(error) => {
                    return Err(error);
                },
            },
        };
        let expiration_timestamp = pre_request_time.timestamp().checked_add_seconds(
            payload.expires_in as i64 - EXPIRY_SKEW_SECONDS,
        ).unwrap();
        let scopes = ScopeSet::from_scope(payload.scope.as_str());
        self.grant = Some(
            AccessGrant { access_token: payload.access_token, expiration_timestamp, scopes },
        );
        self.refresh_token = payload.refresh_token;
        Ok(())
    }

    /// The form that revokes the access token at the server. Without an
    /// access token there is nothing to revoke.
    pub fn revoke_request(&self) -> (request: Result<FormRequest, RawrCoreError>)
        ensures
            match self@.access_token {
                Some(token) => {
                    &&& request matches Ok(form)
                    &&& form.url@ == self.client().requestor().reddit_url@ + REVOKE_TOKEN_PATH@
                    &&& form.data.deep_view() == revoke_form(token, Some("access_token"@))
                },
                None => request matches Err(e) && e == RawrCoreError::InvalidInvocation,
            },
    {
        match &self.grant {
            Some(grant) => Ok(
                self.authenticator.revoke_token(grant.access_token.as_str(), Some("access_token")),
            ),
            None => Err(RawrCoreError::InvalidInvocation),
        }
    }

    /// Takes in what came of posting the form of `revoke_request`: the
    /// answer of the server or the failure to get one. The access token is
    /// forgotten once the server has answered with status 200, whatever
    /// the body holds, and not before.
    pub fn revoke(
        &mut self,
        outcome: Result<Response, RawrCoreError>,
    ) -> (result: Result<(), RawrCoreError>)
        ensures
            is_revocation(old(self)@, final(self)@, result, true, outcome),
            final(self)@.refresh_token == old(self)@.refresh_token,
            final(self).client() == old(self).client(),
            final(self).declared_trusted() == old(self).declared_trusted(),
    {
        if self.grant.is_none() {
            return Err(RawrCoreError::InvalidInvocation);
        }
        match outcome {
            Ok(response) => match check_status(response, None) {
                Ok(_) => {
                    self.clear_access_token();
                    Ok(())
                },
                Err(error) => Err(error),
            },
            Err(error) => Err(error),
        }
    }
}

/// The authorization-code flow, with renewal by refresh token.
#[derive(Debug)]
pub struct Authorizer<A: Authenticator> {
    base: BaseAuthorizer<A>,
    post_refresh_callback: bool,
    pre_refresh_callback: bool,
}

impl<A: Authenticator> View for Authorizer<A> {
    type V = TokenState;

    closed spec fn view(&self) -> TokenState {
        self.base@
    }
}

impl<A: Authenticator> Authorizer<A> {
    /// The identity of the client.
    pub closed spec fn client(&self) -> A {
        self.base.client()
    }

    /// Whether the client was declared to hold a secret.
    pub closed spec fn declared_trusted(&self) -> bool {
        self.base.declared_trusted()
    }

    /// Whether the caller keeps a hook that is to run before a renewal.
    pub closed spec fn has_pre_refresh_callback(&self) -> bool {
        self.pre_refresh_callback
    }

    /// Whether the caller keeps a hook that is to run after a renewal.
    pub closed spec fn has_post_refresh_callback(&self) -> bool {
        self.post_refresh_callback
    }

    /// An authorizer of the code flow on top of what all flows share. The
    /// two flags say whether the caller keeps a hook to run after and
    /// before a renewal.
    pub fn new(
        base: BaseAuthorizer<A>,
        post_refresh_callback: bool,
        pre_refresh_callback: bool,
    ) -> (authorizer: Self)
        ensures
            authorizer@ == base@,
            authorizer.client() == base.client(),
            authorizer.declared_trusted() == base.declared_trusted(),
            authorizer.has_post_refresh_callback() == post_refresh_callback,
            authorizer.has_pre_refresh_callback() == pre_refresh_callback,
    {
        Self { base, post_refresh_callback, pre_refresh_callback }
    }

    /// What all grant flows share.
    pub fn base(&self) -> (base: &BaseAuthorizer<A>)
        ensures
            base@ == self@,
            base.client() == self.client(),
            base.declared_trusted() == self.declared_trusted(),
    {
        &self.base
    }

    /// Whether the hook that the caller keeps for the time before a
    /// renewal is to run now, before the form of `refresh_request` goes
    /// out: there is such a hook and the renewal is not refused for want
    /// of a refresh token.
    pub fn pre_refresh_callback_due(&self) -> (due: bool)
        ensures
            due == (self.has_pre_refresh_callback() && self@.refresh_token is Some),
    {
        self.pre_refresh_callback && self.base.refresh_token().is_some()
    }

    /// Whether the hook that the caller keeps for the time after a renewal
    /// is to run, given what `refresh` returned: there is such a hook and
    /// the renewal succeeded.
    pub fn post_refresh_callback_due(&self, refreshed: &Result<(), RawrCoreError>) -> (due: bool)
        ensures
            due == (self.has_post_refresh_callback() && *refreshed is Ok),
    {
        self.post_refresh_callback && refreshed.is_ok()
    }

    /// Sets or forgets the refresh token.
    pub fn set_refresh_token(&mut self, token: Option<String>)
        ensures
            final(self)@ == (TokenState { refresh_token: text_of(token), ..old(self)@ }),
            final(self).client() == old(self).client(),
            final(self).declared_trusted() == old(self).declared_trusted(),
            final(self).has_pre_refresh_callback() == old(self).has_pre_refresh_callback(),
            final(self).has_post_refresh_callback() == old(self).has_post_refresh_callback(),
    {
        self.base.set_refresh_token(token);
    }

    /// The form that trades the authorization code `code` for a token.
    /// It takes a redirect URI to make one.
    pub fn authorize_request(&self, code: &str) -> (request: Result<FormRequest, RawrCoreError>)
        ensures
            match self.client().redirect_uri() {
                Some(uri) => {
                    &&& request matches Ok(form)
                    &&& form.url@ == self.client().requestor().reddit_url@ + ACCESS_TOKEN_PATH@
                    &&& form.data.deep_view() == code_form(code@, uri)
                },
                None => request matches Err(e) && e == RawrCoreError::InvalidInvocation,
            },
    {
        let uri = match self.base.authenticator.get_redirect_uri() {
            Some(uri) => uri,
            None => {
                return Err(RawrCoreError::InvalidInvocation);
            },
        };
        let mut data: Vec<(String, String)> = Vec::new();
        data.push(text_pair("code", code));
        data.push(text_pair("grant_type", "authorization_code"));
        data.push(text_pair("redirect_uri", uri));
        assert(data.deep_view() =~= code_form(code@, self.client().redirect_uri()->0));
        Ok(self.base.token_request(data))
    }

    /// Takes in the reply to the form of `authorize_request`, sent at
    /// `pre_request_time`. Without a redirect URI the invocation is
    /// invalid and nothing changes.
    pub fn authorize(
        &mut self,
        pre_request_time: ClockReading,
        response: Response,
        payload: Option<RequestTokenResponse>,
    ) -> (result: Result<(), RawrCoreError>)
        ensures
            match old(self).client().redirect_uri() {
                Some(_) => is_token_outcome(
                    old(self)@,
                    final(self)@,
                    result,
                    pre_request_time@,
                    response,
                    payload,
                ),
                None => {
                    &&& result matches Err(e)
                    &&& e == RawrCoreError::InvalidInvocation
                    &&& final(self)@ == old(self)@
                },
            },
            final(self).client() == old(self).client(),
            final(self).declared_trusted() == old(self).declared_trusted(),
            final(self).has_pre_refresh_callback() == old(self).has_pre_refresh_callback(),
            final(self).has_post_refresh_callback() == old(self).has_post_refresh_callback(),
    {
        if self.base.authenticator.get_redirect_uri().is_none() {
            return Err(RawrCoreError::InvalidInvocation);
        }
        self.base.request_token(pre_request_time, response, payload)
    }

    /// The form that trades the refresh token for a new access token. It
    /// takes a refresh token to make one.
    pub fn refresh_request(&self) -> (request: Result<FormRequest, RawrCoreError>)
        ensures
            match self@.refresh_token {
                Some(token) => {
                    &&& request matches Ok(form)
                    &&& form.url@ == self.client().requestor().reddit_url@ + ACCESS_TOKEN_PATH@
                    &&& form.data.deep_view() == refresh_form(token)
                },
                None => request matches Err(e) && e == RawrCoreError::InvalidInvocation,
            },
    {
        let token = match self.base.refresh_token() {
            Some(token) => token,
            None => {
                return Err(RawrCoreError::InvalidInvocation);
            },
        };
        let mut data: Vec<(String, String)> = Vec::new();
        data.push(text_pair("grant_type", "refresh_token"));
        data.push(text_pair("refresh_token", token));
        assert(data.deep_view() =~= refresh_form(self@.refresh_token->0));
        Ok(self.base.token_request(data))
    }

    /// Takes in the reply to the form of `refresh_request`, sent at
    /// `pre_request_time`. Without a refresh token the invocation is
    /// invalid and nothing changes.
    pub fn refresh(
        &mut self,
        pre_request_time: ClockReading,
        response: Response,
        payload: Option<RequestTokenResponse>,
    ) -> (result: Result<(), RawrCoreError>)
        ensures
            match old(self)@.refresh_token {
                Some(_) => is_token_outcome(
                    old(self)@,
                    final(self)@,
                    result,
                    pre_request_time@,
                    response,
                    payload,
                ),
                None => {
                    &&& result matches Err(e)
                    &&& e == RawrCoreError::InvalidInvocation
                    &&& final(self)@ == old(self)@
                },
            },
            final(self).client() == old(self).client(),
            final(self).declared_trusted() == old(self).declared_trusted(),
            final(self).has_pre_refresh_callback() == old(self).has_pre_refresh_callback(),
            final(self).has_post_refresh_callback() == old(self).has_post_refresh_callback(),
    {
        if self.base.refresh_token().is_none() {
            return Err(RawrCoreError::InvalidInvocation);
        }
        self.base.request_token(pre_request_time, response, payload)
    }

    /// Whether `revoke` gives up the access token alone: it is asked to,
    /// or there is no refresh token.
    pub open spec fn revokes_access_only(state: TokenState, only_access: bool) -> bool {
        only_access || state.refresh_token is None
    }

    /// The form that revokes tokens at the server. Asked for the access
    /// token alone, or without a refresh token, it is the form for the
    /// access token, and there must be one. Otherwise it is the form for
    /// the refresh token.
    pub fn revoke_request(&self, only_access: bool) -> (request: Result<FormRequest, RawrCoreError>)
        ensures
            request is Err <==> Self::revokes_access_only(self@, only_access)
                && self@.access_token is None,
            request matches Err(e) ==> e == RawrCoreError::InvalidInvocation,
            request matches Ok(form) ==> {
                &&& form.url@ == self.client().requestor().reddit_url@ + REVOKE_TOKEN_PATH@
                &&& form.data.deep_view() == if Self::revokes_access_only(self@, only_access) {
                    revoke_form(self@.access_token->0, Some("access_token"@))
                } else {
                    revoke_form(self@.refresh_token->0, Some("refresh_token"@))
                }
            },
    {
        match self.base.refresh_token() {
            Some(token) if !only_access => Ok(
                self.base.authenticator.revoke_token(token, Some("refresh_token")),
            ),
            _ => self.base.revoke_request(),
        }
    }

    /// Takes in what came of posting the form of `revoke_request`: the
    /// answer of the server or the failure to get one. Tokens are
    /// forgotten once the server has answered with status 200, whatever
    /// the body holds, and not before: the access token with its expiry
    /// and scopes, and the refresh token too unless the access token alone
    /// was to go. The refresh token never goes while the access token
    /// stays.
    pub fn revoke(
        &mut self,
        only_access: bool,
        outcome: Result<Response, RawrCoreError>,
    ) -> (result: Result<(), RawrCoreError>)
        ensures
            is_revocation(
                old(self)@,
                final(self)@,
                result,
                Self::revokes_access_only(old(self)@, only_access),
                outcome,
            ),
            only_access ==> final(self)@.refresh_token == old(self)@.refresh_token,
            !only_access && old(self)@.refresh_token is Some && result is Ok ==> final(self)@
                == TokenState::unauthorized(),
            final(self)@.refresh_token is None && final(self)@.access_token is Some
                ==> old(self)@.refresh_token is None,
            final(self).client() == old(self).client(),
            final(self).declared_trusted() == old(self).declared_trusted(),
            final(self).has_pre_refresh_callback() == old(self).has_pre_refresh_callback(),
            final(self).has_post_refresh_callback() == old(self).has_post_refresh_callback(),
    {
        if only_access || self.base.refresh_token().is_none() {
            return self.base.revoke(outcome);
        }
        match outcome {
            Ok(response) => match check_status(response, None) {
                Ok(_) => {
                    self.base.clear_access_token();
                    self.base.set_refresh_token(None);
                    Ok(())
                },
                Err(error) => Err(error),
            },
            Err(error) => Err(error),
        }
    }
}

/// The installed-client flow of a client that is known by a device id.
/// It expects no refresh token.
#[derive(Debug)]
pub struct DeviceIdAuthorizer {
    base: BaseAuthorizer<UntrustedAuthenticator>,
    device_id: Option<String>,
    scopes: Option<Vec<String>>,
}

impl View for DeviceIdAuthorizer {
    type V = TokenState;

    closed spec fn view(&self) -> TokenState {
        self.base@
    }
}

impl DeviceIdAuthorizer {
    /// The identity of the client.
    pub closed spec fn client(&self) -> UntrustedAuthenticator {
        self.base.client()
    }

    /// Whether the client was declared to hold a secret.
    pub closed spec fn declared_trusted(&self) -> bool {
        self.base.declared_trusted()
    }

    /// The device id that the flow names.
    pub closed spec fn device(&self) -> Option<Seq<char>> {
        text_of(self.device_id)
    }

    /// The scopes that the flow asks for.
    pub closed spec fn wanted_scopes(&self) -> Option<Seq<Seq<char>>> {
        names_of(self.scopes)
    }

    /// An authorizer for the device `device_id` that asks for `scopes`.
    pub fn new(
        base: BaseAuthorizer<UntrustedAuthenticator>,
        device_id: Option<String>,
        scopes: Option<Vec<String>>,
    ) -> (authorizer: Self)
        ensures
            authorizer@ == base@,
            authorizer.client() == base.client(),
            authorizer.declared_trusted() == base.declared_trusted(),
            authorizer.device() == text_of(device_id),
            authorizer.wanted_scopes() == names_of(scopes),
    {
        Self { base, device_id, scopes }
    }

    /// What all grant flows share.
    pub fn base(&self) -> (base: &BaseAuthorizer<UntrustedAuthenticator>)
        ensures
            base@ == self@,
            base.client() == self.client(),
            base.declared_trusted() == self.declared_trusted(),
    {
        &self.base
    }

    /// The form that asks for a token for the device.
    pub fn refresh_request(&self) -> (request: FormRequest)
        ensures
            request.url@ == self.client().requestor().reddit_url@ + ACCESS_TOKEN_PATH@,
            request.data.deep_view() == device_form(self.wanted_scopes(), self.device()),
    {
        let mut data = scope_data(&self.scopes);
        data.push(text_pair("grant_type", INSTALLED_CLIENT_GRANT));
        data.push(text_pair("device_id", or_empty(&self.device_id)));
        assert(data.deep_view() =~= device_form(self.wanted_scopes(), self.device()));
        self.base.token_request(data)
    }

    /// Takes in the reply to the form of `refresh_request`, sent at
    /// `pre_request_time`.
    pub fn refresh(
        &mut self,
        pre_request_time: ClockReading,
        response: Response,
        payload: Option<RequestTokenResponse>,
    ) -> (result: Result<(), RawrCoreError>)
        ensures
            is_token_outcome(
                old(self)@,
                final(self)@,
                result,
                pre_request_time@,
                response,
                payload,
            ),
            final(self).client() == old(self).client(),
            final(self).declared_trusted() == old(self).declared_trusted(),
            final(self).device() == old(self).device(),
            final(self).wanted_scopes() == old(self).wanted_scopes(),
    {
        self.base.request_token(pre_request_time, response, payload)
    }
}

/// The implicit flow: the token came with the redirect from the
/// authorization endpoint. It cannot be renewed and there is never a
/// refresh token.
#[derive(Debug)]
pub struct ImplicitAuthorizer {
    base: BaseAuthorizer<UntrustedAuthenticator>,
}

impl View for ImplicitAuthorizer {
    type V = TokenState;

    closed spec fn view(&self) -> TokenState {
        self.base@
    }
}

impl ImplicitAuthorizer {
    /// The identity of the client.
    pub closed spec fn client(&self) -> UntrustedAuthenticator {
        self.base.client()
    }

    /// Whether the client was declared to hold a secret.
    pub closed spec fn declared_trusted(&self) -> bool {
        self.base.declared_trusted()
    }

    /// The state of an authorizer that was handed a token at `now`.
    pub open spec fn handed(
        now: Timestamp,
        access_token: Seq<char>,
        expires_in: int,
        scope: Seq<char>,
    ) -> TokenState {
        TokenState {
            access_token: Some(access_token),
            refresh_token: None,
            expiration_timestamp: Some(now.plus_seconds(expires_in)),
            scopes: Some(split_on(scope, ' ').to_set()),
        }
    }

    /// An authorizer for a token that was handed over at `now` and expires
    /// `expires_in` seconds later.
    pub fn new_at(
        base: BaseAuthorizer<UntrustedAuthenticator>,
        access_token: String,
        expires_in: u64,
        scope: String,
        now: Timestamp,
    ) -> (authorizer: Self)
        requires
            expires_in <= i64::MAX,
            now.can_add_seconds(expires_in as int),
        ensures
            authorizer@ == Self::handed(now, access_token@, expires_in as int, scope@),
            authorizer.client() == base.client(),
            authorizer.declared_trusted() == base.declared_trusted(),
    {
        let expiration_timestamp = now.checked_add_seconds(expires_in as i64).unwrap();
        let scopes = ScopeSet::from_scope(scope.as_str());
        let mut base = base;
        base.grant = Some(AccessGrant { access_token, expiration_timestamp, scopes });
        base.refresh_token = None;
        Self { base }
    }

    /// Whether the expiry of a token that is handed over at `now` and lives
    /// `expires_in` seconds can be formed.
    pub open spec fn can_hand(now: Timestamp, expires_in: u64) -> bool {
        expires_in <= i64::MAX && now.can_add_seconds(expires_in as int)
    }

    /// Whether `made` is what comes of handing a token over at `now` to a
    /// client `client` that was declared trusted or not: an authorizer in the state `handed` where the
    /// expiry can be formed, nothing where it cannot.
    pub open spec fn is_handed_at(
        made: Option<Self>,
        client: UntrustedAuthenticator,
        trusted: bool,
        now: Timestamp,
        access_token: Seq<char>,
        expires_in: u64,
        scope: Seq<char>,
    ) -> bool {
        &&& made is Some <==> Self::can_hand(now, expires_in)
        &&& made matches Some(authorizer) ==> {
            &&& authorizer@ == Self::handed(now, access_token, expires_in as int, scope)
            &&& authorizer.client() == client
            &&& authorizer.declared_trusted() == trusted
        }
    }

    /// An authorizer for a token that was handed over at `now` and expires
    /// `expires_in` seconds later; nothing where no such expiry can be
    /// formed.
    pub fn try_new_at(
        base: BaseAuthorizer<UntrustedAuthenticator>,
        access_token: String,
        expires_in: u64,
        scope: String,
        now: Timestamp,
    ) -> (authorizer: Option<Self>)
        ensures
            Self::is_handed_at(
                authorizer,
                base.client(),
                base.declared_trusted(),
                now,
                access_token@,
                expires_in,
                scope@,
            ),
    {
        if expires_in > 0x7fff_ffff_ffff_ffff {
            return None;
        }
        if now.checked_add_seconds(expires_in as i64).is_none() {
            return None;
        }
        Some(Self::new_at(base, access_token, expires_in, scope, now))
    }

    /// An authorizer for a token that has just been handed over and
    /// expires `expires_in` seconds from a reading of the clock: what
    /// `try_new_at` makes at that reading. A token whose expiry lies within
    /// reach of every clock reading is always taken, one that lives more
    /// than `i64::MAX` seconds never.
    pub fn new(
        base: BaseAuthorizer<UntrustedAuthenticator>,
        access_token: String,
        expires_in: u64,
        scope: String,
    ) -> (authorizer: Option<Self>)
        ensures
            exists|now: Timestamp|
                now.is_clock_reading() && #[trigger] Self::is_handed_at(
                    authorizer,
                    base.client(),
                    base.declared_trusted(),
                    now,
                    access_token@,
                    expires_in,
                    scope@,
                ),
            expires_in <= i64::MAX - CLOCK_LIMIT_SECONDS ==> authorizer is Some,
            expires_in > i64::MAX ==> authorizer is None,
    {
        let now = now();
        Self::try_new_at(base, access_token, expires_in, scope, now)
    }

    /// What all grant flows share.
    pub fn base(&self) -> (base: &BaseAuthorizer<UntrustedAuthenticator>)
        ensures
            base@ == self@,
            base.client() == self.client(),
            base.declared_trusted() == self.declared_trusted(),
    {
        &self.base
    }
}

/// The client-credentials flow of a client that holds a secret.
#[derive(Debug)]
pub struct ReadOnlyAuthorizer {
    authorizer: Authorizer<TrustedAuthenticator>,
    scopes: Option<Vec<String>>,
}

impl View for ReadOnlyAuthorizer {
    type V = TokenState;

    closed spec fn view(&self) -> TokenState {
        self.authorizer@
    }
}

impl ReadOnlyAuthorizer {
    /// The identity of the client.
    pub closed spec fn client(&self) -> TrustedAuthenticator {
        self.authorizer.client()
    }

    /// Whether the client was declared to hold a secret.
    pub closed spec fn declared_trusted(&self) -> bool {
        self.authorizer.declared_trusted()
    }

    /// The scopes that the flow asks for.
    pub closed spec fn wanted_scopes(&self) -> Option<Seq<Seq<char>>> {
        names_of(self.scopes)
    }

    /// An authorizer on the client's credentials that asks for `scopes`.
    pub fn new(
        authorizer: Authorizer<TrustedAuthenticator>,
        scopes: Option<Vec<String>>,
    ) -> (made: Self)
        ensures
            made@ == authorizer@,
            made.client() == authorizer.client(),
            made.declared_trusted() == authorizer.declared_trusted(),
            made.wanted_scopes() == names_of(scopes),
    {
        Self { authorizer, scopes }
    }

    /// What all grant flows share.
    pub fn base(&self) -> (base: &BaseAuthorizer<TrustedAuthenticator>)
        ensures
            base@ == self@,
            base.client() == self.client(),
            base.declared_trusted() == self.declared_trusted(),
    {
        self.authorizer.base()
    }

    /// The form that asks for a token on the client's credentials.
    pub fn refresh_request(&self) -> (request: FormRequest)
        ensures
            request.url@ == self.client().requestor().reddit_url@ + ACCESS_TOKEN_PATH@,
            request.data.deep_view() == read_only_form(self.wanted_scopes()),
    {
        let mut data = scope_data(&self.scopes);
        data.push(text_pair("grant_type", "client_credentials"));
        assert(data.deep_view() =~= read_only_form(self.wanted_scopes()));
        self.authorizer.base().token_request(data)
    }

    /// Takes in the reply to the form of `refresh_request`, sent at
    /// `pre_request_time`.
    pub fn refresh(
        &mut self,
        pre_request_time: ClockReading,
        response: Response,
        payload: Option<RequestTokenResponse>,
    ) -> (result: Result<(), RawrCoreError>)
        ensures
            is_token_outcome(
                old(self)@,
                final(self)@,
                result,
                pre_request_time@,
                response,
                payload,
            ),
            final(self).client() == old(self).client(),
            final(self).declared_trusted() == old(self).declared_trusted(),
            final(self).wanted_scopes() == old(self).wanted_scopes(),
    {
        self.authorizer.base.request_token(pre_request_time, response, payload)
    }
}

/// The password flow of a client that holds a secret.
#[derive(Debug)]
pub struct ScriptAuthorizer {
    base: BaseAuthorizer<TrustedAuthenticator>,
    username: Option<String>,
    password: Option<String>,
    scopes: Option<Vec<String>>,
}

impl View for ScriptAuthorizer {
    type V = TokenState;

    closed spec fn view(&self) -> TokenState {
        self.base@
    }
}

impl ScriptAuthorizer {
    /// The identity of the client.
    pub closed spec fn client(&self) -> TrustedAuthenticator {
        self.base.client()
    }

    /// Whether the client was declared to hold a secret.
    pub closed spec fn declared_trusted(&self) -> bool {
        self.base.declared_trusted()
    }

    /// The user that the flow signs in.
    pub closed spec fn user(&self) -> Option<Seq<char>> {
        text_of(self.username)
    }

    /// The password that the flow signs in with.
    pub closed spec fn secret(&self) -> Option<Seq<char>> {
        text_of(self.password)
    }

    /// The scopes that the flow asks for.
    pub closed spec fn wanted_scopes(&self) -> Option<Seq<Seq<char>>> {
        names_of(self.scopes)
    }

    /// An authorizer that signs the user in and asks for `scopes`.
    pub fn new(
        base: BaseAuthorizer<TrustedAuthenticator>,
        username: Option<String>,
        password: Option<String>,
        scopes: Option<Vec<String>>,
    ) -> (authorizer: Self)
        ensures
            authorizer@ == base@,
            authorizer.client() == base.client(),
            authorizer.declared_trusted() == base.declared_trusted(),
            authorizer.user() == text_of(username),
            authorizer.secret() == text_of(password),
            authorizer.wanted_scopes() == names_of(scopes),
    {
        Self { base, username, password, scopes }
    }

    /// What all grant flows share.
    pub fn base(&self) -> (base: &BaseAuthorizer<TrustedAuthenticator>)
        ensures
            base@ == self@,
            base.client() == self.client(),
            base.declared_trusted() == self.declared_trusted(),
    {
        &self.base
    }

    /// The form that asks for a token on the user's password, with the
    /// one-time password `otp` where one is given and is not empty.
    pub fn refresh_request(&self, otp: Option<&str>) -> (request: FormRequest)
        ensures
            request.url@ == self.client().requestor().reddit_url@ + ACCESS_TOKEN_PATH@,
            request.data.deep_view() == script_form(
                self.wanted_scopes(),
                match otp {
                    Some(code) => Some(code@),
                    None => None,
                },
                self.user(),
                self.secret(),
            ),
    {
        let mut data = scope_data(&self.scopes);
        match otp {
            Some(code) => {
                if code.unicode_len() > 0 {
                    data.push(text_pair("otp", code));
                }
            },
            None => {},
        }
        data.push(text_pair("grant_type", "password"));
        data.push(text_pair("username", or_empty(&self.username)));
        data.push(text_pair("password", or_empty(&self.password)));
        assert(data.deep_view() =~= script_form(
            self.wanted_scopes(),
            match otp {
                Some(code) => Some(code@),
                None => None,
            },
            self.user(),
            self.secret(),
        ));
        self.base.token_request(data)
    }

    /// Takes in the reply to the form of `refresh_request`, sent at
    /// `pre_request_time`.
    pub fn refresh(
        &mut self,
        pre_request_time: ClockReading,
        response: Response,
        payload: Option<RequestTokenResponse>,
    ) -> (result: Result<(), RawrCoreError>)
        ensures
            is_token_outcome(
                old(self)@,
                final(self)@,
                result,
                pre_request_time@,
                response,
                payload,
            ),
            final(self).client() == old(self).client(),
            final(self).declared_trusted() == old(self).declared_trusted(),
            final(self).user() == old(self).user(),
            final(self).secret() == old(self).secret(),
            final(self).wanted_scopes() == old(self).wanted_scopes(),
    {
        self.base.request_token(pre_request_time, response, payload)
    }
}

/// An authorizer of any one of the grant flows.
#[derive(Debug)]
pub enum GrantAuthorizer<A: Authenticator> {
    Code(Authorizer<A>),
    DeviceId(DeviceIdAuthorizer),
    Implicit(ImplicitAuthorizer),
    ReadOnly(ReadOnlyAuthorizer),
    Script(ScriptAuthorizer),
}

impl<A: Authenticator> View for GrantAuthorizer<A> {
    type V = TokenState;

    open spec fn view(&self) -> TokenState {
        match self {
            GrantAuthorizer::Code(authorizer) => authorizer@,
            GrantAuthorizer::DeviceId(authorizer) => authorizer@,
            GrantAuthorizer::Implicit(authorizer) => authorizer@,
            GrantAuthorizer::ReadOnly(authorizer) => authorizer@,
            GrantAuthorizer::Script(authorizer) => authorizer@,
        }
    }
}

impl<A: Authenticator> GrantAuthorizer<A> {
    /// Whether the flow can renew its token: every flow but the implicit.
    pub open spec fn renewable(&self) -> bool {
        !(self is Implicit)
    }

    /// Whether the flow can renew its token.
    pub fn can_refresh(&self) -> (renewable: bool)
        ensures
            renewable == self.renewable(),
    {
        match self {
            GrantAuthorizer::Implicit(_) => false,
            _ => true,
        }
    }

    /// Whether the token can be used at `now`.
    pub fn is_valid_at(&self, now: Timestamp) -> (valid: bool)
        ensures
            valid == self@.valid_at(now),
    {
        match self {
            GrantAuthorizer::Code(authorizer) => authorizer.base().is_valid_at(now),
            GrantAuthorizer::DeviceId(authorizer) => authorizer.base().is_valid_at(now),
            GrantAuthorizer::Implicit(authorizer) => authorizer.base().is_valid_at(now),
            GrantAuthorizer::ReadOnly(authorizer) => authorizer.base().is_valid_at(now),
            GrantAuthorizer::Script(authorizer) => authorizer.base().is_valid_at(now),
        }
    }

    /// The access token, where there is one.
    pub fn access_token(&self) -> (token: Option<&str>)
        ensures
            token is Some <==> self@.access_token is Some,
            token matches Some(t) ==> self@.access_token == Some(t@),
    {
        match self {
            GrantAuthorizer::Code(authorizer) => authorizer.base().access_token(),
            GrantAuthorizer::DeviceId(authorizer) => authorizer.base().access_token(),
            GrantAuthorizer::Implicit(authorizer) => authorizer.base().access_token(),
            GrantAuthorizer::ReadOnly(authorizer) => authorizer.base().access_token(),
            GrantAuthorizer::Script(authorizer) => authorizer.base().access_token(),
        }
    }
}

/// A token that was asked for at the clock reading `pre_request_time` and
/// lives `expires_in` seconds expires that many seconds after the request
/// went out, less ten, whenever the reply came in. It is valid from the
/// request up to that expiry and no longer.
pub proof fn lemma_expiry_counts_from_request(
    pre_request_time: Timestamp,
    access_token: Seq<char>,
    refresh_token: Option<Seq<char>>,
    expires_in: i32,
    scope: Seq<char>,
    now: Timestamp,
)
    requires
        pre_request_time.is_clock_reading(),
    ensures
        ({
            let granted = TokenState::granted(
                pre_request_time,
                access_token,
                refresh_token,
                expires_in as int,
                scope,
            );
            &&& granted.expiration_timestamp matches Some(expiry)
            &&& expiry.seconds() == pre_request_time.seconds() - EXPIRY_SKEW_SECONDS + expires_in
            &&& expiry.subsec_nanos() == pre_request_time.subsec_nanos()
            &&& granted.valid_at(now) <==> now.is_before(expiry)
            &&& !now.is_before(pre_request_time) && now.seconds() < pre_request_time.seconds()
                - EXPIRY_SKEW_SECONDS + expires_in ==> granted.valid_at(now)
        }),
{
    broadcast use Timestamp::lemma_plus_seconds;

}

/// A token is valid exactly where there is an access token and now lies
/// strictly before its expiry: never without an access token, never from
/// the expiry on.
pub proof fn lemma_validity(state: TokenState, now: Timestamp)
    requires
        state.atomic(),
    ensures
        state.access_token is None ==> !state.valid_at(now),
        state.expiration_timestamp matches Some(expiry) ==> (state.valid_at(now)
            <==> now.is_before(expiry)),
        state.access_token is Some ==> state.expiration_timestamp is Some,
{
}

/// The life of a token: a grant leaves the unauthorized stage, for the
/// authorized stage as long as the expiry lies ahead and for the expired
/// stage from the expiry on; giving up the access token, alone or with the
/// refresh token, leads back to the unauthorized stage. A token is valid
/// in the authorized stage and in no other.
pub proof fn lemma_lifecycle(
    state: TokenState,
    pre_request_time: Timestamp,
    access_token: Seq<char>,
    refresh_token: Option<Seq<char>>,
    expires_in: int,
    scope: Seq<char>,
    now: Timestamp,
)
    ensures
        ({
            let granted = TokenState::granted(
                pre_request_time,
                access_token,
                refresh_token,
                expires_in,
                scope,
            );
            &&& granted.lifecycle_at(now) == if now.is_before(granted.expiration_timestamp->0) {
                Lifecycle::Authorized
            } else {
                Lifecycle::Expired
            }
            &&& granted.atomic()
        }),
        state.without_access().lifecycle_at(now) == Lifecycle::Unauthorized,
        TokenState::unauthorized().lifecycle_at(now) == Lifecycle::Unauthorized,
        state.valid_at(now) <==> state.lifecycle_at(now) == Lifecycle::Authorized,
{
}

/// Giving up the access token alone never touches the refresh token;
/// giving up everything leaves nothing.
pub proof fn lemma_revocation(state: TokenState)
    ensures
        state.without_access().refresh_token == state.refresh_token,
        state.without_access().access_token is None,
        state.without_access().expiration_timestamp is None,
        state.without_access().scopes is None,
        TokenState::unauthorized().access_token is None,
        TokenState::unauthorized().refresh_token is None,
        TokenState::unauthorized().expiration_timestamp is None,
        TokenState::unauthorized().scopes is None,
{
}

} // verus!

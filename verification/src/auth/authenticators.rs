//! Who the client is: a trusted client holds a secret, an untrusted one
//! does not.

use crate::constants::{AUTHORIZATION_PATH, REVOKE_TOKEN_PATH};
use crate::errors::{RawrCoreError, ResponseErrorData};
use crate::models::{FormRequest, Response};
use crate::requestor::Requestor;
use crate::util::{join, join_with, same_text, text_pair};
use vstd::prelude::*;
use vstd::string::*;

verus! {

/// Status that a posted form is answered with where all went well.
pub const OK_STATUS: u16 = 200;

/// The URL that `Url::parse_with_params` of the `url` crate makes of a base
/// URL and query parameters, as text; nothing where it refuses the base.
pub uninterp spec fn url_with_params(
    base: Seq<char>,
    params: Seq<(Seq<char>, Seq<char>)>,
) -> Option<Seq<char>>;

/// `Url::parse_with_params`: parses `base` as a URL and appends `params` to
/// its query; hands the URL out as text.
#[verifier::external_body]
fn parse_with_params(base: &str, params: &Vec<(String, String)>) -> (url: Option<String>)
    ensures
        url is Some <==> url_with_params(base@, params.deep_view()) is Some,
        url matches Some(text) ==> url_with_params(base@, params.deep_view()) == Some(text@),
{
    match reqwest::Url::parse_with_params(base, params) {
        Ok(url) => Some(url.as_str().to_string()),
        Err(_) => None,
    }
}

/// The query of an authorization URL.
pub open spec fn authorize_query(
    client_id: Seq<char>,
    duration: Seq<char>,
    redirect_uri: Seq<char>,
    implicit: bool,
    scopes: Seq<Seq<char>>,
    state: Seq<char>,
) -> Seq<(Seq<char>, Seq<char>)> {
    seq![
        ("client_id"@, client_id),
        ("duration"@, duration),
        ("redirect_uri"@, redirect_uri),
        ("response_type"@, if implicit { "token"@ } else { "code"@ }),
        ("scope"@, join_with(scopes, " "@)),
        ("state"@, state),
    ]
}

/// The fields of a form that revokes a token.
pub open spec fn revoke_form(token: Seq<char>, token_type: Option<Seq<char>>) -> Seq<
    (Seq<char>, Seq<char>),
> {
    match token_type {
        Some(hint) => seq![("token"@, token), ("token_type_hint"@, hint)],
        None => seq![("token"@, token)],
    }
}

/// Holds the answer to a posted form against the status that was hoped
/// for, 200 where none is named: the response itself where it has that
/// status, a response error otherwise.
pub fn check_status(
    response: Response,
    success_status: Option<u16>,
) -> (checked: Result<Response, RawrCoreError>)
    ensures
        checked == if response.status == (match success_status {
            Some(status) => status,
            None => OK_STATUS,
        }) {
            Ok::<Response, RawrCoreError>(response)
        } else {
            Err::<Response, RawrCoreError>(
                RawrCoreError::ResponseError(ResponseErrorData { response }),
            )
        },
{
    let expected = match success_status {
        Some(status) => status,
        None => OK_STATUS,
    };
    if response.status != expected {
        Err(RawrCoreError::ResponseError(ResponseErrorData { response }))
    } else {
        Ok(response)
    }
}

/// Whether an authorization URL is refused before any is built: the client
/// has no redirect URI, or the implicit flow is asked for by a client that
/// holds a secret, or for a temporary duration.
pub open spec fn refuses_authorization(
    redirect_uri: Option<Seq<char>>,
    untrusted: bool,
    duration: Seq<char>,
    implicit: bool,
) -> bool {
    ||| redirect_uri is None
    ||| implicit && !untrusted
    ||| implicit && duration == "temporary"@
}

/// The identity of a client.
pub trait Authenticator {
    /// The client's id.
    spec fn client_id(&self) -> Seq<char>;

    /// The client's secret; empty for a client that holds none.
    spec fn client_secret(&self) -> Seq<char>;

    /// The URI that the authorization endpoint sends the user back to.
    spec fn redirect_uri(&self) -> Option<Seq<char>>;

    /// Whether the client holds no secret.
    spec fn untrusted(&self) -> bool;

    /// Where the client's requests go and how they introduce themselves.
    spec fn requestor(&self) -> Requestor;

    /// The redirect URI, where the client has one.
    fn get_redirect_uri(&self) -> (uri: Option<&str>)
        ensures
            uri is Some <==> self.redirect_uri() is Some,
            uri matches Some(text) ==> self.redirect_uri() == Some(text@),
    ;

    /// Where the client's requests go and how they introduce themselves.
    fn get_requestor(&self) -> (requestor: &Requestor)
        ensures
            *requestor == self.requestor(),
    ;

    /// The client's id.
    fn get_client_id(&self) -> (id: &str)
        ensures
            id@ == self.client_id(),
    ;

    /// The client's secret; empty for a client that holds none.
    fn get_client_secret(&self) -> (secret: &str)
        ensures
            secret@ == self.client_secret(),
            self.untrusted() ==> secret@ == Seq::<char>::empty(),
    ;

    /// Whether the client holds no secret.
    fn is_untrusted(&self) -> (untrusted: bool)
        ensures
            untrusted == self.untrusted(),
    ;

    /// The id and the secret that the client signs its requests with.
    fn auth(&self) -> (credentials: (String, String))
        ensures
            credentials.0@ == self.client_id(),
            credentials.1@ == self.client_secret(),
            self.untrusted() ==> credentials.1@ == Seq::<char>::empty(),
    {
        text_pair(self.get_client_id(), self.get_client_secret())
    }

    /// The query of the authorization URL for the given grant.
    fn authorize_params(
        &self,
        duration: &str,
        scopes: &Vec<String>,
        state: &str,
        implicit: bool,
    ) -> (params: Result<Vec<(String, String)>, RawrCoreError>)
        ensures
            params is Err <==> refuses_authorization(
                self.redirect_uri(),
                self.untrusted(),
                duration@,
                implicit,
            ),
            params matches Err(e) ==> e == RawrCoreError::InvalidInvocation,
            implicit && !self.untrusted() ==> params is Err,
            params matches Ok(query) ==> query.deep_view() == authorize_query(
                self.client_id(),
                duration@,
                self.redirect_uri()->0,
                implicit,
                scopes.deep_view(),
                state@,
            ),
    {
        let redirect_uri = match self.get_redirect_uri() {
            Some(uri) => uri,
            None => {
                return Err(RawrCoreError::InvalidInvocation);
            },
        };
        if implicit && !self.is_untrusted() {
            return Err(RawrCoreError::InvalidInvocation);
        }
        if implicit && same_text(duration, "temporary") {
            return Err(RawrCoreError::InvalidInvocation);
        }
        let scope = join(scopes, " ");
        let mut query: Vec<(String, String)> = Vec::new();
        query.push(text_pair("client_id", self.get_client_id()));
        query.push(text_pair("duration", duration));
        query.push(text_pair("redirect_uri", redirect_uri));
        query.push(
            text_pair(
                "response_type",
                if implicit {
                    "token"
                } else {
                    "code"
                },
            ),
        );
        query.push(text_pair("scope", scope.as_str()));
        query.push(text_pair("state", state));
        assert(query.deep_view() =~= authorize_query(
            self.client_id(),
            duration@,
            self.redirect_uri()->0,
            implicit,
            scopes.deep_view(),
            state@,
        ));
        Ok(query)
    }

    /// Turns what the URL builder made of the authorization endpoint and
    /// its query into the result of `authorize_url`.
    fn authorize_url_from(built: Option<String>) -> (url: Result<String, RawrCoreError>)
        ensures
            url is Ok <==> built is Some,
            url matches Ok(text) ==> built == Some(text),
            url matches Err(e) ==> e == RawrCoreError::InvalidInvocation,
    {
        match built {
            Some(text) => Ok(text),
            None => Err(RawrCoreError::InvalidInvocation),
        }
    }

    /// The URL that the user is sent to in order to grant access. It is
    /// refused as an invalid invocation where `refuses_authorization`
    /// holds or no URL can be made of the endpoint.
    fn authorize_url(
        &self,
        duration: &str,
        scopes: Vec<String>,
        state: &str,
        implicit: bool,
    ) -> (url: Result<String, RawrCoreError>)
        ensures
            url is Err <==> refuses_authorization(
                self.redirect_uri(),
                self.untrusted(),
                duration@,
                implicit,
            ) || url_with_params(
                self.requestor().reddit_url@ + AUTHORIZATION_PATH@,
                authorize_query(
                    self.client_id(),
                    duration@,
                    self.redirect_uri()->0,
                    implicit,
                    scopes.deep_view(),
                    state@,
                ),
            ) is None,
            url matches Err(e) ==> e == RawrCoreError::InvalidInvocation,
            implicit && !self.untrusted() ==> url is Err,
            url matches Ok(text) ==> url_with_params(
                self.requestor().reddit_url@ + AUTHORIZATION_PATH@,
                authorize_query(
                    self.client_id(),
                    duration@,
                    self.redirect_uri()->0,
                    implicit,
                    scopes.deep_view(),
                    state@,
                ),
            ) == Some(text@),
    {
        let query = match self.authorize_params(duration, &scopes, state, implicit) {
            Ok(query) => query,
            Err(error) => {
                return Err(error);
            },
        };
        let mut endpoint = self.get_requestor().reddit_url.clone();
        endpoint.append(AUTHORIZATION_PATH);
        Self::authorize_url_from(parse_with_params(endpoint.as_str(), &query))
    }

    /// The form that revokes `token`, to be posted to the revocation
    /// endpoint.
    fn revoke_token(&self, token: &str, token_type: Option<&str>) -> (request: FormRequest)
        ensures
            request.url@ == self.requestor().reddit_url@ + REVOKE_TOKEN_PATH@,
            request.data.deep_view() == revoke_form(
                token@,
                match token_type {
                    Some(hint) => Some(hint@),
                    None => None,
                },
            ),
    {
        let mut data: Vec<(String, String)> = Vec::new();
        data.push(text_pair("token", token));
        match token_type {
            Some(hint) => {
                data.push(text_pair("token_type_hint", hint));
            },
            None => {},
        }
        let mut url = self.get_requestor().reddit_url.clone();
        url.append(REVOKE_TOKEN_PATH);
        assert(data.deep_view() =~= revoke_form(
            token@,
            match token_type {
                Some(hint) => Some(hint@),
                None => None,
            },
        ));
        FormRequest { url, data }
    }
}

/// What every client has: where it talks to, its id and, perhaps, a
/// redirect URI.
#[derive(Debug)]
pub struct BaseAuthenticator {
    requestor: Requestor,
    client_id: String,
    redirect_uri: Option<String>,
}

impl BaseAuthenticator {
    /// The client's id.
    pub closed spec fn id(&self) -> Seq<char> {
        self.client_id@
    }

    /// The redirect URI, where the client has one.
    pub closed spec fn redirect(&self) -> Option<Seq<char>> {
        match self.redirect_uri {
            Some(uri) => Some(uri@),
            None => None,
        }
    }

    /// Where the client's requests go and how they introduce themselves.
    pub closed spec fn config(&self) -> Requestor {
        self.requestor
    }

    /// The identity of a client with the given id.
    pub fn new(requestor: Requestor, client_id: String, redirect_uri: Option<String>) -> (base: Self)
        ensures
            base.config() == requestor,
            base.id() == client_id@,
            base.redirect() == match redirect_uri {
                Some(uri) => Some(uri@),
                None => None,
            },
    {
        Self { requestor, client_id, redirect_uri }
    }

    /// The redirect URI, where the client has one.
    fn redirect_uri(&self) -> (uri: Option<&str>)
        ensures
            uri is Some <==> self.redirect() is Some,
            uri matches Some(text) ==> self.redirect() == Some(text@),
    {
        match &self.redirect_uri {
            Some(uri) => Some(uri.as_str()),
            None => None,
        }
    }
}

/// An owned copy of a text that may be missing.
fn owned(text: Option<&str>) -> (copy: Option<String>)
    ensures
        copy is Some <==> text is Some,
        copy matches Some(s) ==> s@ == text->0@,
{
    match text {
        Some(t) => Some(t.to_owned()),
        None => None,
    }
}

/// A client that can keep a secret.
#[derive(Debug)]
pub struct TrustedAuthenticator {
    base_authenticator: BaseAuthenticator,
    client_secret: String,
}

impl TrustedAuthenticator {
    /// A client with the given id and secret.
    pub fn new(
        requestor: Requestor,
        client_id: &str,
        client_secret: &str,
        redirect_uri: Option<&str>,
    ) -> (authenticator: Self)
        ensures
            authenticator.client_id() == client_id@,
            authenticator.client_secret() == client_secret@,
            authenticator.redirect_uri() == match redirect_uri {
                Some(uri) => Some(uri@),
                None => None,
            },
            authenticator.requestor() == requestor,
            !authenticator.untrusted(),
    {
        Self::from_base(
            BaseAuthenticator::new(requestor, client_id.to_owned(), owned(redirect_uri)),
            client_secret.to_owned(),
        )
    }

    /// A trusted client made of what every client has and a secret.
    pub fn from_base(
        base_authenticator: BaseAuthenticator,
        client_secret: String,
    ) -> (authenticator: Self)
        ensures
            authenticator.client_id() == base_authenticator.id(),
            authenticator.client_secret() == client_secret@,
            authenticator.redirect_uri() == base_authenticator.redirect(),
            authenticator.requestor() == base_authenticator.config(),
            !authenticator.untrusted(),
    {
        Self { base_authenticator, client_secret }
    }
}

impl Authenticator for TrustedAuthenticator {
    closed spec fn client_id(&self) -> Seq<char> {
        self.base_authenticator.id()
    }

    closed spec fn client_secret(&self) -> Seq<char> {
        self.client_secret@
    }

    closed spec fn redirect_uri(&self) -> Option<Seq<char>> {
        self.base_authenticator.redirect()
    }

    open spec fn untrusted(&self) -> bool {
        false
    }

    closed spec fn requestor(&self) -> Requestor {
        self.base_authenticator.config()
    }

    fn get_redirect_uri(&self) -> (uri: Option<&str>) {
        self.base_authenticator.redirect_uri()
    }

    fn get_requestor(&self) -> (requestor: &Requestor) {
        &self.base_authenticator.requestor
    }

    fn get_client_id(&self) -> (id: &str) {
        self.base_authenticator.client_id.as_str()
    }

    fn get_client_secret(&self) -> (secret: &str) {
        self.client_secret.as_str()
    }

    fn is_untrusted(&self) -> (untrusted: bool) {
        false
    }
}

/// A client that cannot keep a secret.
#[derive(Debug)]
pub struct UntrustedAuthenticator {
    base_authenticator: BaseAuthenticator,
}

impl UntrustedAuthenticator {
    /// A client with the given id and no secret.
    pub fn new(
        requestor: Requestor,
        client_id: &str,
        redirect_uri: Option<&str>,
    ) -> (authenticator: Self)
        ensures
            authenticator.client_id() == client_id@,
            authenticator.client_secret() == Seq::<char>::empty(),
            authenticator.redirect_uri() == match redirect_uri {
                Some(uri) => Some(uri@),
                None => None,
            },
            authenticator.requestor() == requestor,
            authenticator.untrusted(),
    {
        Self {
            base_authenticator: BaseAuthenticator::new(
                requestor,
                client_id.to_owned(),
                owned(redirect_uri),
            ),
        }
    }
}

impl Authenticator for UntrustedAuthenticator {
    closed spec fn client_id(&self) -> Seq<char> {
        self.base_authenticator.id()
    }

    open spec fn client_secret(&self) -> Seq<char> {
        Seq::<char>::empty()
    }

    closed spec fn redirect_uri(&self) -> Option<Seq<char>> {
        self.base_authenticator.redirect()
    }

    open spec fn untrusted(&self) -> bool {
        true
    }

    closed spec fn requestor(&self) -> Requestor {
        self.base_authenticator.config()
    }

    fn get_redirect_uri(&self) -> (uri: Option<&str>) {
        self.base_authenticator.redirect_uri()
    }

    fn get_requestor(&self) -> (requestor: &Requestor) {
        &self.base_authenticator.requestor
    }

    fn get_client_id(&self) -> (id: &str) {
        self.base_authenticator.client_id.as_str()
    }

    fn get_client_secret(&self) -> (secret: &str) {
        proof {
            reveal_strlit("");
        }
        ""
    }

    fn is_untrusted(&self) -> (untrusted: bool) {
        true
    }
}

/// A client that holds a secret is refused the implicit flow, whatever
/// else it asks for.
pub proof fn lemma_implicit_flow_needs_untrusted_client(
    redirect_uri: Option<Seq<char>>,
    duration: Seq<char>,
)
    ensures
        refuses_authorization(redirect_uri, false, duration, true),
{
}

} // verus!

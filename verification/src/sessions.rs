//! Response classification, the retry strategy and the decisions of a
//! session.

use crate::auth::authenticators::Authenticator;
use crate::auth::authorizers::GrantAuthorizer;
use crate::errors::{
    ErrorKind, RawrCoreError, RedirectData, RequestErrorData, ResponseErrorData, SpecialErrorData,
};
use crate::headers::{header_str, header_string};
use crate::models::Response;
use crate::rate_limit::{pacing_delay, quota_headers, RateLimiter};
use crate::time::{now, Timestamp};
use crate::util::{decimal_value, parse_u16, within};
use rand::Rng;
use reqwest::header::{HeaderMap, HeaderValue};
use vstd::prelude::*;

verus! {

/// Retries that a strategy starts with where none are asked for.
pub const DEFAULT_RETRIES: u8 = 3;

/// Shortest backoff before a retry that is not the last, in milliseconds.
pub const BACKOFF_BASE_MILLIS: u64 = 2000;

/// Width of the random part of a backoff, in milliseconds.
pub const BACKOFF_JITTER_MILLIS: u64 = 2000;

/// The kind of error that a status code stands for; nothing for a status
/// in the 200s. A status without an entry of its own outside the 200s is a
/// response error.
pub open spec fn status_error_kind(status: u16) -> Option<ErrorKind> {
    if status == 400 {
        Some(ErrorKind::BadRequest)
    } else if status == 401 || status == 403 {
        Some(ErrorKind::Forbidden)
    } else if status == 404 {
        Some(ErrorKind::NotFound)
    } else if status == 409 {
        Some(ErrorKind::Conflict)
    } else if status == 413 {
        Some(ErrorKind::TooLarge)
    } else if status == 414 {
        Some(ErrorKind::URITooLong)
    } else if status == 429 {
        Some(ErrorKind::TooManyRequests)
    } else if status == 451 {
        Some(ErrorKind::UnavailableForLegalReasons)
    } else if status == 300 || status == 302 {
        Some(ErrorKind::Redirect)
    } else if status == 415 {
        Some(ErrorKind::SpecialError)
    } else if status == 500 || status == 502 || status == 503 || status == 504 || status == 520
        || status == 522 {
        Some(ErrorKind::ServerError)
    } else if 200 <= status < 300 {
        None
    } else {
        Some(ErrorKind::ResponseError)
    }
}

/// Whether a status promises a body: 200, 201 or 202.
pub open spec fn success_status(status: u16) -> bool {
    status == 200 || status == 201 || status == 202
}

/// Where a redirect points to: the text of `location`, or the empty text
/// where the header is missing or is not text.
pub open spec fn redirect_path(headers: HeaderMap<HeaderValue>) -> Seq<char> {
    match header_string(headers, "location"@) {
        Some(path) => path,
        None => Seq::<char>::empty(),
    }
}

/// Seconds after which the server asks to be tried again: the number in
/// `x-try-after`, or zero where the header is missing or holds no number
/// that fits `u16`.
pub open spec fn retry_after_hint(headers: HeaderMap<HeaderValue>) -> u16 {
    match header_string(headers, "x-try-after"@) {
        Some(text) => match within(decimal_value(text, false), 0, u16::MAX as int) {
            Some(seconds) => seconds as u16,
            None => 0u16,
        },
        None => 0u16,
    }
}

/// Whether `error` is the error of kind `kind` that `response` stands for:
/// it carries the response, and what else an error of its kind carries is
/// taken from the headers of the response.
pub open spec fn is_error_of(error: RawrCoreError, kind: ErrorKind, response: Response) -> bool {
    &&& error.kind_of() == kind
    &&& error.response_of() == Some(response)
    &&& error matches RawrCoreError::Redirect(data) ==> data.path@ == redirect_path(
        response.headers,
    )
    &&& error matches RawrCoreError::SpecialError(data) ==> data.retry_after == retry_after_hint(
        response.headers,
    ) && data.message@ == Seq::<char>::empty()
}

/// Whether the status of a response promises a body.
pub fn is_success_status(response: &Response) -> (success: bool)
    ensures
        success == success_status(response.status),
{
    response.status == 200 || response.status == 201 || response.status == 202
}

/// The redirect that a response stands for.
fn redirect(response: Response) -> (error: RawrCoreError)
    ensures
        is_error_of(error, ErrorKind::Redirect, response),
{
    let path = match header_str(&response.headers, "location") {
        Some(path) => path,
        None => String::new(),
    };
    RawrCoreError::Redirect(RedirectData { response, path })
}

/// The redirect that a response stands for.
pub fn handle_redirect(response: Response) -> (error: Option<RawrCoreError>)
    ensures
        error matches Some(e) && is_error_of(e, ErrorKind::Redirect, response),
{
    Some(redirect(response))
}

/// The special error that a response stands for.
fn handle_special(response: Response) -> (error: RawrCoreError)
    ensures
        is_error_of(error, ErrorKind::SpecialError, response),
{
    let retry_after = match header_str(&response.headers, "x-try-after") {
        Some(text) => match parse_u16(text.as_str()) {
            Some(seconds) => seconds,
            None => 0,
        },
        None => 0,
    };
    RawrCoreError::SpecialError(SpecialErrorData { response, retry_after, message: String::new() })
}

/// Sorts a response by its status code: the response itself where the
/// status stands for no error, else the error that it stands for.
pub fn response_to_rawrcore_error(response: Response) -> (sorted: Result<Response, RawrCoreError>)
    ensures
        match status_error_kind(response.status) {
            None => sorted == Ok::<Response, RawrCoreError>(response),
            Some(kind) => sorted matches Err(e) && is_error_of(e, kind, response),
        },
{
    let status = response.status;
    if status == 400 {
        Err(RawrCoreError::BadRequest(ResponseErrorData { response }))
    } else if status == 401 || status == 403 {
        Err(RawrCoreError::Forbidden(ResponseErrorData { response }))
    } else if status == 404 {
        Err(RawrCoreError::NotFound(ResponseErrorData { response }))
    } else if status == 409 {
        Err(RawrCoreError::Conflict(ResponseErrorData { response }))
    } else if status == 413 {
        Err(RawrCoreError::TooLarge(ResponseErrorData { response }))
    } else if status == 414 {
        Err(RawrCoreError::URITooLong(ResponseErrorData { response }))
    } else if status == 429 {
        Err(RawrCoreError::TooManyRequests(ResponseErrorData { response }))
    } else if status == 451 {
        Err(RawrCoreError::UnavailableForLegalReasons(ResponseErrorData { response }))
    } else if status == 300 || status == 302 {
        Err(redirect(response))
    } else if status == 415 {
        Err(handle_special(response))
    } else if status == 500 || status == 502 || status == 503 || status == 504 || status == 520
        || status == 522 {
        Err(RawrCoreError::ServerError(ResponseErrorData { response }))
    } else if 200 <= status && status < 300 {
        Ok(response)
    } else {
        Err(RawrCoreError::ResponseError(ResponseErrorData { response }))
    }
}

/// Whether `serde_json` reads a text as one JSON value.
pub uninterp spec fn json_text(text: Seq<char>) -> bool;

/// `serde_json::from_str` into a `serde_json::Value`: whether the text is
/// read as one JSON value.
#[verifier::external_body]
fn is_json(text: &str) -> (ok: bool)
    ensures
        ok == json_text(text@),
{
    serde_json::from_str::<serde_json::Value>(text).is_ok()
}

/// Whether `sorted` is what a response comes to, given whether its body is
/// JSON: the error that its status stands for; with a status that stands
/// for none, a bad-JSON error where the status promises a body and the
/// body is not JSON; else the response itself.
pub open spec fn is_classification(
    sorted: Result<Response, RawrCoreError>,
    response: Response,
    body_is_json: bool,
) -> bool {
    match status_error_kind(response.status) {
        Some(kind) => sorted matches Err(e) && is_error_of(e, kind, response),
        None => if success_status(response.status) && !body_is_json {
            sorted matches Err(e) && is_error_of(e, ErrorKind::BadJSON, response)
        } else {
            sorted == Ok::<Response, RawrCoreError>(response)
        },
    }
}

/// Classifies a response, given whether its body is JSON.
pub fn classify_with(
    response: Response,
    body_is_json: bool,
) -> (sorted: Result<Response, RawrCoreError>)
    ensures
        is_classification(sorted, response, body_is_json),
{
    match response_to_rawrcore_error(response) {
        Ok(response) => {
            if is_success_status(&response) && !body_is_json {
                Err(RawrCoreError::BadJSON(ResponseErrorData { response }))
            } else {
                Ok(response)
            }
        },
        Err(error) => Err(error),
    }
}

/// Classifies a response into itself or the error that it stands for.
pub fn classify(response: Response) -> (sorted: Result<Response, RawrCoreError>)
    ensures
        is_classification(sorted, response, json_text(response.body@)),
{
    let body_is_json = is_json(response.body.as_str());
    classify_with(response, body_is_json)
}

/// `Rng::gen_range` of `rand`, on the thread's generator and the range from
/// zero up to, and without, `bound`: some number of that range.
#[verifier::external_body]
fn random_below(bound: u64) -> (n: u64)
    requires
        bound > 0,
    ensures
        n < bound,
{
    rand::thread_rng().gen_range(0..bound)
}

/// How long to stay away before a retry, in milliseconds, with
/// `retries_left` retries in hand: nothing where none is left, no time at
/// all before the last retry, else the base backoff and the jitter.
pub open spec fn backoff_millis(retries_left: u8, jitter_millis: u64) -> Option<int> {
    if retries_left == 0 {
        None
    } else if retries_left == 1 {
        Some(0)
    } else {
        Some(BACKOFF_BASE_MILLIS + jitter_millis)
    }
}

/// A budget of retries for one request.
#[derive(Clone, Copy, Debug, PartialEq, Eq, Structural)]
pub struct FiniteRetryStrategy {
    retries: u8,
}

impl FiniteRetryStrategy {
    /// Retries that are left.
    pub closed spec fn retries_left(self) -> u8 {
        self.retries
    }

    /// The strategy after `failures` failed attempts, each of which took a
    /// retry as long as one was left.
    pub open spec fn after_failures(self, failures: nat) -> FiniteRetryStrategy
        decreases failures,
    {
        if failures == 0 {
            self
        } else {
            self.after_failures((failures - 1) as nat).consumed()
        }
    }

    /// The strategy with one retry less, or with none where none is left.
    pub closed spec fn consumed(self) -> FiniteRetryStrategy {
        FiniteRetryStrategy {
            retries: if self.retries == 0 {
                0u8
            } else {
                (self.retries - 1) as u8
            },
        }
    }

    /// Taking a retry leaves one less, or none where none was left.
    pub broadcast proof fn lemma_consumed(self)
        ensures
            #[trigger] self.consumed().retries_left() == if self.retries_left() == 0 {
                0
            } else {
                self.retries_left() - 1
            },
    {
    }

    /// A strategy with `retries` retries, three where none are given.
    pub fn new(retries: Option<u8>) -> (strategy: FiniteRetryStrategy)
        ensures
            strategy.retries_left() == match retries {
                Some(n) => n,
                None => DEFAULT_RETRIES,
            },
    {
        FiniteRetryStrategy {
            retries: match retries {
                Some(n) => n,
                None => DEFAULT_RETRIES,
            },
        }
    }

    /// Retries that are left.
    pub fn retries(&self) -> (n: u8)
        ensures
            n == self.retries_left(),
    {
        self.retries
    }

    /// How long to stay away before the next retry, in milliseconds, given
    /// the jitter to use.
    pub fn sleep_millis_with(&self, jitter_millis: u64) -> (millis: Option<u64>)
        requires
            jitter_millis < BACKOFF_JITTER_MILLIS,
        ensures
            millis is Some <==> backoff_millis(self.retries_left(), jitter_millis) is Some,
            millis matches Some(m) ==> backoff_millis(self.retries_left(), jitter_millis) == Some(
                m as int,
            ),
    {
        if self.retries == 0 {
            None
        } else if self.retries == 1 {
            Some(0)
        } else {
            Some(BACKOFF_BASE_MILLIS + jitter_millis)
        }
    }

    /// How long to stay away before the next retry, in milliseconds, with
    /// a jitter drawn at random where one is used.
    pub fn sleep_millis(&self) -> (millis: Option<u64>)
        ensures
            self.retries_left() == 0 ==> millis is None,
            self.retries_left() == 1 ==> millis == Some(0u64),
            self.retries_left() > 1 ==> (millis matches Some(m) && BACKOFF_BASE_MILLIS <= m
                < BACKOFF_BASE_MILLIS + BACKOFF_JITTER_MILLIS),
    {
        if self.retries > 1 {
            let jitter = random_below(BACKOFF_JITTER_MILLIS);
            self.sleep_millis_with(jitter)
        } else {
            self.sleep_millis_with(0)
        }
    }

    /// The strategy with one retry less, or with none where none is left.
    pub fn consume_available_retry(&self) -> (next: FiniteRetryStrategy)
        ensures
            next == self.consumed(),
            next.retries_left() == if self.retries_left() == 0 {
                0
            } else {
                self.retries_left() - 1
            },
    {
        FiniteRetryStrategy {
            retries: if self.retries == 0 {
                0
            } else {
                self.retries - 1
            },
        }
    }

    /// Whether a failure is to be handed back to the caller because no
    /// retry is left.
    pub fn should_return_on_failure(&self) -> (give_up: bool)
        ensures
            give_up == (self.retries_left() == 0),
    {
        self.retries == 0
    }

    /// Retries that are left after a number of failed attempts: one less
    /// for each failure, down to none.
    pub proof fn lemma_after_failures(self, failures: nat)
        ensures
            self.after_failures(failures).retries_left() == if failures <= self.retries_left() {
                self.retries_left() - failures
            } else {
                0
            },
        decreases failures,
    {
        if failures > 0 {
            self.lemma_after_failures((failures - 1) as nat);
        }
    }
}

/// Where a request stands.
#[derive(Clone, Copy, Debug, PartialEq, Eq, Structural)]
pub enum Phase {
    /// Nothing has been done for the coming attempt.
    Idle,
    /// The caller waits for the quota to allow the attempt.
    Pacing,
    /// The caller renews the token.
    Refreshing,
    /// The caller sends the request.
    Sending,
    /// The caller stays away before it tries again.
    BackingOff,
    /// The request has come to its result.
    Done,
}

/// One request on its way through a session.
#[derive(Clone, Copy, Debug, PartialEq, Eq, Structural)]
pub struct RequestState {
    pub phase: Phase,
    pub retry_strategy: FiniteRetryStrategy,
}

/// What the caller reports back.
#[derive(Debug)]
pub enum Event {
    /// The request is to be started.
    Start,
    /// The wait that was asked for is over.
    Waited,
    /// The token has been renewed.
    Refreshed,
    /// The token could not be renewed.
    RefreshFailed(RawrCoreError),
    /// The transport has brought a response.
    Responded(Response),
    /// The transport has failed before any response.
    TransportFailed(RequestErrorData),
}

/// What the caller is to do next.
#[derive(Debug)]
pub enum Action {
    /// Wait so many seconds, then report `Waited`.
    Wait { seconds: u64 },
    /// Renew the token, then report `Refreshed` or `RefreshFailed`.
    Refresh,
    /// Send the request, then report `Responded` or `TransportFailed`.
    Send,
    /// Stay away so many milliseconds, and for as many seconds as the
    /// server asked for if the caller heeds that, then report `Waited`.
    Backoff { millis: u64, retry_after: u16 },
    /// Hand the result to whoever made the request.
    Finish(Result<Response, RawrCoreError>),
}

/// The kind of error that a response comes to, given whether its body is
/// JSON; nothing where it comes to itself.
pub open spec fn response_error_kind(response: Response, body_is_json: bool) -> Option<ErrorKind> {
    match status_error_kind(response.status) {
        Some(kind) => Some(kind),
        None => if success_status(response.status) && !body_is_json {
            Some(ErrorKind::BadJSON)
        } else {
            None
        },
    }
}

/// Whether a failure of kind `kind` is answered with another attempt: the
/// kind allows it and a retry is left.
pub open spec fn retries_on(kind: ErrorKind, strategy: FiniteRetryStrategy) -> bool {
    kind.retryable() && strategy.retries_left() > 0
}

/// Seconds that the server asked to be left alone for; only a special
/// error carries such a hint.
pub open spec fn hint_of(kind: ErrorKind, response: Response) -> u16 {
    if kind == ErrorKind::SpecialError {
        retry_after_hint(response.headers)
    } else {
        0u16
    }
}

/// A session: the authorizer and the quota state that its requests share.
#[derive(Debug)]
pub struct Session<A: Authenticator> {
    pub authorizer: GrantAuthorizer<A>,
    pub rate_limiter: RateLimiter,
}

impl RequestState {
    /// A request that has not been started, with the default retries.
    pub fn new() -> (request: RequestState)
        ensures
            request.phase == Phase::Idle,
            request.retry_strategy.retries_left() == DEFAULT_RETRIES,
    {
        RequestState { phase: Phase::Idle, retry_strategy: FiniteRetryStrategy::new(None) }
    }
}

impl<A: Authenticator> Session<A> {
    /// A session that has seen no response yet.
    pub fn new(authorizer: GrantAuthorizer<A>) -> (session: Self)
        ensures
            session.authorizer == authorizer,
            session.rate_limiter.remaining is None,
            session.rate_limiter.next_request_timestamp is None,
            session.rate_limiter.reset_timestamp is None,
            session.rate_limiter.used is None,
    {
        Session { authorizer, rate_limiter: RateLimiter::new() }
    }

    /// What is done about the token at `now` before a request is sent and
    /// the phase that it leads to: the request is sent where the token is
    /// valid; else the token is renewed where the flow can do that; else
    /// the invocation is invalid.
    pub open spec fn is_authorization(&self, now: Timestamp, action: Action, phase: Phase) -> bool {
        if self.authorizer@.valid_at(now) {
            action == Action::Send && phase == Phase::Sending
        } else if self.authorizer.renewable() {
            action == Action::Refresh && phase == Phase::Refreshing
        } else {
            action == Action::Finish(Err(RawrCoreError::InvalidInvocation)) && phase == Phase::Done
        }
    }

    /// What opens an attempt at `now` and the phase that it leads to: a
    /// wait where the quota asks for one, else what is done about the
    /// token.
    pub open spec fn is_opening(&self, now: Timestamp, action: Action, phase: Phase) -> bool {
        let seconds = pacing_delay(self.rate_limiter.next_request_timestamp, now);
        if seconds > 0 {
            action == (Action::Wait { seconds: seconds as u64 }) && phase == Phase::Pacing
        } else {
            self.is_authorization(now, action, phase)
        }
    }

    /// What a failure of kind `kind` leads to: another attempt after a
    /// backoff where `retries_on` holds, which takes one retry; else the
    /// end of the request with the error.
    pub open spec fn is_failure_outcome(
        before: RequestState,
        kind: ErrorKind,
        hint: u16,
        jitter_millis: u64,
        action: Action,
        after: RequestState,
    ) -> bool {
        if retries_on(kind, before.retry_strategy) {
            &&& action matches Action::Backoff { millis, retry_after }
            &&& Some(millis as int) == backoff_millis(
                before.retry_strategy.retries_left(),
                jitter_millis,
            )
            &&& retry_after == hint
            &&& after.phase == Phase::BackingOff
            &&& after.retry_strategy == before.retry_strategy.consumed()
        } else {
            &&& action matches Action::Finish(Err(e))
            &&& e.kind_of() == kind
            &&& after.phase == Phase::Done
            &&& after.retry_strategy == before.retry_strategy
        }
    }

    /// Sees to the token before a request goes out.
    fn authorize_at(&self, now: Timestamp) -> (r: (Action, Phase))
        ensures
            self.is_authorization(now, r.0, r.1),
    {
        if self.authorizer.is_valid_at(now) {
            (Action::Send, Phase::Sending)
        } else if self.authorizer.can_refresh() {
            (Action::Refresh, Phase::Refreshing)
        } else {
            (Action::Finish(Err(RawrCoreError::InvalidInvocation)), Phase::Done)
        }
    }

    /// Opens an attempt: asks the quota first, then sees to the token.
    fn open_at(&self, now: Timestamp) -> (r: (Action, Phase))
        ensures
            self.is_opening(now, r.0, r.1),
    {
        let seconds = self.rate_limiter.delay_at(now);
        if seconds > 0 {
            (Action::Wait { seconds }, Phase::Pacing)
        } else {
            self.authorize_at(now)
        }
    }

    /// Answers a failure with a backoff before another attempt or with the
    /// end of the request.
    fn fail(
        request: &mut RequestState,
        error: RawrCoreError,
        hint: u16,
        jitter_millis: u64,
    ) -> (action: Action)
        requires
            jitter_millis < BACKOFF_JITTER_MILLIS,
        ensures
            Self::is_failure_outcome(
                *old(request),
                error.kind_of(),
                hint,
                jitter_millis,
                action,
                *final(request),
            ),
            action matches Action::Finish(Err(e)) ==> e == error,
    {
        if error.kind().is_retryable() && !request.retry_strategy.should_return_on_failure() {
            let millis = request.retry_strategy.sleep_millis_with(jitter_millis).unwrap();
            request.retry_strategy = request.retry_strategy.consume_available_retry();
            request.phase = Phase::BackingOff;
            Action::Backoff { millis, retry_after: hint }
        } else {
            request.phase = Phase::Done;
            Action::Finish(Err(error))
        }
    }
}

/// Whether the body that an event brings is JSON; an event without a
/// response brings none.
pub open spec fn brings_json(event: Event) -> bool {
    match event {
        Event::Responded(response) => json_text(response.body@),
        _ => false,
    }
}

impl<A: Authenticator> Session<A> {
    /// Whether a session and a request in the state `before` and
    /// `request_before` answer `event` at `now` with `action` and go to
    /// `after` and `request_after`.
    ///
    /// A request that is started opens an attempt. After the pacing wait
    /// the token is seen to; after a backoff the next attempt opens. A
    /// renewed token lets the request go out; a failed renewal ends the
    /// request with its error. A response updates the quota, and it or a
    /// failure of the transport ends the request or leads to another
    /// attempt. An event that the phase does not wait for ends the request
    /// as an invalid invocation.
    pub open spec fn is_step(
        before: Self,
        request_before: RequestState,
        event: Event,
        now: Timestamp,
        jitter_millis: u64,
        body_is_json: bool,
        after: Self,
        request_after: RequestState,
        action: Action,
    ) -> bool {
        &&& after.authorizer == before.authorizer
        &&& match (request_before.phase, event) {
            (Phase::Idle, Event::Start) | (Phase::BackingOff, Event::Waited) => {
                &&& after.rate_limiter == before.rate_limiter
                &&& request_after.retry_strategy == request_before.retry_strategy
                &&& before.is_opening(now, action, request_after.phase)
            },
            (Phase::Pacing, Event::Waited) => {
                &&& after.rate_limiter == before.rate_limiter
                &&& request_after.retry_strategy == request_before.retry_strategy
                &&& before.is_authorization(now, action, request_after.phase)
            },
            (Phase::Refreshing, Event::Refreshed) => {
                &&& after.rate_limiter == before.rate_limiter
                &&& request_after.retry_strategy == request_before.retry_strategy
                &&& action == Action::Send
                &&& request_after.phase == Phase::Sending
            },
            (Phase::Refreshing, Event::RefreshFailed(error)) => {
                &&& after.rate_limiter == before.rate_limiter
                &&& request_after.retry_strategy == request_before.retry_strategy
                &&& action == Action::Finish(Err(error))
                &&& request_after.phase == Phase::Done
            },
            (Phase::Sending, Event::Responded(response)) => {
                &&& after.rate_limiter == before.rate_limiter.after_response(
                    quota_headers(response.headers),
                    now,
                )
                &&& match response_error_kind(response, body_is_json) {
                    None => {
                        &&& action == Action::Finish(Ok(response))
                        &&& request_after.phase == Phase::Done
                        &&& request_after.retry_strategy == request_before.retry_strategy
                    },
                    Some(kind) => {
                        &&& Self::is_failure_outcome(
                            request_before,
                            kind,
                            hint_of(kind, response),
                            jitter_millis,
                            action,
                            request_after,
                        )
                        &&& action matches Action::Finish(Err(e)) ==> is_error_of(e, kind, response)
                    },
                }
            },
            (Phase::Sending, Event::TransportFailed(data)) => {
                &&& after.rate_limiter == before.rate_limiter
                &&& Self::is_failure_outcome(
                    request_before,
                    ErrorKind::RequestError,
                    0,
                    jitter_millis,
                    action,
                    request_after,
                )
                &&& action matches Action::Finish(Err(e)) ==> e == RawrCoreError::RequestError(data)
            },
            _ => {
                &&& after.rate_limiter == before.rate_limiter
                &&& request_after.retry_strategy == request_before.retry_strategy
                &&& action == Action::Finish(Err(RawrCoreError::InvalidInvocation))
                &&& request_after.phase == Phase::Done
            },
        }
    }

    /// Answers an event at `now`, with the jitter to use for a backoff and
    /// whether the body of a response is JSON.
    pub fn step_with(
        &mut self,
        request: &mut RequestState,
        event: Event,
        now: Timestamp,
        jitter_millis: u64,
        body_is_json: bool,
    ) -> (action: Action)
        requires
            jitter_millis < BACKOFF_JITTER_MILLIS,
        ensures
            Self::is_step(
                *old(self),
                *old(request),
                event,
                now,
                jitter_millis,
                body_is_json,
                *final(self),
                *final(request),
                action,
            ),
    {
        match (request.phase, event) {
            (Phase::Idle, Event::Start) | (Phase::BackingOff, Event::Waited) => {
                let (action, phase) = self.open_at(now);
                request.phase = phase;
                action
            },
            (Phase::Pacing, Event::Waited) => {
                let (action, phase) = self.authorize_at(now);
                request.phase = phase;
                action
            },
            (Phase::Refreshing, Event::Refreshed) => {
                request.phase = Phase::Sending;
                Action::Send
            },
            (Phase::Refreshing, Event::RefreshFailed(error)) => {
                request.phase = Phase::Done;
                Action::Finish(Err(error))
            },
            (Phase::Sending, Event::Responded(response)) => {
                self.rate_limiter.update_at(&response.headers, now);
                match classify_with(response, body_is_json) {
                    Ok(response) => {
                        request.phase = Phase::Done;
                        Action::Finish(Ok(response))
                    },
                    Err(error) => {
                        let hint = match &error {
                            RawrCoreError::SpecialError(data) => data.retry_after,
                            _ => 0,
                        };
                        Self::fail(request, error, hint, jitter_millis)
                    },
                }
            },
            (Phase::Sending, Event::TransportFailed(data)) => {
                Self::fail(request, RawrCoreError::RequestError(data), 0, jitter_millis)
            },
            _ => {
                request.phase = Phase::Done;
                Action::Finish(Err(RawrCoreError::InvalidInvocation))
            },
        }
    }

    /// Answers an event: as `step_with` does, at a reading of the clock,
    /// with a jitter drawn at random and the body of a response held to
    /// JSON.
    pub fn step(&mut self, request: &mut RequestState, event: Event) -> (action: Action)
        ensures
            exists|now: Timestamp, jitter_millis: u64|
                now.is_clock_reading() && jitter_millis < BACKOFF_JITTER_MILLIS
                    && #[trigger] Self::is_step(
                    *old(self),
                    *old(request),
                    event,
                    now,
                    jitter_millis,
                    brings_json(event),
                    *final(self),
                    *final(request),
                    action,
                ),
    {
        let now = now();
        let jitter_millis = random_below(BACKOFF_JITTER_MILLIS);
        let body_is_json = match &event {
            Event::Responded(response) => is_json(response.body.as_str()),
            _ => false,
        };
        assert(body_is_json == brings_json(event));
        let ghost before = *self;
        let ghost request_before = *request;
        let action = self.step_with(request, event, now, jitter_millis, body_is_json);
        assert(Self::is_step(
            before,
            request_before,
            event,
            now,
            jitter_millis,
            brings_json(event),
            *self,
            *request,
            action,
        ));
        action
    }
}

/// A strategy answers failures that may be retried with another attempt
/// as many times as it has retries, and no more: after `failures` failed
/// attempts one more is made exactly where `failures` is below the
/// retries that the strategy started with.
pub proof fn lemma_retry_budget(strategy: FiniteRetryStrategy, failures: nat, kind: ErrorKind)
    requires
        kind.retryable(),
    ensures
        retries_on(kind, strategy.after_failures(failures)) <==> failures
            < strategy.retries_left(),
{
    strategy.lemma_after_failures(failures);
}

/// The last retry of a strategy is not held back: before it, the backoff
/// is zero, whatever the jitter.
pub proof fn lemma_last_retry_is_not_delayed(strategy: FiniteRetryStrategy, jitter_millis: u64)
    requires
        strategy.retries_left() >= 1,
    ensures
        backoff_millis(
            strategy.after_failures((strategy.retries_left() - 1) as nat).retries_left(),
            jitter_millis,
        ) == Some(0int),
{
    strategy.lemma_after_failures((strategy.retries_left() - 1) as nat);
}

/// A response with status 401 or 403 is a forbidden error, which is never
/// answered with another attempt.
pub proof fn lemma_forbidden_is_never_retried(status: u16, strategy: FiniteRetryStrategy)
    requires
        status == 401 || status == 403,
    ensures
        status_error_kind(status) == Some(ErrorKind::Forbidden),
        !retries_on(ErrorKind::Forbidden, strategy),
{
}

/// A response with status 503 is a server error, which is answered with
/// another attempt as long as a retry is left.
pub proof fn lemma_unavailable_is_retried_within_budget(strategy: FiniteRetryStrategy)
    ensures
        status_error_kind(503) == Some(ErrorKind::ServerError),
        retries_on(ErrorKind::ServerError, strategy) <==> strategy.retries_left() > 0,
{
}

} // verus!

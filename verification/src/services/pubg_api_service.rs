//! The client side of the external match API: which requests are made, how
//! an answer is classified, and when a failed attempt is tried again.
//!
//! Sending a request and waiting are left to the caller. After each attempt
//! the caller reports what happened and is told what to do next.

use crate::text::{decimal_reading, decimal_text, parse_decimal, push_decimal};
use vstd::prelude::*;
use vstd::string::*;

verus! {

/// Retries that a call to the API is given after its first attempt.
pub const MAX_RETRIES: u32 = 3;

/// Seconds to wait before the first retry after a network or server failure.
pub const INITIAL_BACKOFF_SECS: u64 = 1;

/// Seconds to wait after a rate-limit answer that does not say how long.
pub const DEFAULT_RATE_LIMIT_WAIT_SECS: u64 = 60;

/// Seconds after which a request is given up as a network failure.
pub const REQUEST_TIMEOUT_SECS: u64 = 30;

/// Why a call to the external API failed.
#[derive(Debug)]
pub enum PubgApiError {
    /// The API has no such player or match; the text is the answer's body.
    NotFound(String),
    /// The rate limit was still exceeded after the last retry.
    RateLimit { retry_after: u64 },
    /// The API key was refused.
    Unauthorized,
    /// The server failed, answered with an unexpected status, or sent a
    /// payload that could not be decoded.
    ServerError(String),
    /// The request could not be sent, or no answer came.
    NetworkError(String),
}

/// An API error as a mathematical value.
pub enum PubgApiErrorView {
    NotFound(Seq<char>),
    RateLimit { retry_after: u64 },
    Unauthorized,
    ServerError(Seq<char>),
    NetworkError(Seq<char>),
}

impl View for PubgApiError {
    type V = PubgApiErrorView;

    open spec fn view(&self) -> PubgApiErrorView {
        match self {
            PubgApiError::NotFound(body) => PubgApiErrorView::NotFound(body@),
            PubgApiError::RateLimit { retry_after } => PubgApiErrorView::RateLimit {
                retry_after: *retry_after,
            },
            PubgApiError::Unauthorized => PubgApiErrorView::Unauthorized,
            PubgApiError::ServerError(detail) => PubgApiErrorView::ServerError(detail@),
            PubgApiError::NetworkError(detail) => PubgApiErrorView::NetworkError(detail@),
        }
    }
}

impl PubgApiErrorView {
    /// The error in words.
    pub open spec fn message(self) -> Seq<char> {
        match self {
            PubgApiErrorView::NotFound(body) => "Not found: "@ + body,
            PubgApiErrorView::RateLimit { retry_after } => "Rate limit exceeded, retry after "@
                + decimal_text(retry_after as nat) + " seconds"@,
            PubgApiErrorView::Unauthorized => "Unauthorized: Invalid API key"@,
            PubgApiErrorView::ServerError(detail) => "Server error: "@ + detail,
            PubgApiErrorView::NetworkError(detail) => "Network error: "@ + detail,
        }
    }
}

impl PubgApiError {
    /// The error in words.
    pub fn to_string(&self) -> (text: String)
        ensures
            text@ == self@.message(),
    {
        match self {
            PubgApiError::NotFound(body) => {
                let mut text = String::from_str("Not found: ");
                text.append(body.as_str());
                text
            },
            PubgApiError::RateLimit { retry_after } => {
                let mut text = String::from_str("Rate limit exceeded, retry after ");
                push_decimal(&mut text, *retry_after);
                text.append(" seconds");
                text
            },
            PubgApiError::Unauthorized => String::from_str("Unauthorized: Invalid API key"),
            PubgApiError::ServerError(detail) => {
                let mut text = String::from_str("Server error: ");
                text.append(detail.as_str());
                text
            },
            PubgApiError::NetworkError(detail) => {
                let mut text = String::from_str("Network error: ");
                text.append(detail.as_str());
                text
            },
        }
    }

    /// The error for a payload of a successful answer that could not be
    /// decoded; `detail` says what was wrong with it.
    pub fn undecodable(detail: &str) -> (error: PubgApiError)
        ensures
            error@ == PubgApiErrorView::ServerError("Failed to parse response: "@ + detail@),
    {
        let mut text = String::from_str("Failed to parse response: ");
        text.append(detail);
        PubgApiError::ServerError(text)
    }
}

/// A request to the external API, ready to be sent.
#[derive(Debug)]
pub struct ApiRequest {
    pub url: String,
    /// Header names and values.
    pub headers: Vec<(String, String)>,
    /// Retries allowed after the first attempt.
    pub max_retries: u32,
    /// Seconds after which an attempt is given up.
    pub timeout_secs: u64,
}

/// What is known of the API: the key and where the API lives.
pub struct PubgApiService {
    api_key: String,
    base_url: String,
}

/// The address under which a shard lists the players of a given name.
pub open spec fn player_url_of(base_url: Seq<char>, shard: Seq<char>, player_name: Seq<char>) -> Seq<
    char,
> {
    base_url + "/"@ + shard + "/players?filter[playerNames]="@ + player_name
}

/// The address of a match on a shard.
pub open spec fn match_url_of(base_url: Seq<char>, shard: Seq<char>, match_id: Seq<char>) -> Seq<
    char,
> {
    base_url + "/"@ + shard + "/matches/"@ + match_id
}

/// The headers of every request: the bearer token, and the media type asked
/// for.
pub open spec fn is_request_headers(headers: Seq<(String, String)>, api_key: Seq<char>) -> bool {
    &&& headers.len() == 2
    &&& headers[0].0@ == "authorization"@
    &&& headers[0].1@ == "Bearer "@ + api_key
    &&& headers[1].0@ == "accept"@
    &&& headers[1].1@ == "application/vnd.api+json"@
}

impl PubgApiService {
    /// The key that requests are signed with.
    pub closed spec fn api_key(&self) -> Seq<char> {
        self.api_key@
    }

    /// The address that every request begins with.
    pub closed spec fn base_url(&self) -> Seq<char> {
        self.base_url@
    }

    /// A service for the API at `base_url`, with the key to sign requests.
    pub fn new(api_key: String, base_url: String) -> (service: PubgApiService)
        ensures
            service.api_key() == api_key@,
            service.base_url() == base_url@,
    {
        PubgApiService { api_key, base_url }
    }

    /// The headers that authenticate a request.
    pub fn create_headers(&self) -> (headers: Vec<(String, String)>)
        ensures
            is_request_headers(headers@, self.api_key()),
    {
        let mut token = String::from_str("Bearer ");
        token.append(self.api_key.as_str());
        let mut headers: Vec<(String, String)> = Vec::new();
        headers.push((String::from_str("authorization"), token));
        headers.push((String::from_str("accept"), String::from_str("application/vnd.api+json")));
        headers
    }

    fn request(&self, url: String) -> (request: ApiRequest)
        ensures
            request.url@ == url@,
            is_request_headers(request.headers@, self.api_key()),
            request.max_retries == MAX_RETRIES,
            request.timeout_secs == REQUEST_TIMEOUT_SECS,
    {
        ApiRequest {
            url,
            headers: self.create_headers(),
            max_retries: MAX_RETRIES,
            timeout_secs: REQUEST_TIMEOUT_SECS,
        }
    }

    /// The request that looks a player up by name on a shard.
    pub fn get_player_by_name(&self, shard: &str, player_name: &str) -> (request: ApiRequest)
        ensures
            request.url@ == player_url_of(self.base_url(), shard@, player_name@),
            is_request_headers(request.headers@, self.api_key()),
            request.max_retries == MAX_RETRIES,
            request.timeout_secs == REQUEST_TIMEOUT_SECS,
    {
        let mut url = self.base_url.clone();
        url.append("/");
        url.append(shard);
        url.append("/players?filter[playerNames]=");
        url.append(player_name);
        self.request(url)
    }

    /// The request that fetches a match from a shard.
    pub fn get_match(&self, shard: &str, match_id: &str) -> (request: ApiRequest)
        ensures
            request.url@ == match_url_of(self.base_url(), shard@, match_id@),
            is_request_headers(request.headers@, self.api_key()),
            request.max_retries == MAX_RETRIES,
            request.timeout_secs == REQUEST_TIMEOUT_SECS,
    {
        let mut url = self.base_url.clone();
        url.append("/");
        url.append(shard);
        url.append("/matches/");
        url.append(match_id);
        self.request(url)
    }
}

/// Where a call stands between two attempts.
#[derive(Clone, Copy, Debug, PartialEq, Eq, Structural)]
pub struct RetryState {
    /// Retries allowed after the first attempt.
    pub max_retries: u32,
    /// Retries used so far.
    pub retries: u32,
    /// Seconds to wait before the next retry after a network or server
    /// failure.
    pub backoff_secs: u64,
}

/// Twice the wait, as far as 64 bits go.
pub open spec fn doubled(backoff_secs: u64) -> u64 {
    if backoff_secs > u64::MAX / 2 {
        u64::MAX
    } else {
        (2 * backoff_secs) as u64
    }
}

impl RetryState {
    /// The state before the first attempt.
    pub open spec fn initial(max_retries: u32) -> RetryState {
        RetryState { max_retries, retries: 0, backoff_secs: INITIAL_BACKOFF_SECS }
    }

    /// No retry is left.
    pub open spec fn exhausted(self) -> bool {
        self.retries >= self.max_retries
    }

    /// The state after a retry that waited out the backoff: one more retry
    /// used, the next wait twice as long.
    pub open spec fn backed_off(self) -> RetryState
        recommends
            !self.exhausted(),
    {
        RetryState {
            max_retries: self.max_retries,
            retries: (self.retries + 1) as u32,
            backoff_secs: doubled(self.backoff_secs),
        }
    }

    /// The state after a retry that waited for the rate limit: one more retry
    /// used, the backoff as it was.
    pub open spec fn rate_limited(self) -> RetryState
        recommends
            !self.exhausted(),
    {
        RetryState {
            max_retries: self.max_retries,
            retries: (self.retries + 1) as u32,
            backoff_secs: self.backoff_secs,
        }
    }

    /// The state before the first attempt of a call with `max_retries`
    /// retries.
    pub fn start(max_retries: u32) -> (state: RetryState)
        ensures
            state == RetryState::initial(max_retries),
    {
        RetryState { max_retries, retries: 0, backoff_secs: INITIAL_BACKOFF_SECS }
    }
}

/// What came of one attempt.
#[derive(Debug)]
pub enum Attempt {
    /// The request could not be sent, or no answer came in time.
    Unreachable { detail: String },
    /// The server answered.
    Answered {
        /// The status code.
        status: u16,
        /// The status as the answer words it, such as "500 Internal Server
        /// Error".
        status_text: String,
        /// The bytes of the rate-limit reset header, if the answer has one.
        rate_limit_reset: Option<Vec<u8>>,
    },
}

/// An attempt's outcome as a mathematical value.
pub enum AttemptView {
    Unreachable { detail: Seq<char> },
    Answered { status: u16, status_text: Seq<char>, rate_limit_reset: Option<Seq<u8>> },
}

impl View for Attempt {
    type V = AttemptView;

    open spec fn view(&self) -> AttemptView {
        match self {
            Attempt::Unreachable { detail } => AttemptView::Unreachable { detail: detail@ },
            Attempt::Answered { status, status_text, rate_limit_reset } => AttemptView::Answered {
                status: *status,
                status_text: status_text@,
                rate_limit_reset: match rate_limit_reset {
                    Some(bytes) => Some(bytes@),
                    None => None,
                },
            },
        }
    }
}

/// A failure whose error text is the body of the answer.
#[derive(Debug)]
pub enum BodyFailure {
    /// Status 404.
    NotFound,
    /// A server failure after the last retry.
    ServerFailure { status_text: String },
    /// A status that the client does not know.
    UnexpectedStatus { status_text: String },
}

pub enum BodyFailureView {
    NotFound,
    ServerFailure { status_text: Seq<char> },
    UnexpectedStatus { status_text: Seq<char> },
}

impl View for BodyFailure {
    type V = BodyFailureView;

    open spec fn view(&self) -> BodyFailureView {
        match self {
            BodyFailure::NotFound => BodyFailureView::NotFound,
            BodyFailure::ServerFailure { status_text } => BodyFailureView::ServerFailure {
                status_text: status_text@,
            },
            BodyFailure::UnexpectedStatus { status_text } => BodyFailureView::UnexpectedStatus {
                status_text: status_text@,
            },
        }
    }
}

impl BodyFailureView {
    /// The error that the failure makes of the answer's body.
    pub open spec fn error_with(self, body: Seq<char>) -> PubgApiErrorView {
        match self {
            BodyFailureView::NotFound => PubgApiErrorView::NotFound(body),
            BodyFailureView::ServerFailure { status_text } => PubgApiErrorView::ServerError(
                "Status "@ + status_text + ": "@ + body,
            ),
            BodyFailureView::UnexpectedStatus { status_text } => PubgApiErrorView::ServerError(
                "Unexpected status "@ + status_text + ": "@ + body,
            ),
        }
    }
}

impl BodyFailure {
    /// The error that the failure makes of the answer's body; an answer
    /// whose body cannot be read counts as empty.
    pub fn into_error(self, body: &str) -> (error: PubgApiError)
        ensures
            error@ == self@.error_with(body@),
    {
        match self {
            BodyFailure::NotFound => PubgApiError::NotFound(String::from_str(body)),
            BodyFailure::ServerFailure { status_text } => {
                let mut text = String::from_str("Status ");
                text.append(status_text.as_str());
                text.append(": ");
                text.append(body);
                PubgApiError::ServerError(text)
            },
            BodyFailure::UnexpectedStatus { status_text } => {
                let mut text = String::from_str("Unexpected status ");
                text.append(status_text.as_str());
                text.append(": ");
                text.append(body);
                PubgApiError::ServerError(text)
            },
        }
    }
}

/// What to do after an attempt.
#[derive(Debug)]
pub enum Decision {
    /// The answer is good: decode its payload. A payload that cannot be
    /// decoded is an error that is not retried.
    Decode,
    /// Wait `wait_secs` seconds, then try again in `state`.
    Retry { wait_secs: u64, state: RetryState },
    /// Give up with this error.
    Fail(PubgApiError),
    /// Give up; the answer's body completes the error.
    FailWithBody(BodyFailure),
}

pub enum DecisionView {
    Decode,
    Retry { wait_secs: u64, state: RetryState },
    Fail(PubgApiErrorView),
    FailWithBody(BodyFailureView),
}

impl View for Decision {
    type V = DecisionView;

    open spec fn view(&self) -> DecisionView {
        match self {
            Decision::Decode => DecisionView::Decode,
            Decision::Retry { wait_secs, state } => DecisionView::Retry {
                wait_secs: *wait_secs,
                state: *state,
            },
            Decision::Fail(error) => DecisionView::Fail(error@),
            Decision::FailWithBody(failure) => DecisionView::FailWithBody(failure@),
        }
    }
}

/// Seconds to wait after a rate-limit answer: the number in the reset header,
/// or 60 if the header is missing or does not hold an unsigned decimal
/// number of 64 bits.
pub open spec fn rate_limit_wait(reset: Option<Seq<u8>>) -> u64 {
    match reset {
        Some(bytes) => match decimal_reading(bytes, u64::MAX as nat) {
            Some(seconds) => seconds as u64,
            None => DEFAULT_RATE_LIMIT_WAIT_SECS,
        },
        None => DEFAULT_RATE_LIMIT_WAIT_SECS,
    }
}

/// What follows an attempt that ended as `attempt` says, made in `state`.
///
/// A network failure or a status from 500 to 599 is retried after the
/// backoff, which then doubles; status 429 is retried after the wait that the
/// answer names; either only while a retry is left. Status 404, 401 and 403
/// and any unknown status end the call at once.
pub open spec fn decision_of(state: RetryState, attempt: AttemptView) -> DecisionView {
    match attempt {
        AttemptView::Unreachable { detail } => if state.exhausted() {
            DecisionView::Fail(PubgApiErrorView::NetworkError(detail))
        } else {
            DecisionView::Retry { wait_secs: state.backoff_secs, state: state.backed_off() }
        },
        AttemptView::Answered { status, status_text, rate_limit_reset } => if status == 200 {
            DecisionView::Decode
        } else if status == 404 {
            DecisionView::FailWithBody(BodyFailureView::NotFound)
        } else if status == 401 || status == 403 {
            DecisionView::Fail(PubgApiErrorView::Unauthorized)
        } else if status == 429 {
            if state.exhausted() {
                DecisionView::Fail(
                    PubgApiErrorView::RateLimit { retry_after: rate_limit_wait(rate_limit_reset) },
                )
            } else {
                DecisionView::Retry {
                    wait_secs: rate_limit_wait(rate_limit_reset),
                    state: state.rate_limited(),
                }
            }
        } else if 500 <= status <= 599 {
            if state.exhausted() {
                DecisionView::FailWithBody(BodyFailureView::ServerFailure { status_text })
            } else {
                DecisionView::Retry { wait_secs: state.backoff_secs, state: state.backed_off() }
            }
        } else {
            DecisionView::FailWithBody(BodyFailureView::UnexpectedStatus { status_text })
        },
    }
}

/// Reads the wait that a rate-limit answer names.
pub fn read_rate_limit_wait(reset: &Option<Vec<u8>>) -> (seconds: u64)
    ensures
        seconds == rate_limit_wait(
            match reset {
                Some(bytes) => Some(bytes@),
                None => None,
            },
        ),
{
    match reset {
        Some(bytes) => match parse_decimal(bytes.as_slice(), u64::MAX) {
            Some(seconds) => seconds,
            None => DEFAULT_RATE_LIMIT_WAIT_SECS,
        },
        None => DEFAULT_RATE_LIMIT_WAIT_SECS,
    }
}

impl RetryState {
    fn after_backoff(self) -> (next: RetryState)
        requires
            !self.exhausted(),
        ensures
            next == self.backed_off(),
    {
        let backoff_secs = if self.backoff_secs > u64::MAX / 2 {
            u64::MAX
        } else {
            2 * self.backoff_secs
        };
        RetryState { max_retries: self.max_retries, retries: self.retries + 1, backoff_secs }
    }

    /// Decides what follows an attempt made in this state.
    pub fn make_request_with_retry(self, attempt: Attempt) -> (decision: Decision)
        ensures
            decision@ == decision_of(self, attempt@),
    {
        match attempt {
            Attempt::Unreachable { detail } => {
                if self.retries >= self.max_retries {
                    Decision::Fail(PubgApiError::NetworkError(detail))
                } else {
                    Decision::Retry { wait_secs: self.backoff_secs, state: self.after_backoff() }
                }
            },
            Attempt::Answered { status, status_text, rate_limit_reset } => {
                if status == 200 {
                    Decision::Decode
                } else if status == 404 {
                    Decision::FailWithBody(BodyFailure::NotFound)
                } else if status == 401 || status == 403 {
                    Decision::Fail(PubgApiError::Unauthorized)
                } else if status == 429 {
                    let retry_after = read_rate_limit_wait(&rate_limit_reset);
                    if self.retries >= self.max_retries {
                        Decision::Fail(PubgApiError::RateLimit { retry_after })
                    } else {
                        Decision::Retry {
                            wait_secs: retry_after,
                            state: RetryState {
                                max_retries: self.max_retries,
                                retries: self.retries + 1,
                                backoff_secs: self.backoff_secs,
                            },
                        }
                    }
                } else if 500 <= status && status <= 599 {
                    if self.retries >= self.max_retries {
                        Decision::FailWithBody(BodyFailure::ServerFailure { status_text })
                    } else {
                        Decision::Retry { wait_secs: self.backoff_secs, state: self.after_backoff() }
                    }
                } else {
                    Decision::FailWithBody(BodyFailure::UnexpectedStatus { status_text })
                }
            },
        }
    }
}

/// The state in which attempt number `n` is made (counting from 0) when the
/// attempts end as `attempts` says, or `None` if the call is over by then.
pub open spec fn state_before(start: RetryState, attempts: Seq<AttemptView>, n: nat) -> Option<
    RetryState,
>
    decreases n,
{
    if n == 0 {
        Some(start)
    } else {
        match state_before(start, attempts, (n - 1) as nat) {
            Some(state) => match decision_of(state, attempts[n - 1]) {
                DecisionView::Retry { wait_secs, state } => Some(state),
                _ => None,
            },
            None => None,
        }
    }
}

/// The server answered with a status from 500 to 599.
pub open spec fn is_server_failure(attempt: AttemptView) -> bool {
    attempt matches AttemptView::Answered { status, .. } && 500 <= status <= 599
}

/// Each retry is counted: the attempt with number `n` is made with `n`
/// retries used, whatever the earlier attempts came to.
pub proof fn lemma_retries_counted(max_retries: u32, attempts: Seq<AttemptView>, n: nat)
    ensures
        state_before(RetryState::initial(max_retries), attempts, n) matches Some(state) ==> {
            &&& state.retries == n
            &&& state.max_retries == max_retries
            &&& n <= max_retries
        },
    decreases n,
{
    if n > 0 {
        lemma_retries_counted(max_retries, attempts, (n - 1) as nat);
    }
}

/// No call makes more than its retries and one attempt, whatever the
/// attempts come to.
pub proof fn lemma_attempts_bounded(max_retries: u32, attempts: Seq<AttemptView>, n: nat)
    requires
        n > max_retries,
    ensures
        state_before(RetryState::initial(max_retries), attempts, n) is None,
{
    lemma_retries_counted(max_retries, attempts, n);
}

/// While the server keeps failing, every attempt that has a retry left is
/// followed by another.
pub proof fn lemma_server_failures_retried(max_retries: u32, attempts: Seq<AttemptView>, n: nat)
    requires
        n <= max_retries,
        n <= attempts.len(),
        forall|i: int| 0 <= i < attempts.len() ==> is_server_failure(#[trigger] attempts[i]),
    ensures
        state_before(RetryState::initial(max_retries), attempts, n) is Some,
    decreases n,
{
    if n > 0 {
        lemma_server_failures_retried(max_retries, attempts, (n - 1) as nat);
        lemma_retries_counted(max_retries, attempts, (n - 1) as nat);
        assert(is_server_failure(attempts[n - 1]));
    }
}

/// Retry ceiling: against a server that always fails, a call makes exactly
/// its retries and one attempt. The last of them ends the call with a server
/// error. For the three retries that the client allows, that is the fourth
/// attempt.
pub proof fn lemma_retry_ceiling(max_retries: u32, attempts: Seq<AttemptView>)
    requires
        attempts.len() > max_retries,
        forall|i: int| 0 <= i < attempts.len() ==> is_server_failure(#[trigger] attempts[i]),
    ensures
        forall|n: nat|
            n <= max_retries ==> (#[trigger] state_before(
                RetryState::initial(max_retries),
                attempts,
                n,
            )) is Some,
        decision_of(
            state_before(RetryState::initial(max_retries), attempts, max_retries as nat).unwrap(),
            attempts[max_retries as int],
        ) matches DecisionView::FailWithBody(BodyFailureView::ServerFailure { .. }),
        state_before(RetryState::initial(max_retries), attempts, (max_retries + 1) as nat) is None,
{
    assert forall|n: nat| n <= max_retries implies (#[trigger] state_before(
        RetryState::initial(max_retries),
        attempts,
        n,
    )) is Some by {
        lemma_server_failures_retried(max_retries, attempts, n);
    }
    lemma_retries_counted(max_retries, attempts, max_retries as nat);
    assert(is_server_failure(attempts[max_retries as int]));
    lemma_attempts_bounded(max_retries, attempts, (max_retries + 1) as nat);
}

/// Rate-limit compliance: while a retry is left, an answer with status 429
/// whose reset header reads as `seconds` makes the client wait exactly that
/// long before the next attempt, and leaves the backoff as it was.
pub proof fn lemma_rate_limit_wait(
    state: RetryState,
    status_text: Seq<char>,
    reset: Seq<u8>,
    seconds: u64,
)
    requires
        !state.exhausted(),
        decimal_reading(reset, u64::MAX as nat) == Some(seconds as nat),
    ensures
        decision_of(
            state,
            AttemptView::Answered { status: 429, status_text, rate_limit_reset: Some(reset) },
        ) == (DecisionView::Retry { wait_secs: seconds, state: state.rate_limited() }),
{
}

} // verus!

use crate::datetime::{digit_value, is_digit, UtcDateTime};
use crate::error::CliError;
use vstd::prelude::*;

verus! {

/// The orbital element set of one satellite: its name and the two data lines.
#[derive(Debug, Clone, PartialEq, Eq)]
pub struct TleData {
    pub tle0: String,
    pub tle1: String,
    pub tle2: String,
}

/// One tracking job as handed to the scheduling API, without its two
/// frequencies.
#[derive(Debug, Clone, PartialEq, Eq)]
pub struct JobWindow {
    pub start: UtcDateTime,
    pub end: UtcDateTime,
    pub tle: TleData,
}

/// The scheduling API's reply to a submission.
#[derive(Debug, Clone, PartialEq, Eq)]
pub struct ApiResponse {
    pub status: String,
    pub message: Option<String>,
}

/// Where the scheduling API lives and how long a request may take.
#[derive(Debug, Clone, PartialEq, Eq)]
pub struct ClientConfig {
    pub base_url: String,
    pub timeout_seconds: u64,
}

/// A client for the scheduling API, set up once from its configuration.
pub struct ApiClient {
    client: reqwest::Client,
    base_url: String,
}

#[verifier::external_type_specification]
#[verifier::external_body]
pub struct ExReqwestClient(reqwest::Client);

/// `r` is a contiguous part of `s`.
pub open spec fn is_infix_of(r: Seq<char>, s: Seq<char>) -> bool {
    exists|i: int, j: int| 0 <= i <= j <= s.len() && r == s.subrange(i, j)
}

/// What `str::trim` leaves of `s`.
pub uninterp spec fn trimmed(s: Seq<char>) -> Seq<char>;

/// Relies on `str::trim`: the result is `s` with leading and trailing
/// whitespace removed, so a contiguous part of `s`.
#[verifier::external_body]
fn trim_text(s: &str) -> (r: String)
    ensures
        r@ == trimmed(s@),
        is_infix_of(r@, s@),
{
    s.trim().to_string()
}

/// The value of a run of decimal digits.
pub open spec fn digits_value(s: Seq<char>) -> int
    decreases s.len(),
{
    if s.len() == 0 {
        0
    } else {
        10 * digits_value(s.drop_last()) + digit_value(s.last())
    }
}

/// What `u64::from_str` reads: an optional `+` followed by at least one
/// decimal digit and nothing else, whose value fits in a `u64`.
pub open spec fn u64_from_text(s: Seq<char>) -> Option<u64> {
    let d = if s.len() > 0 && s[0] == '+' {
        s.drop_first()
    } else {
        s
    };
    if d.len() > 0 && (forall|i: int| 0 <= i < d.len() ==> is_digit(#[trigger] d[i]))
        && digits_value(d) <= u64::MAX {
        Some(digits_value(d) as u64)
    } else {
        None
    }
}

/// Relies on std's `u64::from_str` (`str::parse::<u64>`): it accepts exactly
/// an optional `+` sign followed by decimal digits whose value fits.
#[verifier::external_body]
fn parse_u64(s: &str) -> (r: Option<u64>)
    ensures
        r == u64_from_text(s@),
{
    s.parse::<u64>().ok()
}

/// Relies on reqwest's `ClientBuilder::build`, with the request timeout set
/// through `ClientBuilder::timeout`; a failure is returned as its text.
#[verifier::external_body]
fn build_http_client(timeout_seconds: u64) -> (r: Result<reqwest::Client, String>) {
    reqwest::Client::builder().timeout(std::time::Duration::from_secs(timeout_seconds)).build().map_err(
        |e| e.to_string(),
    )
}

pub open spec fn default_base_url() -> Seq<char> {
    "http://localhost:3000"@
}

pub open spec fn default_timeout_seconds() -> u64 {
    30
}

/// The base URL a configuration takes from the value of `API_BASE_URL`.
pub open spec fn base_url_from(v: Option<Seq<char>>) -> Seq<char> {
    match v {
        Some(u) => u,
        None => default_base_url(),
    }
}

/// The timeout a configuration takes from the value of `API_TIMEOUT_SECONDS`:
/// the number it holds, or the default when it is unset or not a number.
pub open spec fn timeout_from(v: Option<Seq<char>>) -> u64 {
    match v {
        Some(t) => match u64_from_text(t) {
            Some(n) => n,
            None => default_timeout_seconds(),
        },
        None => default_timeout_seconds(),
    }
}

pub open spec fn opt_view(v: Option<String>) -> Option<Seq<char>> {
    match v {
        Some(s) => Some(s@),
        None => None,
    }
}

/// A 2xx status code.
pub open spec fn is_success_status(status: u16) -> bool {
    200 <= status <= 299
}

impl TleData {
    /// Builds an element set from the operator's raw text, trimming each
    /// field; no other check is made.
    pub fn from_input(name: &str, line1: &str, line2: &str) -> (r: TleData)
        ensures
            r.tle0@ == trimmed(name@),
            r.tle1@ == trimmed(line1@),
            r.tle2@ == trimmed(line2@),
    {
        TleData { tle0: trim_text(name), tle1: trim_text(line1), tle2: trim_text(line2) }
    }
}

impl JobWindow {
    /// Packages the collected fields; no check is made, not even that the
    /// window starts before it ends.
    pub fn new(start: UtcDateTime, end: UtcDateTime, tle: TleData) -> (r: JobWindow)
        ensures
            r.start == start,
            r.end == end,
            r.tle == tle,
    {
        JobWindow { start, end, tle }
    }
}

impl ApiResponse {
    /// The line shown to the operator after an accepted submission.
    pub fn success_line(&self) -> (r: String)
        ensures
            r@ == "Job submitted successfully: "@ + self.status@,
    {
        String::from_str("Job submitted successfully: ").concat(self.status.as_str())
    }
}

impl ClientConfig {
    /// The configuration given the values of `API_BASE_URL` and
    /// `API_TIMEOUT_SECONDS`, `None` where a variable is unset.
    pub fn from_env_values(base_url_var: Option<String>, timeout_var: Option<String>) -> (r:
        ClientConfig)
        ensures
            r.base_url@ == base_url_from(opt_view(base_url_var)),
            r.timeout_seconds == timeout_from(opt_view(timeout_var)),
    {
        let base_url = match base_url_var {
            Some(u) => u,
            None => String::from_str("http://localhost:3000"),
        };
        let timeout_seconds: u64 = match timeout_var {
            Some(t) => match parse_u64(t.as_str()) {
                Some(n) => n,
                None => 30,
            },
            None => 30,
        };
        ClientConfig { base_url, timeout_seconds }
    }
}

impl ApiClient {
    pub closed spec fn base_url_spec(&self) -> Seq<char> {
        self.base_url@
    }

    /// Sets the client up from the values of `API_BASE_URL` and
    /// `API_TIMEOUT_SECONDS` (`None` where unset). Only the HTTP layer can
    /// refuse, and then the error is a `ConfigurationError`.
    pub fn new(base_url_var: Option<String>, timeout_var: Option<String>) -> (r: Result<
        ApiClient,
        CliError,
    >)
        ensures
            r matches Ok(c) ==> c.base_url_spec() == base_url_from(opt_view(base_url_var)),
            r matches Err(e) ==> e is ConfigurationError,
    {
        let config = ClientConfig::from_env_values(base_url_var, timeout_var);
        match build_http_client(config.timeout_seconds) {
            Ok(client) => Ok(ApiClient { client, base_url: config.base_url }),
            Err(e) => Err(CliError::ConfigurationError(e)),
        }
    }

    /// The base URL the client was set up with.
    pub fn base_url(&self) -> (r: &String)
        ensures
            r@ == self.base_url_spec(),
    {
        &self.base_url
    }

    /// The address jobs are posted to.
    pub fn jobs_url(&self) -> (r: String)
        ensures
            r@ == self.base_url_spec() + "/jobs"@,
    {
        self.base_url.clone().concat("/jobs")
    }

    /// The HTTP client requests go through.
    pub fn http(&self) -> &reqwest::Client {
        &self.client
    }
}

/// Decides the outcome of a submission from the reply's status code, the
/// text describing that status, and the outcome of reading the reply body.
/// A non-success status fails with an `HttpError` whatever the body holds.
pub fn reply_outcome(status: u16, status_text: String, body: Result<ApiResponse, String>) -> (r:
    Result<ApiResponse, CliError>)
    ensures
        !is_success_status(status) ==> r == Err::<ApiResponse, CliError>(
            CliError::HttpError(status_text),
        ),
        is_success_status(status) ==> match body {
            Ok(b) => r == Ok::<ApiResponse, CliError>(b),
            Err(e) => r == Err::<ApiResponse, CliError>(CliError::HttpError(e)),
        },
{
    if status < 200 || status > 299 {
        Err(CliError::HttpError(status_text))
    } else {
        match body {
            Ok(b) => Ok(b),
            Err(e) => Err(CliError::HttpError(e)),
        }
    }
}

} // verus!

//! The request for a user's assigned open issues, and the failures a fetch
//! can end in.

use vstd::prelude::*;
use crate::models::GetIssueError;

verus! {

pub const ISSUES_PATH: &'static str = "/issues?filter=assigned&state=open";
pub const USER_AGENT_HEADER: &'static str = "User-Agent";
pub const USER_AGENT_VALUE: &'static str = "reqwest";
pub const ACCEPT_HEADER: &'static str = "Accept";
pub const ACCEPT_VALUE: &'static str = "application/vnd.github+json";
pub const AUTHORIZATION_HEADER: &'static str = "Authorization";
pub const BEARER_PREFIX: &'static str = "Bearer ";
pub const TRANSPORT_PREFIX: &'static str = "Fetch Issues Error: ";
pub const BAD_STATUS_PREFIX: &'static str = "status code is not 200: ";
pub const PARSE_PREFIX: &'static str = "Parse Issues Error: ";

/// The text that an HTTP status code displays as: the code and its reason phrase.
pub uninterp spec fn status_text_of(code: u16) -> Seq<char>;

/// Relies on reqwest's `StatusCode` (the http crate's): `from_u16` accepts
/// every code from 100 to 999, and `Display` renders the code with its reason
/// phrase, a function of the code alone.
#[verifier::external_body]
pub(crate) fn status_display(code: u16) -> (r: String)
    requires
        100 <= code <= 999,
    ensures
        r@ == status_text_of(code),
{
    match reqwest::StatusCode::from_u16(code) {
        Ok(status) => status.to_string(),
        Err(err) => err.to_string(),
    }
}

/// How a fetch of issues failed.
#[derive(Debug, Clone, PartialEq, Eq)]
pub enum FetchError {
    /// The request did not complete; the text describes why.
    Transport(String),
    /// The response's status code was not 200.
    BadStatus(u16),
    /// The body did not decode into issues; the text describes why.
    ParseFailure(String),
}

impl FetchError {
    /// A status code carried by an error is a valid HTTP status code.
    pub open spec fn wf(&self) -> bool {
        self matches FetchError::BadStatus(code) ==> 100 <= *code <= 999
    }

    /// The text that a notification shows for this error.
    pub open spec fn message_spec(&self) -> Seq<char> {
        match self {
            FetchError::Transport(detail) => TRANSPORT_PREFIX@ + detail@,
            FetchError::BadStatus(code) => BAD_STATUS_PREFIX@ + status_text_of(*code),
            FetchError::ParseFailure(detail) => PARSE_PREFIX@ + detail@,
        }
    }

    /// The text that a notification shows for this error.
    pub fn message(&self) -> (r: String)
        requires
            self.wf(),
        ensures
            r@ == self.message_spec(),
    {
        match self {
            FetchError::Transport(detail) => {
                let mut r = String::from_str(TRANSPORT_PREFIX);
                r.append(detail.as_str());
                r
            },
            FetchError::BadStatus(code) => {
                let mut r = String::from_str(BAD_STATUS_PREFIX);
                let status = status_display(*code);
                r.append(status.as_str());
                r
            },
            FetchError::ParseFailure(detail) => {
                let mut r = String::from_str(PARSE_PREFIX);
                r.append(detail.as_str());
                r
            },
        }
    }

    /// The error as the rest of the pipeline carries it: its message.
    pub fn into_issue_error(self) -> (r: GetIssueError)
        requires
            self.wf(),
        ensures
            r@ == self.message_spec(),
    {
        GetIssueError { message: self.message() }
    }
}

/// Decides on a response's status code: only 200 goes on to decoding.
pub fn check_status(status: u16) -> (r: Result<(), FetchError>)
    requires
        100 <= status <= 999,
    ensures
        r is Ok <==> status == 200,
        r is Err ==> r == Err::<(), FetchError>(FetchError::BadStatus(status)),
        r matches Err(e) ==> e.wf(),
{
    if status == 200 {
        Ok(())
    } else {
        Err(FetchError::BadStatus(status))
    }
}

/// What to send for the issues: the address and the headers, in order.
pub struct IssuesRequest {
    pub url: String,
    pub headers: Vec<(String, String)>,
}

/// The headers of an issues request made with `token`.
pub open spec fn issues_headers(token: Seq<char>) -> Seq<(Seq<char>, Seq<char>)> {
    seq![
        (USER_AGENT_HEADER@, USER_AGENT_VALUE@),
        (ACCEPT_HEADER@, ACCEPT_VALUE@),
        (AUTHORIZATION_HEADER@, BEARER_PREFIX@ + token),
    ]
}

/// The GET request for the assigned open issues of the token's owner, on the
/// API at `api_addr`.
pub fn issues_request(api_addr: &str, token: &str) -> (r: IssuesRequest)
    ensures
        r.url@ == api_addr@ + ISSUES_PATH@,
        r.headers@.map_values(|h: (String, String)| (h.0@, h.1@)) == issues_headers(token@),
{
    let mut url = String::from_str(api_addr);
    url.append(ISSUES_PATH);
    let mut bearer = String::from_str(BEARER_PREFIX);
    bearer.append(token);
    let mut headers: Vec<(String, String)> = Vec::new();
    headers.push((String::from_str(USER_AGENT_HEADER), String::from_str(USER_AGENT_VALUE)));
    headers.push((String::from_str(ACCEPT_HEADER), String::from_str(ACCEPT_VALUE)));
    headers.push((String::from_str(AUTHORIZATION_HEADER), bearer));
    let r = IssuesRequest { url, headers };
    assert(r.headers@.map_values(|h: (String, String)| (h.0@, h.1@)) =~= issues_headers(token@));
    r
}

} // verus!

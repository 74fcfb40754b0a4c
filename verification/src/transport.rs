//! What the adapter asks of the transport and what the transport answers: requests and
//! their outcomes as plain values. Sending a request is the caller's part.

use vstd::prelude::*;
use vstd::string::StringExecFns;
use crate::error::{FailureModel, TransportFailure};
use crate::text::{decimal, push_decimal};

verus! {

/// The method of a request.
#[derive(Debug, Clone, Copy, PartialEq, Eq, Structural)]
pub enum HttpMethod {
    Get,
    Post,
}

/// A request for the transport to send.
#[derive(Debug)]
pub struct HttpRequest {
    pub method: HttpMethod,
    /// The address, without the parameters of `query`.
    pub url: String,
    /// The parameters to append to the address, each a name and its value, in their order.
    pub query: Vec<(String, String)>,
    /// The user and the password for basic authentication.
    pub basic_auth: Option<(String, String)>,
    /// The headers, each a name and its value, in their order.
    pub headers: Vec<(String, String)>,
    pub body: Option<String>,
}

/// How a request ended.
#[derive(Debug)]
pub enum HttpOutcome {
    /// No response arrived; what the transport reports of the failure.
    SendFailed(TransportFailure),
    /// A response arrived with this status. `body` holds its text, or what the transport
    /// reports of why the text could not be read.
    Response { status: u16, body: Result<String, TransportFailure> },
}

/// The model of an [`HttpRequest`].
pub struct RequestModel {
    pub method: HttpMethod,
    pub url: Seq<char>,
    pub query: Seq<(Seq<char>, Seq<char>)>,
    pub basic_auth: Option<(Seq<char>, Seq<char>)>,
    pub headers: Seq<(Seq<char>, Seq<char>)>,
    pub body: Option<Seq<char>>,
}

impl DeepView for HttpRequest {
    type V = RequestModel;

    open spec fn deep_view(&self) -> RequestModel {
        RequestModel {
            method: self.method,
            url: self.url@,
            query: self.query.deep_view(),
            basic_auth: self.basic_auth.deep_view(),
            headers: self.headers.deep_view(),
            body: self.body.deep_view(),
        }
    }
}

/// The model of an [`HttpOutcome`].
pub enum OutcomeModel {
    SendFailed(FailureModel),
    Response { status: u16, body: Result<Seq<char>, FailureModel> },
}

impl DeepView for HttpOutcome {
    type V = OutcomeModel;

    open spec fn deep_view(&self) -> OutcomeModel {
        match self {
            HttpOutcome::SendFailed(failure) => OutcomeModel::SendFailed(failure.deep_view()),
            HttpOutcome::Response { status, body } => OutcomeModel::Response {
                status: *status,
                body: match body {
                    Ok(text) => Ok(text@),
                    Err(failure) => Err(failure.deep_view()),
                },
            },
        }
    }
}

/// Whether `status` tells of success: it lies from 200 up to 299.
pub open spec fn status_is_success(status: u16) -> bool {
    200 <= status < 300
}

/// The standard reason phrase of a status, where it has one.
pub uninterp spec fn reason_phrase(status: u16) -> Option<Seq<char>>;

/// How a status with the reason phrase `phrase` reads: its number, a space, and the phrase
/// or a note that none is known.
pub open spec fn status_line_with(status: u16, phrase: Option<Seq<char>>) -> Seq<char> {
    decimal(status as nat) + " "@ + match phrase {
        Some(phrase) => phrase,
        None => "<unknown status code>"@,
    }
}

/// How a status reads, with its standard reason phrase.
pub open spec fn status_line(status: u16) -> Seq<char> {
    status_line_with(status, reason_phrase(status))
}

/// Looks up the reason phrase of `status` by `reqwest::StatusCode::canonical_reason`, for
/// which the number is first made a `StatusCode`. The phrase depends on the number alone;
/// there is none where the number is no status code or the code has no standard phrase.
#[verifier::external_body]
fn canonical_reason(status: u16) -> (r: Option<&'static str>)
    ensures
        match r {
            Some(phrase) => reason_phrase(status) == Some(phrase@),
            None => reason_phrase(status) is None,
        },
{
    match reqwest::StatusCode::from_u16(status) {
        Ok(code) => code.canonical_reason(),
        Err(_) => None,
    }
}

/// Tells whether `status` tells of success.
pub fn is_success(status: u16) -> (ok: bool)
    ensures
        ok == status_is_success(status),
{
    200 <= status && status < 300
}

/// Writes a status with the reason phrase `phrase` as text.
pub fn status_text_with(status: u16, phrase: Option<&str>) -> (r: String)
    ensures
        r@ == status_line_with(status, phrase.deep_view()),
{
    let mut r = String::new();
    push_decimal(&mut r, status as u64);
    r.append(" ");
    match phrase {
        Some(phrase) => r.append(phrase),
        None => r.append("<unknown status code>"),
    }
    proof {
        assert(Seq::<char>::empty() + decimal(status as nat) =~= decimal(status as nat));
    }
    r
}

/// Writes a status as text: its number, a space, and its standard reason phrase.
pub fn status_text(status: u16) -> (r: String)
    ensures
        r@ == status_line(status),
{
    status_text_with(status, canonical_reason(status))
}

} // verus!

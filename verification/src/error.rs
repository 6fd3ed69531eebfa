//! The one error of every route, and the answer that it is given over HTTP.
use crate::decimal::{integer_text, u64_text};
use crate::json::{json_quoted, quote_json};
use crate::proof_service::{ProofServiceError, ProofServiceErrorView};
use crate::soroban_client::{SorobanError, SorobanErrorView};
use vstd::prelude::*;
use vstd::string::*;

verus! {

/// Why a request was not served.
#[derive(Debug)]
pub enum AppError {
    BadRequest(String),
    NotFound(String),
    Conflict(String),
    Soroban(SorobanError),
    Proof(ProofServiceError),
    /// What the database says.
    Db(String),
    /// What anything else says.
    Other(String),
}

/// An `AppError` with its texts as characters.
pub enum AppErrorView {
    BadRequest(Seq<char>),
    NotFound(Seq<char>),
    Conflict(Seq<char>),
    Soroban(SorobanErrorView),
    Proof(ProofServiceErrorView),
    Db(Seq<char>),
    Other(Seq<char>),
}

impl View for AppError {
    type V = AppErrorView;

    open spec fn view(&self) -> AppErrorView {
        match self {
            AppError::BadRequest(m) => AppErrorView::BadRequest(m@),
            AppError::NotFound(m) => AppErrorView::NotFound(m@),
            AppError::Conflict(m) => AppErrorView::Conflict(m@),
            AppError::Soroban(e) => AppErrorView::Soroban(e@),
            AppError::Proof(e) => AppErrorView::Proof(e@),
            AppError::Db(m) => AppErrorView::Db(m@),
            AppError::Other(m) => AppErrorView::Other(m@),
        }
    }
}

impl AppErrorView {
    /// What the error says.
    pub open spec fn text(self) -> Seq<char> {
        match self {
            AppErrorView::BadRequest(m) => m,
            AppErrorView::NotFound(m) => "not found: "@ + m,
            AppErrorView::Conflict(m) => "conflict: "@ + m,
            AppErrorView::Soroban(e) => e.text(),
            AppErrorView::Proof(e) => e.text(),
            AppErrorView::Db(m) => m,
            AppErrorView::Other(m) => m,
        }
    }

    /// The HTTP status of the answer.
    pub open spec fn status(self) -> u16 {
        match self {
            AppErrorView::BadRequest(_) => 400,
            AppErrorView::NotFound(_) => 404,
            AppErrorView::Conflict(_) => 409,
            AppErrorView::Soroban(SorobanErrorView::Contract { .. }) => 422,
            AppErrorView::Soroban(_) => 502,
            AppErrorView::Proof(ProofServiceErrorView::Unavailable(_)) => 503,
            AppErrorView::Proof(_) => 422,
            AppErrorView::Db(_) => 500,
            AppErrorView::Other(_) => 500,
        }
    }

    /// What the answer tells the caller. What the network, the database or anything unforeseen
    /// says stays inside.
    pub open spec fn answer(self) -> Seq<char> {
        match self {
            AppErrorView::BadRequest(m) => m,
            AppErrorView::NotFound(m) => m,
            AppErrorView::Conflict(m) => m,
            AppErrorView::Soroban(SorobanErrorView::Contract { code, name }) =>
                "on-chain call rejected: "@ + name + " (contract error #"@ + integer_text(
                    code as int,
                ) + ")"@,
            AppErrorView::Soroban(_) => "failed to reach the Soroban network"@,
            AppErrorView::Proof(ProofServiceErrorView::Unavailable(m)) => m,
            AppErrorView::Proof(e) => "proof generation failed: "@ + e.text(),
            AppErrorView::Db(_) => "internal database error"@,
            AppErrorView::Other(_) => "internal server error"@,
        }
    }

    /// The JSON body of the answer.
    pub open spec fn body(self) -> Seq<char> {
        "{\"error\":"@ + json_quoted(self.answer()) + "}"@
    }
}

/// An answer over HTTP: its status and its JSON body.
#[derive(Debug)]
pub struct ErrorResponse {
    pub status: u16,
    pub body: String,
}

impl AppError {
    /// What the error says.
    pub fn message(&self) -> (r: String)
        ensures
            r@ == self@.text(),
    {
        match self {
            AppError::BadRequest(m) => m.as_str().to_owned(),
            AppError::NotFound(m) => {
                let mut out = "not found: ".to_owned();
                out.append(m.as_str());
                out
            },
            AppError::Conflict(m) => {
                let mut out = "conflict: ".to_owned();
                out.append(m.as_str());
                out
            },
            AppError::Soroban(e) => e.message(),
            AppError::Proof(e) => e.message(),
            AppError::Db(m) => m.as_str().to_owned(),
            AppError::Other(m) => m.as_str().to_owned(),
        }
    }

    /// The HTTP status of the answer and what the answer tells the caller.
    pub fn status_and_answer(&self) -> (r: (u16, String))
        ensures
            r.0 == self@.status(),
            r.1@ == self@.answer(),
    {
        match self {
            AppError::BadRequest(m) => (400, m.as_str().to_owned()),
            AppError::NotFound(m) => (404, m.as_str().to_owned()),
            AppError::Conflict(m) => (409, m.as_str().to_owned()),
            AppError::Soroban(SorobanError::Contract { code, name }) => {
                let mut out = "on-chain call rejected: ".to_owned();
                out.append(name);
                out.append(" (contract error #");
                out.append(u64_text(*code as u64).as_str());
                out.append(")");
                (422, out)
            },
            AppError::Soroban(_) => (502, "failed to reach the Soroban network".to_owned()),
            AppError::Proof(ProofServiceError::Unavailable(m)) => (503, m.as_str().to_owned()),
            AppError::Proof(e) => {
                let mut out = "proof generation failed: ".to_owned();
                out.append(e.message().as_str());
                (422, out)
            },
            AppError::Db(_) => (500, "internal database error".to_owned()),
            AppError::Other(_) => (500, "internal server error".to_owned()),
        }
    }

    /// The answer over HTTP.
    pub fn into_response(&self) -> (r: ErrorResponse)
        ensures
            r.status == self@.status(),
            r.body@ == self@.body(),
    {
        let (status, answer) = self.status_and_answer();
        let mut body = "{\"error\":".to_owned();
        body.append(quote_json(answer.as_str()).as_str());
        body.append("}");
        ErrorResponse { status, body }
    }
}

// ---------------------------------------------------------------------
// Laws of the answers
// ---------------------------------------------------------------------
/// Every answer to an error is a refusal of the request or a failure of the service.
pub proof fn every_error_is_refused(e: AppErrorView)
    ensures
        400 <= e.status() < 600,
{
}

/// What the database or anything unforeseen says never reaches the caller: the answer is the same
/// whatever it was.
pub proof fn internals_stay_inside(e: AppErrorView, f: AppErrorView)
    requires
        e is Db && f is Db || e is Other && f is Other || e is Soroban && f is Soroban && e.status()
            == 502 && f.status() == 502,
    ensures
        e.status() == f.status(),
        e.body() == f.body(),
{
}

/// Where there is no prover the answer is 503, and there is no other way to that answer.
pub proof fn unavailable_is_503(e: AppErrorView)
    ensures
        e.status() == 503 <==> (e matches AppErrorView::Proof(p) && p is Unavailable),
{
}

} // verus!

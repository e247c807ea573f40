//! The error classifier: every failed operation is mapped to exactly one of
//! two kinds — the requested token does not exist on-chain, or the chain
//! could not be reached — and each kind renders to a fixed HTTP response
//! shape.

use vstd::prelude::*;
use vstd::string::StringExecFns;

verus! {

/// A classified failure of a gateway operation. The payload is the
/// description of the underlying remote failure.
#[derive(Clone, Debug)]
pub enum CustomResponseErrors {
    /// A specific ownership lookup returned no result: the token does not
    /// exist (or was burned). Rendered as HTTP 404.
    InvalidToken(String),
    /// The transport session or a collection-wide contract call failed:
    /// the chain is unreachable. Rendered as HTTP 500.
    ConnectionProblems(String),
}

/// The fixed description used when a transport session cannot be opened.
pub open spec fn connection_failure_detail() -> Seq<char> {
    "Connection problems to the blockchain"@
}

/// The fixed JSON shape every classified error renders to.
#[derive(Clone, Debug)]
pub struct ErrorResponse {
    pub code: u16,
    pub error: String,
    pub message: String,
}

impl CustomResponseErrors {
    /// The description of the underlying failure, whichever kind holds it.
    pub open spec fn detail(&self) -> Seq<char> {
        match self {
            CustomResponseErrors::InvalidToken(d) => d@,
            CustomResponseErrors::ConnectionProblems(d) => d@,
        }
    }

    /// The HTTP status each kind renders to: a missing token is the
    /// client's mistake, an unreachable chain is the server's.
    pub open spec fn status_spec(&self) -> u16 {
        match self {
            CustomResponseErrors::InvalidToken(_) => 404,
            CustomResponseErrors::ConnectionProblems(_) => 500,
        }
    }

    /// The canonical phrase of the status, as the response's `message`.
    pub open spec fn message_spec(&self) -> Seq<char> {
        match self {
            CustomResponseErrors::InvalidToken(_) => "404 Not Found"@,
            CustomResponseErrors::ConnectionProblems(_) => "500 Internal Server Error"@,
        }
    }

    /// The description of the underlying failure.
    pub fn name(&self) -> (r: String)
        ensures
            r@ == self.detail(),
    {
        match self {
            CustomResponseErrors::InvalidToken(d) => d.clone(),
            CustomResponseErrors::ConnectionProblems(d) => d.clone(),
        }
    }

    /// The HTTP status code of this classification.
    pub fn status_code(&self) -> (r: u16)
        ensures
            r == self.status_spec(),
    {
        match self {
            CustomResponseErrors::InvalidToken(_) => 404,
            CustomResponseErrors::ConnectionProblems(_) => 500,
        }
    }

    /// The canonical phrase of this classification's status.
    pub fn message(&self) -> (r: String)
        ensures
            r@ == self.message_spec(),
    {
        match self {
            CustomResponseErrors::InvalidToken(_) => String::from_str("404 Not Found"),
            CustomResponseErrors::ConnectionProblems(_) => String::from_str("500 Internal Server Error"),
        }
    }

    /// Render the classification to the fixed response shape: the numeric
    /// status, the underlying failure's description, and the status's
    /// canonical phrase.
    pub fn error_response(&self) -> (r: ErrorResponse)
        ensures
            r.code == self.status_spec(),
            r.error@ == self.detail(),
            r.message@ == self.message_spec(),
    {
        ErrorResponse {
            code: self.status_code(),
            error: self.name(),
            message: self.message(),
        }
    }

    /// The error every operation reports when its transport session cannot
    /// be opened.
    pub fn session_failure() -> (r: CustomResponseErrors)
        ensures
            r matches CustomResponseErrors::ConnectionProblems(d) && d@ == connection_failure_detail(),
    {
        CustomResponseErrors::ConnectionProblems(String::from_str("Connection problems to the blockchain"))
    }
}

} // verus!

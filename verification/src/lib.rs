//! A read-only gateway from HTTP requests to sequential smart-contract
//! calls: it plans the exact remote calls each operation needs, folds the
//! answers into response records, and classifies every failure as either a
//! missing token or an unreachable chain.
//!
//! The remote calls themselves (an RPC transport and an HTTP server) are
//! the surrounding program's business; this crate decides which call comes
//! next, what each answer means, and what the response must look like.

use vstd::prelude::*;

pub mod errors;
pub mod get_token;
pub mod laws;
pub mod list_tokens;
pub mod local_accounts;
pub mod types;

verus! {

/// Body of the root route: a fixed greeting, produced without any remote
/// call.
pub fn index_body() -> (r: &'static str)
    ensures
        r@ == "{\"Hello\":\"World!\"}"@,
{
    "{\"Hello\":\"World!\"}"
}

} // verus!

//! Laws the gateway obeys, stated once over the spec functions that the
//! operations' own contracts use, and proved here for every input.

use vstd::prelude::*;

use crate::errors::CustomResponseErrors;
use crate::get_token::GetTokenFlow;
use crate::list_tokens::{first_scanned_id_spec, ListTokensFlow};
use crate::types::{TokenDetail, TokenListing, Uint256};

verus! {

/// A listing scans exactly `limit` consecutive token ids, starting at
/// `(page - 1) * limit + 1`, strictly ascending, with no gaps or repeats:
/// the i-th scanned id is the first one plus i.
pub proof fn lemma_scan_window_exact(f: ListTokensFlow)
    requires
        f.wf(),
    ensures
        f.ids@.len() == f.limit,
        forall|i: int| 0 <= i < f.ids@.len()
            ==> f.ids@[i] == first_scanned_id_spec(f.page, f.limit) + i,
        forall|i: int, j: int| 0 <= i < j < f.ids@.len() ==> f.ids@[i] < f.ids@[j],
{
}

/// A failed ownership lookup anywhere in the scanned window fails the
/// whole listing as an invalid token, and the error carries no records:
/// there is no partial listing.
pub proof fn lemma_listing_fails_whole(f: ListTokensFlow, d: String)
    requires
        f.wf(),
        f.failed == Some(CustomResponseErrors::InvalidToken(d)),
    ensures
        f.result_spec() == Err::<TokenListing, CustomResponseErrors>(
            CustomResponseErrors::InvalidToken(d),
        ),
        f.result_spec() matches Err(e) && e.status_spec() == 404,
{
}

/// The owner of a successful single-token lookup is exactly the address
/// the ownership lookup returned, unmodified.
pub proof fn lemma_detail_owner_unmodified(f: GetTokenFlow, d: TokenDetail)
    requires
        f.ok_detail(d),
    ensures
        f.owner == Some(d.owner),
        f.failed is None,
{
}

/// A missing token renders as HTTP 404, and the response's `error` field
/// is the underlying lookup failure's description.
pub proof fn lemma_invalid_token_renders_not_found(d: String)
    ensures
        (CustomResponseErrors::InvalidToken(d)).status_spec() == 404,
        (CustomResponseErrors::InvalidToken(d)).detail() == d@,
{
}

/// A transport or session failure renders as HTTP 500 and is classified as
/// a connection problem, never as an invalid token.
pub proof fn lemma_connection_problem_renders_server_error(d: String)
    ensures
        (CustomResponseErrors::ConnectionProblems(d)).status_spec() == 500,
        (CustomResponseErrors::ConnectionProblems(d)).detail() == d@,
        !((CustomResponseErrors::ConnectionProblems(d)) is InvalidToken),
{
}

/// The listing and the single-token lookup report the same total supply
/// whenever they observed the same `totalSupply` answer: neither caches
/// nor reshapes the value.
pub proof fn lemma_total_supply_round_trip(
    lf: ListTokensFlow,
    tf: GetTokenFlow,
    s: Uint256,
    l: TokenListing,
    d: TokenDetail,
)
    requires
        lf.wf(),
        lf.failed is None,
        lf.total_supply == Some(s),
        lf.result_spec() == Ok::<TokenListing, CustomResponseErrors>(l),
        tf.total_supply == Some(s),
        tf.ok_detail(d),
    ensures
        l.total_supply == d.total_supply,
        l.total_supply == s,
{
}

} // verus!

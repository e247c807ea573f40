//! The paginated listing operation: compute the exact window of token ids a
//! page covers, then walk it in strictly ascending order, one ownership
//! lookup per id, failing the whole page as soon as one lookup fails.
//!
//! The remote calls are issued by the surrounding program; `ListTokensFlow`
//! decides which call comes next and folds each answer into the listing.

use vstd::prelude::*;

use crate::errors::{connection_failure_detail, CustomResponseErrors};
use crate::types::{Address, Pagination, TokenListing, TokenRecord, Uint256};

verus! {

/// The first token id of the requested page: page 1 starts at id 1, and
/// each page covers `limit` consecutive ids.
pub open spec fn first_scanned_id_spec(page: u32, limit: u32) -> int {
    (page - 1) * limit + 1
}

/// Every product of two 32-bit factors, plus one of them and one more,
/// stays within 64 bits, so the window arithmetic cannot overflow.
proof fn lemma_window_fits_u64(page: u32, limit: u32)
    requires
        page >= 1,
    ensures
        0 < first_scanned_id_spec(page, limit),
        first_scanned_id_spec(page, limit) + limit <= u64::MAX,
{
    assert((page - 1) * limit <= 0xffff_ffff * 0xffff_ffff) by (nonlinear_arith)
        requires 1 <= page <= 0xffff_ffff && limit <= 0xffff_ffff;
    assert((page - 1) * limit >= 0) by (nonlinear_arith)
        requires page >= 1;
}

/// The first token id of the requested page.
pub fn first_scanned_id(page: u32, limit: u32) -> (r: u64)
    requires
        page >= 1,
    ensures
        r == first_scanned_id_spec(page, limit),
        r + limit <= u64::MAX,
{
    proof {
        lemma_window_fits_u64(page, limit);
    }
    ((page - 1) as u64) * (limit as u64) + 1
}

/// The token ids the requested page scans: exactly `limit` consecutive
/// ids, strictly ascending, starting at `(page - 1) * limit + 1`.
pub fn scan_ids(page: u32, limit: u32) -> (ids: Vec<u64>)
    requires
        page >= 1,
    ensures
        ids@.len() == limit,
        forall|i: int| 0 <= i < ids@.len() ==> ids@[i] == first_scanned_id_spec(page, limit) + i,
        forall|i: int, j: int| 0 <= i < j < ids@.len() ==> ids@[i] < ids@[j],
{
    let first = first_scanned_id(page, limit);
    let mut ids: Vec<u64> = Vec::new();
    let mut k: u32 = 0;
    while k < limit
        invariant
            k <= limit,
            first == first_scanned_id_spec(page, limit),
            first + limit <= u64::MAX,
            ids@.len() == k,
            forall|i: int| 0 <= i < k ==> ids@[i] == first + i,
        decreases limit - k,
    {
        ids.push(first + k as u64);
        k = k + 1;
    }
    ids
}

/// The next remote call a listing needs, or the news that it is finished.
#[derive(Clone, Copy, PartialEq, Eq, Structural, Debug)]
pub enum ListAction {
    /// Open a transport session to the public RPC endpoint.
    OpenSession,
    /// Call the contract's `totalSupply` method (no arguments).
    QueryTotalSupply,
    /// Call the contract's `ownerOf` method with the given token id.
    QueryOwnerOf(u64),
    /// No further call: the result can be taken.
    Finished,
}

/// One paginated listing in progress. The flow tells its driver which call
/// to issue next (`next_action`), takes each answer (`on_session`,
/// `on_total_supply`, `on_owner`), and finally yields the listing or a
/// classified error (`into_result`).
pub struct ListTokensFlow {
    /// The requested page, numbered from 1.
    pub page: u32,
    /// How many ids the page covers.
    pub limit: u32,
    /// The ids the page scans, precomputed in ascending order.
    pub ids: Vec<u64>,
    /// Whether the transport session has been opened.
    pub session_open: bool,
    /// The collection's total supply, once queried.
    pub total_supply: Option<Uint256>,
    /// How many ids have been resolved so far.
    pub next: usize,
    /// One record per resolved id, in the order queried.
    pub tokens: Vec<TokenRecord>,
    /// The classification of the first failure, if one has happened.
    pub failed: Option<CustomResponseErrors>,
}

impl ListTokensFlow {
    /// Well-formedness: the id window matches the page arithmetic, and the
    /// collected records track the resolved prefix of the window.
    pub open spec fn wf(&self) -> bool {
        &&& self.ids@.len() == self.limit
        &&& (forall|i: int| 0 <= i < self.ids@.len()
                ==> self.ids@[i] == first_scanned_id_spec(self.page, self.limit) + i)
        &&& self.next <= self.ids@.len()
        &&& self.tokens@.len() == self.next
        &&& (forall|i: int| 0 <= i < self.tokens@.len()
                ==> self.tokens@[i].token_id == Uint256::spec_from_u64(self.ids@[i]))
        &&& (!self.session_open ==> self.total_supply is None)
        &&& (self.total_supply is None ==> self.next == 0)
    }

    /// Whether the operation has run its course, by failure or completion.
    pub open spec fn done_spec(&self) -> bool {
        self.failed is Some || (self.total_supply is Some && self.next == self.ids@.len())
    }

    /// The call the driver must issue next.
    pub open spec fn pending_spec(&self) -> ListAction {
        if self.failed is Some {
            ListAction::Finished
        } else if !self.session_open {
            ListAction::OpenSession
        } else if self.total_supply is None {
            ListAction::QueryTotalSupply
        } else if self.next < self.ids@.len() {
            ListAction::QueryOwnerOf(self.ids@[self.next as int])
        } else {
            ListAction::Finished
        }
    }

    /// What the operation yields once done: the first failure, or the
    /// fully collected listing with the supply fetched at the start.
    pub open spec fn result_spec(&self) -> Result<TokenListing, CustomResponseErrors>
        recommends
            self.done_spec(),
    {
        match self.failed {
            Some(e) => Err(e),
            None => Ok(TokenListing {
                tokens: self.tokens,
                total_supply: match self.total_supply {
                    Some(s) => s,
                    None => Uint256 { lo: 0, hi: 0 },
                },
            }),
        }
    }

    /// Start a listing of the requested page. Nothing has been called yet.
    pub fn new(p: Pagination) -> (f: Self)
        requires
            p.page >= 1,
        ensures
            f.wf(),
            f.page == p.page,
            f.limit == p.limit,
            !f.session_open,
            f.total_supply is None,
            f.next == 0,
            f.tokens@.len() == 0,
            f.failed is None,
    {
        ListTokensFlow {
            page: p.page,
            limit: p.limit,
            ids: scan_ids(p.page, p.limit),
            session_open: false,
            total_supply: None,
            next: 0,
            tokens: Vec::new(),
            failed: None,
        }
    }

    /// The call the driver must issue next.
    pub fn next_action(&self) -> (a: ListAction)
        ensures
            a == self.pending_spec(),
    {
        if self.failed.is_some() {
            ListAction::Finished
        } else if !self.session_open {
            ListAction::OpenSession
        } else if self.total_supply.is_none() {
            ListAction::QueryTotalSupply
        } else if self.next < self.ids.len() {
            ListAction::QueryOwnerOf(self.ids[self.next])
        } else {
            ListAction::Finished
        }
    }

    /// Record whether the transport session could be opened; a refusal
    /// fails the operation as a connection problem, never a missing token.
    pub fn on_session(&mut self, ok: bool)
        requires
            old(self).wf(),
            !old(self).session_open,
            old(self).failed is None,
        ensures
            final(self).wf(),
            final(self).page == old(self).page,
            final(self).limit == old(self).limit,
            final(self).ids@ == old(self).ids@,
            final(self).total_supply == old(self).total_supply,
            final(self).next == old(self).next,
            final(self).tokens@ == old(self).tokens@,
            ok ==> final(self).session_open && final(self).failed is None,
            !ok ==> !final(self).session_open
                && (final(self).failed matches Some(e)
                    && e matches CustomResponseErrors::ConnectionProblems(d)
                    && d@ == connection_failure_detail()),
    {
        if ok {
            self.session_open = true;
        } else {
            self.failed = Some(CustomResponseErrors::session_failure());
        }
    }

    /// Record the answer of the `totalSupply` call; its failure means the
    /// contract is unreachable, so it too is a connection problem.
    pub fn on_total_supply(&mut self, r: Result<Uint256, String>)
        requires
            old(self).wf(),
            old(self).session_open,
            old(self).total_supply is None,
            old(self).failed is None,
        ensures
            final(self).wf(),
            final(self).page == old(self).page,
            final(self).limit == old(self).limit,
            final(self).ids@ == old(self).ids@,
            final(self).session_open == old(self).session_open,
            final(self).next == old(self).next,
            final(self).tokens@ == old(self).tokens@,
            r matches Ok(s) ==> final(self).total_supply == Some(s) && final(self).failed is None,
            r matches Err(d) ==> final(self).total_supply is None
                && final(self).failed == Some(CustomResponseErrors::ConnectionProblems(d)),
    {
        match r {
            Ok(s) => {
                self.total_supply = Some(s);
            }
            Err(d) => {
                self.failed = Some(CustomResponseErrors::ConnectionProblems(d));
            }
        }
    }

    /// Record the answer of the `ownerOf` call for the current id: a
    /// success appends one record, a failure fails the whole page as an
    /// invalid token, keeping none of the records already collected.
    pub fn on_owner(&mut self, r: Result<Address, String>)
        requires
            old(self).wf(),
            old(self).session_open,
            old(self).total_supply is Some,
            old(self).failed is None,
            old(self).next < old(self).ids@.len(),
        ensures
            final(self).wf(),
            final(self).page == old(self).page,
            final(self).limit == old(self).limit,
            final(self).ids@ == old(self).ids@,
            final(self).session_open == old(self).session_open,
            final(self).total_supply == old(self).total_supply,
            r matches Ok(a) ==> final(self).failed is None
                && final(self).next == old(self).next + 1
                && final(self).tokens@ == old(self).tokens@.push(
                    (TokenRecord {
                        token_id: Uint256::spec_from_u64(old(self).ids@[old(self).next as int]),
                        owner_address: a,
                    }),
                ),
            r matches Err(d) ==> final(self).next == old(self).next
                && final(self).tokens@ == old(self).tokens@
                && final(self).failed == Some(CustomResponseErrors::InvalidToken(d)),
    {
        match r {
            Ok(a) => {
                let id = self.ids[self.next];
                self.tokens.push(TokenRecord {
                    token_id: Uint256::from_u64(id),
                    owner_address: a,
                });
                self.next = self.next + 1;
            }
            Err(d) => {
                self.failed = Some(CustomResponseErrors::InvalidToken(d));
            }
        }
    }

    /// Take the outcome of a finished listing: the first failure, or the
    /// listing carrying exactly one record per scanned id.
    pub fn into_result(self) -> (r: Result<TokenListing, CustomResponseErrors>)
        requires
            self.wf(),
            self.done_spec(),
        ensures
            r == self.result_spec(),
    {
        match self {
            ListTokensFlow { failed: Some(e), .. } => Err(e),
            ListTokensFlow { failed: None, tokens, total_supply: Some(s), .. } => {
                Ok(TokenListing { tokens, total_supply: s })
            }
            _ => vstd::pervasive::unreached(),
        }
    }
}

} // verus!

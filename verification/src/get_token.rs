//! The single-token lookup operation: four sequential contract calls —
//! `name`, `totalSupply`, `ownerOf(id)`, `tokenURI(id)` — folded into one
//! `TokenDetail`. Only a failed ownership lookup means the token is
//! missing; every other failure means the chain is unreachable.

use vstd::prelude::*;
use vstd::string::StringExecFns;

use crate::errors::{connection_failure_detail, CustomResponseErrors};
use crate::types::{Address, TokenDetail, Uint256};

verus! {

/// The fixed description used when a token identifier is negative and so
/// cannot name any token of the collection.
pub open spec fn negative_id_detail() -> Seq<char> {
    "token id must not be negative"@
}

/// Check a signed identifier from the request path against the contract's
/// unsigned argument type: a negative id can name no token, so it is
/// rejected as an invalid token before any remote call.
pub fn token_id_from_signed(id: i64) -> (r: Result<u64, CustomResponseErrors>)
    ensures
        id >= 0 ==> r == Ok::<u64, CustomResponseErrors>(id as u64),
        id < 0 ==> (r matches Err(e)
            && e matches CustomResponseErrors::InvalidToken(d)
            && d@ == negative_id_detail()),
{
    if id >= 0 {
        Ok(id as u64)
    } else {
        Err(CustomResponseErrors::InvalidToken(String::from_str("token id must not be negative")))
    }
}

/// The next remote call a lookup needs, or the news that it is finished.
#[derive(Clone, Copy, PartialEq, Eq, Structural, Debug)]
pub enum TokenAction {
    /// Open a transport session to the public RPC endpoint.
    OpenSession,
    /// Call the contract's `name` method (no arguments).
    QueryName,
    /// Call the contract's `totalSupply` method (no arguments).
    QueryTotalSupply,
    /// Call the contract's `ownerOf` method with the given token id.
    QueryOwnerOf(u64),
    /// Call the contract's `tokenURI` method with the given token id.
    QueryTokenUri(u64),
    /// No further call: the result can be taken.
    Finished,
}

/// One single-token lookup in progress. The flow tells its driver which
/// call to issue next (`next_action`), takes each answer, and finally
/// yields the detail record or a classified error (`into_result`).
pub struct GetTokenFlow {
    /// The token being looked up.
    pub token_id: u64,
    /// Whether the transport session has been opened.
    pub session_open: bool,
    /// The collection's name, once queried.
    pub token_name: Option<String>,
    /// The collection's total supply, once queried.
    pub total_supply: Option<Uint256>,
    /// The token's owner, once the ownership lookup has succeeded.
    pub owner: Option<Address>,
    /// The token's metadata URI, once queried.
    pub uri: Option<String>,
    /// The classification of the first failure, if one has happened.
    pub failed: Option<CustomResponseErrors>,
}

impl GetTokenFlow {
    /// Well-formedness: the answers arrive in the fixed call order, so
    /// each later answer presupposes the earlier ones.
    pub open spec fn wf(&self) -> bool {
        &&& (self.token_name is Some ==> self.session_open)
        &&& (self.total_supply is Some ==> self.token_name is Some)
        &&& (self.owner is Some ==> self.total_supply is Some)
        &&& (self.uri is Some ==> self.owner is Some)
    }

    /// Whether the operation has run its course, by failure or completion.
    pub open spec fn done_spec(&self) -> bool {
        self.failed is Some || self.uri is Some
    }

    /// The call the driver must issue next.
    pub open spec fn pending_spec(&self) -> TokenAction {
        if self.failed is Some {
            TokenAction::Finished
        } else if !self.session_open {
            TokenAction::OpenSession
        } else if self.token_name is None {
            TokenAction::QueryName
        } else if self.total_supply is None {
            TokenAction::QueryTotalSupply
        } else if self.owner is None {
            TokenAction::QueryOwnerOf(self.token_id)
        } else if self.uri is None {
            TokenAction::QueryTokenUri(self.token_id)
        } else {
            TokenAction::Finished
        }
    }

    /// What a successful lookup yields: each field of the detail record is
    /// exactly the corresponding answer, unmodified.
    pub open spec fn ok_detail(&self, d: TokenDetail) -> bool {
        &&& self.failed is None
        &&& self.owner == Some(d.owner)
        &&& self.uri == Some(d.uri)
        &&& self.token_name == Some(d.token_name)
        &&& self.total_supply == Some(d.total_supply)
    }

    /// Start a lookup of the given token. Nothing has been called yet.
    pub fn new(token_id: u64) -> (f: Self)
        ensures
            f.wf(),
            f.token_id == token_id,
            !f.session_open,
            f.token_name is None,
            f.total_supply is None,
            f.owner is None,
            f.uri is None,
            f.failed is None,
    {
        GetTokenFlow {
            token_id,
            session_open: false,
            token_name: None,
            total_supply: None,
            owner: None,
            uri: None,
            failed: None,
        }
    }

    /// The call the driver must issue next.
    pub fn next_action(&self) -> (a: TokenAction)
        ensures
            a == self.pending_spec(),
    {
        if self.failed.is_some() {
            TokenAction::Finished
        } else if !self.session_open {
            TokenAction::OpenSession
        } else if self.token_name.is_none() {
            TokenAction::QueryName
        } else if self.total_supply.is_none() {
            TokenAction::QueryTotalSupply
        } else if self.owner.is_none() {
            TokenAction::QueryOwnerOf(self.token_id)
        } else if self.uri.is_none() {
            TokenAction::QueryTokenUri(self.token_id)
        } else {
            TokenAction::Finished
        }
    }

    /// Record whether the transport session could be opened; a refusal
    /// fails the operation as a connection problem, never a missing token.
    pub fn on_session(&mut self, ok: bool)
        requires
            old(self).wf(),
            !old(self).session_open,
            old(self).failed is None,
        ensures
            final(self).wf(),
            final(self).token_id == old(self).token_id,
            final(self).token_name == old(self).token_name,
            final(self).total_supply == old(self).total_supply,
            final(self).owner == old(self).owner,
            final(self).uri == old(self).uri,
            ok ==> final(self).session_open && final(self).failed is None,
            !ok ==> !final(self).session_open
                && (final(self).failed matches Some(e)
                    && e matches CustomResponseErrors::ConnectionProblems(d)
                    && d@ == connection_failure_detail()),
    {
        if ok {
            self.session_open = true;
        } else {
            self.failed = Some(CustomResponseErrors::session_failure());
        }
    }

    /// Record the answer of the `name` call; its failure means the
    /// contract is unreachable, a connection problem.
    pub fn on_name(&mut self, r: Result<String, String>)
        requires
            old(self).wf(),
            old(self).session_open,
            old(self).token_name is None,
            old(self).failed is None,
        ensures
            final(self).wf(),
            final(self).token_id == old(self).token_id,
            final(self).session_open == old(self).session_open,
            final(self).total_supply == old(self).total_supply,
            final(self).owner == old(self).owner,
            final(self).uri == old(self).uri,
            r matches Ok(n) ==> final(self).token_name == Some(n) && final(self).failed is None,
            r matches Err(d) ==> final(self).token_name is None
                && final(self).failed == Some(CustomResponseErrors::ConnectionProblems(d)),
    {
        match r {
            Ok(n) => {
                self.token_name = Some(n);
            }
            Err(d) => {
                self.failed = Some(CustomResponseErrors::ConnectionProblems(d));
            }
        }
    }

    /// Record the answer of the `totalSupply` call; as with `name`, a
    /// failure is a connection problem.
    pub fn on_total_supply(&mut self, r: Result<Uint256, String>)
        requires
            old(self).wf(),
            old(self).token_name is Some,
            old(self).total_supply is None,
            old(self).failed is None,
        ensures
            final(self).wf(),
            final(self).token_id == old(self).token_id,
            final(self).session_open == old(self).session_open,
            final(self).token_name == old(self).token_name,
            final(self).owner == old(self).owner,
            final(self).uri == old(self).uri,
            r matches Ok(s) ==> final(self).total_supply == Some(s) && final(self).failed is None,
            r matches Err(d) ==> final(self).total_supply is None
                && final(self).failed == Some(CustomResponseErrors::ConnectionProblems(d)),
    {
        match r {
            Ok(s) => {
                self.total_supply = Some(s);
            }
            Err(d) => {
                self.failed = Some(CustomResponseErrors::ConnectionProblems(d));
            }
        }
    }

    /// Record the answer of the ownership lookup: its failure, and only
    /// its failure, means the token does not exist.
    pub fn on_owner(&mut self, r: Result<Address, String>)
        requires
            old(self).wf(),
            old(self).total_supply is Some,
            old(self).owner is None,
            old(self).failed is None,
        ensures
            final(self).wf(),
            final(self).token_id == old(self).token_id,
            final(self).session_open == old(self).session_open,
            final(self).token_name == old(self).token_name,
            final(self).total_supply == old(self).total_supply,
            final(self).uri == old(self).uri,
            r matches Ok(a) ==> final(self).owner == Some(a) && final(self).failed is None,
            r matches Err(d) ==> final(self).owner is None
                && final(self).failed == Some(CustomResponseErrors::InvalidToken(d)),
    {
        match r {
            Ok(a) => {
                self.owner = Some(a);
            }
            Err(d) => {
                self.failed = Some(CustomResponseErrors::InvalidToken(d));
            }
        }
    }

    /// Record the answer of the `tokenURI` call; the token is known to
    /// exist by now, so a failure is again a connection problem.
    pub fn on_token_uri(&mut self, r: Result<String, String>)
        requires
            old(self).wf(),
            old(self).owner is Some,
            old(self).uri is None,
            old(self).failed is None,
        ensures
            final(self).wf(),
            final(self).token_id == old(self).token_id,
            final(self).session_open == old(self).session_open,
            final(self).token_name == old(self).token_name,
            final(self).total_supply == old(self).total_supply,
            final(self).owner == old(self).owner,
            r matches Ok(u) ==> final(self).uri == Some(u) && final(self).failed is None,
            r matches Err(d) ==> final(self).uri is None
                && final(self).failed == Some(CustomResponseErrors::ConnectionProblems(d)),
    {
        match r {
            Ok(u) => {
                self.uri = Some(u);
            }
            Err(d) => {
                self.failed = Some(CustomResponseErrors::ConnectionProblems(d));
            }
        }
    }

    /// Take the outcome of a finished lookup: the first failure, or the
    /// detail record built from the four answers, each unmodified.
    pub fn into_result(self) -> (r: Result<TokenDetail, CustomResponseErrors>)
        requires
            self.wf(),
            self.done_spec(),
        ensures
            (self.failed matches Some(e) ==> r == Err::<TokenDetail, CustomResponseErrors>(e)),
            self.failed is None ==> (r matches Ok(d) && self.ok_detail(d)),
    {
        match self {
            GetTokenFlow { failed: Some(e), .. } => Err(e),
            GetTokenFlow {
                failed: None,
                owner: Some(owner),
                uri: Some(uri),
                token_name: Some(token_name),
                total_supply: Some(total_supply),
                ..
            } => Ok(TokenDetail { owner, uri, token_name, total_supply }),
            _ => vstd::pervasive::unreached(),
        }
    }
}

} // verus!

//! The diagnostic account listing: ask the local chain node for its
//! accounts, then query each account's balance in the order the node
//! returned them. Session and accounts failures are connection problems;
//! so is a failed balance query, reported rather than aborting the request.

use vstd::prelude::*;

use crate::errors::{connection_failure_detail, CustomResponseErrors};
use crate::types::{AccountBalance, Address, Uint256};

verus! {

/// The next remote call the account listing needs, or the news that it is
/// finished.
#[derive(Clone, Copy, PartialEq, Eq, Structural, Debug)]
pub enum AccountsAction {
    /// Open a transport session to the local RPC endpoint.
    OpenSession,
    /// Ask the node for its available accounts.
    QueryAccounts,
    /// Ask the node for the given account's balance.
    QueryBalance(Address),
    /// No further call: the result can be taken.
    Finished,
}

/// One account listing in progress. The flow tells its driver which call
/// to issue next (`next_action`), takes each answer (`on_session`,
/// `on_accounts`, `on_balance`), and finally yields one balance per
/// account, in the node's order, or a classified error (`into_result`).
pub struct LocalAccountsFlow {
    /// Whether the transport session has been opened.
    pub session_open: bool,
    /// The node's accounts, once queried, in the order it returned them.
    pub accounts: Option<Vec<Address>>,
    /// How many accounts have had their balance resolved so far.
    pub next: usize,
    /// One entry per resolved account, in the node's order.
    pub balances: Vec<AccountBalance>,
    /// The classification of the first failure, if one has happened.
    pub failed: Option<CustomResponseErrors>,
}

impl LocalAccountsFlow {
    /// Well-formedness: the collected balances track the resolved prefix
    /// of the account list, in the node's order.
    pub open spec fn wf(&self) -> bool {
        &&& (!self.session_open ==> self.accounts is None)
        &&& (self.accounts is None ==> self.next == 0)
        &&& (self.accounts matches Some(accs) ==> {
            &&& self.next <= accs@.len()
            &&& self.balances@.len() == self.next
            &&& (forall|i: int| 0 <= i < self.balances@.len()
                    ==> self.balances@[i].account == accs@[i])
        })
        &&& (self.accounts is None ==> self.balances@.len() == 0)
    }

    /// Whether the operation has run its course, by failure or completion.
    pub open spec fn done_spec(&self) -> bool {
        self.failed is Some || (self.accounts matches Some(accs) && self.next == accs@.len())
    }

    /// The call the driver must issue next.
    pub open spec fn pending_spec(&self) -> AccountsAction {
        if self.failed is Some {
            AccountsAction::Finished
        } else if !self.session_open {
            AccountsAction::OpenSession
        } else {
            match self.accounts {
                None => AccountsAction::QueryAccounts,
                Some(accs) => if self.next < accs@.len() {
                    AccountsAction::QueryBalance(accs@[self.next as int])
                } else {
                    AccountsAction::Finished
                },
            }
        }
    }

    /// What the operation yields once done: the first failure, or one
    /// balance per account in the node's order.
    pub open spec fn result_spec(&self) -> Result<Vec<AccountBalance>, CustomResponseErrors>
        recommends
            self.done_spec(),
    {
        match self.failed {
            Some(e) => Err(e),
            None => Ok(self.balances),
        }
    }

    /// Start an account listing. Nothing has been called yet.
    pub fn new() -> (f: Self)
        ensures
            f.wf(),
            !f.session_open,
            f.accounts is None,
            f.next == 0,
            f.balances@.len() == 0,
            f.failed is None,
    {
        LocalAccountsFlow {
            session_open: false,
            accounts: None,
            next: 0,
            balances: Vec::new(),
            failed: None,
        }
    }

    /// The call the driver must issue next.
    pub fn next_action(&self) -> (a: AccountsAction)
        ensures
            a == self.pending_spec(),
    {
        if self.failed.is_some() {
            AccountsAction::Finished
        } else if !self.session_open {
            AccountsAction::OpenSession
        } else {
            match &self.accounts {
                None => AccountsAction::QueryAccounts,
                Some(accs) => {
                    if self.next < accs.len() {
                        AccountsAction::QueryBalance(accs[self.next])
                    } else {
                        AccountsAction::Finished
                    }
                }
            }
        }
    }

    /// Record whether the transport session could be opened; a refusal
    /// fails the operation as a connection problem.
    pub fn on_session(&mut self, ok: bool)
        requires
            old(self).wf(),
            !old(self).session_open,
            old(self).failed is None,
        ensures
            final(self).wf(),
            final(self).accounts == old(self).accounts,
            final(self).next == old(self).next,
            final(self).balances@ == old(self).balances@,
            ok ==> final(self).session_open && final(self).failed is None,
            !ok ==> !final(self).session_open
                && (final(self).failed matches Some(e)
                    && e matches CustomResponseErrors::ConnectionProblems(d)
                    && d@ == connection_failure_detail()),
    {
        if ok {
            self.session_open = true;
        } else {
            self.failed = Some(CustomResponseErrors::session_failure());
        }
    }

    /// Record the answer of the accounts call; its failure is a connection
    /// problem, reported with the same fixed description as a failed
    /// session.
    pub fn on_accounts(&mut self, r: Result<Vec<Address>, String>)
        requires
            old(self).wf(),
            old(self).session_open,
            old(self).accounts is None,
            old(self).failed is None,
        ensures
            final(self).wf(),
            final(self).session_open == old(self).session_open,
            final(self).next == old(self).next,
            final(self).balances@ == old(self).balances@,
            r matches Ok(accs) ==> (final(self).accounts matches Some(a) && a@ == accs@)
                && final(self).failed is None,
            r matches Err(d) ==> final(self).accounts is None
                && (final(self).failed matches Some(e)
                    && e matches CustomResponseErrors::ConnectionProblems(fd)
                    && fd@ == connection_failure_detail()),
    {
        match r {
            Ok(accs) => {
                self.accounts = Some(accs);
            }
            Err(_d) => {
                self.failed = Some(CustomResponseErrors::session_failure());
            }
        }
    }

    /// Record the answer of the balance call for the current account: a
    /// success appends one entry, a failure fails the listing as a
    /// connection problem carrying the underlying description.
    pub fn on_balance(&mut self, r: Result<Uint256, String>)
        requires
            old(self).wf(),
            old(self).failed is None,
            old(self).accounts matches Some(accs) && old(self).next < accs@.len(),
        ensures
            final(self).wf(),
            final(self).session_open == old(self).session_open,
            final(self).accounts == old(self).accounts,
            r matches Ok(b) ==> final(self).failed is None
                && final(self).next == old(self).next + 1
                && final(self).balances@ == old(self).balances@.push(
                    (AccountBalance {
                        account: old(self).accounts->Some_0@[old(self).next as int],
                        balance: b,
                    }),
                ),
            r matches Err(d) ==> final(self).next == old(self).next
                && final(self).balances@ == old(self).balances@
                && final(self).failed == Some(CustomResponseErrors::ConnectionProblems(d)),
    {
        match r {
            Ok(b) => {
                let (account, count): (Address, usize) = match &self.accounts {
                    Some(accs) => (accs[self.next], accs.len()),
                    None => vstd::pervasive::unreached(),
                };
                self.balances.push(AccountBalance { account, balance: b });
                assert(self.next < count);
                self.next = self.next + 1;
            }
            Err(d) => {
                self.failed = Some(CustomResponseErrors::ConnectionProblems(d));
            }
        }
    }

    /// Take the outcome of a finished listing: the first failure, or one
    /// balance per account, in the order the node returned the accounts.
    pub fn into_result(self) -> (r: Result<Vec<AccountBalance>, CustomResponseErrors>)
        requires
            self.wf(),
            self.done_spec(),
        ensures
            r == self.result_spec(),
    {
        match self {
            LocalAccountsFlow { failed: Some(e), .. } => Err(e),
            LocalAccountsFlow { failed: None, balances, .. } => Ok(balances),
        }
    }
}

} // verus!

//! Plain value records exchanged with the chain and shaped into HTTP
//! responses: addresses, 256-bit quantities, token records, and the
//! pagination parameters of the listing operation.

use vstd::prelude::*;

verus! {

/// A 20-byte chain address, held as 160 bits split across two machine
/// words: the low 128 bits and the high 32 bits.
#[derive(Clone, Copy, PartialEq, Eq, Structural, Debug)]
pub struct Address {
    pub lo: u128,
    pub hi: u32,
}

impl Address {
    /// The address as a single natural number below 2^160.
    pub open spec fn as_nat(self) -> nat {
        (self.lo + self.hi * 0x1_0000_0000_0000_0000_0000_0000_0000_0000) as nat
    }
}

/// An unsigned 256-bit quantity (token identifiers, supplies, balances),
/// held as two 128-bit halves.
#[derive(Clone, Copy, PartialEq, Eq, Structural, Debug)]
pub struct Uint256 {
    pub lo: u128,
    pub hi: u128,
}

impl Uint256 {
    /// The quantity as a single natural number below 2^256.
    pub open spec fn as_nat(self) -> nat {
        (self.lo + self.hi * 0x1_0000_0000_0000_0000_0000_0000_0000_0000) as nat
    }

    /// The 256-bit value of a 64-bit integer.
    pub open spec fn spec_from_u64(n: u64) -> Uint256 {
        Uint256 { lo: n as u128, hi: 0 }
    }

    /// Widen a 64-bit token identifier into the contract's 256-bit
    /// argument type.
    pub fn from_u64(n: u64) -> (r: Uint256)
        ensures
            r == Uint256::spec_from_u64(n),
            r.as_nat() == n,
    {
        Uint256 { lo: n as u128, hi: 0 }
    }
}

/// One token of the collection paired with its current owner, as produced
/// by a successful ownership lookup during a listing.
#[derive(Clone, Copy, PartialEq, Eq, Structural, Debug)]
pub struct TokenRecord {
    pub token_id: Uint256,
    pub owner_address: Address,
}

/// The result of the single-token lookup operation.
#[derive(Clone, Debug)]
pub struct TokenDetail {
    pub owner: Address,
    pub uri: String,
    pub token_name: String,
    pub total_supply: Uint256,
}

/// The result of the paginated listing operation: records in ascending
/// token-id order, plus the collection's total supply.
#[derive(Clone, Debug)]
pub struct TokenListing {
    pub tokens: Vec<TokenRecord>,
    pub total_supply: Uint256,
}

/// One local chain account paired with its native-currency balance.
#[derive(Clone, Copy, PartialEq, Eq, Structural, Debug)]
pub struct AccountBalance {
    pub account: Address,
    pub balance: Uint256,
}

/// The page window requested from the listing operation.
#[derive(Clone, Copy, PartialEq, Eq, Structural, Debug)]
pub struct Pagination {
    pub page: u32,
    pub limit: u32,
}

impl Default for Pagination {
    /// The window used when the request carries no parameters.
    fn default() -> (p: Self)
        ensures
            p.page == 1,
            p.limit == 10,
    {
        Pagination { page: 1, limit: 10 }
    }
}

impl Pagination {
    /// Fill in the documented defaults for query parameters absent from
    /// the request.
    pub fn from_query(page: Option<u32>, limit: Option<u32>) -> (p: Pagination)
        ensures
            p.page == (match page { Some(v) => v, None => 1u32 }),
            p.limit == (match limit { Some(v) => v, None => 10u32 }),
    {
        Pagination {
            page: match page { Some(v) => v, None => 1 },
            limit: match limit { Some(v) => v, None => 10 },
        }
    }
}

} // verus!

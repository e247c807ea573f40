use nft_gateway::errors::CustomResponseErrors;
use nft_gateway::get_token::{token_id_from_signed, GetTokenFlow, TokenAction};
use nft_gateway::index_body;
use nft_gateway::list_tokens::{scan_ids, ListAction, ListTokensFlow};
use nft_gateway::local_accounts::{AccountsAction, LocalAccountsFlow};
use nft_gateway::types::{Address, Pagination, Uint256};

fn addr(n: u128) -> Address {
    Address { lo: n, hi: 0 }
}

#[test]
fn scan_page_one_limit_ten_covers_ids_one_to_ten() {
    let ids = scan_ids(1, 10);
    assert_eq!(ids, vec![1, 2, 3, 4, 5, 6, 7, 8, 9, 10]);
}

#[test]
fn scan_page_two_limit_five_covers_ids_six_to_ten() {
    let ids = scan_ids(2, 5);
    assert_eq!(ids, vec![6, 7, 8, 9, 10]);
}

#[test]
fn scan_limit_zero_covers_nothing() {
    let ids = scan_ids(3, 0);
    assert!(ids.is_empty());
}

#[test]
fn scan_largest_page_starts_where_the_arithmetic_says() {
    let ids = scan_ids(u32::MAX, 3);
    let first = (u32::MAX as u64 - 1) * 3 + 1;
    assert_eq!(ids, vec![first, first + 1, first + 2]);
}

#[test]
fn listing_queries_each_id_ascending_and_collects_owners() {
    let mut f = ListTokensFlow::new(Pagination { page: 2, limit: 3 });
    assert_eq!(f.next_action(), ListAction::OpenSession);
    f.on_session(true);
    assert_eq!(f.next_action(), ListAction::QueryTotalSupply);
    f.on_total_supply(Ok(Uint256::from_u64(55)));
    for (k, expected_id) in [4u64, 5, 6].iter().enumerate() {
        assert_eq!(f.next_action(), ListAction::QueryOwnerOf(*expected_id));
        f.on_owner(Ok(addr(100 + k as u128)));
    }
    assert_eq!(f.next_action(), ListAction::Finished);
    let listing = f.into_result().expect("listing should succeed");
    assert_eq!(listing.total_supply, Uint256::from_u64(55));
    assert_eq!(listing.tokens.len(), 3);
    for (k, t) in listing.tokens.iter().enumerate() {
        assert_eq!(t.token_id, Uint256::from_u64(4 + k as u64));
        assert_eq!(t.owner_address, addr(100 + k as u128));
    }
}

#[test]
fn one_failed_lookup_fails_the_whole_page_with_no_partial_records() {
    let mut f = ListTokensFlow::new(Pagination { page: 1, limit: 3 });
    f.on_session(true);
    f.on_total_supply(Ok(Uint256::from_u64(9)));
    f.on_owner(Ok(addr(1)));
    f.on_owner(Err(String::from("Abi error: no owner")));
    assert_eq!(f.next_action(), ListAction::Finished);
    match f.into_result() {
        Ok(_) => panic!("a failed lookup must fail the listing"),
        Err(e) => {
            assert_eq!(e.status_code(), 404);
            assert_eq!(e.name(), "Abi error: no owner");
            assert!(matches!(e, CustomResponseErrors::InvalidToken(_)));
        }
    }
}

#[test]
fn session_failure_is_a_connection_problem_never_an_invalid_token() {
    let mut f = ListTokensFlow::new(Pagination { page: 1, limit: 1 });
    f.on_session(false);
    let e = f.into_result().expect_err("a failed session must fail the listing");
    assert_eq!(e.status_code(), 500);
    assert!(matches!(e, CustomResponseErrors::ConnectionProblems(_)));
    assert_eq!(e.name(), "Connection problems to the blockchain");

    let mut g = GetTokenFlow::new(7);
    g.on_session(false);
    let e = g.into_result().expect_err("a failed session must fail the lookup");
    assert_eq!(e.status_code(), 500);
    assert!(matches!(e, CustomResponseErrors::ConnectionProblems(_)));

    let mut a = LocalAccountsFlow::new();
    a.on_session(false);
    let e = a.into_result().expect_err("a failed session must fail the account listing");
    assert_eq!(e.status_code(), 500);
    assert!(matches!(e, CustomResponseErrors::ConnectionProblems(_)));
}

#[test]
fn lookup_returns_the_owner_unmodified() {
    let mut f = GetTokenFlow::new(42);
    assert_eq!(f.next_action(), TokenAction::OpenSession);
    f.on_session(true);
    assert_eq!(f.next_action(), TokenAction::QueryName);
    f.on_name(Ok(String::from("Collection")));
    assert_eq!(f.next_action(), TokenAction::QueryTotalSupply);
    f.on_total_supply(Ok(Uint256::from_u64(1000)));
    assert_eq!(f.next_action(), TokenAction::QueryOwnerOf(42));
    f.on_owner(Ok(Address { lo: 0xabcdef, hi: 17 }));
    assert_eq!(f.next_action(), TokenAction::QueryTokenUri(42));
    f.on_token_uri(Ok(String::from("ipfs://token/42")));
    assert_eq!(f.next_action(), TokenAction::Finished);
    let d = f.into_result().expect("lookup should succeed");
    assert_eq!(d.owner, Address { lo: 0xabcdef, hi: 17 });
    assert_eq!(d.uri, "ipfs://token/42");
    assert_eq!(d.token_name, "Collection");
    assert_eq!(d.total_supply, Uint256::from_u64(1000));
}

#[test]
fn missing_token_renders_404_with_the_underlying_description() {
    let mut f = GetTokenFlow::new(9999);
    f.on_session(true);
    f.on_name(Ok(String::from("Collection")));
    f.on_total_supply(Ok(Uint256::from_u64(1000)));
    f.on_owner(Err(String::from("Abi error: Invalid data")));
    assert_eq!(f.next_action(), TokenAction::Finished);
    let e = f.into_result().expect_err("a missing token must fail the lookup");
    let r = e.error_response();
    assert_eq!(r.code, 404);
    assert_eq!(r.error, "Abi error: Invalid data");
    assert_eq!(r.message, "404 Not Found");
}

#[test]
fn collection_wide_call_failures_are_connection_problems() {
    let mut f = GetTokenFlow::new(1);
    f.on_session(true);
    f.on_name(Err(String::from("transport timed out")));
    let e = f.into_result().expect_err("a failed name call must fail the lookup");
    let r = e.error_response();
    assert_eq!(r.code, 500);
    assert_eq!(r.error, "transport timed out");
    assert_eq!(r.message, "500 Internal Server Error");

    let mut g = ListTokensFlow::new(Pagination { page: 1, limit: 1 });
    g.on_session(true);
    g.on_total_supply(Err(String::from("transport timed out")));
    let e = g.into_result().expect_err("a failed supply call must fail the listing");
    assert_eq!(e.status_code(), 500);
}

#[test]
fn listing_and_lookup_report_the_same_total_supply() {
    let supply = Uint256 { lo: 123456789, hi: 1 };

    let mut lf = ListTokensFlow::new(Pagination { page: 1, limit: 1 });
    lf.on_session(true);
    lf.on_total_supply(Ok(supply));
    lf.on_owner(Ok(addr(1)));
    let listing = lf.into_result().expect("listing should succeed");

    let mut tf = GetTokenFlow::new(1);
    tf.on_session(true);
    tf.on_name(Ok(String::from("Collection")));
    tf.on_total_supply(Ok(supply));
    tf.on_owner(Ok(addr(1)));
    tf.on_token_uri(Ok(String::from("ipfs://token/1")));
    let detail = tf.into_result().expect("lookup should succeed");

    assert_eq!(listing.total_supply, detail.total_supply);
    assert_eq!(listing.total_supply, supply);
}

#[test]
fn root_route_body_is_the_fixed_greeting() {
    assert_eq!(index_body(), "{\"Hello\":\"World!\"}");
}

#[test]
fn pagination_defaults_to_page_one_limit_ten() {
    let p = Pagination::default();
    assert_eq!(p.page, 1);
    assert_eq!(p.limit, 10);

    let q = Pagination::from_query(None, None);
    assert_eq!(q, Pagination { page: 1, limit: 10 });
    let q = Pagination::from_query(Some(4), None);
    assert_eq!(q, Pagination { page: 4, limit: 10 });
    let q = Pagination::from_query(None, Some(25));
    assert_eq!(q, Pagination { page: 1, limit: 25 });
    let q = Pagination::from_query(Some(4), Some(25));
    assert_eq!(q, Pagination { page: 4, limit: 25 });
}

#[test]
fn negative_token_id_is_rejected_as_an_invalid_token() {
    match token_id_from_signed(-1) {
        Ok(_) => panic!("a negative id must be rejected"),
        Err(e) => {
            assert_eq!(e.status_code(), 404);
            assert_eq!(e.name(), "token id must not be negative");
        }
    }
    assert!(matches!(token_id_from_signed(0), Ok(0)));
    assert!(matches!(token_id_from_signed(i64::MAX), Ok(v) if v == i64::MAX as u64));
}

#[test]
fn account_listing_keeps_the_node_order() {
    let mut f = LocalAccountsFlow::new();
    assert_eq!(f.next_action(), AccountsAction::OpenSession);
    f.on_session(true);
    assert_eq!(f.next_action(), AccountsAction::QueryAccounts);
    f.on_accounts(Ok(vec![addr(30), addr(10), addr(20)]));
    for (a, b) in [(30u128, 3u64), (10, 1), (20, 2)] {
        assert_eq!(f.next_action(), AccountsAction::QueryBalance(addr(a)));
        f.on_balance(Ok(Uint256::from_u64(b)));
    }
    assert_eq!(f.next_action(), AccountsAction::Finished);
    let balances = f.into_result().expect("account listing should succeed");
    assert_eq!(balances.len(), 3);
    assert_eq!(balances[0].account, addr(30));
    assert_eq!(balances[0].balance, Uint256::from_u64(3));
    assert_eq!(balances[1].account, addr(10));
    assert_eq!(balances[2].account, addr(20));
}

#[test]
fn accounts_call_failure_is_a_connection_problem() {
    let mut f = LocalAccountsFlow::new();
    f.on_session(true);
    f.on_accounts(Err(String::from("node is down")));
    let e = f.into_result().expect_err("a failed accounts call must fail the listing");
    assert_eq!(e.status_code(), 500);
    assert_eq!(e.name(), "Connection problems to the blockchain");
}

#[test]
fn balance_failure_is_reported_not_fatal() {
    let mut f = LocalAccountsFlow::new();
    f.on_session(true);
    f.on_accounts(Ok(vec![addr(1), addr(2)]));
    f.on_balance(Ok(Uint256::from_u64(5)));
    f.on_balance(Err(String::from("balance query failed")));
    let e = f.into_result().expect_err("a failed balance call must fail the listing");
    assert_eq!(e.status_code(), 500);
    assert_eq!(e.name(), "balance query failed");
}

#[test]
fn empty_account_list_yields_an_empty_listing() {
    let mut f = LocalAccountsFlow::new();
    f.on_session(true);
    f.on_accounts(Ok(Vec::new()));
    assert_eq!(f.next_action(), AccountsAction::Finished);
    let balances = f.into_result().expect("an empty account list is a success");
    assert!(balances.is_empty());
}

#[test]
fn uint256_widens_a_small_id_into_the_low_half() {
    let v = Uint256::from_u64(u64::MAX);
    assert_eq!(v.lo, u64::MAX as u128);
    assert_eq!(v.hi, 0);
}

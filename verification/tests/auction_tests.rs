use nft_auction::coin_helpers::assert_sent_sufficient_coin;
use nft_auction::contract::{execute, instantiate, query};
use nft_auction::error::ContractError;
use nft_auction::msg::{ExecuteMsg, InstantiateMsg, QueryAnswer, QueryMsg};
use nft_auction::state::{Config, Store};
use nft_auction::types::{Coin, CosmosMsg, Env, MessageInfo};

const MOCK_HEIGHT: u64 = 12345;

fn coin(amount: u128, denom: &str) -> Coin {
    Coin { denom: denom.to_string(), amount }
}

fn coins(amount: u128, denom: &str) -> Vec<Coin> {
    vec![coin(amount, denom)]
}

fn mock_env() -> Env {
    Env { block_height: MOCK_HEIGHT, contract_address: "cosmos2contract".to_string() }
}

fn mock_env_at(height: u64) -> Env {
    Env { block_height: height, contract_address: "cosmos2contract".to_string() }
}

fn mock_info(sender: &str, sent: &[Coin]) -> MessageInfo {
    MessageInfo { sender: sender.to_string(), funds: sent.to_vec() }
}

fn assert_config_state(store: &Store, expected: Config) {
    let res = query(store, &mock_env(), QueryMsg::Config {}).unwrap();
    match res {
        QueryAnswer::Config(value) => assert_eq!(value, expected),
        _ => panic!("expected a config answer"),
    }
}

fn mock_init(store: &mut Store) {
    let msg = InstantiateMsg {};
    let info = mock_info("creator", &coins(0, "utst"));
    let _res = instantiate(store, &mock_env(), &info, msg);
}

fn mock_alice_place_listing(store: &mut Store, sent: &[Coin]) {
    let info = mock_info("bob_key", sent);
    let msg = ExecuteMsg::PlaceListing {
        nft_contract_address: "contract".to_string(),
        id: "1".to_string(),
        minimum_bid: Some(coin(3, "utst")),
    };
    let _res = execute(store, &mock_env(), &info, msg)
        .expect("contract successfully handles PlaceListing message");
}

fn mock_alice_place_bid(store: &mut Store, sent: &[Coin]) {
    let info = mock_info("alice_key", sent);
    let msg = ExecuteMsg::BidListing { listing_id: "1".to_string() };
    let _res = execute(store, &mock_env(), &info, msg)
        .expect("contract successfully handles BidListing message");
}

fn mock_alice_withdraw_listing(store: &mut Store, sent: &[Coin]) {
    let info = mock_info("alice_key", sent);
    let msg = ExecuteMsg::WithdrawListing { listing_id: "1".to_string() };
    let env = mock_env_at(MOCK_HEIGHT + 70000);
    let _res = execute(store, &env, &info, msg)
        .expect("contract successfully handles WithdrawListing message");
}

#[test]
fn assert_sent_sufficient_coin_works() {
    match assert_sent_sufficient_coin(&vec![], Some(coin(0, "token"))) {
        Ok(_) => {}
        Err(e) => panic!("Unexpected error: {:?}", e),
    };

    match assert_sent_sufficient_coin(&vec![], Some(coin(5, "token"))) {
        Ok(_) => panic!("Should have raised insufficient funds error"),
        Err(ContractError::InsufficientFundsSend) => {}
        Err(e) => panic!("Unexpected error: {:?}", e),
    };

    match assert_sent_sufficient_coin(&coins(10, "smokin"), Some(coin(5, "token"))) {
        Ok(_) => panic!("Should have raised insufficient funds error"),
        Err(ContractError::InsufficientFundsSend) => {}
        Err(e) => panic!("Unexpected error: {:?}", e),
    };

    match assert_sent_sufficient_coin(&coins(10, "token"), Some(coin(5, "token"))) {
        Ok(_) => {}
        Err(e) => panic!("Unexpected error: {:?}", e),
    };
}

#[test]
fn proper_init() {
    let mut store = Store::new();

    mock_init(&mut store);

    assert_config_state(&store, Config { listing_count: 0 });
}

#[test]
fn place_listing() {
    let mut store = Store::new();
    mock_init(&mut store);
    mock_alice_place_listing(&mut store, &coins(0, "utst"));
}

#[test]
fn place_bid() {
    let mut store = Store::new();
    mock_init(&mut store);
    mock_alice_place_listing(&mut store, &coins(0, "utst"));
    mock_alice_place_bid(&mut store, &coins(4, "utst"));
}

#[test]
fn fails_on_place_bid() {
    let mut store = Store::new();
    mock_init(&mut store);
    mock_alice_place_listing(&mut store, &coins(0, "utst"));

    // less bid amount
    let info = mock_info("alice_key", &coins(3, "utst"));
    let msg = ExecuteMsg::BidListing { listing_id: "1".to_string() };
    let _res = execute(&mut store, &mock_env(), &info, msg);
    match _res {
        Ok(_) => panic!("Must return error"),
        Err(_) => {}
    }
}

#[test]
fn withdraw_listing() {
    let mut store = Store::new();
    mock_init(&mut store);
    mock_alice_place_listing(&mut store, &coins(0, "utst"));
    mock_alice_place_bid(&mut store, &coins(4, "utst"));
    mock_alice_withdraw_listing(&mut store, &coins(0, "utst"))
}

#[test]
fn fails_on_withdraw_listing() {
    let mut store = Store::new();
    mock_init(&mut store);
    mock_alice_place_listing(&mut store, &coins(0, "utst"));
    mock_alice_place_bid(&mut store, &coins(4, "utst"));
    let info = mock_info("alice_key", &coins(0, "utst"));
    let msg = ExecuteMsg::WithdrawListing { listing_id: "1".to_string() };

    // the auction lasts for 50000 blocks, so 40000 blocks in it is still open
    let env = mock_env_at(MOCK_HEIGHT + 40000);
    let _res = execute(&mut store, &env, &info, msg);
    match _res {
        Ok(_) => panic!("Must return error"),
        Err(_) => {}
    }
}

#[test]
fn full_auction_scenario() {
    let mut store = Store::new();
    mock_init(&mut store);

    // place a listing with a minimum bid of 3 utst
    let info = mock_info("bob_key", &coins(0, "utst"));
    let msg = ExecuteMsg::PlaceListing {
        nft_contract_address: "contract".to_string(),
        id: "melange".to_string(),
        minimum_bid: Some(coin(3, "utst")),
    };
    let res = execute(&mut store, &mock_env(), &info, msg).unwrap();
    assert_eq!(res.attributes[0].key, "place_listing");
    assert_eq!(res.attributes[0].value, "melange");
    assert_eq!(
        res.messages,
        vec![
            CosmosMsg::NftApprove {
                contract_addr: "contract".to_string(),
                spender: "cosmos2contract".to_string(),
                token_id: "melange".to_string(),
                expires_at: MOCK_HEIGHT + 20000,
            },
            CosmosMsg::NftTransfer {
                contract_addr: "contract".to_string(),
                recipient: "cosmos2contract".to_string(),
                token_id: "melange".to_string(),
            },
        ]
    );
    assert_config_state(&store, Config { listing_count: 1 });

    // a strictly higher bid from a second principal is accepted and the
    // displaced amount goes back to the displaced bidder (here the minimum,
    // refunded to the seller)
    let info = mock_info("alice_key", &coins(4, "utst"));
    let msg = ExecuteMsg::BidListing { listing_id: "1".to_string() };
    let res = execute(&mut store, &mock_env(), &info, msg).unwrap();
    assert_eq!(
        res.messages,
        vec![CosmosMsg::BankSend { to_address: "bob_key".to_string(), amount: coins(3, "utst") }]
    );
    let answer = query(&store, &mock_env(), QueryMsg::ResolveListing { id: "1".to_string() }).unwrap();
    match answer {
        QueryAnswer::Listing(listing) => {
            assert_eq!(listing.token_id, "melange");
            assert_eq!(listing.seller, "bob_key");
            assert_eq!(listing.max_bidder, "alice_key");
            assert_eq!(listing.max_bid, Some(coin(4, "utst")));
            assert_eq!(listing.block_limit, MOCK_HEIGHT + 50000);
        }
        _ => panic!("expected a listing answer"),
    }

    // a bid at or under the current amount is rejected
    let info = mock_info("carl_key", &coins(3, "utst"));
    let msg = ExecuteMsg::BidListing { listing_id: "1".to_string() };
    let res = execute(&mut store, &mock_env(), &info, msg);
    assert_eq!(res, Err(ContractError::InsufficientFundsSend));

    // withdrawing before expiry fails
    let info = mock_info("alice_key", &[]);
    let msg = ExecuteMsg::WithdrawListing { listing_id: "1".to_string() };
    let res = execute(&mut store, &mock_env_at_offset(49999), &info, msg);
    assert_eq!(res, Err(ContractError::AuctionNotEnded));

    // withdrawing at expiry succeeds: the asset goes to the leading bidder,
    // the escrowed amount to the seller
    let msg = ExecuteMsg::WithdrawListing { listing_id: "1".to_string() };
    let res = execute(&mut store, &mock_env_at_offset(50000), &info, msg).unwrap();
    assert_eq!(
        res.messages,
        vec![
            CosmosMsg::NftTransfer {
                contract_addr: "contract".to_string(),
                recipient: "alice_key".to_string(),
                token_id: "melange".to_string(),
            },
            CosmosMsg::BankSend { to_address: "bob_key".to_string(), amount: coins(4, "utst") },
        ]
    );

    // the record is gone: resolving and withdrawing again both fail
    let answer = query(&store, &mock_env(), QueryMsg::ResolveListing { id: "1".to_string() });
    assert_eq!(answer, Err(ContractError::NotFound));
    let msg = ExecuteMsg::WithdrawListing { listing_id: "1".to_string() };
    let res = execute(&mut store, &mock_env_at_offset(60000), &info, msg);
    assert_eq!(res, Err(ContractError::NotFound));
}

fn mock_env_at_offset(offset: u64) -> Env {
    mock_env_at(MOCK_HEIGHT + offset)
}

#[test]
fn bid_fails_at_expiry_height() {
    let mut store = Store::new();
    mock_init(&mut store);
    mock_alice_place_listing(&mut store, &coins(0, "utst"));

    // the first non-biddable height is exactly placement + 50000
    let info = mock_info("alice_key", &coins(100, "utst"));
    let msg = ExecuteMsg::BidListing { listing_id: "1".to_string() };
    let res = execute(&mut store, &mock_env_at_offset(50000), &info, msg);
    assert_eq!(res, Err(ContractError::AuctionEnded));

    // one block earlier the same bid is accepted
    let msg = ExecuteMsg::BidListing { listing_id: "1".to_string() };
    let res = execute(&mut store, &mock_env_at_offset(49999), &info, msg);
    assert!(res.is_ok());
}

#[test]
fn bid_on_missing_listing_fails() {
    let mut store = Store::new();
    mock_init(&mut store);
    let info = mock_info("alice_key", &coins(10, "utst"));
    let msg = ExecuteMsg::BidListing { listing_id: "17".to_string() };
    let res = execute(&mut store, &mock_env(), &info, msg);
    assert_eq!(res, Err(ContractError::NotFound));
}

#[test]
fn bid_with_wrong_denom_fails() {
    let mut store = Store::new();
    mock_init(&mut store);
    mock_alice_place_listing(&mut store, &coins(0, "utst"));
    let info = mock_info("alice_key", &coins(100, "smokin"));
    let msg = ExecuteMsg::BidListing { listing_id: "1".to_string() };
    let res = execute(&mut store, &mock_env(), &info, msg);
    assert_eq!(res, Err(ContractError::InsufficientFundsSend));
}

#[test]
fn no_bid_withdraw_returns_asset_and_funds_to_seller() {
    let mut store = Store::new();
    mock_init(&mut store);
    let info = mock_info("bob_key", &[]);
    let msg = ExecuteMsg::PlaceListing {
        nft_contract_address: "contract".to_string(),
        id: "spice".to_string(),
        minimum_bid: Some(coin(5, "utst")),
    };
    execute(&mut store, &mock_env(), &info, msg).unwrap();

    let msg = ExecuteMsg::WithdrawListing { listing_id: "1".to_string() };
    let res = execute(&mut store, &mock_env_at_offset(50000), &info, msg).unwrap();
    assert_eq!(
        res.messages,
        vec![
            CosmosMsg::NftTransfer {
                contract_addr: "contract".to_string(),
                recipient: "bob_key".to_string(),
                token_id: "spice".to_string(),
            },
            CosmosMsg::BankSend { to_address: "bob_key".to_string(), amount: coins(5, "utst") },
        ]
    );
}

#[test]
fn zero_minimum_listing_accepts_any_bid_trivially() {
    let mut store = Store::new();
    mock_init(&mut store);
    let info = mock_info("bob_key", &[]);
    let msg = ExecuteMsg::PlaceListing {
        nft_contract_address: "contract".to_string(),
        id: "dust".to_string(),
        minimum_bid: None,
    };
    execute(&mut store, &mock_env(), &info, msg).unwrap();

    // with no threshold the guard accepts trivially, escrows the zero-amount
    // placeholder, and the refund of the (absent) previous bid is a zero
    // transfer that must not fail
    let info = mock_info("alice_key", &coins(10, "utst"));
    let msg = ExecuteMsg::BidListing { listing_id: "1".to_string() };
    let res = execute(&mut store, &mock_env(), &info, msg).unwrap();
    assert_eq!(
        res.messages,
        vec![CosmosMsg::BankSend { to_address: "bob_key".to_string(), amount: coins(0, "token") }]
    );
    let answer = query(&store, &mock_env(), QueryMsg::ResolveListing { id: "1".to_string() }).unwrap();
    match answer {
        QueryAnswer::Listing(listing) => {
            assert_eq!(listing.max_bid, Some(coin(0, "token")));
            assert_eq!(listing.max_bidder, "alice_key");
        }
        _ => panic!("expected a listing answer"),
    }
}

#[test]
fn listing_identifiers_count_up() {
    let mut store = Store::new();
    mock_init(&mut store);
    let info = mock_info("bob_key", &[]);
    for expected in 1..4u64 {
        let msg = ExecuteMsg::PlaceListing {
            nft_contract_address: "contract".to_string(),
            id: format!("asset-{}", expected),
            minimum_bid: None,
        };
        execute(&mut store, &mock_env(), &info, msg).unwrap();
        assert_config_state(&store, Config { listing_count: expected });
    }
    let answer = query(&store, &mock_env(), QueryMsg::ResolveListing { id: "3".to_string() }).unwrap();
    match answer {
        QueryAnswer::Listing(listing) => assert_eq!(listing.token_id, "asset-3"),
        _ => panic!("expected a listing answer"),
    }
}

#[test]
fn guard_returns_first_sufficient_coin_in_scan_order() {
    let sent = vec![coin(4, "utst"), coin(10, "utst"), coin(20, "utst")];
    let res = assert_sent_sufficient_coin(&sent, Some(coin(5, "utst"))).unwrap();
    assert_eq!(res, Some(coin(10, "utst")));
}

#[test]
fn guard_without_threshold_returns_placeholder() {
    let res = assert_sent_sufficient_coin(&vec![], None).unwrap();
    assert_eq!(res, Some(coin(0, "token")));
    let res = assert_sent_sufficient_coin(&coins(7, "utst"), Some(coin(0, "utst"))).unwrap();
    assert_eq!(res, Some(coin(0, "token")));
}

#[test]
fn decimal_rendering_is_exact() {
    assert_eq!(nft_auction::decimal::u64_to_decimal(0), "0");
    assert_eq!(nft_auction::decimal::u64_to_decimal(7), "7");
    assert_eq!(nft_auction::decimal::u64_to_decimal(10), "10");
    assert_eq!(nft_auction::decimal::u64_to_decimal(1234567890), "1234567890");
    assert_eq!(nft_auction::decimal::u64_to_decimal(u64::MAX), "18446744073709551615");
}

#[test]
fn error_labels_are_stable() {
    assert_eq!(ContractError::InsufficientFundsSend.describe(), "insufficient funds sent");
    assert_eq!(ContractError::AuctionEnded.describe(), "auction ended");
    assert_eq!(ContractError::AuctionNotEnded.describe(), "auction not ended");
    assert_eq!(ContractError::NotFound.describe(), "not found");
}

#[test]
fn query_missing_listing_is_not_found() {
    let mut store = Store::new();
    mock_init(&mut store);
    let res = query(&store, &mock_env(), QueryMsg::ResolveListing { id: "1".to_string() });
    assert_eq!(res, Err(ContractError::NotFound));
}

#[test]
fn query_config_before_init_is_not_found() {
    let store = Store::new();
    let res = query(&store, &mock_env(), QueryMsg::Config {});
    assert_eq!(res, Err(ContractError::NotFound));
}

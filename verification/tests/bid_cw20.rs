use cosmwasm_std::Timestamp;
use cosmwasm_std::testing::mock_env;
use tracks_auction::api::AuctionStatus::Resolved;
use tracks_auction::api::Duration::{Height, Time};
use tracks_auction::api::{AuctionId, Bid, BlockInfo, Duration};
use tracks_auction::asset::{PriceAsset, PriceAssetUnchecked};
use tracks_auction::auctions::AuctionStore;
use tracks_auction::contract::instantiate;
use tracks_auction::error::AuctionError::{
    AuctionIdNotFound,
    BidLowerThanMinimum,
    BidWrongAsset,
    BiddingAfterAuctionEnded,
    InsufficientFundsForBid,
};
use tracks_auction::error::{AuctionError, AuctionResult};
use tracks_auction::execute::{bid, receive_cw20, receive_nft};
use tracks_auction::msg::{
    coin,
    Coin,
    Cw20HookMsg,
    Cw721HookMsg,
    InstantiateMsg,
    MessageInfo,
    NftDeposit,
    TokenDeposit,
};
use tracks_auction::query::query_auction;
use tracks_auction::response::{attr, Instruction, Response};

const ADMIN: &str = "admin";
const USER1: &str = "user1";
const USER2: &str = "user2";
const USER3: &str = "user3";
const NFT_ADDR: &str = "nft_contract_addr";
const CW20_ADDR: &str = "cw20_contract_addr";
const CW20_ADDR2: &str = "another_cw20_contract_addr";
const UANDR: &str = "uandr";
const TOKEN1: &str = "1";

fn mock_block() -> BlockInfo {
    let block = mock_env().block;
    BlockInfo { height: block.height, time: block.time.nanos(), chain_id: block.chain_id }
}

fn mock_info(sender: &str, funds: &[Coin]) -> MessageInfo {
    MessageInfo { sender: sender.to_string(), funds: funds.to_vec() }
}

fn coins(amount: u128, denom: &str) -> Vec<Coin> {
    vec![coin(amount, denom)]
}

fn test_instantiate(
    store: &mut AuctionStore,
    _block: &BlockInfo,
    _instantiator: &str,
    whitelisted_nft: &str,
    price_asset: PriceAssetUnchecked,
) -> AuctionResult<Response> {
    let contract = match &price_asset {
        PriceAssetUnchecked::Native { .. } => Err("not a token".to_string()),
        PriceAssetUnchecked::Cw20 { contract } => Ok(contract.clone()),
    };
    instantiate(
        store,
        InstantiateMsg { whitelisted_nft: whitelisted_nft.to_string(), price_asset },
        Ok(whitelisted_nft.to_string()),
        contract,
    )
}

fn instantiate_with_cw20_price_asset(
    store: &mut AuctionStore,
    block: &BlockInfo,
    instantiator: &str,
    whitelisted_nft: &str,
    cw20_addr: &str,
) -> AuctionResult<Response> {
    test_instantiate(
        store,
        block,
        instantiator,
        whitelisted_nft,
        PriceAssetUnchecked::cw20(cw20_addr),
    )
}

fn create_test_auction(
    store: &mut AuctionStore,
    block: &BlockInfo,
    nft_contract: &str,
    token_id: &str,
    creator: &str,
    duration: Duration,
    minimum_bid_amount: u8,
    buyout_price: Option<u8>,
) -> AuctionResult<Response> {
    receive_nft(
        store,
        block,
        &mock_info(nft_contract, &[]),
        NftDeposit {
            sender: Ok(creator.to_string()),
            token_id: token_id.to_string(),
            msg: Some(Cw721HookMsg::CreateAuction {
                duration,
                minimum_bid_amount: minimum_bid_amount.into(),
                buyout_price: buyout_price.map(|it| it.into()),
            }),
        },
    )
}

fn test_bid(
    store: &mut AuctionStore,
    block: &BlockInfo,
    bidder: &str,
    auction_id: AuctionId,
    bid_amount: u8,
    bid_funds: &Vec<Coin>,
) -> AuctionResult<Response> {
    bid(store, block, &mock_info(bidder, bid_funds), auction_id, bid_amount.into())
}

fn test_cw20_bid(
    store: &mut AuctionStore,
    block: &BlockInfo,
    bidder: &str,
    auction_id: AuctionId,
    bid_amount: u8,
    amount_sent: u8,
    cw20: &str,
) -> AuctionResult<Response> {
    receive_cw20(
        store,
        block,
        &mock_info(cw20, &[]),
        TokenDeposit {
            sender: Ok(bidder.to_string()),
            amount: amount_sent.into(),
            msg: Some(Cw20HookMsg::Bid { auction_id, bid_amount: bid_amount.into() }),
        },
    )
}

fn default_duration() -> Duration {
    Duration::Time(600)
}

fn after_height(block: &BlockInfo, height: u64) -> BlockInfo {
    BlockInfo { height: block.height + height, ..block.clone() }
}

fn after_seconds(block: &BlockInfo, seconds: u64) -> BlockInfo {
    BlockInfo {
        time: Timestamp::from_nanos(block.time).plus_seconds(seconds).nanos(),
        ..block.clone()
    }
}

fn transfer_nft_msg(nft_contract: &str, recipient: &str, token_id: &str) -> Instruction {
    Instruction::TransferNft {
        nft_contract: nft_contract.to_string(),
        recipient: recipient.to_string(),
        token_id: token_id.to_string(),
    }
}

fn transfer_cw20_funds(cw20_addr: &str, amount: u8, recipient: &str) -> Instruction {
    Instruction::TransferAsset {
        asset: PriceAsset::cw20(cw20_addr.to_string()),
        amount: amount.into(),
        recipient: recipient.to_string(),
    }
}

#[test]
fn bid_cw20_on_non_existent_auction_fails() -> Result<(), AuctionError> {
    let mut store = AuctionStore::new();
    let env = mock_block();

    instantiate_with_cw20_price_asset(&mut store, &env, ADMIN, NFT_ADDR, CW20_ADDR)?;

    create_test_auction(
        &mut store,
        &env,
        NFT_ADDR,
        TOKEN1,
        USER1,
        default_duration(),
        5,
        None,
    )?;

    let non_existent_auction_id = 2;
    let result = test_cw20_bid(
        &mut store,
        &env,
        USER2,
        non_existent_auction_id,
        5,
        5,
        CW20_ADDR,
    );

    assert_eq!(result, Err(AuctionIdNotFound));

    Ok(())
}

#[test]
fn bid_cw20_with_insufficient_funds_fails() -> Result<(), AuctionError> {
    let mut store = AuctionStore::new();
    let env = mock_block();

    instantiate_with_cw20_price_asset(&mut store, &env, ADMIN, NFT_ADDR, CW20_ADDR)?;

    create_test_auction(
        &mut store,
        &env,
        NFT_ADDR,
        TOKEN1,
        USER1,
        default_duration(),
        5,
        None,
    )?;

    let bid_amount = 5;
    let funds_for_bid = 4;

    let result = test_cw20_bid(
        &mut store,
        &env,
        USER2,
        0,
        bid_amount,
        funds_for_bid,
        &CW20_ADDR,
    );

    assert_eq!(result, Err(InsufficientFundsForBid));

    Ok(())
}

#[test]
fn bid_cw20_less_than_minimum_bid_fails() -> Result<(), AuctionError> {
    let mut store = AuctionStore::new();
    let env = mock_block();

    instantiate_with_cw20_price_asset(&mut store, &env, ADMIN, NFT_ADDR, CW20_ADDR)?;

    let minimum_bid_amount = 5;
    let bid_amount = 4;

    create_test_auction(
        &mut store,
        &env,
        NFT_ADDR,
        TOKEN1,
        USER1,
        default_duration(),
        minimum_bid_amount,
        None,
    )?;

    let result = test_cw20_bid(
        &mut store,
        &env,
        USER2,
        0,
        bid_amount,
        bid_amount,
        CW20_ADDR,
    );

    assert_eq!(result, Err(BidLowerThanMinimum));

    Ok(())
}

#[test]
fn bid_cw20_wrong_asset_fails() -> Result<(), AuctionError> {
    let mut store = AuctionStore::new();
    let env = mock_block();

    let price_cw20 = CW20_ADDR;
    let bid_cw20 = CW20_ADDR2;

    instantiate_with_cw20_price_asset(&mut store, &env, ADMIN, NFT_ADDR, price_cw20)?;

    create_test_auction(
        &mut store,
        &env,
        NFT_ADDR,
        TOKEN1,
        USER1,
        default_duration(),
        5,
        None,
    )?;

    let result = test_cw20_bid(&mut store, &env, USER2, 0, 5, 5, bid_cw20);

    assert_eq!(result, Err(BidWrongAsset));

    Ok(())
}

#[test]
fn bid_cw20_native_asset_fails() -> Result<(), AuctionError> {
    let mut store = AuctionStore::new();
    let env = mock_block();

    instantiate_with_cw20_price_asset(&mut store, &env, ADMIN, NFT_ADDR, CW20_ADDR)?;

    create_test_auction(
        &mut store,
        &env,
        NFT_ADDR,
        TOKEN1,
        USER1,
        default_duration(),
        5,
        None,
    )?;

    let result = test_bid(&mut store, &env, USER2, 0, 5, &coins(5, UANDR));

    assert_eq!(result, Err(BidWrongAsset));

    Ok(())
}

#[test]
fn bid_cw20_with_correct_funds_saves_it_as_active_bid() -> Result<(), AuctionError> {
    let current_block = BlockInfo {
        height: 12345,
        time: Timestamp::from_seconds(23456).nanos(),
        chain_id: mock_block().chain_id,
    };
    let mut store = AuctionStore::new();
    let env = current_block.clone();

    instantiate_with_cw20_price_asset(&mut store, &env, ADMIN, NFT_ADDR, CW20_ADDR)?;

    create_test_auction(
        &mut store,
        &env,
        NFT_ADDR,
        TOKEN1,
        USER1,
        default_duration(),
        5,
        Some(200),
    )?;

    let response = test_cw20_bid(&mut store, &env, USER2, 0, 5, 5, CW20_ADDR)?;

    assert!(response.messages.is_empty());
    assert_eq!(
        response.attributes,
        vec![
            attr("action", "bid"),
            attr("auction_id", "0"),
            attr("bid_amount", "5"),
        ]
    );

    let auction = query_auction(&store, 0)?.auction;

    assert_eq!(
        auction.active_bid,
        Some(Bid {
            amount: 5u8.into(),
            asset: PriceAsset::cw20(CW20_ADDR.to_string()),
            bidder: USER2.to_string(),
            posted_at: current_block,
        })
    );

    Ok(())
}

#[test]
fn bid_cw20_on_second_auction_saves_it_as_active_bid_on_proper_auction() -> Result<(), AuctionError> {
    let current_block = BlockInfo {
        height: 12345,
        time: Timestamp::from_seconds(23456).nanos(),
        chain_id: mock_block().chain_id,
    };
    let mut store = AuctionStore::new();
    let env = current_block.clone();

    instantiate_with_cw20_price_asset(&mut store, &env, ADMIN, NFT_ADDR, CW20_ADDR)?;

    create_test_auction(
        &mut store,
        &env,
        NFT_ADDR,
        TOKEN1,
        USER1,
        default_duration(),
        5,
        None,
    )?;

    create_test_auction(
        &mut store,
        &env,
        NFT_ADDR,
        TOKEN1,
        USER1,
        default_duration(),
        5,
        None,
    )?;

    test_cw20_bid(&mut store, &env, USER2, 1, 5, 5, CW20_ADDR)?;

    let auction = query_auction(&store, 1)?.auction;

    assert_eq!(
        auction.active_bid,
        Some(Bid {
            amount: 5u8.into(),
            asset: PriceAsset::cw20(CW20_ADDR.to_string()),
            bidder: USER2.to_string(),
            posted_at: current_block,
        })
    );

    let auction = query_auction(&store, 0)?.auction;
    assert!(auction.active_bid.is_none());

    Ok(())
}

#[test]
fn bid_cw20_after_existing_bid_at_current_amount_fails() -> Result<(), AuctionError> {
    let mut store = AuctionStore::new();
    let env = mock_block();

    instantiate_with_cw20_price_asset(&mut store, &env, ADMIN, NFT_ADDR, CW20_ADDR)?;

    create_test_auction(
        &mut store,
        &env,
        NFT_ADDR,
        TOKEN1,
        USER1,
        default_duration(),
        5,
        Some(200),
    )?;

    let first_bid_amount = 5;
    let second_bid_amount = first_bid_amount;

    test_cw20_bid(
        &mut store,
        &env,
        USER2,
        0,
        first_bid_amount,
        first_bid_amount,
        CW20_ADDR,
    )?;

    let result = test_cw20_bid(
        &mut store,
        &env,
        USER3,
        0,
        second_bid_amount,
        second_bid_amount,
        CW20_ADDR,
    );

    assert_eq!(result, Err(BidLowerThanMinimum));

    Ok(())
}

#[test]
fn bid_cw20_over_existing_bid_replaces_and_refunds_existing_bid() -> Result<(), AuctionError> {
    let mut store = AuctionStore::new();
    let env = mock_block();

    instantiate_with_cw20_price_asset(&mut store, &env, ADMIN, NFT_ADDR, CW20_ADDR)?;

    create_test_auction(
        &mut store,
        &env,
        NFT_ADDR,
        TOKEN1,
        USER1,
        default_duration(),
        5,
        None,
    )?;

    let first_bid_amount = 5;
    let second_bid_amount = 6;

    test_cw20_bid(
        &mut store,
        &env,
        USER2,
        0,
        first_bid_amount,
        first_bid_amount,
        CW20_ADDR,
    )?;

    let new_block = BlockInfo {
        height: env.height + 10,
        time: Timestamp::from_seconds(Timestamp::from_nanos(env.time).seconds() + 120).nanos(),
        chain_id: mock_block().chain_id,
    };

    let response = test_cw20_bid(
        &mut store,
        &new_block,
        USER3,
        0,
        second_bid_amount,
        second_bid_amount,
        CW20_ADDR,
    )?;

    assert_eq!(
        response.messages,
        vec![transfer_cw20_funds(CW20_ADDR, first_bid_amount, USER2)],
    );

    let auction = query_auction(&store, 0)?.auction;

    assert_eq!(
        auction.active_bid,
        Some(Bid {
            amount: second_bid_amount.into(),
            asset: PriceAsset::cw20(CW20_ADDR.to_string()),
            bidder: USER3.to_string(),
            posted_at: new_block,
        })
    );

    Ok(())
}

#[test]
fn bid_cw20_after_time_duration_auction_ended_fails() -> Result<(), AuctionError> {
    let mut store = AuctionStore::new();
    let env = mock_block();

    instantiate_with_cw20_price_asset(&mut store, &env, ADMIN, NFT_ADDR, CW20_ADDR)?;

    create_test_auction(
        &mut store,
        &env,
        NFT_ADDR,
        TOKEN1,
        USER1,
        Time(53),
        5,
        None,
    )?;

    let result = test_cw20_bid(
        &mut store,
        &after_seconds(&env, 54),
        USER2,
        0,
        5,
        5,
        CW20_ADDR,
    );

    assert_eq!(result, Err(BiddingAfterAuctionEnded));

    Ok(())
}

#[test]
fn bid_cw20_after_height_duration_auction_ended_fails() -> Result<(), AuctionError> {
    let mut store = AuctionStore::new();
    let env = mock_block();

    instantiate_with_cw20_price_asset(&mut store, &env, ADMIN, NFT_ADDR, CW20_ADDR)?;

    let auction_created_at = BlockInfo {
        height: 1234,
        time: Timestamp::from_seconds(23456).nanos(),
        chain_id: mock_block().chain_id,
    };

    create_test_auction(
        &mut store,
        &auction_created_at,
        NFT_ADDR,
        TOKEN1,
        USER1,
        Height(28),
        5,
        None,
    )?;

    let result = test_cw20_bid(
        &mut store,
        &after_height(&env, 29),
        USER2,
        0,
        5,
        5,
        CW20_ADDR,
    );

    assert_eq!(result, Err(BiddingAfterAuctionEnded));

    Ok(())
}

#[test]
fn bid_cw20_buyout_price_instantly_wins_the_auction() -> Result<(), AuctionError> {
    let mut store = AuctionStore::new();
    let env = mock_block();

    instantiate_with_cw20_price_asset(&mut store, &env, ADMIN, NFT_ADDR, CW20_ADDR)?;

    let buyout_price = 10;

    create_test_auction(
        &mut store,
        &env,
        NFT_ADDR,
        TOKEN1,
        USER1,
        default_duration(),
        5,
        Some(buyout_price),
    )?;

    let response = test_cw20_bid(
        &mut store,
        &env,
        USER2,
        0,
        buyout_price,
        buyout_price,
        CW20_ADDR,
    )?;

    assert_eq!(
        response.messages,
        vec![
            transfer_cw20_funds(CW20_ADDR, buyout_price, USER1),
            transfer_nft_msg(NFT_ADDR, USER2, TOKEN1),
        ],
    );

    assert_eq!(
        response.attributes,
        vec![
            attr("action", "instant_buyout"),
            attr("auction_id", "0"),
            attr("bid_amount", &buyout_price.to_string())
        ],
    );

    let auction = query_auction(&store, 0)?.auction;

    assert_eq!(auction.status, Resolved);

    Ok(())
}

#[test]
fn bid_cw20_buyout_price_refunds_previous_bid() -> Result<(), AuctionError> {
    let mut store = AuctionStore::new();
    let env = mock_block();

    instantiate_with_cw20_price_asset(&mut store, &env, ADMIN, NFT_ADDR, CW20_ADDR)?;

    let buyout_price = 10;

    create_test_auction(
        &mut store,
        &env,
        NFT_ADDR,
        TOKEN1,
        USER1,
        default_duration(),
        5,
        Some(buyout_price),
    )?;

    test_cw20_bid(&mut store, &env, USER2, 0, 6, 6, CW20_ADDR)?;

    let response = test_cw20_bid(
        &mut store,
        &env,
        USER3,
        0,
        buyout_price,
        buyout_price,
        CW20_ADDR,
    )?;

    assert!(response
        .messages
        .contains(&transfer_cw20_funds(CW20_ADDR, 6, USER2)));

    Ok(())
}

use cosmwasm_std::Timestamp;
use cosmwasm_std::testing::mock_env;
use tracks_auction::api::AuctionStatus::Active;
use tracks_auction::api::Duration::{Height, Time};
use tracks_auction::api::{BlockInfo, Duration, TrackAuction};
use tracks_auction::asset::{PriceAsset, PriceAssetUnchecked};
use tracks_auction::auctions::AuctionStore;
use tracks_auction::contract::instantiate;
use tracks_auction::error::AuctionError::{Cw721NotWhitelisted, InvalidAuctionDuration};
use tracks_auction::error::{AuctionError, AuctionResult};
use tracks_auction::execute::receive_nft;
use tracks_auction::msg::{Coin, Cw721HookMsg, InstantiateMsg, MessageInfo, NftDeposit};
use tracks_auction::query::{query_auction, query_auctions};
use tracks_auction::response::{attr, Response};

const ADMIN: &str = "admin";
const USER1: &str = "user1";
const NFT_ADDR: &str = "nft_contract_addr";
const NFT_ADDR2: &str = "another_nft_contract_addr";
const UANDR: &str = "uandr";
const UATOM: &str = "uatom";
const TOKEN1: &str = "1";

fn mock_block() -> BlockInfo {
    let block = mock_env().block;
    BlockInfo { height: block.height, time: block.time.nanos(), chain_id: block.chain_id }
}

fn mock_info(sender: &str, funds: &[Coin]) -> MessageInfo {
    MessageInfo { sender: sender.to_string(), funds: funds.to_vec() }
}

fn test_instantiate(
    store: &mut AuctionStore,
    _block: &BlockInfo,
    _instantiator: &str,
    whitelisted_nft: &str,
    price_asset: PriceAssetUnchecked,
) -> AuctionResult<Response> {
    let contract = match &price_asset {
        PriceAssetUnchecked::Native { .. } => Err("not a token".to_string()),
        PriceAssetUnchecked::Cw20 { contract } => Ok(contract.clone()),
    };
    instantiate(
        store,
        InstantiateMsg { whitelisted_nft: whitelisted_nft.to_string(), price_asset },
        Ok(whitelisted_nft.to_string()),
        contract,
    )
}

fn instantiate_with_native_price_asset(
    store: &mut AuctionStore,
    block: &BlockInfo,
    instantiator: &str,
    whitelisted_nft: &str,
    native_denom: &str,
) -> AuctionResult<Response> {
    test_instantiate(
        store,
        block,
        instantiator,
        whitelisted_nft,
        PriceAssetUnchecked::native(native_denom),
    )
}

fn create_test_auction(
    store: &mut AuctionStore,
    block: &BlockInfo,
    nft_contract: &str,
    token_id: &str,
    creator: &str,
    duration: Duration,
    minimum_bid_amount: u8,
    buyout_price: Option<u8>,
) -> AuctionResult<Response> {
    receive_nft(
        store,
        block,
        &mock_info(nft_contract, &[]),
        NftDeposit {
            sender: Ok(creator.to_string()),
            token_id: token_id.to_string(),
            msg: Some(Cw721HookMsg::CreateAuction {
                duration,
                minimum_bid_amount: minimum_bid_amount.into(),
                buyout_price: buyout_price.map(|it| it.into()),
            }),
        },
    )
}

fn default_duration() -> Duration {
    Duration::Time(600)
}

#[test]
fn create_auction_for_non_whitelisted_nft_fails() -> Result<(), AuctionError> {
    let mut store = AuctionStore::new();
    let env = mock_block();

    instantiate_with_native_price_asset(&mut store, &env, ADMIN, NFT_ADDR, UANDR)?;

    let result = create_test_auction(
        &mut store,
        &env,
        NFT_ADDR2,
        TOKEN1,
        ADMIN,
        default_duration(),
        0,
        None,
    );

    assert_eq!(result, Err(Cw721NotWhitelisted));

    Ok(())
}

#[test]
fn create_auction_with_time_0_duration_fails() -> Result<(), AuctionError> {
    let mut store = AuctionStore::new();
    let env = mock_block();

    instantiate_with_native_price_asset(&mut store, &env, ADMIN, NFT_ADDR, UANDR)?;

    let result = create_test_auction(
        &mut store,
        &env,
        NFT_ADDR,
        TOKEN1,
        ADMIN,
        Time(0),
        0,
        Some(200),
    );

    assert_eq!(result, Err(InvalidAuctionDuration));

    Ok(())
}

#[test]
fn create_auction_with_height_0_duration_fails() -> Result<(), AuctionError> {
    let mut store = AuctionStore::new();
    let env = mock_block();

    instantiate_with_native_price_asset(&mut store, &env, ADMIN, NFT_ADDR, UANDR)?;

    let result = create_test_auction(
        &mut store,
        &env,
        NFT_ADDR,
        TOKEN1,
        ADMIN,
        Height(0),
        0,
        None,
    );

    assert_eq!(result, Err(InvalidAuctionDuration));

    Ok(())
}

#[test]
fn create_auction_saves_it_with_relevant_data() -> Result<(), AuctionError> {
    let current_block = BlockInfo {
        height: 55214,
        time: Timestamp::from_nanos(5521400000).nanos(),
        chain_id: mock_block().chain_id,
    };

    let mut store = AuctionStore::new();
    let env = current_block.clone();

    instantiate_with_native_price_asset(&mut store, &env, ADMIN, NFT_ADDR, UATOM)?;

    let track_token_id = "first_track";
    let duration = Time(24);

    let response = create_test_auction(
        &mut store,
        &env,
        NFT_ADDR,
        track_token_id,
        USER1,
        duration.clone(),
        4,
        Some(213),
    )?;

    assert_eq!(
        response.attributes,
        vec![attr("action", "create_auction"), attr("auction_id", "0"),],
    );

    let expected_auction = TrackAuction {
        status: Active,
        created_at: current_block,
        duration,
        id: 0,
        creator: USER1.to_string(),
        nft_contract: NFT_ADDR.to_string(),
        track_token_id: track_token_id.to_string(),
        minimum_bid_amount: 4u8.into(),
        price_asset: PriceAsset::native("uatom"),
        active_bid: None,
        buyout_price: Some(213u8.into()),
    };

    let response = query_auction(&store, 0)?;

    assert_eq!(response.auction, expected_auction.clone());

    assert_eq!(
        query_auctions(&store, true, None, None)?.auctions,
        vec![expected_auction]
    );

    assert!(query_auctions(&store, false, None, None)?
        .auctions
        .is_empty());

    Ok(())
}

#[test]
fn create_auction_increments_auction_ids() -> Result<(), AuctionError> {
    let current_block = BlockInfo {
        height: 55214,
        time: Timestamp::from_nanos(5521400000).nanos(),
        chain_id: mock_block().chain_id,
    };

    let mut store = AuctionStore::new();
    let env = current_block.clone();

    instantiate_with_native_price_asset(&mut store, &env, ADMIN, NFT_ADDR, UATOM)?;

    create_test_auction(
        &mut store,
        &env,
        NFT_ADDR,
        "5",
        USER1,
        default_duration(),
        4,
        Some(200),
    )?;

    create_test_auction(
        &mut store,
        &env,
        NFT_ADDR,
        "6",
        USER1,
        default_duration(),
        4,
        None,
    )?;

    assert_eq!(query_auction(&store, 0)?.auction.id, 0);

    assert_eq!(query_auction(&store, 1)?.auction.id, 1);

    let response = query_auctions(&store, true, None, None)?;

    assert_eq!(response.auctions[0].id, 0);
    assert_eq!(response.auctions[1].id, 1);

    // ensure pagination works for query_auctions

    let response = query_auctions(&store, true, None, Some(1))?;
    assert_eq!(response.auctions.len(), 1);
    assert_eq!(response.auctions[0].id, 0);

    let response = query_auctions(&store, true, Some(0), None)?;
    assert_eq!(response.auctions.len(), 1);
    assert_eq!(response.auctions[0].id, 1);

    assert!(query_auctions(&store, false, None, None)?
        .auctions
        .is_empty());

    Ok(())
}

use cosmwasm_std::Timestamp;
use cosmwasm_std::testing::mock_env;
use tracks_auction::api::AuctionStatus::Canceled;
use tracks_auction::api::Duration::Time;
use tracks_auction::api::{AuctionId, BlockInfo, Duration};
use tracks_auction::asset::{PriceAsset, PriceAssetUnchecked};
use tracks_auction::auctions::AuctionStore;
use tracks_auction::contract::instantiate;
use tracks_auction::error::AuctionError::{
    AuctionCanceled,
    AuctionExpired,
    AuctionResolved,
    Unauthorized,
};
use tracks_auction::error::{AuctionError, AuctionResult};
use tracks_auction::execute::{bid, cancel_auction, receive_nft, resolve_auction};
use tracks_auction::msg::{coin, Coin, Cw721HookMsg, InstantiateMsg, MessageInfo, NftDeposit};
use tracks_auction::query::{query_auction, query_auctions};
use tracks_auction::response::{attr, Instruction, Response};

const ADMIN: &str = "admin";
const USER1: &str = "user1";
const USER2: &str = "user2";
const NFT_ADDR: &str = "nft_contract_addr";
const UANDR: &str = "uandr";
const TOKEN1: &str = "1";

fn mock_block() -> BlockInfo {
    let block = mock_env().block;
    BlockInfo { height: block.height, time: block.time.nanos(), chain_id: block.chain_id }
}

fn mock_info(sender: &str, funds: &[Coin]) -> MessageInfo {
    MessageInfo { sender: sender.to_string(), funds: funds.to_vec() }
}

fn coins(amount: u128, denom: &str) -> Vec<Coin> {
    vec![coin(amount, denom)]
}

fn test_instantiate(
    store: &mut AuctionStore,
    _block: &BlockInfo,
    _instantiator: &str,
    whitelisted_nft: &str,
    price_asset: PriceAssetUnchecked,
) -> AuctionResult<Response> {
    let contract = match &price_asset {
        PriceAssetUnchecked::Native { .. } => Err("not a token".to_string()),
        PriceAssetUnchecked::Cw20 { contract } => Ok(contract.clone()),
    };
    instantiate(
        store,
        InstantiateMsg { whitelisted_nft: whitelisted_nft.to_string(), price_asset },
        Ok(whitelisted_nft.to_string()),
        contract,
    )
}

fn instantiate_with_native_price_asset(
    store: &mut AuctionStore,
    block: &BlockInfo,
    instantiator: &str,
    whitelisted_nft: &str,
    native_denom: &str,
) -> AuctionResult<Response> {
    test_instantiate(
        store,
        block,
        instantiator,
        whitelisted_nft,
        PriceAssetUnchecked::native(native_denom),
    )
}

fn create_test_auction(
    store: &mut AuctionStore,
    block: &BlockInfo,
    nft_contract: &str,
    token_id: &str,
    creator: &str,
    duration: Duration,
    minimum_bid_amount: u8,
    buyout_price: Option<u8>,
) -> AuctionResult<Response> {
    receive_nft(
        store,
        block,
        &mock_info(nft_contract, &[]),
        NftDeposit {
            sender: Ok(creator.to_string()),
            token_id: token_id.to_string(),
            msg: Some(Cw721HookMsg::CreateAuction {
                duration,
                minimum_bid_amount: minimum_bid_amount.into(),
                buyout_price: buyout_price.map(|it| it.into()),
            }),
        },
    )
}

fn test_bid(
    store: &mut AuctionStore,
    block: &BlockInfo,
    bidder: &str,
    auction_id: AuctionId,
    bid_amount: u8,
    bid_funds: &Vec<Coin>,
) -> AuctionResult<Response> {
    bid(store, block, &mock_info(bidder, bid_funds), auction_id, bid_amount.into())
}

fn test_resolve_auction(
    store: &mut AuctionStore,
    block: &BlockInfo,
    sender: &str,
    auction_id: AuctionId,
) -> AuctionResult<Response> {
    resolve_auction(store, block, &mock_info(sender, &[]), auction_id)
}

fn test_cancel_auction(
    store: &mut AuctionStore,
    block: &BlockInfo,
    sender: &str,
    auction_id: AuctionId,
) -> AuctionResult<Response> {
    cancel_auction(store, block, &mock_info(sender, &[]), auction_id)
}

fn default_duration() -> Duration {
    Duration::Time(600)
}

fn after_seconds(block: &BlockInfo, seconds: u64) -> BlockInfo {
    BlockInfo {
        time: Timestamp::from_nanos(block.time).plus_seconds(seconds).nanos(),
        ..block.clone()
    }
}

fn transfer_nft_msg(nft_contract: &str, recipient: &str, token_id: &str) -> Instruction {
    Instruction::TransferNft {
        nft_contract: nft_contract.to_string(),
        recipient: recipient.to_string(),
        token_id: token_id.to_string(),
    }
}

fn transfer_native_funds(denom: &str, amount: u8, recipient: &str) -> Instruction {
    Instruction::TransferAsset {
        asset: PriceAsset::native(denom),
        amount: amount.into(),
        recipient: recipient.to_string(),
    }
}

#[test]
fn cancel_auction_only_permitted_to_auction_creator() -> Result<(), AuctionError> {
    let mut store = AuctionStore::new();
    let env = mock_block();

    instantiate_with_native_price_asset(&mut store, &env, ADMIN, NFT_ADDR, UANDR)?;

    create_test_auction(
        &mut store,
        &env,
        NFT_ADDR,
        TOKEN1,
        USER1,
        default_duration(),
        5,
        None,
    )?;

    let result = test_cancel_auction(&mut store, &env, USER2, 0);

    assert_eq!(result, Err(Unauthorized));

    Ok(())
}

#[test]
fn cancel_auction_on_expired_auction_fails() -> Result<(), AuctionError> {
    let mut store = AuctionStore::new();
    let env = mock_block();

    instantiate_with_native_price_asset(&mut store, &env, ADMIN, NFT_ADDR, UANDR)?;

    create_test_auction(
        &mut store,
        &env,
        NFT_ADDR,
        TOKEN1,
        USER1,
        Time(20),
        5,
        None,
    )?;

    let result = test_cancel_auction(&mut store, &after_seconds(&env, 21), USER1, 0);

    assert_eq!(result, Err(AuctionExpired));

    Ok(())
}

#[test]
fn cancel_auction_on_resolved_auction_fails() -> Result<(), AuctionError> {
    let mut store = AuctionStore::new();
    let env = mock_block();

    instantiate_with_native_price_asset(&mut store, &env, ADMIN, NFT_ADDR, UANDR)?;

    create_test_auction(
        &mut store,
        &env,
        NFT_ADDR,
        TOKEN1,
        USER1,
        Time(20),
        5,
        None,
    )?;

    test_bid(&mut store, &env, USER2, 0, 5, &coins(5, UANDR))?;

    let env_after_expiration = after_seconds(&env, 21);

    test_resolve_auction(&mut store, &&env_after_expiration, ADMIN, 0)?;

    let result = test_cancel_auction(&mut store, &env_after_expiration, USER1, 0);

    assert_eq!(result, Err(AuctionResolved));

    Ok(())
}

#[test]
fn cancel_auction_on_instantly_bought_auction_fails() -> Result<(), AuctionError> {
    let mut store = AuctionStore::new();
    let env = mock_block();

    instantiate_with_native_price_asset(&mut store, &env, ADMIN, NFT_ADDR, UANDR)?;

    create_test_auction(
        &mut store,
        &env,
        NFT_ADDR,
        TOKEN1,
        USER1,
        Time(20),
        5,
        Some(20),
    )?;

    test_bid(&mut store, &env, USER2, 0, 20, &coins(20, UANDR))?;

    let result = test_cancel_auction(&mut store, &env, USER1, 0);

    assert_eq!(result, Err(AuctionResolved));

    Ok(())
}

#[test]
fn cancel_auction_on_canceled_auction_fails() -> Result<(), AuctionError> {
    let mut store = AuctionStore::new();
    let env = mock_block();

    instantiate_with_native_price_asset(&mut store, &env, ADMIN, NFT_ADDR, UANDR)?;

    create_test_auction(
        &mut store,
        &env,
        NFT_ADDR,
        TOKEN1,
        USER1,
        Time(20),
        5,
        None,
    )?;

    test_bid(&mut store, &env, USER2, 0, 5, &coins(5, UANDR))?;

    test_cancel_auction(&mut store, &env, USER1, 0)?;

    let result = test_cancel_auction(&mut store, &env, USER1, 0);

    assert_eq!(result, Err(AuctionCanceled));

    Ok(())
}

#[test]
fn cancel_auction_with_no_bids_sends_back_nft_to_creator() -> Result<(), AuctionError> {
    let mut store = AuctionStore::new();
    let env = mock_block();

    instantiate_with_native_price_asset(&mut store, &env, ADMIN, NFT_ADDR, UANDR)?;

    create_test_auction(
        &mut store,
        &env,
        NFT_ADDR,
        TOKEN1,
        USER1,
        Time(20),
        5,
        Some(200),
    )?;

    let response = test_cancel_auction(&mut store, &env, USER1, 0)?;

    assert_eq!(
        response.messages,
        vec![transfer_nft_msg(NFT_ADDR, USER1, TOKEN1)],
    );

    assert_eq!(
        response.attributes,
        vec![attr("action", "cancel_auction"), attr("auction_id", "0"),],
    );

    assert_eq!(query_auction(&store, 0)?.auction.status, Canceled);

    assert!(query_auctions(&store, true, None, None)?
        .auctions
        .is_empty());
    assert_eq!(
        query_auctions(&store, false, None, None)?.auctions[0].status,
        Canceled
    );

    Ok(())
}

#[test]
fn cancel_auction_with_bid_sends_back_nft_to_creator_and_bid_to_bidder() -> Result<(), AuctionError> {
    let mut store = AuctionStore::new();
    let env = mock_block();

    instantiate_with_native_price_asset(&mut store, &env, ADMIN, NFT_ADDR, UANDR)?;

    create_test_auction(
        &mut store,
        &env,
        NFT_ADDR,
        TOKEN1,
        USER1,
        Time(20),
        5,
        Some(200),
    )?;

    test_bid(&mut store, &env, USER2, 0, 5, &coins(5, UANDR))?;
    test_bid(&mut store, &env, ADMIN, 0, 8, &coins(8, UANDR))?;

    let response = test_cancel_auction(&mut store, &env, USER1, 0)?;

    assert_eq!(
        response.messages,
        vec![
            transfer_nft_msg(NFT_ADDR, USER1, TOKEN1),
            transfer_native_funds(UANDR, 8u8, ADMIN)
        ]
    );

    Ok(())
}

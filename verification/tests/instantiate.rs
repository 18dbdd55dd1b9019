use cosmwasm_std::testing::mock_env;
use tracks_auction::api::{BlockInfo, Config};
use tracks_auction::asset::{PriceAsset, PriceAssetUnchecked};
use tracks_auction::auctions::AuctionStore;
use tracks_auction::contract::instantiate;
use tracks_auction::error::{AuctionError, AuctionResult};
use tracks_auction::msg::InstantiateMsg;
use tracks_auction::query::query_config;
use tracks_auction::response::{attr, Response};

const ADMIN: &str = "admin";
const CW20_ADDR: &str = "cw20_contract_addr";
const UATOM: &str = "uatom";

fn mock_block() -> BlockInfo {
    let block = mock_env().block;
    BlockInfo { height: block.height, time: block.time.nanos(), chain_id: block.chain_id }
}

fn test_instantiate(
    store: &mut AuctionStore,
    _block: &BlockInfo,
    _instantiator: &str,
    whitelisted_nft: &str,
    price_asset: PriceAssetUnchecked,
) -> AuctionResult<Response> {
    let contract = match &price_asset {
        PriceAssetUnchecked::Native { .. } => Err("not a token".to_string()),
        PriceAssetUnchecked::Cw20 { contract } => Ok(contract.clone()),
    };
    instantiate(
        store,
        InstantiateMsg { whitelisted_nft: whitelisted_nft.to_string(), price_asset },
        Ok(whitelisted_nft.to_string()),
        contract,
    )
}

fn instantiate_with_native_price_asset(
    store: &mut AuctionStore,
    block: &BlockInfo,
    instantiator: &str,
    whitelisted_nft: &str,
    native_denom: &str,
) -> AuctionResult<Response> {
    test_instantiate(
        store,
        block,
        instantiator,
        whitelisted_nft,
        PriceAssetUnchecked::native(native_denom),
    )
}

fn instantiate_with_cw20_price_asset(
    store: &mut AuctionStore,
    block: &BlockInfo,
    instantiator: &str,
    whitelisted_nft: &str,
    cw20_addr: &str,
) -> AuctionResult<Response> {
    test_instantiate(
        store,
        block,
        instantiator,
        whitelisted_nft,
        PriceAssetUnchecked::cw20(cw20_addr),
    )
}

#[test]
fn instantiate_with_native_prices_stores_config() -> Result<(), AuctionError> {
    let mut store = AuctionStore::new();
    let env = mock_block();

    let whitelisted_nft = "nft_contract";

    let response = instantiate_with_native_price_asset(
        &mut store,
        &env,
        ADMIN,
        whitelisted_nft,
        UATOM,
    )?;

    assert_eq!(
        response.attributes,
        vec![
            attr("action", "instantiate"),
            attr("whitelisted_nft", whitelisted_nft),
            attr("price_asset", "native"),
            attr("price_asset_denom", UATOM),
        ],
    );

    assert_eq!(
        query_config(&store)?.config,
        Config {
            whitelisted_nft: whitelisted_nft.to_string(),
            price_asset: PriceAsset::native(UATOM),
        }
    );

    Ok(())
}

#[test]
fn instantiate_with_cw20_prices_stores_config() -> Result<(), AuctionError> {
    let mut store = AuctionStore::new();
    let env = mock_block();

    let whitelisted_nft = "nft_contract";

    let response = instantiate_with_cw20_price_asset(
        &mut store,
        &env,
        ADMIN,
        whitelisted_nft,
        CW20_ADDR,
    )?;

    assert_eq!(
        response.attributes,
        vec![
            attr("action", "instantiate"),
            attr("whitelisted_nft", whitelisted_nft),
            attr("price_asset", "cw20"),
            attr("price_asset_cw20_contract", CW20_ADDR),
        ],
    );

    assert_eq!(
        query_config(&store)?.config,
        Config {
            whitelisted_nft: whitelisted_nft.to_string(),
            price_asset: PriceAsset::cw20(CW20_ADDR.to_string()),
        }
    );

    Ok(())
}

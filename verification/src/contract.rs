use crate::api::{BlockInfo, Config};
use crate::asset::{verdict_view, Addr, PriceAsset};
use crate::auctions::{config_missing, save_config, AuctionStore, StoreView};
use crate::error::{AuctionError, AuctionErrorView, AuctionResult};
use crate::execute::{bid, cancel_auction, receive_cw20, receive_nft, resolve_auction};
use crate::model::{executed, instantiated, step_taken};
use crate::msg::{
    ExecuteMsg, InstantiateMsg, MessageInfo, QueryMsg, QueryResponse, QueryResponseView,
};
use crate::query::{query_auction, query_auctions, query_config};
use crate::response::Response;
use vstd::prelude::*;

verus! {

/// Sets the contract up with `msg`. `whitelisted_nft` is the verdict of the
/// ledger's address validation on the whitelisted contract's address, and
/// `price_asset_contract` the verdict on the address of the price asset's
/// token contract, which is read where the price asset is a token.
pub fn instantiate(
    storage: &mut AuctionStore,
    msg: InstantiateMsg,
    whitelisted_nft: Result<Addr, String>,
    price_asset_contract: Result<Addr, String>,
) -> (response: AuctionResult<Response>)
    ensures
        step_taken(
            old(storage)@,
            final(storage)@,
            response,
            instantiated(
                old(storage)@,
                msg@,
                verdict_view(whitelisted_nft),
                verdict_view(price_asset_contract),
            ),
        ),
        final(storage)@.wf(),
{
    proof {
        use_type_invariant(&*storage);
    }
    let nft_addr = match whitelisted_nft {
        Ok(address) => address,
        Err(reason) => {
            return Err(AuctionError::Std(reason));
        },
    };
    let price_asset = match msg.price_asset.check(price_asset_contract) {
        Ok(asset) => asset,
        Err(e) => {
            return Err(e);
        },
    };
    let config = Config { whitelisted_nft: nft_addr, price_asset };
    match save_config(storage, &config) {
        Ok(()) => {},
        Err(e) => {
            return Err(e);
        },
    }
    let base_response = Response::new().add_attribute("action", "instantiate").add_attribute(
        "whitelisted_nft",
        config.whitelisted_nft.as_str(),
    );
    let response = match &config.price_asset {
        PriceAsset::Native { denom } => base_response.add_attribute(
            "price_asset",
            "native",
        ).add_attribute("price_asset_denom", denom.as_str()),
        PriceAsset::Cw20 { contract } => base_response.add_attribute(
            "price_asset",
            "cw20",
        ).add_attribute("price_asset_cw20_contract", contract.as_str()),
    };
    proof {
        let expected = instantiated(
            old(storage)@,
            msg@,
            verdict_view(whitelisted_nft),
            verdict_view(price_asset_contract),
        )->Ok_0.1;
        assert(response@.attributes =~= expected.attributes);
        assert(response@.messages =~= expected.messages);
    }
    Ok(response)
}

/// Does what the message `msg`, sent by `info.sender` in block `block`, asks
/// for.
pub fn execute(
    storage: &mut AuctionStore,
    block: &BlockInfo,
    info: &MessageInfo,
    msg: ExecuteMsg,
) -> (response: AuctionResult<Response>)
    ensures
        step_taken(
            old(storage)@,
            final(storage)@,
            response,
            executed(old(storage)@, block@, info@, msg@),
        ),
        final(storage)@.wf(),
{
    proof {
        use_type_invariant(&*storage);
    }
    match msg {
        ExecuteMsg::ReceiveNft(nft_msg) => receive_nft(storage, block, info, nft_msg),
        ExecuteMsg::Receive(cw20_msg) => receive_cw20(storage, block, info, cw20_msg),
        ExecuteMsg::Bid { auction_id, bid_amount } => bid(
            storage,
            block,
            info,
            auction_id,
            bid_amount,
        ),
        ExecuteMsg::ResolveAuction { auction_id } => resolve_auction(
            storage,
            block,
            info,
            auction_id,
        ),
        ExecuteMsg::CancelAuction { auction_id } => cancel_auction(
            storage,
            block,
            info,
            auction_id,
        ),
    }
}

/// What a query answers on a store.
pub open spec fn answered(store: StoreView, msg: QueryMsg) -> Result<
    QueryResponseView,
    AuctionErrorView,
> {
    match msg {
        QueryMsg::Config {} => match store.config {
            Some(config) => Ok(QueryResponseView::Config(config)),
            None => Err(config_missing()),
        },
        QueryMsg::Auction { id } => match store.auction(id) {
            Some(auction) => Ok(QueryResponseView::Auction(auction)),
            None => Err(AuctionErrorView::AuctionIdNotFound),
        },
        QueryMsg::Auctions { active_auctions, start_after, limit } => Ok(
            QueryResponseView::Auctions(store.page(active_auctions, start_after, limit)),
        ),
    }
}

/// Answers the query `msg`.
pub fn query(storage: &AuctionStore, msg: QueryMsg) -> (response: Result<
    QueryResponse,
    AuctionError,
>)
    ensures
        match answered(storage@, msg) {
            Ok(answer) => response is Ok && response->Ok_0@ == answer,
            Err(e) => response is Err && response->Err_0@ == e,
        },
{
    match msg {
        QueryMsg::Config {} => match query_config(storage) {
            Ok(response) => Ok(QueryResponse::Config(response)),
            Err(e) => Err(e),
        },
        QueryMsg::Auction { id } => match query_auction(storage, id) {
            Ok(response) => Ok(QueryResponse::Auction(response)),
            Err(e) => Err(e),
        },
        QueryMsg::Auctions { active_auctions, start_after, limit } => match query_auctions(
            storage,
            active_auctions,
            start_after,
            limit,
        ) {
            Ok(response) => Ok(QueryResponse::Auctions(response)),
            Err(e) => Err(e),
        },
    }
}

} // verus!

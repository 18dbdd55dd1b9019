use crate::api::AuctionId;
use crate::auctions::{
    auction_views, config_missing, load_auction, load_auctions, load_config, AuctionStore,
};
use crate::error::{AuctionError, AuctionErrorView, AuctionResult};
use crate::msg::{AuctionResponse, AuctionsResponse, ConfigResponse};
use vstd::prelude::*;

verus! {

/// The configuration.
pub fn query_config(storage: &AuctionStore) -> (response: AuctionResult<ConfigResponse>)
    ensures
        match storage@.config {
            Some(config) => response is Ok && response->Ok_0.config@ == config,
            None => response is Err && response->Err_0@ == config_missing(),
        },
{
    let config = match load_config(storage) {
        Ok(config) => config,
        Err(e) => {
            return Err(e);
        },
    };
    Ok(ConfigResponse { config })
}

/// The auction with the identifier `id`, active or finished.
pub fn query_auction(storage: &AuctionStore, id: AuctionId) -> (response: AuctionResult<
    AuctionResponse,
>)
    ensures
        match storage@.auction(id) {
            Some(auction) => response is Ok && response->Ok_0.auction@ == auction
                && response->Ok_0.auction.id == id,
            None => response is Err && response->Err_0@ == AuctionErrorView::AuctionIdNotFound,
        },
{
    let auction = match load_auction(storage, id) {
        Ok(Some(auction)) => auction,
        Ok(None) => {
            return Err(AuctionError::AuctionIdNotFound);
        },
        Err(e) => {
            return Err(e);
        },
    };
    Ok(AuctionResponse { auction })
}

/// One page of the active auctions (`active_auctions`) or of the finished
/// ones, after the cursor `start_after`, in the order of their identifiers.
pub fn query_auctions(
    storage: &AuctionStore,
    active_auctions: bool,
    start_after: Option<AuctionId>,
    limit: Option<u32>,
) -> (response: AuctionResult<AuctionsResponse>)
    ensures
        response is Ok,
        auction_views(response->Ok_0.auctions@) == storage@.page(
            active_auctions,
            start_after,
            limit,
        ),
        forall|i: int, j: int|
            0 <= i < j < response->Ok_0.auctions.len() ==> (
            #[trigger] response->Ok_0.auctions[i]).id < (
            #[trigger] response->Ok_0.auctions[j]).id,
{
    let auctions = match load_auctions(storage, active_auctions, start_after, limit) {
        Ok(auctions) => auctions,
        Err(e) => {
            return Err(e);
        },
    };
    Ok(AuctionsResponse { auctions })
}

} // verus!

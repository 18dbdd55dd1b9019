use crate::api::{AuctionId, AuctionStatus, Bid, BlockInfo, Duration, TrackAuction};
use crate::asset::{Addr, PriceAsset};
use crate::auctions::{
    finish_auction, load_auction, load_config, save_new_auction, update_active_bid, AuctionStore,
    CreateAuctionData,
};
use crate::error::{AuctionError, AuctionResult};
use crate::model::{
    bid_placed, bid_resolved, bought_out, canceled, cw20_received, item_to, nft_received,
    refund, resolved, step_taken,
};
use crate::msg::{Cw20HookMsg, Cw721HookMsg, MessageInfo, NftDeposit, TokenDeposit};
use crate::response::{decimal_string, instruction_views, Instruction, Response};
use vstd::prelude::*;

verus! {

/// The refund of the active bid of `auction` to its bidder, if there is one.
fn refund_previous_bid_msg(auction: &TrackAuction) -> (messages: Vec<Instruction>)
    ensures
        instruction_views(messages@) == refund(auction@),
{
    let mut messages: Vec<Instruction> = Vec::new();
    match &auction.active_bid {
        Some(bid) => {
            messages.push(
                Instruction::TransferAsset {
                    asset: bid.asset.clone(),
                    amount: bid.amount,
                    recipient: bid.bidder.clone(),
                },
            );
            assert(instruction_views(messages@) =~= refund(auction@));
        },
        None => {
            assert(instruction_views(messages@) =~= refund(auction@));
        },
    }
    messages
}

/// The transfer of the item of `auction` to `recipient`.
fn transfer_nft_msg(auction: &TrackAuction, recipient: &Addr) -> (message: Instruction)
    ensures
        message@ == item_to(auction@, recipient@),
{
    Instruction::TransferNft {
        nft_contract: auction.nft_contract.clone(),
        recipient: recipient.clone(),
        token_id: auction.track_token_id.clone(),
    }
}

/// Resolves the auction `auction_id`, once it has ended: the item goes to
/// the bidder and the bid to the creator, or, where nobody bid, the item
/// goes back to the creator. Anyone may ask for this.
pub fn resolve_auction(
    storage: &mut AuctionStore,
    block: &BlockInfo,
    _info: &MessageInfo,
    auction_id: AuctionId,
) -> (response: AuctionResult<Response>)
    ensures
        step_taken(
            old(storage)@,
            final(storage)@,
            response,
            resolved(old(storage)@, block@, auction_id),
        ),
        final(storage)@.wf(),
{
    proof {
        use_type_invariant(&*storage);
    }
    let auction = match load_auction(storage, auction_id) {
        Ok(Some(auction)) => auction,
        Ok(None) => {
            return Err(AuctionError::AuctionIdNotFound);
        },
        Err(e) => {
            return Err(e);
        },
    };

    if !auction.has_ended(block) {
        return Err(AuctionError::AuctionStillInProgress);
    }
    match auction.status {
        AuctionStatus::Resolved => {
            return Err(AuctionError::AuctionResolved);
        },
        AuctionStatus::Canceled => {
            return Err(AuctionError::AuctionCanceled);
        },
        AuctionStatus::Active => {},
    }

    match finish_auction(storage, auction_id, AuctionStatus::Resolved) {
        Ok(()) => {},
        Err(e) => {
            return Err(e);
        },
    }

    let id_text = decimal_string(auction_id as u128);
    let base_response = Response::new().add_attribute("action", "resolve_auction").add_attribute(
        "auction_id",
        id_text.as_str(),
    );

    let response = match &auction.active_bid {
        Some(bid) => {
            // the item goes to the highest bidder, the funds to the creator
            let send_nft_to_bidder_msg = transfer_nft_msg(&auction, &bid.bidder);
            let send_bid_to_auction_creator_msg = Instruction::TransferAsset {
                asset: bid.asset.clone(),
                amount: bid.amount,
                recipient: auction.creator.clone(),
            };
            base_response.add_message(send_nft_to_bidder_msg).add_message(
                send_bid_to_auction_creator_msg,
            )
        },
        None => {
            // no bids: the item goes back to the creator
            let return_nft_msg = transfer_nft_msg(&auction, &auction.creator);
            base_response.add_message(return_nft_msg)
        },
    };
    proof {
        let expected = resolved(old(storage)@, block@, auction_id)->Ok_0.1;
        assert(response@.attributes =~= expected.attributes);
        assert(response@.messages =~= expected.messages);
    }
    Ok(response)
}

/// Cancels the auction `auction_id` for its creator, before it has ended:
/// the item goes back to the creator and the active bid, if any, to its
/// bidder.
pub fn cancel_auction(
    storage: &mut AuctionStore,
    block: &BlockInfo,
    info: &MessageInfo,
    auction_id: AuctionId,
) -> (response: AuctionResult<Response>)
    ensures
        step_taken(
            old(storage)@,
            final(storage)@,
            response,
            canceled(old(storage)@, block@, info@.sender, auction_id),
        ),
        final(storage)@.wf(),
{
    proof {
        use_type_invariant(&*storage);
    }
    let auction = match load_auction(storage, auction_id) {
        Ok(Some(auction)) => auction,
        Ok(None) => {
            return Err(AuctionError::AuctionIdNotFound);
        },
        Err(e) => {
            return Err(e);
        },
    };

    if auction.creator != info.sender {
        return Err(AuctionError::Unauthorized);
    }
    match auction.status {
        AuctionStatus::Resolved => {
            return Err(AuctionError::AuctionResolved);
        },
        AuctionStatus::Canceled => {
            return Err(AuctionError::AuctionCanceled);
        },
        AuctionStatus::Active => {},
    }
    if auction.has_ended(block) {
        return Err(AuctionError::AuctionExpired);
    }

    let refund_previous_bid_msg = refund_previous_bid_msg(&auction);

    match finish_auction(storage, auction_id, AuctionStatus::Canceled) {
        Ok(()) => {},
        Err(e) => {
            return Err(e);
        },
    }

    let send_nft_back_msg = transfer_nft_msg(&auction, &auction.creator);
    let id_text = decimal_string(auction_id as u128);
    let response = Response::new().add_attribute("action", "cancel_auction").add_attribute(
        "auction_id",
        id_text.as_str(),
    ).add_message(send_nft_back_msg).add_messages(refund_previous_bid_msg);
    proof {
        let expected = canceled(old(storage)@, block@, info@.sender, auction_id)->Ok_0.1;
        assert(response@.attributes =~= expected.attributes);
        assert(response@.messages =~= expected.messages);
    }
    Ok(response)
}

/// Buys the item of the auction `auction_id`, whose record is `auction`, for
/// `bid_amount`: the auction is resolved at once, the amount goes to the
/// creator, the item to the bidder, and the bid that was active is refunded.
fn buyout_auction(
    storage: &mut AuctionStore,
    auction_id: AuctionId,
    auction: TrackAuction,
    bidder: Addr,
    bid_asset: PriceAsset,
    bid_amount: u128,
) -> (response: AuctionResult<Response>)
    ensures
        step_taken(
            old(storage)@,
            final(storage)@,
            response,
            bought_out(old(storage)@, auction_id, auction@, bidder@, bid_asset@, bid_amount),
        ),
        final(storage)@.wf(),
{
    proof {
        use_type_invariant(&*storage);
    }
    let send_nft_to_buyer_msg = transfer_nft_msg(&auction, &bidder);
    let refund_previous_bid_msg = refund_previous_bid_msg(&auction);
    let send_bid_amount_msg = Instruction::TransferAsset {
        asset: bid_asset,
        amount: bid_amount,
        recipient: auction.creator.clone(),
    };

    match finish_auction(storage, auction_id, AuctionStatus::Resolved) {
        Ok(()) => {},
        Err(e) => {
            return Err(e);
        },
    }

    let id_text = decimal_string(auction_id as u128);
    let amount_text = decimal_string(bid_amount);
    let response = Response::new().add_attribute("action", "instant_buyout").add_attribute(
        "auction_id",
        id_text.as_str(),
    ).add_attribute("bid_amount", amount_text.as_str()).add_message(
        send_bid_amount_msg,
    ).add_message(send_nft_to_buyer_msg).add_messages(refund_previous_bid_msg);
    proof {
        let expected = bought_out(
            old(storage)@,
            auction_id,
            auction@,
            bidder@,
            bid_asset@,
            bid_amount,
        )->Ok_0.1;
        assert(response@.attributes =~= expected.attributes);
        assert(response@.messages =~= expected.messages);
    }
    Ok(response)
}

/// Takes a bid of `bid_amount` on the auction `auction_id` from `bidder`,
/// for which `bid_received_amount` of `bid_asset` was paid. Funds beyond the
/// amount bid are accepted and kept.
pub fn resolve_bid(
    storage: &mut AuctionStore,
    block: &BlockInfo,
    bidder: Addr,
    auction_id: AuctionId,
    bid_asset: PriceAsset,
    bid_received_amount: u128,
    bid_amount: u128,
) -> (response: AuctionResult<Response>)
    ensures
        step_taken(
            old(storage)@,
            final(storage)@,
            response,
            bid_resolved(
                old(storage)@,
                block@,
                bidder@,
                auction_id,
                bid_asset@,
                bid_received_amount,
                bid_amount,
            ),
        ),
        final(storage)@.wf(),
{
    proof {
        use_type_invariant(&*storage);
    }
    if bid_received_amount < bid_amount {
        return Err(AuctionError::InsufficientFundsForBid);
    }
    let auction = match load_auction(storage, auction_id) {
        Ok(Some(auction)) => auction,
        Ok(None) => {
            return Err(AuctionError::AuctionIdNotFound);
        },
        Err(e) => {
            return Err(e);
        },
    };

    // do not allow self-bidding
    if bidder == auction.creator {
        return Err(AuctionError::Unauthorized);
    }
    if auction.has_ended(block) {
        return Err(AuctionError::BiddingAfterAuctionEnded);
    }
    let config = match load_config(storage) {
        Ok(config) => config,
        Err(e) => {
            return Err(e);
        },
    };

    if config.price_asset != bid_asset {
        return Err(AuctionError::BidWrongAsset);
    } else if !auction.admits_amount(bid_amount) {
        return Err(AuctionError::BidLowerThanMinimum);
    }
    // if the buyout price is reached, the auction ends here

    if let Some(buyout_price) = auction.buyout_price {
        if buyout_price <= bid_amount {
            return buyout_auction(storage, auction_id, auction, bidder, bid_asset, bid_amount);
        }
    }
    match update_active_bid(
        storage,
        auction_id,
        Bid { amount: bid_amount, asset: config.price_asset, bidder, posted_at: block.clone() },
    ) {
        Ok(_) => {},
        Err(e) => {
            return Err(e);
        },
    }

    let id_text = decimal_string(auction_id as u128);
    let amount_text = decimal_string(bid_amount);
    // if there was an active bid before this one, it is refunded
    let response = Response::new().add_attribute("action", "bid").add_attribute(
        "auction_id",
        id_text.as_str(),
    ).add_attribute("bid_amount", amount_text.as_str()).add_messages(
        refund_previous_bid_msg(&auction),
    );
    proof {
        let expected = bid_resolved(
            old(storage)@,
            block@,
            bidder@,
            auction_id,
            bid_asset@,
            bid_received_amount,
            bid_amount,
        )->Ok_0.1;
        assert(response@.attributes =~= expected.attributes);
        assert(response@.messages =~= expected.messages);
    }
    Ok(response)
}

/// Takes a bid of `bid_amount` on the auction `auction_id`, paid in the
/// native funds that came with the message: exactly one coin.
pub fn bid(
    storage: &mut AuctionStore,
    block: &BlockInfo,
    info: &MessageInfo,
    auction_id: AuctionId,
    bid_amount: u128,
) -> (response: AuctionResult<Response>)
    ensures
        step_taken(
            old(storage)@,
            final(storage)@,
            response,
            bid_placed(old(storage)@, block@, info@, auction_id, bid_amount),
        ),
        final(storage)@.wf(),
{
    proof {
        use_type_invariant(&*storage);
    }
    if info.funds.len() == 0 {
        return Err(AuctionError::NoBidFundsSupplied);
    } else if info.funds.len() > 1 {
        return Err(AuctionError::UnnecessaryAssetsForBid);
    }
    let bid_funds = &info.funds[0];
    let bid_asset = PriceAsset::native(bid_funds.denom.as_str());
    let bid_received_amount = bid_funds.amount;

    resolve_bid(
        storage,
        block,
        info.sender.clone(),
        auction_id,
        bid_asset,
        bid_received_amount,
        bid_amount,
    )
}

/// Takes the deposit of tokens of the contract `info.sender`: a bid paid in
/// those tokens, by the one who sent them.
pub fn receive_cw20(
    storage: &mut AuctionStore,
    block: &BlockInfo,
    info: &MessageInfo,
    cw20_msg: TokenDeposit,
) -> (response: AuctionResult<Response>)
    ensures
        step_taken(
            old(storage)@,
            final(storage)@,
            response,
            cw20_received(old(storage)@, block@, info@.sender, cw20_msg@),
        ),
        final(storage)@.wf(),
{
    proof {
        use_type_invariant(&*storage);
    }
    match cw20_msg.msg {
        Some(Cw20HookMsg::Bid { auction_id, bid_amount }) => {
            let bid_asset = PriceAsset::cw20(info.sender.clone());
            let bid_received_amount = cw20_msg.amount;
            let bidder = match cw20_msg.sender {
                Ok(bidder) => bidder,
                Err(reason) => {
                    return Err(AuctionError::Std(reason));
                },
            };
            resolve_bid(
                storage,
                block,
                bidder,
                auction_id,
                bid_asset,
                bid_received_amount,
                bid_amount,
            )
        },
        None => Err(AuctionError::Std("unknown CW20 hook message received".to_string())),
    }
}

/// Takes the deposit of an item by the contract `info.sender`: where that is
/// the whitelisted contract, an auction of the item is created for the one
/// who held it.
pub fn receive_nft(
    storage: &mut AuctionStore,
    block: &BlockInfo,
    info: &MessageInfo,
    msg: NftDeposit,
) -> (response: AuctionResult<Response>)
    ensures
        step_taken(
            old(storage)@,
            final(storage)@,
            response,
            nft_received(old(storage)@, block@, info@.sender, msg@),
        ),
        final(storage)@.wf(),
{
    proof {
        use_type_invariant(&*storage);
    }
    let config = match load_config(storage) {
        Ok(config) => config,
        Err(e) => {
            return Err(e);
        },
    };

    // only the whitelisted contract can deposit
    if info.sender != config.whitelisted_nft {
        return Err(AuctionError::Cw721NotWhitelisted);
    }
    match msg.msg {
        Some(Cw721HookMsg::CreateAuction { duration, minimum_bid_amount, buyout_price }) => {
            if duration == Duration::Time(0) || duration == Duration::Height(0) {
                return Err(AuctionError::InvalidAuctionDuration);
            }
            let creator = match msg.sender {
                Ok(creator) => creator,
                Err(reason) => {
                    return Err(AuctionError::Std(reason));
                },
            };
            let auction_data = CreateAuctionData {
                duration,
                creator,
                nft_contract: info.sender.clone(),
                track_token_id: msg.token_id,
                minimum_bid_amount,
                buyout_price,
            };
            let id = match save_new_auction(storage, block.clone(), auction_data) {
                Ok(id) => id,
                Err(e) => {
                    return Err(e);
                },
            };
            let id_text = decimal_string(id as u128);
            let response = Response::new().add_attribute(
                "action",
                "create_auction",
            ).add_attribute("auction_id", id_text.as_str());
            proof {
                let expected = nft_received(old(storage)@, block@, info@.sender, msg@)->Ok_0.1;
                assert(response@.attributes =~= expected.attributes);
                assert(response@.messages =~= expected.messages);
            }
            Ok(response)
        },
        None => Err(AuctionError::Std("unknown NFT receive hook message".to_string())),
    }
}

} // verus!

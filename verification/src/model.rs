//! The engine as a function on models: for each operation, what it answers
//! on a store and what store it leaves.

use crate::api::{AuctionId, AuctionStatus, AuctionView, BidView, BlockInfoView, ConfigView};
use crate::asset::{checked_asset, PriceAssetView};
use crate::auctions::{config_missing, finished, CreateAuctionDataView, StoreView};
use crate::error::{AuctionErrorView, AuctionResult};
use crate::msg::{
    Cw20HookMsg, Cw721HookMsg, ExecuteMsgView, InstantiateMsgView, MessageInfoView, NftDepositView,
    TokenDepositView,
};
use crate::response::{decimal, AttributeView, InstructionView, Response, ResponseView};
use vstd::prelude::*;

verus! {

/// What an operation does to a store: the store it leaves and the response
/// it gives, or the error for which it leaves the store as it was.
pub type Step = Result<(StoreView, ResponseView), AuctionErrorView>;

/// Whether an operation that turned the store `before` into the store
/// `after` and answered `response` did what `step` says.
pub open spec fn step_taken(
    before: StoreView,
    after: StoreView,
    response: AuctionResult<Response>,
    step: Step,
) -> bool {
    match step {
        Ok((store, expected)) => response is Ok && response->Ok_0@ == expected && after == store,
        Err(e) => response is Err && response->Err_0@ == e && after == before,
    }
}

/// The attribute with the key `key` and the value `value`.
pub open spec fn attribute(key: Seq<char>, value: Seq<char>) -> AttributeView {
    AttributeView { key, value }
}

/// The instruction that transfers the auctioned item to `recipient`.
pub open spec fn item_to(auction: AuctionView, recipient: Seq<char>) -> InstructionView {
    InstructionView::TransferNft {
        nft_contract: auction.nft_contract,
        recipient,
        token_id: auction.track_token_id,
    }
}

/// The instruction that pays the bid `bid` to `recipient`.
pub open spec fn bid_to(bid: BidView, recipient: Seq<char>) -> InstructionView {
    InstructionView::TransferAsset { asset: bid.asset, amount: bid.amount, recipient }
}

/// The refund of the active bid to its bidder: one instruction where the
/// auction has an active bid, none where it has not.
pub open spec fn refund(auction: AuctionView) -> Seq<InstructionView> {
    match auction.active_bid {
        Some(bid) => seq![bid_to(bid, bid.bidder)],
        None => seq![],
    }
}

/// The error for a deposit of an item whose message cannot be read.
pub open spec fn unknown_nft_hook() -> AuctionErrorView {
    AuctionErrorView::Std("unknown NFT receive hook message"@)
}

/// The error for a deposit of tokens whose message cannot be read.
pub open spec fn unknown_cw20_hook() -> AuctionErrorView {
    AuctionErrorView::Std("unknown CW20 hook message received"@)
}

/// Setting the contract up: the address of the whitelisted contract must be
/// valid, and so must the price asset; then the configuration is stored.
pub open spec fn instantiated(
    store: StoreView,
    msg: InstantiateMsgView,
    whitelisted_nft: Result<Seq<char>, Seq<char>>,
    price_asset_contract: Result<Seq<char>, Seq<char>>,
) -> Step {
    match whitelisted_nft {
        Err(reason) => Err(AuctionErrorView::Std(reason)),
        Ok(nft) => match checked_asset(msg.price_asset, price_asset_contract) {
            Err(reason) => Err(AuctionErrorView::Std(reason)),
            Ok(price_asset) => Ok(
                (
                    store.with_config(ConfigView { whitelisted_nft: nft, price_asset }),
                    ResponseView {
                        attributes: seq![
                            attribute("action"@, "instantiate"@),
                            attribute("whitelisted_nft"@, nft),
                        ] + price_asset_attributes(price_asset),
                        messages: seq![],
                    },
                ),
            ),
        },
    }
}

/// The attributes that describe a price asset.
pub open spec fn price_asset_attributes(asset: PriceAssetView) -> Seq<AttributeView> {
    match asset {
        PriceAssetView::Native { denom } => seq![
            attribute("price_asset"@, "native"@),
            attribute("price_asset_denom"@, denom),
        ],
        PriceAssetView::Cw20 { contract } => seq![
            attribute("price_asset"@, "cw20"@),
            attribute("price_asset_cw20_contract"@, contract),
        ],
    }
}

/// The deposit of an item by `sender` in block `block`. The depositing
/// contract must be the whitelisted one, the message must ask for an
/// auction of a duration that is not zero, and the address of the item's
/// previous holder must be valid; then an auction is created for that holder.
pub open spec fn nft_received(
    store: StoreView,
    block: BlockInfoView,
    sender: Seq<char>,
    deposit: NftDepositView,
) -> Step {
    match store.config {
        None => Err(config_missing()),
        Some(config) => if sender != config.whitelisted_nft {
            Err(AuctionErrorView::Cw721NotWhitelisted)
        } else {
            match deposit.msg {
                None => Err(unknown_nft_hook()),
                Some(
                    Cw721HookMsg::CreateAuction { duration, minimum_bid_amount, buyout_price },
                ) => {
                    if duration.is_zero() {
                        Err(AuctionErrorView::InvalidAuctionDuration)
                    } else {
                        match deposit.sender {
                            Err(reason) => Err(AuctionErrorView::Std(reason)),
                            Ok(creator) => Ok(
                                (
                                    store.with_new_auction(
                                        store.new_auction(
                                            config,
                                            block,
                                            CreateAuctionDataView {
                                                duration,
                                                creator,
                                                nft_contract: sender,
                                                track_token_id: deposit.token_id,
                                                minimum_bid_amount,
                                                buyout_price,
                                            },
                                        ),
                                    ),
                                    ResponseView {
                                        attributes: seq![
                                            attribute("action"@, "create_auction"@),
                                            attribute("auction_id"@, decimal(store.next_id())),
                                        ],
                                        messages: seq![],
                                    },
                                ),
                            ),
                        }
                    }
                },
            }
        },
    }
}

/// A bid of `bid_amount` on the auction `auction_id` by `bidder` in block
/// `block`, for which `received` of the asset `bid_asset` was paid.
///
/// The bid is refused, in this order, where less was paid than is bid; where
/// there is no such auction; where the bidder created the auction; where the
/// auction has ended; where the asset is not the configured one; and where
/// the amount is below the least that the next bid must offer. A bid that
/// reaches the buyout price buys the item at once. Any other bid becomes the
/// active bid, and the bid that was active before is refunded.
///
/// The status of the auction is not among the things looked at. Once an
/// auction has ended no bid on it is accepted, whatever its status; but an
/// auction that was canceled or bought out before its end still takes a bid
/// below its buyout price until then, which changes the bid that its record
/// holds and not its status.
pub open spec fn bid_resolved(
    store: StoreView,
    block: BlockInfoView,
    bidder: Seq<char>,
    auction_id: AuctionId,
    bid_asset: PriceAssetView,
    received: u128,
    bid_amount: u128,
) -> Step {
    if received < bid_amount {
        Err(AuctionErrorView::InsufficientFundsForBid)
    } else {
        match store.auction(auction_id) {
            None => Err(AuctionErrorView::AuctionIdNotFound),
            Some(auction) => if bidder == auction.creator {
                Err(AuctionErrorView::Unauthorized)
            } else if auction.has_ended(block) {
                Err(AuctionErrorView::BiddingAfterAuctionEnded)
            } else {
                match store.config {
                    None => Err(config_missing()),
                    Some(config) => if config.price_asset != bid_asset {
                        Err(AuctionErrorView::BidWrongAsset)
                    } else if bid_amount < auction.minimum_next_bid() {
                        Err(AuctionErrorView::BidLowerThanMinimum)
                    } else if reaches_buyout(auction, bid_amount) {
                        bought_out(store, auction_id, auction, bidder, bid_asset, bid_amount)
                    } else {
                        Ok(
                            (
                                store.with_auction(
                                    auction_id,
                                    AuctionView {
                                        active_bid: Some(
                                            BidView {
                                                amount: bid_amount,
                                                asset: config.price_asset,
                                                bidder,
                                                posted_at: block,
                                            },
                                        ),
                                        ..auction
                                    },
                                ),
                                ResponseView {
                                    attributes: seq![
                                        attribute("action"@, "bid"@),
                                        attribute("auction_id"@, decimal(auction_id as nat)),
                                        attribute("bid_amount"@, decimal(bid_amount as nat)),
                                    ],
                                    messages: refund(auction),
                                },
                            ),
                        )
                    },
                }
            },
        }
    }
}

/// Whether a bid of `bid_amount` reaches the buyout price of the auction.
pub open spec fn reaches_buyout(auction: AuctionView, bid_amount: u128) -> bool {
    auction.buyout_price matches Some(price) && price <= bid_amount
}

/// The buyout of the auction `auction_id`, whose record is `auction`, by a
/// bid of `bid_amount` from `bidder`: the auction is resolved, the amount goes
/// to the creator, the item to the bidder, and the bid that was active before
/// is refunded. An auction that is not active cannot be bought out.
pub open spec fn bought_out(
    store: StoreView,
    auction_id: AuctionId,
    auction: AuctionView,
    bidder: Seq<char>,
    bid_asset: PriceAssetView,
    bid_amount: u128,
) -> Step {
    match finished(store, auction_id, AuctionStatus::Resolved) {
        Err(e) => Err(e),
        Ok(resolved) => Ok(
            (
                resolved,
                ResponseView {
                    attributes: seq![
                        attribute("action"@, "instant_buyout"@),
                        attribute("auction_id"@, decimal(auction_id as nat)),
                        attribute("bid_amount"@, decimal(bid_amount as nat)),
                    ],
                    messages: seq![
                        InstructionView::TransferAsset {
                            asset: bid_asset,
                            amount: bid_amount,
                            recipient: auction.creator,
                        },
                        item_to(auction, bidder),
                    ] + refund(auction),
                },
            ),
        ),
    }
}

/// A bid paid in the native funds that came with the message: exactly one
/// coin must have come, and it is what was paid for the bid.
pub open spec fn bid_placed(
    store: StoreView,
    block: BlockInfoView,
    info: MessageInfoView,
    auction_id: AuctionId,
    bid_amount: u128,
) -> Step {
    if info.funds.len() == 0 {
        Err(AuctionErrorView::NoBidFundsSupplied)
    } else if info.funds.len() > 1 {
        Err(AuctionErrorView::UnnecessaryAssetsForBid)
    } else {
        bid_resolved(
            store,
            block,
            info.sender,
            auction_id,
            PriceAssetView::Native { denom: info.funds[0].denom },
            info.funds[0].amount,
            bid_amount,
        )
    }
}

/// The deposit of tokens of the contract `sender` in block `block`: the
/// message must ask for a bid and the address of the one who sent the tokens
/// must be valid; then the tokens deposited are what was paid for the bid.
pub open spec fn cw20_received(
    store: StoreView,
    block: BlockInfoView,
    sender: Seq<char>,
    deposit: TokenDepositView,
) -> Step {
    match deposit.msg {
        None => Err(unknown_cw20_hook()),
        Some(Cw20HookMsg::Bid { auction_id, bid_amount }) => match deposit.sender {
            Err(reason) => Err(AuctionErrorView::Std(reason)),
            Ok(bidder) => bid_resolved(
                store,
                block,
                bidder,
                auction_id,
                PriceAssetView::Cw20 { contract: sender },
                deposit.amount,
                bid_amount,
            ),
        },
    }
}

/// The error that answers an attempt to end an auction of the status
/// `status` once more, if that status is final.
pub open spec fn terminal_error(status: AuctionStatus) -> Option<AuctionErrorView> {
    match status {
        AuctionStatus::Active => None,
        AuctionStatus::Resolved => Some(AuctionErrorView::AuctionResolved),
        AuctionStatus::Canceled => Some(AuctionErrorView::AuctionCanceled),
    }
}

/// Resolving the auction `auction_id` in block `block`, by anyone. The
/// auction must exist, must have ended and must be active. With an active
/// bid the item goes to the bidder and the bid to the creator; without one
/// the item goes back to the creator, and nothing else moves.
pub open spec fn resolved(store: StoreView, block: BlockInfoView, auction_id: AuctionId) -> Step {
    match store.auction(auction_id) {
        None => Err(AuctionErrorView::AuctionIdNotFound),
        Some(auction) => if !auction.has_ended(block) {
            Err(AuctionErrorView::AuctionStillInProgress)
        } else {
            match terminal_error(auction.status) {
                Some(e) => Err(e),
                None => Ok(
                    (
                        store.with_auction(
                            auction_id,
                            AuctionView { status: AuctionStatus::Resolved, ..auction },
                        ),
                        ResponseView {
                            attributes: seq![
                                attribute("action"@, "resolve_auction"@),
                                attribute("auction_id"@, decimal(auction_id as nat)),
                            ],
                            messages: match auction.active_bid {
                                Some(bid) => seq![
                                    item_to(auction, bid.bidder),
                                    bid_to(bid, auction.creator),
                                ],
                                None => seq![item_to(auction, auction.creator)],
                            },
                        },
                    ),
                ),
            }
        },
    }
}

/// Canceling the auction `auction_id` in block `block`, by `sender`. The
/// auction must exist, `sender` must be its creator, and it must be active
/// and not have ended. The item goes back to the creator, and the active bid,
/// if any, is refunded.
pub open spec fn canceled(
    store: StoreView,
    block: BlockInfoView,
    sender: Seq<char>,
    auction_id: AuctionId,
) -> Step {
    match store.auction(auction_id) {
        None => Err(AuctionErrorView::AuctionIdNotFound),
        Some(auction) => if auction.creator != sender {
            Err(AuctionErrorView::Unauthorized)
        } else {
            match terminal_error(auction.status) {
                Some(e) => Err(e),
                None => if auction.has_ended(block) {
                    Err(AuctionErrorView::AuctionExpired)
                } else {
                    Ok(
                        (
                            store.with_auction(
                                auction_id,
                                AuctionView { status: AuctionStatus::Canceled, ..auction },
                            ),
                            ResponseView {
                                attributes: seq![
                                    attribute("action"@, "cancel_auction"@),
                                    attribute("auction_id"@, decimal(auction_id as nat)),
                                ],
                                messages: seq![item_to(auction, auction.creator)] + refund(
                                    auction,
                                ),
                            },
                        ),
                    )
                },
            }
        },
    }
}

/// What the engine does on a message from `info.sender` in block `block`.
pub open spec fn executed(
    store: StoreView,
    block: BlockInfoView,
    info: MessageInfoView,
    msg: ExecuteMsgView,
) -> Step {
    match msg {
        ExecuteMsgView::Bid { auction_id, bid_amount } => bid_placed(
            store,
            block,
            info,
            auction_id,
            bid_amount,
        ),
        ExecuteMsgView::ResolveAuction { auction_id } => resolved(store, block, auction_id),
        ExecuteMsgView::CancelAuction { auction_id } => canceled(
            store,
            block,
            info.sender,
            auction_id,
        ),
        ExecuteMsgView::Receive(deposit) => cw20_received(store, block, info.sender, deposit),
        ExecuteMsgView::ReceiveNft(deposit) => nft_received(store, block, info.sender, deposit),
    }
}

} // verus!

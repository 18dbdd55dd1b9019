//! What holds of the engine on every store, proved of the functions in
//! [`crate::model`], which the contracts of the operations are stated in.

use crate::api::{
    AuctionId, AuctionStatus, AuctionView, BidView, BlockInfoView, ConfigView, Duration,
    NANOS_PER_SECOND,
};
use crate::asset::PriceAssetView;
use crate::auctions::{listed, page_limit, StoreView};
use crate::error::AuctionErrorView;
use crate::model::{
    bid_resolved, bid_to, canceled, executed, item_to, reaches_buyout, refund, resolved,
    terminal_error,
};
use crate::msg::{Cw20HookMsg, ExecuteMsgView, MessageInfoView};
use crate::response::{total_asset_amount, InstructionView};
use vstd::prelude::*;

verus! {

/// The amounts of up to three instructions add up one by one.
pub proof fn lemma_total_asset_amount(instructions: Seq<InstructionView>)
    requires
        instructions.len() <= 3,
    ensures
        instructions.len() == 0 ==> total_asset_amount(instructions) == 0,
        instructions.len() == 1 ==> total_asset_amount(instructions)
            == instructions[0].asset_amount(),
        instructions.len() == 2 ==> total_asset_amount(instructions)
            == instructions[0].asset_amount() + instructions[1].asset_amount(),
        instructions.len() == 3 ==> total_asset_amount(instructions)
            == instructions[0].asset_amount() + instructions[1].asset_amount()
            + instructions[2].asset_amount(),
    decreases instructions.len(),
{
    if instructions.len() > 0 {
        lemma_total_asset_amount(instructions.drop_last());
    }
}

/// Bids only rise: a bid that is accepted offers more than the bid that was
/// active before it, or, where it is the first, no less than the auction's
/// minimum.
pub proof fn lemma_accepted_bid_exceeds_previous(
    store: StoreView,
    block: BlockInfoView,
    bidder: Seq<char>,
    auction_id: AuctionId,
    bid_asset: PriceAssetView,
    received: u128,
    bid_amount: u128,
)
    requires
        bid_resolved(store, block, bidder, auction_id, bid_asset, received, bid_amount) is Ok,
    ensures
        store.auction(auction_id) matches Some(auction) && match auction.active_bid {
            Some(previous) => bid_amount > previous.amount,
            None => bid_amount >= auction.minimum_bid_amount,
        },
{
}

/// An auction has one active bid at most: a bid that is accepted without
/// buying the item takes the place of the bid that was active, and is then
/// the one bid that the auction holds. It is paid in the configured asset.
pub proof fn lemma_accepted_bid_is_the_active_bid(
    store: StoreView,
    block: BlockInfoView,
    bidder: Seq<char>,
    auction_id: AuctionId,
    bid_asset: PriceAssetView,
    received: u128,
    bid_amount: u128,
)
    requires
        bid_resolved(store, block, bidder, auction_id, bid_asset, received, bid_amount) is Ok,
        !reaches_buyout(store.auction(auction_id)->Some_0, bid_amount),
    ensures
        ({
            let after = bid_resolved(
                store,
                block,
                bidder,
                auction_id,
                bid_asset,
                received,
                bid_amount,
            )->Ok_0.0;
            &&& after.auction(auction_id) matches Some(auction)
            &&& auction.active_bid == Some(
                BidView { amount: bid_amount, asset: bid_asset, bidder, posted_at: block },
            )
            &&& store.config matches Some(config) && config.price_asset == bid_asset
            &&& auction.status == store.auction(auction_id)->Some_0.status
        }),
{
}

/// Every displaced bid is refunded once: where a bid is accepted on an
/// auction that had an active bid, exactly one of the instructions pays the
/// amount of that bid, in its asset, to its bidder; it is the last one.
/// Where there was no active bid, no instruction pays anyone but the creator.
pub proof fn lemma_displaced_bid_is_refunded_once(
    store: StoreView,
    block: BlockInfoView,
    bidder: Seq<char>,
    auction_id: AuctionId,
    bid_asset: PriceAssetView,
    received: u128,
    bid_amount: u128,
)
    requires
        bid_resolved(store, block, bidder, auction_id, bid_asset, received, bid_amount) is Ok,
    ensures
        ({
            let messages = bid_resolved(
                store,
                block,
                bidder,
                auction_id,
                bid_asset,
                received,
                bid_amount,
            )->Ok_0.1.messages;
            let auction = store.auction(auction_id)->Some_0;
            match auction.active_bid {
                Some(previous) => forall|i: int|
                    0 <= i < messages.len() ==> (#[trigger] messages[i] == bid_to(
                        previous,
                        previous.bidder,
                    ) <==> i == messages.len() - 1),
                None => forall|i: int|
                    0 <= i < messages.len() ==> (#[trigger] messages[i]).asset_amount() > 0
                        ==> messages[i] == (InstructionView::TransferAsset {
                        asset: bid_asset,
                        amount: bid_amount,
                        recipient: auction.creator,
                    }),
            }
        }),
{
}

/// A bid on an active auction creates and destroys nothing: what the
/// auction held in escrow, and the amount bid, is what it holds afterwards
/// and what the instructions pay out.
pub proof fn lemma_bid_conserves_value(
    store: StoreView,
    block: BlockInfoView,
    bidder: Seq<char>,
    auction_id: AuctionId,
    bid_asset: PriceAssetView,
    received: u128,
    bid_amount: u128,
)
    requires
        bid_resolved(store, block, bidder, auction_id, bid_asset, received, bid_amount) is Ok,
        store.auction(auction_id)->Some_0.status == AuctionStatus::Active,
    ensures
        ({
            let (after, response) = bid_resolved(
                store,
                block,
                bidder,
                auction_id,
                bid_asset,
                received,
                bid_amount,
            )->Ok_0;
            store.auction(auction_id)->Some_0.escrow() + bid_amount == after.auction(
                auction_id,
            )->Some_0.escrow() + total_asset_amount(response.messages)
        }),
{
    let (after, response) = bid_resolved(
        store,
        block,
        bidder,
        auction_id,
        bid_asset,
        received,
        bid_amount,
    )->Ok_0;
    lemma_total_asset_amount(response.messages);
}

/// Resolving an auction creates and destroys nothing: what the auction held
/// in escrow is what the instructions pay out, and nothing stays in escrow.
pub proof fn lemma_resolve_conserves_value(
    store: StoreView,
    block: BlockInfoView,
    auction_id: AuctionId,
)
    requires
        resolved(store, block, auction_id) is Ok,
    ensures
        ({
            let (after, response) = resolved(store, block, auction_id)->Ok_0;
            &&& store.auction(auction_id)->Some_0.escrow() == total_asset_amount(
                response.messages,
            )
            &&& after.auction(auction_id)->Some_0.escrow() == 0
        }),
{
    let (after, response) = resolved(store, block, auction_id)->Ok_0;
    lemma_total_asset_amount(response.messages);
}

/// Canceling an auction creates and destroys nothing: what the auction held
/// in escrow is what the instructions pay out, and nothing stays in escrow.
pub proof fn lemma_cancel_conserves_value(
    store: StoreView,
    block: BlockInfoView,
    sender: Seq<char>,
    auction_id: AuctionId,
)
    requires
        canceled(store, block, sender, auction_id) is Ok,
    ensures
        ({
            let (after, response) = canceled(store, block, sender, auction_id)->Ok_0;
            &&& store.auction(auction_id)->Some_0.escrow() == total_asset_amount(
                response.messages,
            )
            &&& after.auction(auction_id)->Some_0.escrow() == 0
        }),
{
    let (after, response) = canceled(store, block, sender, auction_id)->Ok_0;
    lemma_total_asset_amount(response.messages);
}

/// An operation on one auction leaves every other auction, and the
/// configuration, as they were, and creates no auction.
pub proof fn lemma_operation_touches_one_auction(
    store: StoreView,
    block: BlockInfoView,
    info: MessageInfoView,
    auction_id: AuctionId,
    msg: ExecuteMsgView,
    other: AuctionId,
)
    requires
        executed(store, block, info, msg) is Ok,
        other != auction_id,
        msg matches ExecuteMsgView::Bid { auction_id: id, .. } && id == auction_id
            || msg == (ExecuteMsgView::ResolveAuction { auction_id })
            || msg == (ExecuteMsgView::CancelAuction { auction_id })
            || (msg matches ExecuteMsgView::Receive(deposit) && deposit.msg matches Some(
            Cw20HookMsg::Bid { auction_id: id, .. },
        ) && id == auction_id),
    ensures
        ({
            let after = executed(store, block, info, msg)->Ok_0.0;
            &&& after.auction(other) == store.auction(other)
            &&& after.config == store.config
            &&& after.next_id() == store.next_id()
        }),
{
}

/// A final status stays: whatever the engine does, an auction that was
/// resolved stays resolved and one that was canceled stays canceled. No
/// auction is ever removed, and no identifier is given out twice.
pub proof fn lemma_final_status_stays(
    store: StoreView,
    block: BlockInfoView,
    info: MessageInfoView,
    msg: ExecuteMsgView,
    auction_id: AuctionId,
)
    requires
        executed(store, block, info, msg) is Ok,
        store.auction(auction_id) is Some,
    ensures
        ({
            let after = executed(store, block, info, msg)->Ok_0.0;
            let before = store.auction(auction_id)->Some_0;
            &&& after.auction(auction_id) matches Some(auction)
            &&& before.status != AuctionStatus::Active ==> auction.status == before.status
            &&& after.next_id() >= store.next_id()
        }),
{
}

/// Every operation keeps each auction at the place of its identifier.
pub proof fn lemma_operations_keep_the_store_well_formed(
    store: StoreView,
    block: BlockInfoView,
    info: MessageInfoView,
    msg: ExecuteMsgView,
)
    requires
        store.wf(),
        store.next_id() < u64::MAX,
        executed(store, block, info, msg) is Ok,
    ensures
        executed(store, block, info, msg)->Ok_0.0.wf(),
        store.next_id() <= executed(store, block, info, msg)->Ok_0.0.next_id() <= store.next_id()
            + 1,
{
}

/// An auction that is resolved or canceled cannot be resolved: the attempt
/// fails, and once the auction has ended it fails with the error that names
/// the final status.
pub proof fn lemma_finished_auction_is_not_resolved(
    store: StoreView,
    block: BlockInfoView,
    auction_id: AuctionId,
)
    requires
        store.auction(auction_id) matches Some(auction) && auction.status
            != AuctionStatus::Active,
    ensures
        resolved(store, block, auction_id) is Err,
        store.auction(auction_id)->Some_0.has_ended(block) ==> Some(
            resolved(store, block, auction_id)->Err_0,
        ) == terminal_error(store.auction(auction_id)->Some_0.status),
{
}

/// An auction that is resolved or canceled cannot be canceled: the attempt
/// fails, and where the creator makes it, it fails with the error that names
/// the final status.
pub proof fn lemma_finished_auction_is_not_canceled(
    store: StoreView,
    block: BlockInfoView,
    sender: Seq<char>,
    auction_id: AuctionId,
)
    requires
        store.auction(auction_id) matches Some(auction) && auction.status
            != AuctionStatus::Active,
    ensures
        canceled(store, block, sender, auction_id) is Err,
        store.auction(auction_id)->Some_0.creator == sender ==> Some(
            canceled(store, block, sender, auction_id)->Err_0,
        ) == terminal_error(store.auction(auction_id)->Some_0.status),
{
}

/// On an auction that is resolved or canceled, no bid is accepted once the
/// auction has ended, and no bid buys the item.
pub proof fn lemma_finished_auction_takes_no_late_bid_and_no_buyout(
    store: StoreView,
    block: BlockInfoView,
    bidder: Seq<char>,
    auction_id: AuctionId,
    bid_asset: PriceAssetView,
    received: u128,
    bid_amount: u128,
)
    requires
        store.auction(auction_id) matches Some(auction) && auction.status
            != AuctionStatus::Active,
        store.auction(auction_id)->Some_0.has_ended(block) || reaches_buyout(
            store.auction(auction_id)->Some_0,
            bid_amount,
        ),
    ensures
        bid_resolved(store, block, bidder, auction_id, bid_asset, received, bid_amount) is Err,
{
}

/// A bid that reaches the buyout price of an active auction, and is
/// accepted, resolves the auction in the same step: the amount goes to the
/// creator, the item to the bidder, the displaced bid back to its bidder, and
/// the auction cannot be resolved or canceled afterwards.
pub proof fn lemma_buyout_resolves_at_once(
    store: StoreView,
    block: BlockInfoView,
    bidder: Seq<char>,
    auction_id: AuctionId,
    bid_asset: PriceAssetView,
    received: u128,
    bid_amount: u128,
    later: BlockInfoView,
    sender: Seq<char>,
)
    requires
        bid_resolved(store, block, bidder, auction_id, bid_asset, received, bid_amount) is Ok,
        reaches_buyout(store.auction(auction_id)->Some_0, bid_amount),
    ensures
        ({
            let (after, response) = bid_resolved(
                store,
                block,
                bidder,
                auction_id,
                bid_asset,
                received,
                bid_amount,
            )->Ok_0;
            let auction = store.auction(auction_id)->Some_0;
            &&& auction.status == AuctionStatus::Active
            &&& after.auction(auction_id) == Some(
                AuctionView { status: AuctionStatus::Resolved, ..auction },
            )
            &&& response.messages == seq![
                InstructionView::TransferAsset {
                    asset: bid_asset,
                    amount: bid_amount,
                    recipient: auction.creator,
                },
                item_to(auction, bidder),
            ] + refund(auction)
            &&& resolved(after, later, auction_id) is Err
            &&& canceled(after, later, sender, auction_id) is Err
        }),
{
}

/// An auction that lasts a number of blocks has not ended in the block
/// whose height is the height of creation plus that number, and has ended in
/// the next one.
pub proof fn lemma_height_expiry_boundary(auction: AuctionView, blocks: u64, block: BlockInfoView)
    requires
        auction.duration == Duration::Height(blocks),
    ensures
        block.height == auction.created_at.height + blocks ==> !auction.has_ended(block),
        block.height == auction.created_at.height + blocks + 1 ==> auction.has_ended(block),
        auction.has_ended(block) <==> block.height > auction.created_at.height + blocks,
{
}

/// An auction that lasts a number of seconds has not ended at the time of
/// creation plus that number of seconds, and has ended at any later time, a
/// second later in particular.
pub proof fn lemma_time_expiry_boundary(auction: AuctionView, seconds: u64, block: BlockInfoView)
    requires
        auction.duration == Duration::Time(seconds),
    ensures
        block.time == auction.created_at.time + seconds * NANOS_PER_SECOND ==> !auction.has_ended(
            block,
        ),
        block.time == auction.created_at.time + (seconds + 1) * NANOS_PER_SECOND
            ==> auction.has_ended(block),
        auction.has_ended(block) <==> block.time > auction.created_at.time + seconds
            * NANOS_PER_SECOND,
{
}

/// The creator's bid on the creator's own auction is never accepted,
/// whatever it offers; where the funds cover the amount bid, it is refused as
/// unauthorized.
pub proof fn lemma_creator_cannot_bid(
    store: StoreView,
    block: BlockInfoView,
    auction_id: AuctionId,
    bid_asset: PriceAssetView,
    received: u128,
    bid_amount: u128,
)
    requires
        store.auction(auction_id) is Some,
    ensures
        ({
            let creator = store.auction(auction_id)->Some_0.creator;
            let step = bid_resolved(
                store,
                block,
                creator,
                auction_id,
                bid_asset,
                received,
                bid_amount,
            );
            &&& step is Err
            &&& received >= bid_amount ==> step == Err::<
                (StoreView, crate::response::ResponseView),
                AuctionErrorView,
            >(AuctionErrorView::Unauthorized)
        }),
{
}

/// Only the creator cancels, and only before the end: anyone else is
/// refused as unauthorized; the creator is refused with the error that names
/// the final status where the auction is finished, and with the error for an
/// expired auction where it is active and has ended.
pub proof fn lemma_cancel_is_for_the_creator_before_the_end(
    store: StoreView,
    block: BlockInfoView,
    sender: Seq<char>,
    auction_id: AuctionId,
)
    requires
        store.auction(auction_id) is Some,
    ensures
        ({
            let auction = store.auction(auction_id)->Some_0;
            let step = canceled(store, block, sender, auction_id);
            &&& sender != auction.creator ==> step is Err && step->Err_0
                == AuctionErrorView::Unauthorized
            &&& sender == auction.creator && auction.status != AuctionStatus::Active ==> step
                is Err && Some(step->Err_0) == terminal_error(auction.status)
            &&& sender == auction.creator && auction.status == AuctionStatus::Active
                && auction.has_ended(block) ==> step is Err && step->Err_0
                == AuctionErrorView::AuctionExpired
            &&& step is Ok <==> sender == auction.creator && auction.status
                == AuctionStatus::Active && !auction.has_ended(block)
        }),
{
}

/// Resolving an auction on which nobody bid gives the item back to the
/// creator, and moves nothing else.
pub proof fn lemma_resolution_without_bid_returns_the_item(
    store: StoreView,
    block: BlockInfoView,
    auction_id: AuctionId,
)
    requires
        resolved(store, block, auction_id) is Ok,
        store.auction(auction_id)->Some_0.active_bid is None,
    ensures
        ({
            let auction = store.auction(auction_id)->Some_0;
            let messages = resolved(store, block, auction_id)->Ok_0.1.messages;
            &&& messages == seq![item_to(auction, auction.creator)]
            &&& total_asset_amount(messages) == 0
        }),
{
    lemma_total_asset_amount(resolved(store, block, auction_id)->Ok_0.1.messages);
}

/// Filtering keeps the order: of auctions in the order of their
/// identifiers, those that a predicate picks are in that order too; each of
/// them is one of the auctions, and none that the predicate picks is left out.
pub proof fn lemma_filter_keeps_order(
    auctions: Seq<AuctionView>,
    wanted: spec_fn(AuctionView) -> bool,
)
    requires
        forall|i: int, j: int|
            0 <= i < j < auctions.len() ==> (#[trigger] auctions[i]).id < (
            #[trigger] auctions[j]).id,
    ensures
        ({
            let picked = auctions.filter(wanted);
            &&& forall|i: int|
                0 <= i < picked.len() ==> wanted(#[trigger] picked[i]) && auctions.contains(
                    picked[i],
                )
            &&& forall|i: int, j: int|
                0 <= i < j < picked.len() ==> (#[trigger] picked[i]).id < (#[trigger] picked[j]).id
            &&& forall|k: int|
                0 <= k < auctions.len() && wanted(auctions[k]) ==> picked.contains(
                    #[trigger] auctions[k],
                )
        }),
    decreases auctions.len(),
{
    reveal(Seq::filter);
    let picked = auctions.filter(wanted);
    if auctions.len() > 0 {
        let front = auctions.drop_last();
        let last = auctions.last();
        lemma_filter_keeps_order(front, wanted);
        let before = front.filter(wanted);
        assert forall|i: int| 0 <= i < before.len() implies auctions.contains(
            #[trigger] before[i],
        ) && before[i].id < last.id by {
            let k = choose|k: int| 0 <= k < front.len() && front[k] == before[i];
            assert(auctions[k] == before[i]);
        }
        if wanted(last) {
            assert(picked == before.push(last));
            assert(auctions[auctions.len() - 1] == last);
            assert(picked[picked.len() - 1] == last);
        } else {
            assert(picked == before);
        }
        assert forall|k: int|
            0 <= k < auctions.len() && wanted(auctions[k]) implies picked.contains(
            #[trigger] auctions[k],
        ) by {
            if k < front.len() {
                assert(front[k] == auctions[k]);
                assert(before.contains(front[k]));
                let i = choose|i: int| 0 <= i < before.len() && before[i] == front[k];
                assert(picked[i] == auctions[k]);
            } else {
                assert(picked[picked.len() - 1] == auctions[k]);
            }
        }
    }
}

/// A page of a well-formed store lists auctions of the partition asked for,
/// each with an identifier after the cursor, in the rising order of their
/// identifiers, and no more of them than the limit admits; a page that is
/// not full leaves none of them out.
pub proof fn lemma_page_is_in_order(
    store: StoreView,
    active: bool,
    start_after: Option<AuctionId>,
    limit: Option<u32>,
)
    requires
        store.wf(),
    ensures
        ({
            let page = store.page(active, start_after, limit);
            &&& 1 <= page_limit(limit) <= 100
            &&& page.len() <= page_limit(limit)
            &&& forall|i: int|
                0 <= i < page.len() ==> listed(#[trigger] page[i], active, start_after)
                    && store.auction(page[i].id) == Some(page[i])
            &&& forall|i: int, j: int|
                0 <= i < j < page.len() ==> (#[trigger] page[i]).id < (#[trigger] page[j]).id
            &&& page.len() < page_limit(limit) ==> forall|id: AuctionId|
                (#[trigger] store.auction(id)) is Some && listed(
                    store.auction(id)->Some_0,
                    active,
                    start_after,
                ) ==> page.contains(store.auction(id)->Some_0)
        }),
{
    let wanted = |a: AuctionView| listed(a, active, start_after);
    let all = store.listing(active, start_after);
    let page = store.page(active, start_after, limit);
    lemma_filter_keeps_order(store.auctions, wanted);
    assert forall|i: int| 0 <= i < page.len() implies listed(
        #[trigger] page[i],
        active,
        start_after,
    ) && store.auction(page[i].id) == Some(page[i]) by {
        assert(page[i] == all[i]);
        let k = choose|k: int| 0 <= k < store.auctions.len() && store.auctions[k] == all[i];
        assert(store.auctions[k].id == k);
    }
    assert forall|i: int, j: int| 0 <= i < j < page.len() implies (#[trigger] page[i]).id < (
    #[trigger] page[j]).id by {
        assert(page[i] == all[i] && page[j] == all[j]);
    }
    if page.len() < page_limit(limit) {
        assert(page == all);
        assert forall|id: AuctionId|
            (#[trigger] store.auction(id)) is Some && listed(
                store.auction(id)->Some_0,
                active,
                start_after,
            ) implies page.contains(store.auction(id)->Some_0) by {
            assert(wanted(store.auctions[id as int]));
        }
    }
}

/// What all the auctions in `auctions` hold in escrow together.
pub open spec fn escrow_sum(auctions: Seq<AuctionView>) -> nat
    decreases auctions.len(),
{
    if auctions.len() == 0 {
        0
    } else {
        escrow_sum(auctions.drop_last()) + auctions.last().escrow()
    }
}

/// The auction that a message bids on, and the amount that it bids, if the
/// message is a bid, paid in native funds or in tokens.
pub open spec fn bid_of(msg: ExecuteMsgView) -> Option<(AuctionId, u128)> {
    match msg {
        ExecuteMsgView::Bid { auction_id, bid_amount } => Some((auction_id, bid_amount)),
        ExecuteMsgView::Receive(deposit) => match deposit.msg {
            Some(Cw20HookMsg::Bid { auction_id, bid_amount }) => Some((auction_id, bid_amount)),
            None => None,
        },
        _ => None,
    }
}

/// The amount that a message brings into escrow: the amount bid, for a bid,
/// and nothing otherwise. Funds paid beyond the amount bid are kept and not
/// counted.
pub open spec fn amount_bid(msg: ExecuteMsgView) -> nat {
    match bid_of(msg) {
        Some((_, bid_amount)) => bid_amount as nat,
        None => 0,
    }
}

/// Whether a message, if it is a bid on an auction of the store, is a bid on
/// an active one.
pub open spec fn bids_on_active(store: StoreView, msg: ExecuteMsgView) -> bool {
    bid_of(msg) matches Some((auction_id, _)) ==> (store.auction(auction_id) matches Some(auction)
        ==> auction.status == AuctionStatus::Active)
}

/// Putting one auction in the place of another changes what is held in
/// escrow by the difference between the two.
pub proof fn lemma_escrow_sum_update(auctions: Seq<AuctionView>, i: int, auction: AuctionView)
    requires
        0 <= i < auctions.len(),
    ensures
        escrow_sum(auctions.update(i, auction)) + auctions[i].escrow() == escrow_sum(auctions)
            + auction.escrow(),
    decreases auctions.len(),
{
    let updated = auctions.update(i, auction);
    if i == auctions.len() - 1 {
        assert(updated.drop_last() =~= auctions.drop_last());
    } else {
        assert(updated.drop_last() =~= auctions.drop_last().update(i, auction));
        lemma_escrow_sum_update(auctions.drop_last(), i, auction);
    }
}

/// Every step conserves value: what the store held in escrow, and the
/// amount that the message bids, is what the store holds afterwards and what
/// the instructions pay out. This holds of every message that is accepted,
/// but for a bid on an auction that is resolved or canceled.
pub proof fn lemma_step_conserves_value(
    store: StoreView,
    block: BlockInfoView,
    info: MessageInfoView,
    msg: ExecuteMsgView,
)
    requires
        executed(store, block, info, msg) is Ok,
        bids_on_active(store, msg),
    ensures
        ({
            let (after, response) = executed(store, block, info, msg)->Ok_0;
            escrow_sum(store.auctions) + amount_bid(msg) == escrow_sum(after.auctions)
                + total_asset_amount(response.messages)
        }),
{
    let (after, response) = executed(store, block, info, msg)->Ok_0;
    match msg {
        ExecuteMsgView::Bid { auction_id, bid_amount } => {
            lemma_bid_conserves_value(
                store,
                block,
                info.sender,
                auction_id,
                PriceAssetView::Native { denom: info.funds[0].denom },
                info.funds[0].amount,
                bid_amount,
            );
            lemma_escrow_sum_update(
                store.auctions,
                auction_id as int,
                after.auction(auction_id)->Some_0,
            );
            assert(after.auctions =~= store.auctions.update(
                auction_id as int,
                after.auction(auction_id)->Some_0,
            ));
        },
        ExecuteMsgView::Receive(deposit) => {
            let Cw20HookMsg::Bid { auction_id, bid_amount } = deposit.msg->Some_0;
            lemma_bid_conserves_value(
                store,
                block,
                deposit.sender->Ok_0,
                auction_id,
                PriceAssetView::Cw20 { contract: info.sender },
                deposit.amount,
                bid_amount,
            );
            lemma_escrow_sum_update(
                store.auctions,
                auction_id as int,
                after.auction(auction_id)->Some_0,
            );
            assert(after.auctions =~= store.auctions.update(
                auction_id as int,
                after.auction(auction_id)->Some_0,
            ));
        },
        ExecuteMsgView::ResolveAuction { auction_id } => {
            lemma_resolve_conserves_value(store, block, auction_id);
            lemma_escrow_sum_update(
                store.auctions,
                auction_id as int,
                after.auction(auction_id)->Some_0,
            );
        },
        ExecuteMsgView::CancelAuction { auction_id } => {
            lemma_cancel_conserves_value(store, block, info.sender, auction_id);
            lemma_escrow_sum_update(
                store.auctions,
                auction_id as int,
                after.auction(auction_id)->Some_0,
            );
        },
        ExecuteMsgView::ReceiveNft(deposit) => {
            assert(after.auctions.drop_last() =~= store.auctions);
            lemma_total_asset_amount(response.messages);
        },
    }
}

/// A message as it arrives: the block in which it arrives, who sent it with
/// which funds, and what it asks for.
pub struct Call {
    pub block: BlockInfoView,
    pub info: MessageInfoView,
    pub msg: ExecuteMsgView,
}

/// The store after one call: what the call leaves where it is accepted, and
/// the store as it was where the call is refused.
pub open spec fn store_after(store: StoreView, call: Call) -> StoreView {
    match executed(store, call.block, call.info, call.msg) {
        Ok((after, _)) => after,
        Err(_) => store,
    }
}

/// The store after a sequence of calls.
pub open spec fn run(store: StoreView, calls: Seq<Call>) -> StoreView
    decreases calls.len(),
{
    if calls.len() == 0 {
        store
    } else {
        store_after(run(store, calls.drop_last()), calls.last())
    }
}

/// The amounts bid by those calls of a sequence that are accepted.
pub open spec fn paid_in(store: StoreView, calls: Seq<Call>) -> nat
    decreases calls.len(),
{
    if calls.len() == 0 {
        0
    } else {
        let before = run(store, calls.drop_last());
        let call = calls.last();
        paid_in(store, calls.drop_last()) + if executed(before, call.block, call.info, call.msg)
            is Ok {
            amount_bid(call.msg)
        } else {
            0
        }
    }
}

/// The amounts that the instructions of a sequence of calls pay out.
pub open spec fn paid_out(store: StoreView, calls: Seq<Call>) -> nat
    decreases calls.len(),
{
    if calls.len() == 0 {
        0
    } else {
        let before = run(store, calls.drop_last());
        let call = calls.last();
        paid_out(store, calls.drop_last()) + match executed(
            before,
            call.block,
            call.info,
            call.msg,
        ) {
            Ok((_, response)) => total_asset_amount(response.messages),
            Err(_) => 0,
        }
    }
}

/// Whether every bid of a sequence of calls that reaches an auction reaches
/// an active one.
pub open spec fn bids_reach_active_auctions(store: StoreView, calls: Seq<Call>) -> bool
    decreases calls.len(),
{
    calls.len() > 0 ==> bids_reach_active_auctions(store, calls.drop_last()) && bids_on_active(
        run(store, calls.drop_last()),
        calls.last().msg,
    )
}

/// Over any sequence of calls, nothing is created and nothing destroyed:
/// what the store held in escrow at the start, and all that was bid, is what
/// the store holds at the end and all that was paid out. So an auction that
/// starts without a bid and ends resolved or canceled has paid out exactly
/// what was bid on it.
pub proof fn lemma_calls_conserve_value(store: StoreView, calls: Seq<Call>)
    requires
        bids_reach_active_auctions(store, calls),
    ensures
        escrow_sum(store.auctions) + paid_in(store, calls) == escrow_sum(
            run(store, calls).auctions,
        ) + paid_out(store, calls),
    decreases calls.len(),
{
    if calls.len() > 0 {
        lemma_calls_conserve_value(store, calls.drop_last());
        let before = run(store, calls.drop_last());
        let call = calls.last();
        if executed(before, call.block, call.info, call.msg) is Ok {
            lemma_step_conserves_value(before, call.block, call.info, call.msg);
        }
    }
}

/// Over any sequence of calls, a store that is well formed stays so, no
/// auction leaves a final status, and no identifier is given out twice: the
/// auctions that were there keep their identifiers, and each call adds one
/// auction at most. The calls must leave room among the identifiers.
pub proof fn lemma_calls_keep_the_store_well_formed(
    store: StoreView,
    calls: Seq<Call>,
    auction_id: AuctionId,
)
    requires
        store.wf(),
        store.next_id() + calls.len() <= u64::MAX,
    ensures
        run(store, calls).wf(),
        store.next_id() <= run(store, calls).next_id() <= store.next_id() + calls.len(),
        store.auction(auction_id) matches Some(before) ==> (run(store, calls).auction(
            auction_id,
        ) matches Some(after) && (before.status != AuctionStatus::Active ==> after.status
            == before.status)),
    decreases calls.len(),
{
    if calls.len() > 0 {
        lemma_calls_keep_the_store_well_formed(store, calls.drop_last(), auction_id);
        let before = run(store, calls.drop_last());
        let call = calls.last();
        if executed(before, call.block, call.info, call.msg) is Ok {
            lemma_operations_keep_the_store_well_formed(before, call.block, call.info, call.msg);
            if store.auction(auction_id) is Some {
                lemma_final_status_stays(before, call.block, call.info, call.msg, auction_id);
            }
        }
    }
}

/// What the engine keeps true of an auction under the configuration
/// `config`: it lasts for more than nothing and is priced in the configured
/// asset, and its bid, if it has one, is no less than its minimum, is paid in
/// that asset, and is not its creator's.
pub open spec fn auction_is_sound(config: ConfigView, auction: AuctionView) -> bool {
    &&& !auction.duration.is_zero()
    &&& auction.price_asset == config.price_asset
    &&& auction.active_bid matches Some(bid) ==> {
        &&& bid.amount >= auction.minimum_bid_amount
        &&& bid.asset == auction.price_asset
        &&& bid.bidder != auction.creator
    }
}

/// What the engine keeps true of a store, once it is configured: it is well
/// formed, and each of its auctions is sound.
pub open spec fn store_is_sound(store: StoreView) -> bool {
    &&& store.wf()
    &&& store.config matches Some(config) && forall|i: int|
        0 <= i < store.auctions.len() ==> auction_is_sound(config, #[trigger] store.auctions[i])
}

/// Every message that is accepted keeps the store sound: what is created is
/// an auction of a duration that is not zero, priced in the configured
/// asset; and every bid that is taken is no less than the auction's minimum,
/// is paid in the auction's asset, and comes from someone else than the
/// creator.
pub proof fn lemma_operations_keep_the_store_sound(
    store: StoreView,
    block: BlockInfoView,
    info: MessageInfoView,
    msg: ExecuteMsgView,
)
    requires
        store_is_sound(store),
        store.next_id() < u64::MAX,
        executed(store, block, info, msg) is Ok,
    ensures
        store_is_sound(executed(store, block, info, msg)->Ok_0.0),
        executed(store, block, info, msg)->Ok_0.0.config == store.config,
{
    let after = executed(store, block, info, msg)->Ok_0.0;
    let config = store.config->Some_0;
    assert forall|i: int| 0 <= i < after.auctions.len() implies auction_is_sound(
        config,
        #[trigger] after.auctions[i],
    ) by {
        if i < store.auctions.len() {
            assert(auction_is_sound(config, store.auctions[i]));
        }
    }
}

} // verus!

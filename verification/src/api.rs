use crate::asset::{Addr, PriceAsset, PriceAssetView};
use vstd::prelude::*;

verus! {

/// The identifier of an auction.
pub type AuctionId = u64;

/// The number of nanoseconds in a second.
pub const NANOS_PER_SECOND: u64 = 1_000_000_000;

/// How long an auction lasts, counted from the block that created it.
#[derive(Clone, Copy, Debug, PartialEq, Eq, Structural)]
pub enum Duration {
    /// A number of blocks.
    Height(u64),
    /// A number of seconds.
    Time(u64),
}

impl Duration {
    /// Whether the duration is of no blocks or of no seconds.
    pub open spec fn is_zero(self) -> bool {
        self == Duration::Height(0) || self == Duration::Time(0)
    }
}

/// A block of the ledger: its height, its time in nanoseconds since the
/// epoch, and the chain it belongs to.
#[derive(Debug, PartialEq)]
pub struct BlockInfo {
    pub height: u64,
    pub time: u64,
    pub chain_id: String,
}

/// Mathematical model of a [`BlockInfo`].
pub struct BlockInfoView {
    pub height: u64,
    pub time: u64,
    pub chain_id: Seq<char>,
}

impl View for BlockInfo {
    type V = BlockInfoView;

    open spec fn view(&self) -> BlockInfoView {
        BlockInfoView { height: self.height, time: self.time, chain_id: self.chain_id@ }
    }
}

impl Clone for BlockInfo {
    fn clone(&self) -> (r: BlockInfo)
        ensures
            r == *self,
    {
        BlockInfo { height: self.height, time: self.time, chain_id: self.chain_id.clone() }
    }
}

/// The contract's configuration: the one contract whose items may be
/// auctioned, and the asset in which every auction is priced.
#[derive(Debug, PartialEq)]
pub struct Config {
    pub whitelisted_nft: Addr,
    pub price_asset: PriceAsset,
}

/// Mathematical model of a [`Config`].
pub struct ConfigView {
    pub whitelisted_nft: Seq<char>,
    pub price_asset: PriceAssetView,
}

impl View for Config {
    type V = ConfigView;

    open spec fn view(&self) -> ConfigView {
        ConfigView { whitelisted_nft: self.whitelisted_nft@, price_asset: self.price_asset@ }
    }
}

impl Clone for Config {
    fn clone(&self) -> (r: Config)
        ensures
            r == *self,
    {
        Config {
            whitelisted_nft: self.whitelisted_nft.clone(),
            price_asset: self.price_asset.clone(),
        }
    }
}

/// Where an auction stands in its life. `Resolved` and `Canceled` are final.
#[derive(Clone, Copy, Debug, PartialEq, Eq, Structural)]
pub enum AuctionStatus {
    Active,
    Resolved,
    Canceled,
}

/// A bid: who offered how much of which asset, and in which block.
#[derive(Debug, PartialEq)]
pub struct Bid {
    pub amount: u128,
    pub asset: PriceAsset,
    pub bidder: Addr,
    pub posted_at: BlockInfo,
}

/// Mathematical model of a [`Bid`].
pub struct BidView {
    pub amount: u128,
    pub asset: PriceAssetView,
    pub bidder: Seq<char>,
    pub posted_at: BlockInfoView,
}

impl View for Bid {
    type V = BidView;

    open spec fn view(&self) -> BidView {
        BidView {
            amount: self.amount,
            asset: self.asset@,
            bidder: self.bidder@,
            posted_at: self.posted_at@,
        }
    }
}

impl Clone for Bid {
    fn clone(&self) -> (r: Bid)
        ensures
            r == *self,
    {
        Bid {
            amount: self.amount,
            asset: self.asset.clone(),
            bidder: self.bidder.clone(),
            posted_at: self.posted_at.clone(),
        }
    }
}

/// The model of an optional bid.
pub open spec fn bid_view(bid: Option<Bid>) -> Option<BidView> {
    match bid {
        Some(bid) => Some(bid@),
        None => None,
    }
}

/// An auction of one item.
#[derive(Debug, PartialEq)]
pub struct TrackAuction {
    pub status: AuctionStatus,
    pub created_at: BlockInfo,
    pub duration: Duration,
    /// Identifier of the auction.
    pub id: AuctionId,
    /// The address that put the item up. It receives the winning bid, or the
    /// item if nobody wins it.
    pub creator: Addr,
    /// The contract to which the item belongs.
    pub nft_contract: Addr,
    /// Identifier of the item in that contract.
    pub track_token_id: String,
    /// The least amount accepted as a first bid.
    pub minimum_bid_amount: u128,
    /// The asset in which the price is denominated.
    pub price_asset: PriceAsset,
    /// The last, and highest, bid, if any.
    pub active_bid: Option<Bid>,
    /// The amount at which a bid ends the auction at once, if any.
    pub buyout_price: Option<u128>,
}

/// Mathematical model of a [`TrackAuction`].
pub struct AuctionView {
    pub status: AuctionStatus,
    pub created_at: BlockInfoView,
    pub duration: Duration,
    pub id: AuctionId,
    pub creator: Seq<char>,
    pub nft_contract: Seq<char>,
    pub track_token_id: Seq<char>,
    pub minimum_bid_amount: u128,
    pub price_asset: PriceAssetView,
    pub active_bid: Option<BidView>,
    pub buyout_price: Option<u128>,
}

impl View for TrackAuction {
    type V = AuctionView;

    open spec fn view(&self) -> AuctionView {
        AuctionView {
            status: self.status,
            created_at: self.created_at@,
            duration: self.duration,
            id: self.id,
            creator: self.creator@,
            nft_contract: self.nft_contract@,
            track_token_id: self.track_token_id@,
            minimum_bid_amount: self.minimum_bid_amount,
            price_asset: self.price_asset@,
            active_bid: bid_view(self.active_bid),
            buyout_price: self.buyout_price,
        }
    }
}

impl Clone for TrackAuction {
    fn clone(&self) -> (r: TrackAuction)
        ensures
            r == *self,
    {
        TrackAuction {
            status: self.status,
            created_at: self.created_at.clone(),
            duration: self.duration,
            id: self.id,
            creator: self.creator.clone(),
            nft_contract: self.nft_contract.clone(),
            track_token_id: self.track_token_id.clone(),
            minimum_bid_amount: self.minimum_bid_amount,
            price_asset: self.price_asset.clone(),
            active_bid: match &self.active_bid {
                Some(bid) => Some(bid.clone()),
                None => None,
            },
            buyout_price: self.buyout_price,
        }
    }
}

impl AuctionView {
    /// The least amount that the next bid must offer: one more than the
    /// active bid, or the auction's minimum while there is no bid.
    pub open spec fn minimum_next_bid(self) -> nat {
        match self.active_bid {
            None => self.minimum_bid_amount as nat,
            Some(bid) => (bid.amount + 1) as nat,
        }
    }

    /// Whether the auction is over in block `current`: for a duration in
    /// blocks, when the block's height is past the height of creation plus
    /// the duration; for a duration in seconds, when the block's time is past
    /// the time of creation plus the duration.
    pub open spec fn has_ended(self, current: BlockInfoView) -> bool {
        match self.duration {
            Duration::Height(blocks) => current.height > self.created_at.height + blocks,
            Duration::Time(seconds) => current.time > self.created_at.time + seconds
                * NANOS_PER_SECOND,
        }
    }

    /// What the auction holds in escrow: the amount of the active bid while
    /// the auction is active, and nothing otherwise.
    pub open spec fn escrow(self) -> nat {
        match self.active_bid {
            Some(bid) if self.status == AuctionStatus::Active => bid.amount as nat,
            _ => 0,
        }
    }
}

/// `cosmwasm_std::Timestamp::plus_seconds`, on times given in nanoseconds
/// since the epoch. The outside function multiplies the seconds by the number
/// of nanoseconds in a second and adds the product to the time; both steps
/// fail on overflow, which the precondition rules out.
#[verifier::external_body]
fn timestamp_plus_seconds(nanos: u64, seconds: u64) -> (later: u64)
    requires
        nanos + seconds * NANOS_PER_SECOND <= u64::MAX,
    ensures
        later == nanos + seconds * NANOS_PER_SECOND,
{
    cosmwasm_std::Timestamp::from_nanos(nanos).plus_seconds(seconds).nanos()
}

impl TrackAuction {
    /// The least amount that the next bid must offer.
    pub fn minimum_next_bid_amount(&self) -> (amount: u128)
        requires
            self@.minimum_next_bid() <= u128::MAX,
        ensures
            amount == self@.minimum_next_bid(),
    {
        match &self.active_bid {
            None => self.minimum_bid_amount,
            Some(bid) => bid.amount + 1,
        }
    }

    /// Whether `amount` reaches the least amount that the next bid must
    /// offer. Unlike [`TrackAuction::minimum_next_bid_amount`] this is defined
    /// for every auction, also where that least amount is beyond any amount.
    pub fn admits_amount(&self, amount: u128) -> (admitted: bool)
        ensures
            admitted == (amount >= self@.minimum_next_bid()),
    {
        match &self.active_bid {
            None => amount >= self.minimum_bid_amount,
            Some(bid) => amount > bid.amount,
        }
    }

    /// Whether the auction is over in block `current_block`.
    pub fn has_ended(&self, current_block: &BlockInfo) -> (ended: bool)
        ensures
            ended == self@.has_ended(current_block@),
    {
        match self.duration {
            Duration::Height(blocks) => {
                match self.created_at.height.checked_add(blocks) {
                    Some(last) => current_block.height > last,
                    None => false,
                }
            },
            Duration::Time(seconds) => {
                let room: u64 = u64::MAX - self.created_at.time;
                if seconds <= room / NANOS_PER_SECOND {
                    current_block.time > timestamp_plus_seconds(self.created_at.time, seconds)
                } else {
                    false
                }
            },
        }
    }
}

} // verus!

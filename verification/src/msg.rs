use crate::api::{AuctionId, AuctionView, Config, ConfigView, Duration, TrackAuction};
use crate::asset::{verdict_view, Addr, PriceAssetUnchecked, PriceAssetView};
use crate::auctions::auction_views;
use vstd::prelude::*;

verus! {

/// What the contract is set up with.
#[derive(Debug, PartialEq)]
pub struct InstantiateMsg {
    /// The contract whose items may be auctioned.
    pub whitelisted_nft: String,
    /// The asset in which every auction is priced.
    pub price_asset: PriceAssetUnchecked,
}

/// Mathematical model of an [`InstantiateMsg`].
pub struct InstantiateMsgView {
    pub whitelisted_nft: Seq<char>,
    pub price_asset: PriceAssetView,
}

impl View for InstantiateMsg {
    type V = InstantiateMsgView;

    open spec fn view(&self) -> InstantiateMsgView {
        InstantiateMsgView {
            whitelisted_nft: self.whitelisted_nft@,
            price_asset: self.price_asset@,
        }
    }
}

/// What comes with the deposit of an item.
#[derive(Clone, Copy, Debug, PartialEq)]
pub enum Cw721HookMsg {
    /// Put the deposited item up for auction.
    CreateAuction {
        /// How long the auction lasts. After that no bid is accepted, and the
        /// active bid, if there is one, wins.
        duration: Duration,
        /// The least amount accepted as a first bid.
        minimum_bid_amount: u128,
        /// The amount at which a bid ends the auction at once and wins it.
        buyout_price: Option<u128>,
    },
}

/// What comes with the deposit of tokens.
#[derive(Clone, Copy, Debug, PartialEq)]
pub enum Cw20HookMsg {
    /// Bid the deposited tokens on an auction.
    Bid {
        /// The auction to bid on.
        auction_id: AuctionId,
        /// The amount to bid. It is stated apart from the amount deposited.
        bid_amount: u128,
    },
}

/// The notice that an item was deposited with the engine.
#[derive(Debug, PartialEq)]
pub struct NftDeposit {
    /// Who held the item before, as the ledger validated the address: the
    /// address, or the reason for which it was refused.
    pub sender: Result<Addr, String>,
    /// The identifier of the item.
    pub token_id: String,
    /// What came with the deposit, if it could be read.
    pub msg: Option<Cw721HookMsg>,
}

/// Mathematical model of an [`NftDeposit`].
pub struct NftDepositView {
    pub sender: Result<Seq<char>, Seq<char>>,
    pub token_id: Seq<char>,
    pub msg: Option<Cw721HookMsg>,
}

impl View for NftDeposit {
    type V = NftDepositView;

    open spec fn view(&self) -> NftDepositView {
        NftDepositView {
            sender: verdict_view(self.sender),
            token_id: self.token_id@,
            msg: self.msg,
        }
    }
}

/// The notice that tokens were deposited with the engine.
#[derive(Debug, PartialEq)]
pub struct TokenDeposit {
    /// Who sent the tokens, as the ledger validated the address: the address,
    /// or the reason for which it was refused.
    pub sender: Result<Addr, String>,
    /// How many tokens were deposited.
    pub amount: u128,
    /// What came with the deposit, if it could be read.
    pub msg: Option<Cw20HookMsg>,
}

/// Mathematical model of a [`TokenDeposit`].
pub struct TokenDepositView {
    pub sender: Result<Seq<char>, Seq<char>>,
    pub amount: u128,
    pub msg: Option<Cw20HookMsg>,
}

impl View for TokenDeposit {
    type V = TokenDepositView;

    open spec fn view(&self) -> TokenDepositView {
        TokenDepositView { sender: verdict_view(self.sender), amount: self.amount, msg: self.msg }
    }
}

/// An amount of a native currency.
#[derive(Debug, PartialEq)]
pub struct Coin {
    pub denom: String,
    pub amount: u128,
}

/// Mathematical model of a [`Coin`].
pub struct CoinView {
    pub denom: Seq<char>,
    pub amount: u128,
}

impl View for Coin {
    type V = CoinView;

    open spec fn view(&self) -> CoinView {
        CoinView { denom: self.denom@, amount: self.amount }
    }
}

impl Clone for Coin {
    fn clone(&self) -> (r: Coin)
        ensures
            r == *self,
    {
        Coin { denom: self.denom.clone(), amount: self.amount }
    }
}

/// The coin of `amount` in the denomination `denom`.
pub fn coin(amount: u128, denom: &str) -> (coin: Coin)
    ensures
        coin@ == (CoinView { denom: denom@, amount }),
{
    Coin { denom: denom.to_string(), amount }
}

/// Who sent a message, and the native funds that came with it.
#[derive(Debug, PartialEq)]
pub struct MessageInfo {
    pub sender: Addr,
    pub funds: Vec<Coin>,
}

/// Mathematical model of a [`MessageInfo`].
pub struct MessageInfoView {
    pub sender: Seq<char>,
    pub funds: Seq<CoinView>,
}

impl View for MessageInfo {
    type V = MessageInfoView;

    open spec fn view(&self) -> MessageInfoView {
        MessageInfoView {
            sender: self.sender@,
            funds: self.funds@.map_values(|c: Coin| c@),
        }
    }
}

/// What the engine can be asked to do.
#[derive(Debug, PartialEq)]
pub enum ExecuteMsg {
    /// Bid on an auction with the native funds attached.
    Bid {
        /// The auction to bid on.
        auction_id: AuctionId,
        /// The amount to bid. It is stated apart from the funds attached.
        bid_amount: u128,
    },
    /// Resolve an auction that has ended: the item goes to the bidder and the
    /// bid to the creator, or, without a bid, the item back to the creator.
    ResolveAuction { auction_id: AuctionId },
    /// Cancel an active auction, as its creator: the active bid, if any, is
    /// refunded, and the item goes back to the creator.
    CancelAuction { auction_id: AuctionId },
    /// Tokens were deposited.
    Receive(TokenDeposit),
    /// An item was deposited.
    ReceiveNft(NftDeposit),
}

/// Mathematical model of an [`ExecuteMsg`].
pub enum ExecuteMsgView {
    Bid { auction_id: AuctionId, bid_amount: u128 },
    ResolveAuction { auction_id: AuctionId },
    CancelAuction { auction_id: AuctionId },
    Receive(TokenDepositView),
    ReceiveNft(NftDepositView),
}

impl View for ExecuteMsg {
    type V = ExecuteMsgView;

    open spec fn view(&self) -> ExecuteMsgView {
        match *self {
            ExecuteMsg::Bid { auction_id, bid_amount } => ExecuteMsgView::Bid {
                auction_id,
                bid_amount,
            },
            ExecuteMsg::ResolveAuction { auction_id } => ExecuteMsgView::ResolveAuction {
                auction_id,
            },
            ExecuteMsg::CancelAuction { auction_id } => ExecuteMsgView::CancelAuction {
                auction_id,
            },
            ExecuteMsg::Receive(deposit) => ExecuteMsgView::Receive(deposit@),
            ExecuteMsg::ReceiveNft(deposit) => ExecuteMsgView::ReceiveNft(deposit@),
        }
    }
}

/// What the engine can be asked about.
#[derive(Clone, Copy, Debug, PartialEq)]
pub enum QueryMsg {
    /// The configuration.
    Config {},
    /// One auction.
    Auction { id: AuctionId },
    /// One page of auctions.
    Auctions {
        /// Whether to list the active auctions, or else the finished ones.
        active_auctions: bool,
        /// The identifier after which the page starts.
        start_after: Option<AuctionId>,
        /// The greatest number of auctions on the page.
        limit: Option<u32>,
    },
}

/// The answer to a query for one auction.
#[derive(Debug, PartialEq)]
pub struct AuctionResponse {
    pub auction: TrackAuction,
}

/// The answer to a query for a page of auctions.
#[derive(Debug, PartialEq)]
pub struct AuctionsResponse {
    pub auctions: Vec<TrackAuction>,
}

/// The answer to a query for the configuration.
#[derive(Debug, PartialEq)]
pub struct ConfigResponse {
    pub config: Config,
}

/// The answer to a query.
#[derive(Debug, PartialEq)]
pub enum QueryResponse {
    Config(ConfigResponse),
    Auction(AuctionResponse),
    Auctions(AuctionsResponse),
}

/// Mathematical model of a [`QueryResponse`].
pub enum QueryResponseView {
    Config(ConfigView),
    Auction(AuctionView),
    Auctions(Seq<AuctionView>),
}

impl View for QueryResponse {
    type V = QueryResponseView;

    open spec fn view(&self) -> QueryResponseView {
        match *self {
            QueryResponse::Config(response) => QueryResponseView::Config(response.config@),
            QueryResponse::Auction(response) => QueryResponseView::Auction(response.auction@),
            QueryResponse::Auctions(response) => QueryResponseView::Auctions(
                auction_views(response.auctions@),
            ),
        }
    }
}

} // verus!

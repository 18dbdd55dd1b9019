use vstd::prelude::*;

verus! {

/// Why an operation of the engine was refused.
#[derive(Debug, PartialEq)]
pub enum AuctionError {
    /// A failure of the host or of stored state, with its description.
    Std(String),
    /// The caller may not do this: a bid by the auction's creator, or a
    /// cancellation by anyone else.
    Unauthorized,
    /// The item was deposited by a contract other than the whitelisted one.
    Cw721NotWhitelisted,
    /// The auction would last for zero blocks or zero seconds.
    InvalidAuctionDuration,
    /// No auction has this identifier.
    AuctionIdNotFound,
    /// A native bid came without any coin.
    NoBidFundsSupplied,
    /// A native bid came with more than one coin.
    UnnecessaryAssetsForBid,
    /// The funds received are less than the amount bid.
    InsufficientFundsForBid,
    /// The bid is below the minimum, or does not exceed the active bid.
    BidLowerThanMinimum,
    /// The bid was paid in an asset other than the configured one.
    BidWrongAsset,
    /// The auction had ended when the bid arrived.
    BiddingAfterAuctionEnded,
    /// The auction has not ended yet.
    AuctionStillInProgress,
    /// The auction was resolved before.
    AuctionResolved,
    /// The auction was canceled before.
    AuctionCanceled,
    /// The auction has ended and can only be resolved.
    AuctionExpired,
}

/// Mathematical model of an [`AuctionError`].
pub enum AuctionErrorView {
    Std(Seq<char>),
    Unauthorized,
    Cw721NotWhitelisted,
    InvalidAuctionDuration,
    AuctionIdNotFound,
    NoBidFundsSupplied,
    UnnecessaryAssetsForBid,
    InsufficientFundsForBid,
    BidLowerThanMinimum,
    BidWrongAsset,
    BiddingAfterAuctionEnded,
    AuctionStillInProgress,
    AuctionResolved,
    AuctionCanceled,
    AuctionExpired,
}

impl View for AuctionError {
    type V = AuctionErrorView;

    open spec fn view(&self) -> AuctionErrorView {
        match *self {
            AuctionError::Std(msg) => AuctionErrorView::Std(msg@),
            AuctionError::Unauthorized => AuctionErrorView::Unauthorized,
            AuctionError::Cw721NotWhitelisted => AuctionErrorView::Cw721NotWhitelisted,
            AuctionError::InvalidAuctionDuration => AuctionErrorView::InvalidAuctionDuration,
            AuctionError::AuctionIdNotFound => AuctionErrorView::AuctionIdNotFound,
            AuctionError::NoBidFundsSupplied => AuctionErrorView::NoBidFundsSupplied,
            AuctionError::UnnecessaryAssetsForBid => AuctionErrorView::UnnecessaryAssetsForBid,
            AuctionError::InsufficientFundsForBid => AuctionErrorView::InsufficientFundsForBid,
            AuctionError::BidLowerThanMinimum => AuctionErrorView::BidLowerThanMinimum,
            AuctionError::BidWrongAsset => AuctionErrorView::BidWrongAsset,
            AuctionError::BiddingAfterAuctionEnded => AuctionErrorView::BiddingAfterAuctionEnded,
            AuctionError::AuctionStillInProgress => AuctionErrorView::AuctionStillInProgress,
            AuctionError::AuctionResolved => AuctionErrorView::AuctionResolved,
            AuctionError::AuctionCanceled => AuctionErrorView::AuctionCanceled,
            AuctionError::AuctionExpired => AuctionErrorView::AuctionExpired,
        }
    }
}

impl AuctionError {
    /// The text that describes the error.
    pub fn message(&self) -> (text: String)
        ensures
            text@ == self@.message(),
    {
        match self {
            AuctionError::Std(msg) => msg.clone(),
            AuctionError::Unauthorized => "Unauthorized".to_string(),
            AuctionError::Cw721NotWhitelisted => {
                "CW721 you're using is not whitelisted for auctions".to_string()
            },
            AuctionError::InvalidAuctionDuration => "Duration has to be greater than 0".to_string(),
            AuctionError::AuctionIdNotFound => "No auction with given ID was found".to_string(),
            AuctionError::NoBidFundsSupplied => "Attempting to bid with no funds".to_string(),
            AuctionError::UnnecessaryAssetsForBid => {
                "Trying to send assets not necessary for the bid".to_string()
            },
            AuctionError::InsufficientFundsForBid => {
                "Supplied funds do not match the attempted bid".to_string()
            },
            AuctionError::BidLowerThanMinimum => "Bid is lower than minimum required".to_string(),
            AuctionError::BidWrongAsset => "Attempting to bid using the wrong asset".to_string(),
            AuctionError::BiddingAfterAuctionEnded => {
                "Cannot place a bid after the auction has ended".to_string()
            },
            AuctionError::AuctionStillInProgress => {
                "Auction is still in progress, cannot perform that action yet".to_string()
            },
            AuctionError::AuctionResolved => "Auction was already resolved".to_string(),
            AuctionError::AuctionCanceled => "Auction was already canceled".to_string(),
            AuctionError::AuctionExpired => "Auction has already expired".to_string(),
        }
    }
}

impl AuctionErrorView {
    /// The text that describes the error.
    pub open spec fn message(self) -> Seq<char> {
        match self {
            AuctionErrorView::Std(msg) => msg,
            AuctionErrorView::Unauthorized => "Unauthorized"@,
            AuctionErrorView::Cw721NotWhitelisted => {
                "CW721 you're using is not whitelisted for auctions"@
            },
            AuctionErrorView::InvalidAuctionDuration => "Duration has to be greater than 0"@,
            AuctionErrorView::AuctionIdNotFound => "No auction with given ID was found"@,
            AuctionErrorView::NoBidFundsSupplied => "Attempting to bid with no funds"@,
            AuctionErrorView::UnnecessaryAssetsForBid => {
                "Trying to send assets not necessary for the bid"@
            },
            AuctionErrorView::InsufficientFundsForBid => {
                "Supplied funds do not match the attempted bid"@
            },
            AuctionErrorView::BidLowerThanMinimum => "Bid is lower than minimum required"@,
            AuctionErrorView::BidWrongAsset => "Attempting to bid using the wrong asset"@,
            AuctionErrorView::BiddingAfterAuctionEnded => {
                "Cannot place a bid after the auction has ended"@
            },
            AuctionErrorView::AuctionStillInProgress => {
                "Auction is still in progress, cannot perform that action yet"@
            },
            AuctionErrorView::AuctionResolved => "Auction was already resolved"@,
            AuctionErrorView::AuctionCanceled => "Auction was already canceled"@,
            AuctionErrorView::AuctionExpired => "Auction has already expired"@,
        }
    }
}

/// The result of an operation of the engine.
pub type AuctionResult<T> = Result<T, AuctionError>;

} // verus!

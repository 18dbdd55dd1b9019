use crate::error::{AuctionError, AuctionErrorView};
use vstd::prelude::*;
use vstd::std_specs::cmp::PartialEqSpecImpl;

verus! {

/// An address on the ledger, as text.
pub type Addr = String;

/// The asset in which prices are denominated and bids are paid.
#[derive(Debug)]
pub enum PriceAsset {
    /// A native currency of the ledger, named by its denomination.
    Native { denom: String },
    /// A fungible token, named by the address of its contract.
    Cw20 { contract: Addr },
}

/// Mathematical model of a [`PriceAsset`].
pub enum PriceAssetView {
    Native { denom: Seq<char> },
    Cw20 { contract: Seq<char> },
}

impl View for PriceAsset {
    type V = PriceAssetView;

    open spec fn view(&self) -> PriceAssetView {
        match *self {
            PriceAsset::Native { denom } => PriceAssetView::Native { denom: denom@ },
            PriceAsset::Cw20 { contract } => PriceAssetView::Cw20 { contract: contract@ },
        }
    }
}

impl PartialEq for PriceAsset {
    fn eq(&self, other: &PriceAsset) -> (r: bool) {
        match self {
            PriceAsset::Native { denom } => match other {
                PriceAsset::Native { denom: other_denom } => *denom == *other_denom,
                PriceAsset::Cw20 { .. } => false,
            },
            PriceAsset::Cw20 { contract } => match other {
                PriceAsset::Native { .. } => false,
                PriceAsset::Cw20 { contract: other_contract } => *contract == *other_contract,
            },
        }
    }
}

impl PartialEqSpecImpl for PriceAsset {
    open spec fn obeys_eq_spec() -> bool {
        true
    }

    /// Two assets are equal when they are of the same variant and name the
    /// same denomination or contract.
    open spec fn eq_spec(&self, other: &PriceAsset) -> bool {
        self@ == other@
    }
}

impl Clone for PriceAsset {
    fn clone(&self) -> (r: PriceAsset)
        ensures
            r == *self,
    {
        match self {
            PriceAsset::Native { denom } => PriceAsset::Native { denom: denom.clone() },
            PriceAsset::Cw20 { contract } => PriceAsset::Cw20 { contract: contract.clone() },
        }
    }
}

impl PriceAsset {
    /// The native currency of denomination `denom`.
    pub fn native(denom: &str) -> (asset: PriceAsset)
        ensures
            asset@ == (PriceAssetView::Native { denom: denom@ }),
    {
        PriceAsset::Native { denom: denom.to_string() }
    }

    /// The fungible token of the contract at `contract`.
    pub fn cw20(contract: Addr) -> (asset: PriceAsset)
        ensures
            asset == (PriceAsset::Cw20 { contract }),
    {
        PriceAsset::Cw20 { contract }
    }
}

/// A price asset as it arrives in a message, its address not yet validated.
#[derive(Debug, PartialEq)]
pub enum PriceAssetUnchecked {
    Native { denom: String },
    Cw20 { contract: String },
}

impl View for PriceAssetUnchecked {
    type V = PriceAssetView;

    open spec fn view(&self) -> PriceAssetView {
        match *self {
            PriceAssetUnchecked::Native { denom } => PriceAssetView::Native { denom: denom@ },
            PriceAssetUnchecked::Cw20 { contract } => PriceAssetView::Cw20 { contract: contract@ },
        }
    }
}

impl Clone for PriceAssetUnchecked {
    fn clone(&self) -> (r: PriceAssetUnchecked)
        ensures
            r == *self,
    {
        match self {
            PriceAssetUnchecked::Native { denom } => PriceAssetUnchecked::Native {
                denom: denom.clone(),
            },
            PriceAssetUnchecked::Cw20 { contract } => PriceAssetUnchecked::Cw20 {
                contract: contract.clone(),
            },
        }
    }
}

/// What [`PriceAssetUnchecked::check`] answers: a native asset passes as it
/// is; a token passes with the address that validation gave, and fails with
/// the reason for which validation refused the address.
pub open spec fn checked_asset(
    unchecked: PriceAssetView,
    validated: Result<Seq<char>, Seq<char>>,
) -> Result<PriceAssetView, Seq<char>> {
    match unchecked {
        PriceAssetView::Native { denom } => Ok(PriceAssetView::Native { denom }),
        PriceAssetView::Cw20 { contract } => match validated {
            Ok(address) => Ok(PriceAssetView::Cw20 { contract: address }),
            Err(reason) => Err(reason),
        },
    }
}

/// A verdict on an address, as text: the address where it was accepted, or
/// the reason for which it was refused.
pub open spec fn verdict_view(validated: Result<Addr, String>) -> Result<Seq<char>, Seq<char>> {
    match validated {
        Ok(address) => Ok(address@),
        Err(reason) => Err(reason@),
    }
}

impl PriceAssetUnchecked {
    /// The native currency of denomination `denom`, unchecked.
    pub fn native(denom: &str) -> (asset: PriceAssetUnchecked)
        ensures
            asset@ == (PriceAssetView::Native { denom: denom@ }),
    {
        PriceAssetUnchecked::Native { denom: denom.to_string() }
    }

    /// The fungible token of the contract at `contract`, unchecked.
    pub fn cw20(contract: &str) -> (asset: PriceAssetUnchecked)
        ensures
            asset@ == (PriceAssetView::Cw20 { contract: contract@ }),
    {
        PriceAssetUnchecked::Cw20 { contract: contract.to_string() }
    }

    /// Turns the asset into a checked one. `validated` is the verdict of the
    /// ledger's address validation on the token's contract address; it is read
    /// for a token only.
    pub fn check(&self, validated: Result<Addr, String>) -> (checked: Result<
        PriceAsset,
        AuctionError,
    >)
        ensures
            match checked_asset(self@, verdict_view(validated)) {
                Ok(asset) => checked is Ok && checked->Ok_0@ == asset,
                Err(reason) => checked is Err && checked->Err_0@ == AuctionErrorView::Std(reason),
            },
    {
        match self {
            PriceAssetUnchecked::Native { denom } => Ok(
                PriceAsset::Native { denom: denom.clone() },
            ),
            PriceAssetUnchecked::Cw20 { .. } => match validated {
                Ok(address) => Ok(PriceAsset::cw20(address)),
                Err(reason) => Err(AuctionError::Std(reason)),
            },
        }
    }
}

} // verus!

use crate::api::{
    bid_view, AuctionId, AuctionStatus, AuctionView, Bid, BlockInfo, BlockInfoView, Config,
    ConfigView, Duration, TrackAuction,
};
use crate::asset::Addr;
use crate::error::{AuctionError, AuctionErrorView, AuctionResult};
use crate::laws::lemma_page_is_in_order;
use vstd::prelude::*;

verus! {

/// The number of auctions that a query lists when it names no limit.
pub const DEFAULT_AUCTIONS_QUERY_LIMIT: u32 = 20;

/// The greatest number of auctions that a query lists.
pub const MAX_AUCTIONS_QUERY_LIMIT: u32 = 100;

/// What a new auction is made from, besides the block and the configuration.
#[derive(Debug, PartialEq)]
pub struct CreateAuctionData {
    pub duration: Duration,
    pub creator: Addr,
    pub nft_contract: Addr,
    pub track_token_id: String,
    pub minimum_bid_amount: u128,
    pub buyout_price: Option<u128>,
}

/// Mathematical model of a [`CreateAuctionData`].
pub struct CreateAuctionDataView {
    pub duration: Duration,
    pub creator: Seq<char>,
    pub nft_contract: Seq<char>,
    pub track_token_id: Seq<char>,
    pub minimum_bid_amount: u128,
    pub buyout_price: Option<u128>,
}

impl View for CreateAuctionData {
    type V = CreateAuctionDataView;

    open spec fn view(&self) -> CreateAuctionDataView {
        CreateAuctionDataView {
            duration: self.duration,
            creator: self.creator@,
            nft_contract: self.nft_contract@,
            track_token_id: self.track_token_id@,
            minimum_bid_amount: self.minimum_bid_amount,
            buyout_price: self.buyout_price,
        }
    }
}

/// The state that the engine keeps: the configuration, once it is set, and
/// every auction ever created, each at the place of its identifier.
///
/// Identifiers are given out in order, starting at zero, and no auction is
/// ever removed, so the next identifier is the number of auctions. An
/// auction belongs to the active partition while its status is `Active`, and
/// to the finished partition afterwards.
pub struct AuctionStore {
    config: Option<Config>,
    auctions: Vec<TrackAuction>,
}

/// Mathematical model of an [`AuctionStore`].
pub struct StoreView {
    pub config: Option<ConfigView>,
    pub auctions: Seq<AuctionView>,
}

/// The models of a sequence of auctions.
pub open spec fn auction_views(auctions: Seq<TrackAuction>) -> Seq<AuctionView> {
    auctions.map_values(|a: TrackAuction| a@)
}

/// The error that reports that the configuration was never stored.
pub open spec fn config_missing() -> AuctionErrorView {
    AuctionErrorView::Std("config not found"@)
}

/// The error that reports an attempt to finish an auction as active.
pub open spec fn finish_as_active() -> AuctionErrorView {
    AuctionErrorView::Std("invalid argument - cannot finalize auction to Active"@)
}

/// The error that reports an attempt to finish an auction that is not active.
pub open spec fn finish_of_finished() -> AuctionErrorView {
    AuctionErrorView::Std("invalid state - can only change status of an active auction"@)
}

/// Whether an auction with the status `status` is listed among the active
/// ones (`active`) or among the finished ones.
pub open spec fn in_partition(status: AuctionStatus, active: bool) -> bool {
    (status == AuctionStatus::Active) == active
}

/// The number of auctions that a query with the limit `limit` lists at most:
/// the limit, or the default where none is named, held between one and the
/// maximum.
pub open spec fn page_limit(limit: Option<u32>) -> nat {
    let asked = match limit {
        Some(n) => n,
        None => DEFAULT_AUCTIONS_QUERY_LIMIT,
    };
    if asked < 1 {
        1
    } else if asked > MAX_AUCTIONS_QUERY_LIMIT {
        MAX_AUCTIONS_QUERY_LIMIT as nat
    } else {
        asked as nat
    }
}

/// Whether a query for one partition lists the auction `auction` after the
/// cursor `start_after`: it does where the auction belongs to the partition,
/// and its identifier is greater than the cursor, if there is one.
pub open spec fn listed(
    auction: AuctionView,
    active: bool,
    start_after: Option<AuctionId>,
) -> bool {
    &&& in_partition(auction.status, active)
    &&& start_after matches Some(cursor) ==> auction.id > cursor
}

impl StoreView {
    /// Every auction stands at the place of its identifier. An
    /// [`AuctionStore`] is well formed at all times.
    pub open spec fn wf(self) -> bool {
        &&& self.auctions.len() <= u64::MAX
        &&& forall|i: int|
            0 <= i < self.auctions.len() ==> (#[trigger] self.auctions[i]).id == i
    }

    /// The identifier that the next auction gets.
    pub open spec fn next_id(self) -> nat {
        self.auctions.len()
    }

    /// The auction with the identifier `id`, if there is one.
    pub open spec fn auction(self, id: AuctionId) -> Option<AuctionView> {
        if id < self.auctions.len() {
            Some(self.auctions[id as int])
        } else {
            None
        }
    }

    /// The store with `auction` in place of the auction with the identifier
    /// `id`.
    pub open spec fn with_auction(self, id: AuctionId, auction: AuctionView) -> StoreView {
        StoreView { auctions: self.auctions.update(id as int, auction), ..self }
    }

    /// The store with one more auction at its end.
    pub open spec fn with_new_auction(self, auction: AuctionView) -> StoreView {
        StoreView { auctions: self.auctions.push(auction), ..self }
    }

    /// The store with the configuration `config`.
    pub open spec fn with_config(self, config: ConfigView) -> StoreView {
        StoreView { config: Some(config), ..self }
    }

    /// The auction that is created in block `block` from `data`, under the
    /// configuration `config`: active, without a bid, with the next
    /// identifier, priced in the configured asset.
    pub open spec fn new_auction(
        self,
        config: ConfigView,
        block: BlockInfoView,
        data: CreateAuctionDataView,
    ) -> AuctionView {
        AuctionView {
            status: AuctionStatus::Active,
            created_at: block,
            duration: data.duration,
            id: self.next_id() as u64,
            creator: data.creator,
            nft_contract: data.nft_contract,
            track_token_id: data.track_token_id,
            minimum_bid_amount: data.minimum_bid_amount,
            price_asset: config.price_asset,
            active_bid: None,
            buyout_price: data.buyout_price,
        }
    }

    /// The auctions of one partition that come after the cursor, in the
    /// order of their identifiers.
    pub open spec fn listing(self, active: bool, start_after: Option<AuctionId>) -> Seq<
        AuctionView,
    > {
        self.auctions.filter(|a: AuctionView| listed(a, active, start_after))
    }

    /// One page of a partition: the first auctions after the cursor, as many
    /// as the limit admits.
    pub open spec fn page(
        self,
        active: bool,
        start_after: Option<AuctionId>,
        limit: Option<u32>,
    ) -> Seq<AuctionView> {
        let all = self.listing(active, start_after);
        if all.len() <= page_limit(limit) {
            all
        } else {
            all.take(page_limit(limit) as int)
        }
    }
}

/// The model of an optional configuration.
pub open spec fn config_view(config: Option<Config>) -> Option<ConfigView> {
    match config {
        Some(config) => Some(config@),
        None => None,
    }
}

impl View for AuctionStore {
    type V = StoreView;

    closed spec fn view(&self) -> StoreView {
        StoreView { config: config_view(self.config), auctions: auction_views(self.auctions@) }
    }
}

impl AuctionStore {
    /// What holds of every store: its auctions stand at the places of their
    /// identifiers.
    #[verifier::type_invariant]
    pub open spec fn well_formed(self) -> bool {
        self@.wf()
    }

    /// The store before anything was stored: no configuration, no auction.
    pub fn new() -> (store: AuctionStore)
        ensures
            store@ == (StoreView { config: None, auctions: seq![] }),
            store@.wf(),
    {
        let store = AuctionStore { config: None, auctions: Vec::new() };
        assert(store@.auctions =~= seq![]);
        store
    }

    /// The store that holds `config` and, in their order, `auctions`: what
    /// [`AuctionStore::into_parts`] gave, brought back. There is such a store
    /// where every auction stands at the place of its identifier, and only
    /// there.
    pub fn from_parts(config: Option<Config>, auctions: Vec<TrackAuction>) -> (store: Option<
        AuctionStore,
    >)
        ensures
            ({
                let parts = StoreView {
                    config: config_view(config),
                    auctions: auction_views(auctions@),
                };
                match store {
                    Some(store) => parts.wf() && store@ == parts,
                    None => !parts.wf(),
                }
            }),
    {
        let mut i: usize = 0;
        while i < auctions.len()
            invariant
                0 <= i <= auctions.len(),
                forall|j: int| 0 <= j < i ==> (#[trigger] auction_views(auctions@)[j]).id == j,
            decreases auctions.len() - i,
        {
            if auctions[i].id != i as u64 {
                assert(auction_views(auctions@)[i as int].id != i);
                return None;
            }
            i += 1;
        }
        Some(AuctionStore { config, auctions })
    }

    /// The configuration and the auctions that the store holds, the
    /// auctions in the order of their identifiers.
    pub fn into_parts(self) -> (parts: (Option<Config>, Vec<TrackAuction>))
        ensures
            self@ == (StoreView {
                config: config_view(parts.0),
                auctions: auction_views(parts.1@),
            }),
            self@.wf(),
    {
        proof {
            use_type_invariant(&self);
        }
        (self.config, self.auctions)
    }

    /// The identifier that the next auction gets.
    pub fn next_auction_id(&self) -> (id: AuctionId)
        ensures
            id == self@.next_id(),
            self@.wf(),
    {
        proof {
            use_type_invariant(self);
        }
        self.auctions.len() as u64
    }
}

/// The configuration, or an error where none was stored.
pub fn load_config(storage: &AuctionStore) -> (config: AuctionResult<Config>)
    ensures
        storage@.wf(),
        match storage@.config {
            Some(stored) => config is Ok && config->Ok_0@ == stored,
            None => config is Err && config->Err_0@ == config_missing(),
        },
{
    proof {
        use_type_invariant(storage);
    }
    match &storage.config {
        Some(config) => Ok(config.clone()),
        None => Err(AuctionError::Std("config not found".to_string())),
    }
}

/// Stores the configuration in place of the one before, if any.
pub fn save_config(storage: &mut AuctionStore, config: &Config) -> (saved: AuctionResult<()>)
    ensures
        saved is Ok,
        final(storage)@ == old(storage)@.with_config(config@),
        final(storage)@.wf(),
{
    proof {
        use_type_invariant(&*storage);
    }
    storage.config = Some(config.clone());
    Ok(())
}

/// The model of an optional auction.
pub open spec fn auction_view(auction: Option<TrackAuction>) -> Option<AuctionView> {
    match auction {
        Some(auction) => Some(auction@),
        None => None,
    }
}

/// The auction with the identifier `id`, if there is one, whichever
/// partition it belongs to.
pub fn load_auction(storage: &AuctionStore, id: AuctionId) -> (auction: AuctionResult<
    Option<TrackAuction>,
>)
    ensures
        auction is Ok,
        auction_view(auction->Ok_0) == storage@.auction(id),
        auction->Ok_0 matches Some(found) ==> found.id == id,
        storage@.wf(),
{
    proof {
        use_type_invariant(storage);
    }
    if id < storage.auctions.len() as u64 {
        Ok(Some(storage.auctions[id as usize].clone()))
    } else {
        Ok(None)
    }
}

/// Creates an auction from `auction_data` in block `current_block`, and
/// returns its identifier: the next one. Fails, and stores nothing, where no
/// configuration was stored.
pub fn save_new_auction(
    storage: &mut AuctionStore,
    current_block: BlockInfo,
    auction_data: CreateAuctionData,
) -> (id: AuctionResult<AuctionId>)
    ensures
        final(storage)@.wf(),
        match old(storage)@.config {
            Some(config) => {
                &&& id is Ok
                &&& id->Ok_0 == old(storage)@.next_id()
                &&& final(storage)@ == old(storage)@.with_new_auction(
                    old(storage)@.new_auction(config, current_block@, auction_data@),
                )
            },
            None => {
                &&& id is Err
                &&& id->Err_0@ == config_missing()
                &&& final(storage)@ == old(storage)@
            },
        },
{
    proof {
        use_type_invariant(&*storage);
    }
    let next_auction_id = storage.auctions.len() as u64;
    let config = match load_config(storage) {
        Ok(config) => config,
        Err(e) => {
            return Err(e);
        },
    };
    let auction = TrackAuction {
        status: AuctionStatus::Active,
        created_at: current_block,
        duration: auction_data.duration,
        id: next_auction_id,
        creator: auction_data.creator,
        nft_contract: auction_data.nft_contract,
        track_token_id: auction_data.track_token_id,
        minimum_bid_amount: auction_data.minimum_bid_amount,
        price_asset: config.price_asset,
        active_bid: None,
        buyout_price: auction_data.buyout_price,
    };
    let ghost before = storage@;
    let mut auctions: Vec<TrackAuction> = Vec::new();
    assert(auction_views(auctions@) =~= seq![]);
    core::mem::swap(&mut storage.auctions, &mut auctions);
    auctions.push(auction);
    assert(auction_views(auctions@) =~= before.auctions.push(auction@));
    assert(auctions.len() <= u64::MAX);
    core::mem::swap(&mut storage.auctions, &mut auctions);
    Ok(next_auction_id)
}

/// Puts `new_active_bid` in place of the active bid of the auction
/// `auction_id`, and returns the bid that was active before, if any. Fails
/// where there is no such auction.
pub fn update_active_bid(
    storage: &mut AuctionStore,
    auction_id: AuctionId,
    new_active_bid: Bid,
) -> (previous: AuctionResult<Option<Bid>>)
    ensures
        final(storage)@.wf(),
        match old(storage)@.auction(auction_id) {
            Some(auction) => {
                &&& previous is Ok
                &&& bid_view(previous->Ok_0) == auction.active_bid
                &&& final(storage)@ == old(storage)@.with_auction(
                    auction_id,
                    AuctionView { active_bid: Some(new_active_bid@), ..auction },
                )
            },
            None => {
                &&& previous is Err
                &&& previous->Err_0@ == AuctionErrorView::AuctionIdNotFound
                &&& final(storage)@ == old(storage)@
            },
        },
{
    proof {
        use_type_invariant(&*storage);
    }
    if auction_id >= storage.auctions.len() as u64 {
        return Err(AuctionError::AuctionIdNotFound);
    }
    let index = auction_id as usize;
    let auction = storage.auctions[index].clone();
    let previous = auction.active_bid;
    let updated = TrackAuction {
        status: auction.status,
        created_at: auction.created_at,
        duration: auction.duration,
        id: auction.id,
        creator: auction.creator,
        nft_contract: auction.nft_contract,
        track_token_id: auction.track_token_id,
        minimum_bid_amount: auction.minimum_bid_amount,
        price_asset: auction.price_asset,
        active_bid: Some(new_active_bid),
        buyout_price: auction.buyout_price,
    };
    let ghost before = storage@;
    let mut auctions: Vec<TrackAuction> = Vec::new();
    assert(auction_views(auctions@) =~= seq![]);
    core::mem::swap(&mut storage.auctions, &mut auctions);
    auctions.set(index, updated);
    assert(auction_views(auctions@) =~= before.auctions.update(index as int, updated@));
    core::mem::swap(&mut storage.auctions, &mut auctions);
    Ok(previous)
}

/// What [`finish_auction`] answers on a store: the store with the auction
/// in its final status, or the error and the reason why nothing changed.
pub open spec fn finished(store: StoreView, id: AuctionId, new_status: AuctionStatus) -> Result<
    StoreView,
    AuctionErrorView,
> {
    match store.auction(id) {
        None => Err(AuctionErrorView::AuctionIdNotFound),
        Some(auction) => if new_status == AuctionStatus::Active {
            Err(finish_as_active())
        } else if auction.status != AuctionStatus::Active {
            Err(finish_of_finished())
        } else {
            Ok(store.with_auction(id, AuctionView { status: new_status, ..auction }))
        },
    }
}

/// Moves an active auction to one of the final statuses, and so from the
/// active partition to the finished one.
pub fn finish_auction(
    storage: &mut AuctionStore,
    auction_id: AuctionId,
    new_status: AuctionStatus,
) -> (done: AuctionResult<()>)
    ensures
        final(storage)@.wf(),
        match finished(old(storage)@, auction_id, new_status) {
            Ok(store) => done is Ok && final(storage)@ == store,
            Err(e) => done is Err && done->Err_0@ == e && final(storage)@ == old(storage)@,
        },
{
    proof {
        use_type_invariant(&*storage);
    }
    if auction_id >= storage.auctions.len() as u64 {
        return Err(AuctionError::AuctionIdNotFound);
    }
    let index = auction_id as usize;
    if new_status == AuctionStatus::Active {
        return Err(
            AuctionError::Std("invalid argument - cannot finalize auction to Active".to_string()),
        );
    }
    let auction = storage.auctions[index].clone();
    // only Active status can be changed, others are final
    match auction.status {
        AuctionStatus::Resolved | AuctionStatus::Canceled => {
            return Err(
                AuctionError::Std(
                    "invalid state - can only change status of an active auction".to_string(),
                ),
            );
        },
        AuctionStatus::Active => {},
    }
    let updated = TrackAuction {
        status: new_status,
        created_at: auction.created_at,
        duration: auction.duration,
        id: auction.id,
        creator: auction.creator,
        nft_contract: auction.nft_contract,
        track_token_id: auction.track_token_id,
        minimum_bid_amount: auction.minimum_bid_amount,
        price_asset: auction.price_asset,
        active_bid: auction.active_bid,
        buyout_price: auction.buyout_price,
    };
    let ghost before = storage@;
    let mut auctions: Vec<TrackAuction> = Vec::new();
    assert(auction_views(auctions@) =~= seq![]);
    core::mem::swap(&mut storage.auctions, &mut auctions);
    auctions.set(index, updated);
    assert(auction_views(auctions@) =~= before.auctions.update(index as int, updated@));
    core::mem::swap(&mut storage.auctions, &mut auctions);
    Ok(())
}

/// One page of the active auctions (`active_auctions`) or of the finished
/// ones: those whose identifier comes after `start_after`, in the order of
/// their identifiers, and no more of them than `limit` admits.
pub fn load_auctions(
    storage: &AuctionStore,
    active_auctions: bool,
    start_after: Option<AuctionId>,
    limit: Option<u32>,
) -> (auctions: AuctionResult<Vec<TrackAuction>>)
    ensures
        auctions is Ok,
        auction_views(auctions->Ok_0@) == storage@.page(active_auctions, start_after, limit),
        storage@.wf(),
        auctions->Ok_0.len() <= page_limit(limit),
        forall|i: int, j: int|
            0 <= i < j < auctions->Ok_0.len() ==> (#[trigger] auctions->Ok_0[i]).id < (
            #[trigger] auctions->Ok_0[j]).id,
{
    proof {
        use_type_invariant(storage);
    }
    let asked: u32 = match limit {
        Some(n) => n,
        None => DEFAULT_AUCTIONS_QUERY_LIMIT,
    };
    let most: usize = if asked < 1 {
        1
    } else if asked > MAX_AUCTIONS_QUERY_LIMIT {
        MAX_AUCTIONS_QUERY_LIMIT as usize
    } else {
        asked as usize
    };
    let ghost wanted = |a: AuctionView| listed(a, active_auctions, start_after);
    let ghost all = storage@.auctions;
    let mut page: Vec<TrackAuction> = Vec::new();
    let mut i: usize = 0;
    assert(all.take(0) =~= Seq::<AuctionView>::empty());
    assert(auction_views(page@) =~= all.take(0).filter(wanted)) by {
        reveal(Seq::filter);
    }
    while i < storage.auctions.len() && page.len() < most
        invariant
            0 <= i <= storage.auctions.len(),
            all == storage@.auctions,
            all.len() == storage.auctions.len(),
            most == page_limit(limit),
            page.len() <= most,
            wanted == (|a: AuctionView| listed(a, active_auctions, start_after)),
            auction_views(page@) == all.take(i as int).filter(wanted),
        decreases storage.auctions.len() - i,
    {
        let auction = &storage.auctions[i];
        let in_status = match auction.status {
            AuctionStatus::Active => active_auctions,
            _ => !active_auctions,
        };
        let after_cursor = match start_after {
            Some(cursor) => auction.id > cursor,
            None => true,
        };
        proof {
            assert(all.take(i + 1) =~= all.take(i as int).push(all[i as int]));
            all.take(i as int).lemma_filter_push(all[i as int], wanted);
            assert(all[i as int] == auction@);
        }
        if in_status && after_cursor {
            let ghost before = page@;
            page.push(auction.clone());
            assert(auction_views(page@) =~= auction_views(before).push(auction@));
        }
        i += 1;
    }
    proof {
        let found = all.take(i as int).filter(wanted);
        assert(all =~= all.take(i as int) + all.skip(i as int));
        Seq::filter_distributes_over_add(all.take(i as int), all.skip(i as int), wanted);
        let rest = all.skip(i as int).filter(wanted);
        assert(all.filter(wanted) == found + rest);
        if i == storage.auctions.len() {
            assert(all.skip(i as int) =~= Seq::<AuctionView>::empty());
            assert(rest =~= Seq::<AuctionView>::empty()) by {
                reveal(Seq::filter);
            }
            assert(found + rest =~= found);
        } else {
            assert((found + rest).take(most as int) =~= found);
        }
        lemma_page_is_in_order(storage@, active_auctions, start_after, limit);
        assert forall|i: int, j: int| 0 <= i < j < page.len() implies (#[trigger] page[i]).id < (
        #[trigger] page[j]).id by {
            assert(auction_views(page@)[i] == page[i]@);
            assert(auction_views(page@)[j] == page[j]@);
        }
    }
    Ok(page)
}

} // verus!

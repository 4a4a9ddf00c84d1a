//! The persistent store: a singleton configuration record and a listing
//! table keyed by listing identifier. The store is the state machine's only
//! mutable resource; the host persists it atomically with each call.

use vstd::prelude::*;
use vstd::map::*;
use crate::error::ContractError;
use crate::types::{Coin, CoinV, opt_coin_view};

verus! {

/// The singleton configuration record: the monotonically increasing counter
/// that new listing identifiers are drawn from.
#[derive(Clone, Copy, Debug, PartialEq, Eq, Structural)]
pub struct Config {
    pub listing_count: u64,
}

/// One auction record: created by placement, mutated by bidding, destroyed
/// by withdrawal.
#[derive(Clone, Debug, PartialEq, Eq)]
pub struct Listing {
    /// Identifier of the custodied non-fungible asset.
    pub token_id: String,
    /// Address of the external registry holding the asset.
    pub contract_addr: String,
    /// Who placed the listing; the asset's initial custodian.
    pub seller: String,
    /// The escrowed leading bid, if a threshold or a bid exists.
    pub max_bid: Option<Coin>,
    /// Whoever is entitled to the asset if the auction ended now;
    /// initialized to the seller.
    pub max_bidder: String,
    /// The first block height at which the auction is no longer biddable
    /// and becomes withdrawable.
    pub block_limit: u64,
}

/// Mathematical image of a `Listing`.
pub ghost struct ListingV {
    pub token_id: Seq<char>,
    pub contract_addr: Seq<char>,
    pub seller: Seq<char>,
    pub max_bid: Option<CoinV>,
    pub max_bidder: Seq<char>,
    pub block_limit: u64,
}

impl View for Listing {
    type V = ListingV;

    open spec fn view(&self) -> ListingV {
        ListingV {
            token_id: self.token_id@,
            contract_addr: self.contract_addr@,
            seller: self.seller@,
            max_bid: opt_coin_view(self.max_bid),
            max_bidder: self.max_bidder@,
            block_limit: self.block_limit,
        }
    }
}

impl Listing {
    /// A copy of the record, field for field.
    pub fn dup(&self) -> (r: Listing)
        ensures
            r@ == self@,
    {
        let max_bid = match &self.max_bid {
            Some(c) => Some(c.dup()),
            None => None,
        };
        Listing {
            token_id: self.token_id.clone(),
            contract_addr: self.contract_addr.clone(),
            seller: self.seller.clone(),
            max_bid,
            max_bidder: self.max_bidder.clone(),
            block_limit: self.block_limit,
        }
    }
}

/// Mathematical image of the whole store: the configuration record, if one
/// was written, and the listing table as a map from identifier to record.
pub ghost struct StoreV {
    pub config: Option<Config>,
    pub listings: Map<Seq<char>, ListingV>,
}

/// The listing table that a sequence of keyed entries denotes; a later
/// entry for the same key would win, though the store never keeps two.
pub open spec fn listings_map(s: Seq<(String, Listing)>) -> Map<Seq<char>, ListingV>
    decreases s.len(),
{
    if s.len() == 0 {
        Map::empty()
    } else {
        listings_map(s.drop_last()).insert(s.last().0@, s.last().1@)
    }
}

/// No two entries share a key.
pub open spec fn unique_keys(s: Seq<(String, Listing)>) -> bool {
    forall|i: int, j: int| 0 <= i < j < s.len() ==> s[i].0@ != s[j].0@
}

/// The keyed store. Entries are kept with pairwise distinct keys, so the
/// entry sequence denotes its map uniquely.
pub struct Store {
    config: Option<Config>,
    listings: Vec<(String, Listing)>,
}

impl View for Store {
    type V = StoreV;

    closed spec fn view(&self) -> StoreV {
        StoreV { config: self.config, listings: listings_map(self.listings@) }
    }
}

/// An entry's key is in the denoted map; under unique keys it maps to that
/// entry's record.
proof fn lemma_map_has_index(s: Seq<(String, Listing)>, i: int)
    requires
        0 <= i < s.len(),
    ensures
        listings_map(s).contains_key(s[i].0@),
        unique_keys(s) ==> listings_map(s)[s[i].0@] == s[i].1@,
    decreases s.len(),
{
    if i < s.len() - 1 {
        lemma_map_has_index(s.drop_last(), i);
        assert(s.drop_last()[i] == s[i]);
        if unique_keys(s) {
            assert(unique_keys(s.drop_last())) by {
                assert(forall|x: int, y: int|
                    0 <= x < y < s.drop_last().len() ==> s.drop_last()[x] == s[x]
                        && s.drop_last()[y] == s[y]);
            }
            assert(s[i].0@ != s.last().0@);
        }
    }
}

/// A key held by no entry is not in the denoted map.
proof fn lemma_map_no_index(s: Seq<(String, Listing)>, k: Seq<char>)
    requires
        forall|i: int| 0 <= i < s.len() ==> s[i].0@ != k,
    ensures
        !listings_map(s).contains_key(k),
    decreases s.len(),
{
    if s.len() > 0 {
        assert(forall|i: int|
            0 <= i < s.drop_last().len() ==> s.drop_last()[i] == s[i]);
        lemma_map_no_index(s.drop_last(), k);
    }
}

/// Dropping the entry at `i` removes exactly its key from the denoted map
/// and keeps the remaining keys unique.
proof fn lemma_map_remove_at(s: Seq<(String, Listing)>, i: int)
    requires
        unique_keys(s),
        0 <= i < s.len(),
    ensures
        unique_keys(s.remove(i)),
        listings_map(s.remove(i)) =~= listings_map(s).remove(s[i].0@),
    decreases s.len(),
{
    let t = s.remove(i);
    assert(forall|x: int| 0 <= x < i ==> t[x] == s[x]);
    assert(forall|x: int| i <= x < t.len() ==> t[x] == s[x + 1]);
    assert(unique_keys(t));
    if i == s.len() - 1 {
        assert(t =~= s.drop_last());
        assert(forall|j: int| 0 <= j < s.drop_last().len() ==> s.drop_last()[j] == s[j]);
        assert(forall|j: int| 0 <= j < s.drop_last().len() ==> s[j].0@ != s[i].0@);
        lemma_map_no_index(s.drop_last(), s[i].0@);
        assert(listings_map(s.remove(i)) =~= listings_map(s).remove(s[i].0@));
    } else {
        assert(unique_keys(s.drop_last())) by {
            assert(forall|x: int, y: int|
                0 <= x < y < s.drop_last().len() ==> s.drop_last()[x] == s[x]
                    && s.drop_last()[y] == s[y]);
        }
        lemma_map_remove_at(s.drop_last(), i);
        assert(t.last() == s.last());
        assert(t.drop_last() =~= s.drop_last().remove(i));
        assert(s[i].0@ != s.last().0@);
        assert(listings_map(t) == listings_map(s.drop_last().remove(i)).insert(
            s.last().0@,
            s.last().1@,
        ));
        assert(listings_map(s.remove(i)) =~= listings_map(s).remove(s[i].0@));
    }
}

impl Store {
    /// The store's keys are pairwise distinct.
    pub closed spec fn wf(&self) -> bool {
        unique_keys(self.listings@)
    }

    /// A fresh store: no configuration record, no listings.
    pub fn new() -> (s: Store)
        ensures
            s.wf(),
            s@.config is None,
            s@.listings == Map::<Seq<char>, ListingV>::empty(),
    {
        Store { config: None, listings: Vec::new() }
    }

    /// Writes the configuration record, replacing any earlier one.
    pub fn save_config(&mut self, config_state: &Config)
        ensures
            final(self).wf() == old(self).wf(),
            final(self)@.config == Some(*config_state),
            final(self)@.listings == old(self)@.listings,
    {
        self.config = Some(*config_state);
    }

    /// Reads the configuration record; fails if none was ever written.
    pub fn load_config(&self) -> (r: Result<Config, ContractError>)
        ensures
            r == match self@.config {
                Some(c) => Ok::<Config, ContractError>(c),
                None => Err::<Config, ContractError>(ContractError::NotFound),
            },
    {
        match self.config {
            Some(c) => Ok(c),
            None => Err(ContractError::NotFound),
        }
    }

    /// The position of the entry with the given key, if one exists.
    fn find_index(&self, key: &String) -> (r: Option<usize>)
        ensures
            match r {
                Some(j) => j < self.listings@.len() && self.listings@[j as int].0@ == key@,
                None => forall|i: int|
                    0 <= i < self.listings@.len() ==> self.listings@[i].0@ != key@,
            },
    {
        let mut j: usize = 0;
        while j < self.listings.len()
            invariant
                0 <= j <= self.listings@.len(),
                forall|i: int| 0 <= i < j ==> self.listings@[i].0@ != key@,
            decreases self.listings@.len() - j,
        {
            if self.listings[j].0 == *key {
                return Some(j);
            }
            j = j + 1;
        }
        None
    }

    /// Reads the listing under `key`, or `None` when there is none.
    pub fn may_load_listing(&self, key: &String) -> (r: Option<Listing>)
        requires
            self.wf(),
        ensures
            r matches Some(l) ==> self@.listings.contains_key(key@) && l@ == self@.listings[key@],
            r is None ==> !self@.listings.contains_key(key@),
    {
        match self.find_index(key) {
            Some(j) => {
                proof {
                    lemma_map_has_index(self.listings@, j as int);
                }
                Some(self.listings[j].1.dup())
            },
            None => {
                proof {
                    lemma_map_no_index(self.listings@, key@);
                }
                None
            },
        }
    }

    /// Reads the listing under `key`, failing with `NotFound` when there is
    /// none.
    pub fn load_listing(&self, key: &String) -> (r: Result<Listing, ContractError>)
        requires
            self.wf(),
        ensures
            r matches Ok(l) ==> self@.listings.contains_key(key@) && l@ == self@.listings[key@],
            r matches Err(e) ==> !self@.listings.contains_key(key@) && e == ContractError::NotFound,
    {
        match self.may_load_listing(key) {
            Some(l) => Ok(l),
            None => Err(ContractError::NotFound),
        }
    }

    /// Writes `listing` under `key`, replacing any earlier record with that
    /// key.
    pub fn save_listing(&mut self, key: &String, listing: &Listing)
        requires
            old(self).wf(),
        ensures
            final(self).wf(),
            final(self)@.config == old(self)@.config,
            final(self)@.listings == old(self)@.listings.insert(key@, listing@),
    {
        let ghost pre = self.listings@;
        match self.find_index(key) {
            Some(j) => {
                proof {
                    lemma_map_remove_at(pre, j as int);
                }
                self.listings.remove(j);
            },
            None => {
                proof {
                    lemma_map_no_index(pre, key@);
                }
            },
        }
        let ghost mid = self.listings@;
        assert(forall|i: int| 0 <= i < mid.len() ==> mid[i].0@ != key@);
        self.listings.push((key.clone(), listing.dup()));
        proof {
            assert(self.listings@.drop_last() =~= mid);
            assert(unique_keys(self.listings@));
            assert(listings_map(self.listings@) =~= old(self)@.listings.insert(key@, listing@));
        }
    }

    /// Removes the listing under `key`; removing an absent key changes
    /// nothing.
    pub fn remove_listing(&mut self, key: &String)
        requires
            old(self).wf(),
        ensures
            final(self).wf(),
            final(self)@.config == old(self)@.config,
            final(self)@.listings == old(self)@.listings.remove(key@),
    {
        let ghost pre = self.listings@;
        match self.find_index(key) {
            Some(j) => {
                proof {
                    lemma_map_remove_at(pre, j as int);
                }
                self.listings.remove(j);
            },
            None => {
                proof {
                    lemma_map_no_index(pre, key@);
                    assert(listings_map(pre) =~= listings_map(pre).remove(key@));
                }
            },
        }
    }
}

/// Saves the configuration record: the write half of the configuration
/// adapter.
pub fn config(storage: &mut Store, config_state: &Config)
    ensures
        final(storage).wf() == old(storage).wf(),
        final(storage)@.config == Some(*config_state),
        final(storage)@.listings == old(storage)@.listings,
{
    storage.save_config(config_state);
}

/// Loads the configuration record: the read half of the configuration
/// adapter.
pub fn config_read(storage: &Store) -> (r: Result<Config, ContractError>)
    ensures
        r == match storage@.config {
            Some(c) => Ok::<Config, ContractError>(c),
            None => Err::<Config, ContractError>(ContractError::NotFound),
        },
{
    storage.load_config()
}

/// Saves a listing under its identifier: the write half of the listing
/// adapter.
pub fn list_resolver(storage: &mut Store, listing_id: &String, listing: &Listing)
    requires
        old(storage).wf(),
    ensures
        final(storage).wf(),
        final(storage)@.config == old(storage)@.config,
        final(storage)@.listings == old(storage)@.listings.insert(listing_id@, listing@),
{
    storage.save_listing(listing_id, listing);
}

/// Loads the listing under an identifier: the read half of the listing
/// adapter.
pub fn list_resolver_read(storage: &Store, listing_id: &String) -> (r: Result<
    Listing,
    ContractError,
>)
    requires
        storage.wf(),
    ensures
        r matches Ok(l) ==> storage@.listings.contains_key(listing_id@) && l@
            == storage@.listings[listing_id@],
        r matches Err(e) ==> !storage@.listings.contains_key(listing_id@) && e
            == ContractError::NotFound,
{
    storage.load_listing(listing_id)
}

} // verus!

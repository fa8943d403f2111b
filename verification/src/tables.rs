//! The factory's two indexes. Each is a hash map of `gstd::collections`, held
//! where the verifier does not look: what such a map holds has a name here, and
//! each call into it stands in one small function whose contract is taken on
//! trust from the map's documentation. Nothing in this file but the two
//! `Default` impls is proved.

use vstd::prelude::*;
use gstd::collections::HashMap;
use crate::io::{ActorId, Id, Record};

verus! {

/// The index from the identifier of a created program to its address. The map
/// inside is hidden from the verifier; [`address_entries`] stands for what it
/// holds.
#[verifier::external_body]
#[derive(Debug)]
pub struct AddressMap {
    inner: HashMap<Id, ActorId>,
}

/// The index from a creator to the programs it had created, oldest first. The
/// map inside is keyed by the creator's 32 bytes and hidden from the verifier;
/// [`registry_entries`] stands for what it holds.
#[verifier::external_body]
#[derive(Debug)]
pub struct RegistryMap {
    inner: HashMap<[u8; 32], Vec<(Id, Record)>>,
}

/// The keys and values that an [`AddressMap`] holds.
pub uninterp spec fn address_entries(index: AddressMap) -> Map<Id, ActorId>;

/// The keys and values that a [`RegistryMap`] holds.
pub uninterp spec fn registry_entries(index: RegistryMap) -> Map<ActorId, Seq<(Id, Record)>>;

impl View for AddressMap {
    type V = Map<Id, ActorId>;

    open spec fn view(&self) -> Map<Id, ActorId> {
        address_entries(*self)
    }
}

impl View for RegistryMap {
    type V = Map<ActorId, Seq<(Id, Record)>>;

    open spec fn view(&self) -> Map<ActorId, Seq<(Id, Record)>> {
        registry_entries(*self)
    }
}

/// `pairs` lists `entries`: every key once, each with its value, in some order.
pub open spec fn lists<K, V>(pairs: Seq<(K, V)>, entries: Map<K, V>) -> bool {
    &&& forall|i: int, j: int|
        0 <= i < j < pairs.len() ==> (#[trigger] pairs[i]).0 != (#[trigger] pairs[j]).0
    &&& forall|i: int|
        0 <= i < pairs.len() ==> entries.contains_key((#[trigger] pairs[i]).0)
            && entries[pairs[i].0] == pairs[i].1
    &&& forall|k: K| #[trigger]
        entries.contains_key(k) ==> exists|i: int|
            0 <= i < pairs.len() && (#[trigger] pairs[i]).0 == k
}

/// `entries` has `count` keys, and no more.
pub open spec fn counts<K, V>(entries: Map<K, V>, count: nat) -> bool {
    entries.dom().finite() && entries.dom().len() == count
}

/// The lists of programs in `pairs`, each as the sequence that it holds.
pub open spec fn listed_programs(pairs: Seq<(ActorId, Vec<(Id, Record)>)>) -> Seq<
    (ActorId, Seq<(Id, Record)>),
> {
    pairs.map_values(|pair: (ActorId, Vec<(Id, Record)>)| (pair.0, pair.1@))
}

impl Default for AddressMap {
    /// An index that holds nothing.
    fn default() -> (index: AddressMap)
        ensures
            index@ == Map::<Id, ActorId>::empty(),
    {
        AddressMap::empty()
    }
}

impl Default for RegistryMap {
    /// An index that holds nothing.
    fn default() -> (index: RegistryMap)
        ensures
            index@ == Map::<ActorId, Seq<(Id, Record)>>::empty(),
    {
        RegistryMap::empty()
    }
}

impl AddressMap {
    /// `HashMap::default`: a map that holds nothing.
    #[verifier::external_body]
    pub(crate) fn empty() -> (index: AddressMap)
        ensures
            address_entries(index) == (Map::<Id, ActorId>::empty()),
    {
        AddressMap { inner: HashMap::default() }
    }

    /// `HashMap::entry` followed by `Entry::or_insert`: a key that the map lacks
    /// comes in with `address`; a key that it has keeps its value.
    #[verifier::external_body]
    pub(crate) fn insert_if_absent(&mut self, id: Id, address: ActorId)
        ensures
            address_entries(*final(self)) == (if address_entries(*old(self)).contains_key(id) {
                address_entries(*old(self))
            } else {
                address_entries(*old(self)).insert(id, address)
            }),
    {
        self.inner.entry(id).or_insert(address);
    }

    /// `HashMap::remove`: the key leaves the map, and the value that it had, if
    /// it had one, is returned.
    #[verifier::external_body]
    pub(crate) fn remove(&mut self, id: Id) -> (removed: Option<ActorId>)
        ensures
            address_entries(*final(self)) == address_entries(*old(self)).remove(id),
            removed == (if address_entries(*old(self)).contains_key(id) {
                Some(address_entries(*old(self))[id])
            } else {
                None
            }),
    {
        self.inner.remove(&id)
    }

    /// `HashMap::get`: the value of the key, if the map has the key.
    #[verifier::external_body]
    pub(crate) fn get(&self, id: Id) -> (found: Option<ActorId>)
        ensures
            found == (if address_entries(*self).contains_key(id) {
                Some(address_entries(*self)[id])
            } else {
                None
            }),
    {
        self.inner.get(&id).copied()
    }

    /// `HashMap::len`: the number of keys in the map.
    #[verifier::external_body]
    pub(crate) fn len(&self) -> (count: usize)
        ensures
            counts(address_entries(*self), count as nat),
    {
        self.inner.len()
    }

    /// `HashMap::into_iter`, collected: every key once, with its value, in an
    /// order of the map's own choosing.
    #[verifier::external_body]
    pub(crate) fn into_pairs(self) -> (pairs: Vec<(Id, ActorId)>)
        ensures
            lists(pairs@, address_entries(self)),
    {
        self.inner.into_iter().collect()
    }
}

impl RegistryMap {
    /// `HashMap::default`: a map that holds nothing.
    #[verifier::external_body]
    pub(crate) fn empty() -> (index: RegistryMap)
        ensures
            registry_entries(index) == (Map::<ActorId, Seq<(Id, Record)>>::empty()),
    {
        RegistryMap { inner: HashMap::default() }
    }

    /// `HashMap::entry` followed by `Entry::or_default`: the list of `owner`, for
    /// the caller to change; an owner that the map lacks comes in with an empty
    /// list first. Nothing else in the map changes.
    #[verifier::external_body]
    pub(crate) fn entry_or_default(&mut self, owner: ActorId) -> (list: &mut Vec<(Id, Record)>)
        ensures
            list@ == (if registry_entries(*old(self)).contains_key(owner) {
                registry_entries(*old(self))[owner]
            } else {
                Seq::empty()
            }),
            registry_entries(*final(self)) == registry_entries(*old(self)).insert(
                owner,
                final(list)@,
            ),
    {
        self.inner.entry(owner.0).or_default()
    }

    /// `HashMap::get_mut`: the list of `owner`, for the caller to change, if the
    /// map has that owner. Nothing else in the map changes.
    #[verifier::external_body]
    pub(crate) fn get_mut(&mut self, owner: ActorId) -> (found: Option<&mut Vec<(Id, Record)>>)
        ensures
            found is Some == registry_entries(*old(self)).contains_key(owner),
            found is Some ==> found->Some_0@ == registry_entries(*old(self))[owner]
                && registry_entries(*final(self)) == registry_entries(*old(self)).insert(
                owner,
                final(found->Some_0)@,
            ),
            found is None ==> registry_entries(*final(self)) == registry_entries(*old(self)),
    {
        self.inner.get_mut(&owner.0)
    }

    /// `HashMap::get`: the list of `owner`, if the map has that owner.
    #[verifier::external_body]
    pub(crate) fn get(&self, owner: ActorId) -> (found: Option<&Vec<(Id, Record)>>)
        ensures
            found is Some == registry_entries(*self).contains_key(owner),
            found is Some ==> found->Some_0@ == registry_entries(*self)[owner],
    {
        self.inner.get(&owner.0)
    }

    /// `HashMap::keys`, collected: every owner once, in the order in which the
    /// map walks its keys.
    #[verifier::external_body]
    pub(crate) fn owners(&self) -> (owners: Vec<ActorId>)
        ensures
            owners@.no_duplicates(),
            forall|owner: ActorId|
                owners@.contains(owner) == registry_entries(*self).contains_key(owner),
    {
        self.inner.keys().map(|bytes| ActorId(*bytes)).collect()
    }

    /// `HashMap::into_iter`, collected: every owner once, with its list, in an
    /// order of the map's own choosing.
    #[verifier::external_body]
    pub(crate) fn into_pairs(self) -> (pairs: Vec<(ActorId, Vec<(Id, Record)>)>)
        ensures
            lists(listed_programs(pairs@), registry_entries(self)),
    {
        self.inner.into_iter().map(|(bytes, list)| (ActorId(bytes), list)).collect()
    }
}

} // verus!

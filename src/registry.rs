//! In-memory ownership registry for unique assets grouped in collections.
use std::collections::HashMap;
use vstd::prelude::*;

verus! {

broadcast use vstd::std_specs::hash::group_hash_axioms;

/// A unique asset: an item of a collection.
#[derive(Clone, Copy, Debug, PartialEq, Eq, Structural)]
pub struct AssetId {
    pub collection: u32,
    pub item: u32,
}

/// Who holds an item, and whether it is frozen in place.
#[derive(Clone, Copy, Debug, PartialEq, Eq, Structural)]
pub struct ItemData {
    pub owner: u64,
    pub frozen: bool,
}

/// The admin of a collection (who receives royalties), and whether
/// transfers of its items are blocked.
#[derive(Clone, Copy, Debug, PartialEq, Eq, Structural)]
pub struct CollectionData {
    pub admin: u64,
    pub frozen: bool,
}

/// Why a registry operation was refused.
#[derive(Clone, Copy, Debug, PartialEq, Eq, Structural)]
pub enum RegistryError {
    UnknownCollection,
    UnknownItem,
    AlreadyExists,
    Frozen,
    NotFrozen,
}

/// The key under which an asset's item is kept: collection in the high
/// half, item in the low half.
pub open spec fn asset_code(a: AssetId) -> u64 {
    ((a.collection as u64) << 32u64) | (a.item as u64)
}

pub fn code_of(a: AssetId) -> (r: u64)
    ensures
        r == asset_code(a),
{
    ((a.collection as u64) << 32u64) | (a.item as u64)
}

/// The registry as plain maps.
pub struct RegistryView {
    pub items: Map<u64, ItemData>,
    pub collections: Map<u32, CollectionData>,
}

pub open spec fn owner_spec(r: RegistryView, a: AssetId) -> Option<u64> {
    if r.items.contains_key(asset_code(a)) {
        Some(r.items[asset_code(a)].owner)
    } else {
        None
    }
}

pub open spec fn admin_spec(r: RegistryView, c: u32) -> Option<u64> {
    if r.collections.contains_key(c) {
        Some(r.collections[c].admin)
    } else {
        None
    }
}

pub open spec fn with_item(r: RegistryView, a: AssetId, d: ItemData) -> RegistryView {
    RegistryView { items: r.items.insert(asset_code(a), d), collections: r.collections }
}

/// Freezes an item: refused when it is missing or already frozen.
pub open spec fn freeze_spec(r: RegistryView, a: AssetId) -> Result<RegistryView, RegistryError> {
    let k = asset_code(a);
    if !r.items.contains_key(k) {
        Err(RegistryError::UnknownItem)
    } else if r.items[k].frozen {
        Err(RegistryError::Frozen)
    } else {
        Ok(with_item(r, a, ItemData { owner: r.items[k].owner, frozen: true }))
    }
}

/// Thaws an item: refused when it is missing or not frozen.
pub open spec fn thaw_spec(r: RegistryView, a: AssetId) -> Result<RegistryView, RegistryError> {
    let k = asset_code(a);
    if !r.items.contains_key(k) {
        Err(RegistryError::UnknownItem)
    } else if !r.items[k].frozen {
        Err(RegistryError::NotFrozen)
    } else {
        Ok(with_item(r, a, ItemData { owner: r.items[k].owner, frozen: false }))
    }
}

/// Hands an item to `to`: refused when it is missing, frozen, or its
/// collection is missing or frozen.
pub open spec fn transfer_spec(r: RegistryView, a: AssetId, to: u64) -> Result<RegistryView, RegistryError> {
    let k = asset_code(a);
    if !r.items.contains_key(k) {
        Err(RegistryError::UnknownItem)
    } else if !r.collections.contains_key(a.collection) {
        Err(RegistryError::UnknownCollection)
    } else if r.items[k].frozen || r.collections[a.collection].frozen {
        Err(RegistryError::Frozen)
    } else {
        Ok(with_item(r, a, ItemData { owner: to, frozen: false }))
    }
}

/// The ownership registry.
pub struct Registry {
    items: HashMap<u64, ItemData>,
    collections: HashMap<u32, CollectionData>,
}

impl View for Registry {
    type V = RegistryView;

    closed spec fn view(&self) -> RegistryView {
        RegistryView { items: self.items@, collections: self.collections@ }
    }
}

impl Registry {
    pub fn new() -> (r: Registry)
        ensures
            r@.items == Map::<u64, ItemData>::empty(),
            r@.collections == Map::<u32, CollectionData>::empty(),
    {
        Registry { items: HashMap::new(), collections: HashMap::new() }
    }

    /// A copy of this registry, for staging changes that may be dropped.
    pub fn snapshot(&self) -> (r: Registry)
        ensures
            r@ == self@,
    {
        Registry { items: self.items.clone(), collections: self.collections.clone() }
    }

    pub fn owner(&self, a: AssetId) -> (r: Option<u64>)
        ensures
            r == owner_spec(self@, a),
    {
        match self.items.get(&code_of(a)) {
            Some(d) => Some(d.owner),
            None => None,
        }
    }

    pub fn collection_admin(&self, c: u32) -> (r: Option<u64>)
        ensures
            r == admin_spec(self@, c),
    {
        match self.collections.get(&c) {
            Some(d) => Some(d.admin),
            None => None,
        }
    }

    /// Opens a collection administered by `admin`.
    pub fn create_collection(&mut self, c: u32, admin: u64) -> (r: Result<(), RegistryError>)
        ensures
            if old(self)@.collections.contains_key(c) {
                r == Err::<(), RegistryError>(RegistryError::AlreadyExists) && final(self)@ == old(self)@
            } else {
                r is Ok && final(self)@ == (RegistryView {
                    items: old(self)@.items,
                    collections: old(self)@.collections.insert(c, CollectionData { admin, frozen: false }),
                })
            },
    {
        if self.collections.contains_key(&c) {
            return Err(RegistryError::AlreadyExists);
        }
        self.collections.insert(c, CollectionData { admin, frozen: false });
        Ok(())
    }

    /// Creates an item of an existing collection, held by `owner`.
    pub fn mint(&mut self, a: AssetId, owner: u64) -> (r: Result<(), RegistryError>)
        ensures
            if !old(self)@.collections.contains_key(a.collection) {
                r == Err::<(), RegistryError>(RegistryError::UnknownCollection) && final(self)@ == old(self)@
            } else if old(self)@.items.contains_key(asset_code(a)) {
                r == Err::<(), RegistryError>(RegistryError::AlreadyExists) && final(self)@ == old(self)@
            } else {
                r is Ok && final(self)@ == with_item(old(self)@, a, ItemData { owner, frozen: false })
            },
    {
        if !self.collections.contains_key(&a.collection) {
            return Err(RegistryError::UnknownCollection);
        }
        let k = code_of(a);
        if self.items.contains_key(&k) {
            return Err(RegistryError::AlreadyExists);
        }
        self.items.insert(k, ItemData { owner, frozen: false });
        Ok(())
    }

    /// Blocks or unblocks transfers of every item of collection `c`.
    pub fn set_collection_frozen(&mut self, c: u32, frozen: bool) -> (r: Result<(), RegistryError>)
        ensures
            if !old(self)@.collections.contains_key(c) {
                r == Err::<(), RegistryError>(RegistryError::UnknownCollection) && final(self)@ == old(self)@
            } else {
                r is Ok && final(self)@ == (RegistryView {
                    items: old(self)@.items,
                    collections: old(self)@.collections.insert(
                        c,
                        CollectionData { admin: old(self)@.collections[c].admin, frozen },
                    ),
                })
            },
    {
        match self.collections.get(&c) {
            None => Err(RegistryError::UnknownCollection),
            Some(d) => {
                let admin = d.admin;
                self.collections.insert(c, CollectionData { admin, frozen });
                Ok(())
            },
        }
    }

    pub fn freeze(&mut self, a: AssetId) -> (r: Result<(), RegistryError>)
        ensures
            match freeze_spec(old(self)@, a) {
                Ok(v) => r is Ok && final(self)@ == v,
                Err(e) => r == Err::<(), RegistryError>(e) && final(self)@ == old(self)@,
            },
    {
        let k = code_of(a);
        match self.items.get(&k) {
            None => Err(RegistryError::UnknownItem),
            Some(d) => {
                if d.frozen {
                    return Err(RegistryError::Frozen);
                }
                let owner = d.owner;
                self.items.insert(k, ItemData { owner, frozen: true });
                Ok(())
            },
        }
    }

    pub fn thaw(&mut self, a: AssetId) -> (r: Result<(), RegistryError>)
        ensures
            match thaw_spec(old(self)@, a) {
                Ok(v) => r is Ok && final(self)@ == v,
                Err(e) => r == Err::<(), RegistryError>(e) && final(self)@ == old(self)@,
            },
    {
        let k = code_of(a);
        match self.items.get(&k) {
            None => Err(RegistryError::UnknownItem),
            Some(d) => {
                if !d.frozen {
                    return Err(RegistryError::NotFrozen);
                }
                let owner = d.owner;
                self.items.insert(k, ItemData { owner, frozen: false });
                Ok(())
            },
        }
    }

    pub fn transfer(&mut self, a: AssetId, to: u64) -> (r: Result<(), RegistryError>)
        ensures
            match transfer_spec(old(self)@, a, to) {
                Ok(v) => r is Ok && final(self)@ == v,
                Err(e) => r == Err::<(), RegistryError>(e) && final(self)@ == old(self)@,
            },
    {
        let k = code_of(a);
        let d = match self.items.get(&k) {
            None => {
                return Err(RegistryError::UnknownItem);
            },
            Some(d) => *d,
        };
        let frozen_collection = match self.collections.get(&a.collection) {
            None => {
                return Err(RegistryError::UnknownCollection);
            },
            Some(c) => c.frozen,
        };
        if d.frozen || frozen_collection {
            return Err(RegistryError::Frozen);
        }
        self.items.insert(k, ItemData { owner: to, frozen: false });
        Ok(())
    }
}

} // verus!

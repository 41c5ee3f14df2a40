//! The domain operations over a store of items.
//!
//! Reads go straight to the store; every mutating operation opens a
//! transaction, performs its work on the transaction, and commits only
//! on success.  Retrieving an item right after creating or updating it
//! inside the transaction is proved to succeed, so these flows need no
//! failure path for a vanished item.

use crate::context::Transaction;
use crate::id::Id;
use crate::item::Item;
use crate::item::ItemFilter;
use crate::item::ItemPatch;
use crate::item::ItemSpec;
use crate::repo::Patch;
use crate::repo::Reposable;
use crate::store::Store;
use crate::store::contains_id;
use crate::store::deleted;
use crate::store::found;
use crate::store::lemma_create_then_retrieve;
use crate::store::lemma_update_then_retrieve;
use crate::store::retrieved;
use crate::store::updated;
use crate::store::views_of;
use vstd::prelude::*;

verus! {

/// The domain: item lookups and transactional item mutations over one
/// backing store.
pub struct DomainImpl {
    store: Store<Item>,
}

impl DomainImpl {
    /// The items the backing store holds, in store order.
    pub closed spec fn contents(&self) -> Seq<<Item as View>::V> {
        self.store@
    }

    /// Whether the backing store is well formed.
    pub closed spec fn wf(self) -> bool {
        self.store.wf()
    }

    /// The number of identifiers the backing store has assigned so far.
    pub closed spec fn assigned(self) -> u64 {
        self.store.assigned()
    }

    /// A domain over the given backing store.
    pub fn new(store: Store<Item>) -> (r: DomainImpl)
        requires
            store.wf(),
        ensures
            r.wf(),
            r.contents() == store@,
            r.assigned() == store.assigned(),
    {
        DomainImpl { store }
    }

    /// The item with the given identifier, if any.
    pub fn item(&self, id: &Id) -> (r: Option<Item>)
        requires
            self.wf(),
        ensures
            match r {
                Some(e) => retrieved::<Item>(self.contents(), id@) == Some(e@),
                None => retrieved::<Item>(self.contents(), id@) is None,
            },
    {
        self.store.retrieve(id)
    }

    /// All items, in store order.
    pub fn all_items(&self) -> (r: Vec<Item>)
        requires
            self.wf(),
        ensures
            views_of(r@) == self.contents(),
    {
        self.store.retrieve_all()
    }

    /// All items matching the filter, in store order.
    pub fn find_items(&self, filter: &ItemFilter) -> (r: Vec<Item>)
        requires
            self.wf(),
        ensures
            views_of(r@) == found::<Item>(self.contents(), filter@),
    {
        self.store.find_all(filter)
    }

    /// Creates an item from the spec inside a transaction, retrieves it
    /// back, commits, and returns the new item, which carries a fresh
    /// identifier and the spec's fields.
    pub fn create_item(&mut self, spec: &ItemSpec) -> (r: Item)
        requires
            old(self).wf(),
            old(self).assigned() < u64::MAX,
        ensures
            final(self).wf(),
            !contains_id::<Item>(old(self).contents(), r@.id),
            r@.name == spec@.name,
            r@.size == spec@.size,
            final(self).contents() == old(self).contents().push(r@),
            final(self).assigned() == old(self).assigned() + 1,
    {
        let mut tx = Transaction::start(&self.store);
        let id = tx.create(spec);
        proof {
            lemma_create_then_retrieve::<Item>(self.store@, spec@, id@);
        }
        let item = tx.retrieve(&id).unwrap();
        tx.commit(&mut self.store);
        item
    }

    /// Updates the item the patch targets inside a transaction, if it
    /// exists: retrieves the updated item back, commits, and returns it.
    /// Without a target nothing changes and nothing is returned.
    pub fn update_item(&mut self, patch: &ItemPatch) -> (r: Option<Item>)
        requires
            old(self).wf(),
        ensures
            final(self).wf(),
            final(self).assigned() == old(self).assigned(),
            match r {
                Some(item) => {
                    &&& contains_id::<Item>(old(self).contents(), patch@.id)
                    &&& final(self).contents() == updated::<Item>(old(self).contents(), patch@)
                    &&& item@ == <Item as Reposable>::patched(
                        retrieved::<Item>(old(self).contents(), patch@.id)->Some_0,
                        patch@,
                    )
                },
                None => {
                    &&& !contains_id::<Item>(old(self).contents(), patch@.id)
                    &&& final(self).contents() == old(self).contents()
                },
            },
    {
        let mut tx = Transaction::start(&self.store);
        if tx.update(patch) {
            proof {
                self.store.lemma_wf_unique();
                lemma_update_then_retrieve::<Item>(self.store@, patch@);
            }
            let item = tx.retrieve(patch.id()).unwrap();
            tx.commit(&mut self.store);
            Some(item)
        } else {
            tx.abort();
            None
        }
    }

    /// Deletes the item with the given identifier inside a transaction,
    /// if it exists, and commits.  Returns whether the item existed and
    /// was deleted.
    pub fn delete_item(&mut self, id: &Id) -> (r: bool)
        requires
            old(self).wf(),
        ensures
            final(self).wf(),
            final(self).assigned() == old(self).assigned(),
            final(self).contents() == deleted::<Item>(old(self).contents(), id@),
            r == contains_id::<Item>(old(self).contents(), id@),
    {
        let mut tx = Transaction::start(&self.store);
        if tx.delete(id) {
            tx.commit(&mut self.store);
            true
        } else {
            tx.abort();
            false
        }
    }
}

} // verus!

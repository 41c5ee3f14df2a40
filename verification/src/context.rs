//! Transactions over a store.
//!
//! A transaction is opened on a base store and works on a private
//! snapshot of it, so its operations are invisible to the base until
//! `commit` installs the snapshot as the store's new contents; `abort`
//! discards the snapshot and leaves the base untouched.  Both consume the
//! transaction, so a finished transaction cannot be used again: the
//! single-shot rule is enforced by ownership transfer, not by a run-time
//! flag.

use crate::id::Id;
use crate::repo::Patch;
use crate::repo::Reposable;
use crate::store::Store;
use crate::store::contains_id;
use crate::store::created;
use crate::store::deleted;
use crate::store::found;
use crate::store::lemma_create_then_retrieve;
use crate::store::page;
use crate::store::retrieved;
use crate::store::updated;
use crate::store::views_of;
use vstd::prelude::*;

verus! {

/// A transaction open on a base store.
pub struct Transaction<R: Reposable> {
    snapshot: Store<R>,
}

impl<R: Reposable> View for Transaction<R> {
    type V = Seq<R::V>;

    closed spec fn view(&self) -> Seq<R::V> {
        self.snapshot@
    }
}

impl<R: Reposable> Transaction<R> {
    /// Whether the transaction's snapshot is well formed.
    pub closed spec fn wf(self) -> bool {
        self.snapshot.wf()
    }

    /// The number of identifiers the snapshot has assigned so far.
    pub closed spec fn assigned(self) -> u64 {
        self.snapshot.assigned()
    }

    /// Opens a transaction on the base store.  The base is untouched and
    /// stays usable independently.
    pub fn start(base: &Store<R>) -> (t: Transaction<R>)
        requires
            base.wf(),
        ensures
            t.wf(),
            t@ == base@,
            t.assigned() == base.assigned(),
    {
        Transaction { snapshot: base.clone() }
    }

    /// Creates a new entity inside the transaction; see `Store::create`.
    pub fn create(&mut self, spec: &R::Spec) -> (r: Id)
        requires
            old(self).wf(),
            old(self).assigned() < u64::MAX,
        ensures
            final(self).wf(),
            !contains_id::<R>(old(self)@, r@),
            final(self)@ == created::<R>(old(self)@, spec@, r@),
            final(self).assigned() == old(self).assigned() + 1,
    {
        self.snapshot.create(spec)
    }

    /// Retrieves an entity inside the transaction; see `Store::retrieve`.
    pub fn retrieve(&self, id: &Id) -> (r: Option<R>)
        requires
            self.wf(),
        ensures
            match r {
                Some(e) => retrieved::<R>(self@, id@) == Some(e@),
                None => retrieved::<R>(self@, id@) is None,
            },
    {
        self.snapshot.retrieve(id)
    }

    /// Updates an entity inside the transaction; see `Store::update`.
    pub fn update(&mut self, patch: &R::Patch) -> (r: bool)
        requires
            old(self).wf(),
        ensures
            final(self).wf(),
            final(self)@ == updated::<R>(old(self)@, patch@),
            r == contains_id::<R>(old(self)@, <R::Patch as Patch>::target_of(patch@)),
            final(self).assigned() == old(self).assigned(),
    {
        self.snapshot.update(patch)
    }

    /// Deletes an entity inside the transaction; see `Store::delete`.
    pub fn delete(&mut self, id: &Id) -> (r: bool)
        requires
            old(self).wf(),
        ensures
            final(self).wf(),
            final(self)@ == deleted::<R>(old(self)@, id@),
            r == contains_id::<R>(old(self)@, id@),
            final(self).assigned() == old(self).assigned(),
    {
        self.snapshot.delete(id)
    }

    /// Finds matching entities inside the transaction; see
    /// `Store::find_all`.
    pub fn find_all(&self, filter: &R::Filter) -> (r: Vec<R>)
        requires
            self.wf(),
        ensures
            views_of(r@) == found::<R>(self@, filter@),
    {
        self.snapshot.find_all(filter)
    }

    /// Retrieves all entities inside the transaction; see
    /// `Store::retrieve_all`.
    pub fn retrieve_all(&self) -> (r: Vec<R>)
        requires
            self.wf(),
        ensures
            views_of(r@) == self@,
    {
        self.snapshot.retrieve_all()
    }

    /// Finds a page of matching entities inside the transaction; see
    /// `Store::find_page`.
    pub fn find_page(&self, filter: &R::Filter, offset: usize, limit: usize) -> (r: Vec<R>)
        requires
            self.wf(),
        ensures
            views_of(r@) == page(found::<R>(self@, filter@), offset as int, limit as int),
    {
        self.snapshot.find_page(filter, offset, limit)
    }

    /// Retrieves a page of all entities inside the transaction; see
    /// `Store::retrieve_page`.
    pub fn retrieve_page(&self, offset: usize, limit: usize) -> (r: Vec<R>)
        requires
            self.wf(),
        ensures
            views_of(r@) == page(self@, offset as int, limit as int),
    {
        self.snapshot.retrieve_page(offset, limit)
    }

    /// Commits the transaction: the base store takes over the snapshot,
    /// atomically, and the transaction is consumed.
    pub fn commit(self, base: &mut Store<R>)
        requires
            self.wf(),
        ensures
            final(base).wf(),
            final(base)@ == self@,
            final(base).assigned() == self.assigned(),
    {
        *base = self.snapshot;
    }

    /// Aborts the transaction: the snapshot is discarded, the base store
    /// is untouched, and the transaction is consumed.
    pub fn abort(self) {
    }
}

impl<R: Reposable> crate::repo::Repo<R> for Transaction<R> {
    open spec fn contents(&self) -> Seq<R::V> {
        self@
    }

    open spec fn ok(&self) -> bool {
        self.wf()
    }

    open spec fn used_ids(&self) -> u64 {
        self.assigned()
    }

    fn create(&mut self, spec: &R::Spec) -> (r: Id) {
        Transaction::create(self, spec)
    }

    fn retrieve(&self, id: &Id) -> (r: Option<R>) {
        Transaction::retrieve(self, id)
    }

    fn retrieve_all(&self) -> (r: Vec<R>) {
        Transaction::retrieve_all(self)
    }

    fn retrieve_page(&self, offset: usize, limit: usize) -> (r: Vec<R>) {
        Transaction::retrieve_page(self, offset, limit)
    }

    fn find_all(&self, filter: &R::Filter) -> (r: Vec<R>) {
        Transaction::find_all(self, filter)
    }

    fn find_page(&self, filter: &R::Filter, offset: usize, limit: usize) -> (r: Vec<R>) {
        Transaction::find_page(self, filter, offset, limit)
    }

    fn update(&mut self, patch: &R::Patch) -> (r: bool) {
        Transaction::update(self, patch)
    }

    fn delete(&mut self, id: &Id) -> (r: bool) {
        Transaction::delete(self, id)
    }
}

/// Transaction atomicity: a transaction opened on the base sees the same
/// contents, so an identifier it freshly assigns is absent from the base;
/// after an abort the base is untouched and retrieving that identifier
/// finds nothing, while after a commit the base holds the transaction's
/// contents and retrieving it yields exactly the created entity.
pub proof fn lemma_transaction_atomicity<R: Reposable>(
    base: Seq<R::V>,
    spec: <R::Spec as View>::V,
    id: Seq<u8>,
)
    requires
        !contains_id::<R>(base, id),
    ensures
        retrieved::<R>(base, id) is None,
        retrieved::<R>(created::<R>(base, spec, id), id) == Some(R::made(spec, id)),
{
    lemma_create_then_retrieve::<R>(base, spec, id);
}

} // verus!

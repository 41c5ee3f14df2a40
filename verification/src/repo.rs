//! The entity and repository capability contracts.
//!
//! An entity kind joins the repository layer by supplying, besides its own
//! shape, a creation spec, a partial-update patch and a query filter, and
//! by proving the laws that relate them: a made entity carries the
//! identifier it was made with, a patch never changes the target's
//! identifier, the fully-unset filter matches everything, and the filter
//! with only the identifier set matches exactly the entity so identified.

use crate::id::Id;
use crate::store::contains_id;
use crate::store::created;
use crate::store::deleted;
use crate::store::found;
use crate::store::page;
use crate::store::retrieved;
use crate::store::updated;
use crate::store::views_of;
use vstd::prelude::*;

verus! {

/// The identifier bytes held by an optional identifier.
pub open spec fn opt_id_view(o: Option<Id>) -> Option<Seq<u8>> {
    match o {
        Some(id) => Some(id@),
        None => None,
    }
}

/// An `Entity` is a thing that can be uniquely identified.
pub trait Entity: View + Sized {
    /// The identifier bytes of an entity model value.
    spec fn id_of(e: Self::V) -> Seq<u8>;

    /// Returns the ID of the entity.
    fn id(&self) -> (r: &Id)
        ensures
            r@ == Self::id_of(self@),
    ;
}

/// A thing that can patch-update a reposable thing stored in a repository.
pub trait Patch: View + Sized {
    /// The identifier bytes of the target of a patch model value.
    spec fn target_of(p: Self::V) -> Seq<u8>;

    /// Returns the ID of the thing for which this patch is an update.
    fn id(&self) -> (r: &Id)
        ensures
            r@ == Self::target_of(self@),
    ;
}

/// A thing that can filter reposable things stored in a repository.
pub trait Filter: View + Sized {
    /// The fully-unset filter, which constrains nothing.
    spec fn empty_filter() -> Self::V;

    /// The identifier constraint of a filter model value.
    spec fn filter_id(f: Self::V) -> Option<Seq<u8>>;

    /// A filter model value with its identifier constraint replaced and
    /// every other constraint kept.
    spec fn filter_with_id(f: Self::V, id: Option<Seq<u8>>) -> Self::V;

    /// Returns a filter with every field unset.
    fn empty() -> (r: Self)
        ensures
            r@ == Self::empty_filter(),
    ;

    /// Modifies this filter to filter for the thing with the provided identity.
    fn id_mut(&mut self) -> (r: &mut Option<Id>)
        ensures
            opt_id_view(*r) == Self::filter_id(old(self)@),
            final(self)@ == Self::filter_with_id(old(self)@, opt_id_view(*final(r))),
    ;
}

/// A thing that can be reposed in a repository: an entity kind together
/// with its creation spec, partial-update patch and query filter.
pub trait Reposable: Entity {
    /// The minimal fields required to construct a new instance.
    type Spec: View;

    /// A targeted, partial update to one instance.
    type Patch: Patch;

    /// A partial-match predicate over instances.
    type Filter: Filter;

    /// The entity that the store makes from a creation spec and a
    /// store-assigned identifier.
    spec fn made(s: <Self::Spec as View>::V, id: Seq<u8>) -> Self::V;

    /// The entity after a patch is applied: fields set on the patch take
    /// the patch's value, unset fields stay exactly as they were.
    spec fn patched(e: Self::V, p: <Self::Patch as View>::V) -> Self::V;

    /// Whether an entity matches a filter: every set field of the filter
    /// must equal the entity's field; unset fields constrain nothing.
    spec fn matched(e: Self::V, f: <Self::Filter as View>::V) -> bool;

    /// An entity made from a spec carries the identifier it was made with.
    proof fn lemma_made_id(s: <Self::Spec as View>::V, id: Seq<u8>)
        ensures
            Self::id_of(Self::made(s, id)) == id,
    ;

    /// A patch never changes the identifier of the entity it updates.
    proof fn lemma_patched_id(e: Self::V, p: <Self::Patch as View>::V)
        ensures
            Self::id_of(Self::patched(e, p)) == Self::id_of(e),
    ;

    /// A fully-unset filter matches every entity.
    proof fn lemma_empty_filter_matches(e: Self::V)
        ensures
            Self::matched(e, <Self::Filter as Filter>::empty_filter()),
    ;

    /// A filter with only the identifier set matches exactly the entity
    /// with that identifier.
    proof fn lemma_id_filter_matches(e: Self::V, id: Seq<u8>)
        ensures
            Self::matched(
                e,
                <Self::Filter as Filter>::filter_with_id(
                    <Self::Filter as Filter>::empty_filter(),
                    Some(id),
                ),
            ) <==> Self::id_of(e) == id,
    ;

    /// Builds the entity a creation spec describes, with the given identifier.
    fn make(s: &Self::Spec, id: Id) -> (r: Self)
        ensures
            r@ == Self::made(s@, id@),
    ;

    /// Applies a patch to a copy of the entity.
    fn apply_patch(&self, p: &Self::Patch) -> (r: Self)
        ensures
            r@ == Self::patched(self@, p@),
    ;

    /// Whether the entity matches the filter.
    fn matches_filter(&self, f: &Self::Filter) -> (r: bool)
        ensures
            r == Self::matched(self@, f@),
    ;

    /// Copies the entity.
    fn dup(&self) -> (r: Self)
        ensures
            r@ == self@,
    ;
}

/// A reposable entity kind bound to its document-database location: one
/// logical database and one collection per kind, fixed per kind rather
/// than passed per call.
pub trait MongoReposable: Reposable {
    /// The name of the logical database holding this kind.
    fn db_name() -> &'static str;

    /// The name of the collection holding this kind.
    fn collection_name() -> &'static str;
}

/// The repository interface: a collection of entities of one reposable
/// kind that allows creation, updating, deletion and retrieval.
///
/// `contents` is the sequence of entities the repository holds, `ok`
/// its well-formedness, and `used_ids` how many identifiers it has
/// assigned; every operation's effect is stated against `contents`.
pub trait Repo<R: Reposable>: Sized {
    /// The entities the repository holds, in store order.
    spec fn contents(&self) -> Seq<R::V>;

    /// Whether the repository is well formed.
    spec fn ok(&self) -> bool;

    /// The number of identifiers the repository has assigned so far.
    spec fn used_ids(&self) -> u64;

    /// Creates a new entity in the repository from the spec and returns
    /// the fresh identifier the repository assigned to it.
    fn create(&mut self, spec: &R::Spec) -> (r: Id)
        requires
            old(self).ok(),
            old(self).used_ids() < u64::MAX,
        ensures
            final(self).ok(),
            !contains_id::<R>(old(self).contents(), r@),
            final(self).contents() == created::<R>(old(self).contents(), spec@, r@),
            final(self).used_ids() == old(self).used_ids() + 1,
    ;

    /// Retrieves a copy of the entity with the given identifier, if any.
    fn retrieve(&self, id: &Id) -> (r: Option<R>)
        requires
            self.ok(),
        ensures
            match r {
                Some(e) => retrieved::<R>(self.contents(), id@) == Some(e@),
                None => retrieved::<R>(self.contents(), id@) is None,
            },
    ;

    /// Retrieves copies of all entities, in store order.
    fn retrieve_all(&self) -> (r: Vec<R>)
        requires
            self.ok(),
        ensures
            views_of(r@) == self.contents(),
    ;

    /// Retrieves a page of all entities in store order; an offset past
    /// the end yields an empty result, not an error.
    fn retrieve_page(&self, offset: usize, limit: usize) -> (r: Vec<R>)
        requires
            self.ok(),
        ensures
            views_of(r@) == page(self.contents(), offset as int, limit as int),
    ;

    /// Retrieves copies of all entities matching the filter, in store
    /// order.
    fn find_all(&self, filter: &R::Filter) -> (r: Vec<R>)
        requires
            self.ok(),
        ensures
            views_of(r@) == found::<R>(self.contents(), filter@),
    ;

    /// Retrieves a page of the entities matching the filter: the window
    /// composes with the filter, not independently of it.
    fn find_page(&self, filter: &R::Filter, offset: usize, limit: usize) -> (r: Vec<R>)
        requires
            self.ok(),
        ensures
            views_of(r@) == page(
                found::<R>(self.contents(), filter@),
                offset as int,
                limit as int,
            ),
    ;

    /// Updates the entity the patch targets, if it exists.  Returns
    /// whether the entity existed and was updated.
    fn update(&mut self, patch: &R::Patch) -> (r: bool)
        requires
            old(self).ok(),
        ensures
            final(self).ok(),
            final(self).contents() == updated::<R>(old(self).contents(), patch@),
            r == contains_id::<R>(old(self).contents(), <R::Patch as Patch>::target_of(patch@)),
            final(self).used_ids() == old(self).used_ids(),
    ;

    /// Deletes the entity with the given identifier, if it exists.
    /// Returns whether the entity existed and was deleted; deleting a
    /// missing identifier reports `false`, never an error.
    fn delete(&mut self, id: &Id) -> (r: bool)
        requires
            old(self).ok(),
        ensures
            final(self).ok(),
            final(self).contents() == deleted::<R>(old(self).contents(), id@),
            r == contains_id::<R>(old(self).contents(), id@),
            final(self).used_ids() == old(self).used_ids(),
    ;
}

} // verus!

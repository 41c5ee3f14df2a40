//! The verified document store: one collection of entities of one
//! reposable kind, with create, retrieve, find, page, update and delete.
//!
//! The store is the model of the backing collection.  Lookups, updates
//! and deletions go through a match filter with only the identifier set,
//! exactly as the document-store driver builds its match documents, and
//! their contracts are proved equal to direct identifier lookup from the
//! filter laws of the entity kind.

use crate::id::Id;
use crate::repo::Filter;
use crate::repo::Patch;
use crate::repo::Reposable;
use vstd::bytes::spec_u64_from_le_bytes;
use vstd::bytes::spec_u64_to_le_bytes;
use vstd::bytes::u64_to_le_bytes;
use vstd::prelude::*;

verus! {

/// The models of a sequence of entities.
pub open spec fn views_of<T: View>(s: Seq<T>) -> Seq<T::V> {
    Seq::new(s.len(), |i: int| s[i]@)
}

/// The identifier bytes the store assigns for creation counter `n`.
pub open spec fn assigned_id(n: u64) -> Seq<u8> {
    seq![0u8, 0u8, 0u8, 0u8] + spec_u64_to_le_bytes(n)
}

/// Whether `id` was assigned for some creation counter below `bound`.
pub open spec fn id_assigned_below(id: Seq<u8>, bound: u64) -> bool {
    exists|n: u64| n < bound && id == assigned_id(n)
}

/// Distinct creation counters give distinct identifiers.
pub proof fn lemma_assigned_id_injective(a: u64, b: u64)
    requires
        assigned_id(a) == assigned_id(b),
    ensures
        a == b,
{
    vstd::bytes::lemma_auto_spec_u64_to_from_le_bytes();
    assert(assigned_id(a).subrange(4, 12) =~= spec_u64_to_le_bytes(a));
    assert(assigned_id(b).subrange(4, 12) =~= spec_u64_to_le_bytes(b));
    assert(spec_u64_from_le_bytes(spec_u64_to_le_bytes(a)) == a);
    assert(spec_u64_from_le_bytes(spec_u64_to_le_bytes(b)) == b);
}

/// The identifier the store assigns for creation counter `n`.
fn assign_id(n: u64) -> (r: Id)
    ensures
        r@ == assigned_id(n),
{
    let mut bytes: Vec<u8> = Vec::new();
    bytes.push(0);
    bytes.push(0);
    bytes.push(0);
    bytes.push(0);
    let mut tail = u64_to_le_bytes(n);
    bytes.append(&mut tail);
    proof {
        assert(bytes@ =~= assigned_id(n));
    }
    Id::from_bytes(bytes)
}

/// Whether no two entities carry the same identifier.
pub open spec fn unique_ids<R: Reposable>(s: Seq<R::V>) -> bool {
    forall|i: int, j: int|
        0 <= i < j < s.len() ==> R::id_of(#[trigger] s[i]) != R::id_of(#[trigger] s[j])
}

/// Whether some entity carries the given identifier.
pub open spec fn contains_id<R: Reposable>(s: Seq<R::V>, id: Seq<u8>) -> bool {
    exists|i: int| 0 <= i < s.len() && R::id_of(#[trigger] s[i]) == id
}

/// The position of the entity carrying the given identifier.
pub open spec fn index_of_id<R: Reposable>(s: Seq<R::V>, id: Seq<u8>) -> int {
    choose|i: int| 0 <= i < s.len() && R::id_of(#[trigger] s[i]) == id
}

/// The entity carrying the given identifier, if any.
pub open spec fn retrieved<R: Reposable>(s: Seq<R::V>, id: Seq<u8>) -> Option<R::V> {
    if contains_id::<R>(s, id) {
        Some(s[index_of_id::<R>(s, id)])
    } else {
        None
    }
}

/// The store contents after an entity is created from `spec` with the
/// assigned identifier `id`.
pub open spec fn created<R: Reposable>(
    s: Seq<R::V>,
    spec: <R::Spec as View>::V,
    id: Seq<u8>,
) -> Seq<R::V> {
    s.push(R::made(spec, id))
}

/// The store contents after a patch: the entity carrying the patch's
/// target identifier is patched, everything else stays exactly as it was.
pub open spec fn updated<R: Reposable>(s: Seq<R::V>, p: <R::Patch as View>::V) -> Seq<R::V> {
    let target = <R::Patch as Patch>::target_of(p);
    if contains_id::<R>(s, target) {
        let i = index_of_id::<R>(s, target);
        s.update(i, R::patched(s[i], p))
    } else {
        s
    }
}

/// The store contents after the entity carrying the given identifier is
/// deleted; without such an entity nothing changes.
pub open spec fn deleted<R: Reposable>(s: Seq<R::V>, id: Seq<u8>) -> Seq<R::V> {
    if contains_id::<R>(s, id) {
        s.remove(index_of_id::<R>(s, id))
    } else {
        s
    }
}

/// The entities matching a filter, in store order.
pub open spec fn found<R: Reposable>(s: Seq<R::V>, f: <R::Filter as View>::V) -> Seq<R::V> {
    s.filter(|e: R::V| R::matched(e, f))
}

/// The page window: up to `limit` elements starting at `offset`, clipped
/// to the end of the sequence.  An offset past the end gives the empty
/// sequence, never an error.
pub open spec fn page<T>(s: Seq<T>, offset: int, limit: int) -> Seq<T>
    recommends
        0 <= offset,
        0 <= limit,
{
    let lo = if offset <= s.len() {
        offset
    } else {
        s.len() as int
    };
    let hi = if offset + limit <= s.len() {
        offset + limit
    } else {
        s.len() as int
    };
    s.subrange(lo, hi)
}

/// In a store with unique identifiers, the entity found at position `i`
/// is the one that identifier lookup yields.
pub proof fn lemma_index_of_id_unique<R: Reposable>(s: Seq<R::V>, id: Seq<u8>, i: int)
    requires
        unique_ids::<R>(s),
        0 <= i < s.len(),
        R::id_of(s[i]) == id,
    ensures
        contains_id::<R>(s, id),
        index_of_id::<R>(s, id) == i,
{
    assert(contains_id::<R>(s, id));
    let k = index_of_id::<R>(s, id);
    if k < i {
        assert(R::id_of(s[k]) != R::id_of(s[i]));
        assert(false);
    } else if i < k {
        assert(R::id_of(s[i]) != R::id_of(s[k]));
        assert(false);
    }
}

/// A collection of entities of one reposable kind, which assigns each
/// created entity a fresh identifier.
pub struct Store<R: Reposable> {
    entities: Vec<R>,
    next: u64,
}

impl<R: Reposable> View for Store<R> {
    type V = Seq<R::V>;

    closed spec fn view(&self) -> Seq<R::V> {
        views_of(self.entities@)
    }
}

impl<R: Reposable> Store<R> {
    /// The number of identifiers the store has assigned so far.
    pub closed spec fn assigned(self) -> u64 {
        self.next
    }

    /// Whether the store is well formed: every identifier was assigned by
    /// the store, and no two entities carry the same identifier.
    pub closed spec fn wf(self) -> bool {
        &&& forall|i: int|
            0 <= i < self@.len() ==> id_assigned_below(R::id_of(#[trigger] self@[i]), self.next)
        &&& unique_ids::<R>(self@)
    }

    /// A well-formed store has unique identifiers.
    pub proof fn lemma_wf_unique(&self)
        requires
            self.wf(),
        ensures
            unique_ids::<R>(self@),
    {
    }

    /// An empty store.
    pub fn new() -> (r: Store<R>)
        ensures
            r.wf(),
            r@ == Seq::<R::V>::empty(),
            r.assigned() == 0,
    {
        let r = Store { entities: Vec::new(), next: 0 };
        proof {
            assert(r@ =~= Seq::<R::V>::empty());
        }
        r
    }

    /// The number of entities in the store.
    pub fn len(&self) -> (n: usize)
        ensures
            n == self@.len(),
    {
        self.entities.len()
    }

    /// Creates a new entity from the spec, assigning it a fresh
    /// identifier, and returns that identifier.
    pub fn create(&mut self, spec: &R::Spec) -> (r: Id)
        requires
            old(self).wf(),
            old(self).assigned() < u64::MAX,
        ensures
            final(self).wf(),
            !contains_id::<R>(old(self)@, r@),
            final(self)@ == created::<R>(old(self)@, spec@, r@),
            final(self).assigned() == old(self).assigned() + 1,
    {
        let id = assign_id(self.next);
        let entity = R::make(spec, id.dup());
        proof {
            // the assigned identifier is not yet in the store
            if contains_id::<R>(old(self)@, id@) {
                let i = choose|i: int|
                    0 <= i < old(self)@.len() && R::id_of(#[trigger] old(self)@[i]) == id@;
                let n = choose|n: u64| n < old(self).next && R::id_of(old(self)@[i]) == assigned_id(n);
                lemma_assigned_id_injective(n, old(self).next);
                assert(false);
            }
        }
        self.next = self.next + 1;
        self.entities.push(entity);
        proof {
            assert(self@ =~= created::<R>(old(self)@, spec@, id@));
            R::lemma_made_id(spec@, id@);
            assert forall|i: int| 0 <= i < self@.len() implies id_assigned_below(
                R::id_of(#[trigger] self@[i]),
                self.next,
            ) by {
                if i < old(self)@.len() {
                    let n = choose|n: u64|
                        n < old(self).next && R::id_of(old(self)@[i]) == assigned_id(n);
                    assert(n < self.next && R::id_of(self@[i]) == assigned_id(n));
                } else {
                    let n = old(self).next;
                    assert(n < self.next && R::id_of(self@[i]) == assigned_id(n));
                }
            }
            assert forall|i: int, j: int| 0 <= i < j < self@.len() implies R::id_of(
                #[trigger] self@[i],
            ) != R::id_of(#[trigger] self@[j]) by {
                if j == old(self)@.len() {
                    assert(R::id_of(self@[j]) == id@);
                    assert(!contains_id::<R>(old(self)@, id@));
                    assert(R::id_of(old(self)@[i]) != id@);
                }
            }
        }
        id
    }

    /// Retrieves a copy of the entity with the given identifier, through
    /// a match filter with only the identifier set.
    #[verifier::loop_isolation(false)]
    pub fn retrieve(&self, id: &Id) -> (r: Option<R>)
        requires
            self.wf(),
        ensures
            match r {
                Some(e) => retrieved::<R>(self@, id@) == Some(e@),
                None => retrieved::<R>(self@, id@) is None,
            },
    {
        let mut filter = R::Filter::empty();
        *filter.id_mut() = Some(id.dup());
        let mut i: usize = 0;
        while i < self.entities.len()
            invariant
                0 <= i <= self@.len(),
                forall|j: int| 0 <= j < i ==> R::id_of(#[trigger] self@[j]) != id@,
            decreases self@.len() - i,
        {
            let hit = self.entities[i].matches_filter(&filter);
            proof {
                R::lemma_id_filter_matches(self@[i as int], id@);
            }
            if hit {
                proof {
                    self.lemma_wf_unique();
                    lemma_index_of_id_unique::<R>(self@, id@, i as int);
                }
                return Some(self.entities[i].dup());
            }
            i = i + 1;
        }
        proof {
            assert(!contains_id::<R>(self@, id@));
        }
        None
    }

    /// Updates the entity the patch targets, if it exists: fields set on
    /// the patch change, unset fields stay.  Returns whether the entity
    /// existed and was updated.
    #[verifier::loop_isolation(false)]
    pub fn update(&mut self, patch: &R::Patch) -> (r: bool)
        requires
            old(self).wf(),
        ensures
            final(self).wf(),
            final(self)@ == updated::<R>(old(self)@, patch@),
            r == contains_id::<R>(old(self)@, <R::Patch as Patch>::target_of(patch@)),
            final(self).assigned() == old(self).assigned(),
    {
        let ghost target = <R::Patch as Patch>::target_of(patch@);
        let mut filter = R::Filter::empty();
        *filter.id_mut() = Some(patch.id().dup());
        let mut i: usize = 0;
        while i < self.entities.len()
            invariant
                self == old(self),
                0 <= i <= self@.len(),
                forall|j: int| 0 <= j < i ==> R::id_of(#[trigger] self@[j]) != target,
            decreases self@.len() - i,
        {
            let hit = self.entities[i].matches_filter(&filter);
            proof {
                R::lemma_id_filter_matches(self@[i as int], target);
            }
            if hit {
                proof {
                    self.lemma_wf_unique();
                    lemma_index_of_id_unique::<R>(self@, target, i as int);
                }
                let new_entity = self.entities[i].apply_patch(patch);
                self.entities[i] = new_entity;
                proof {
                    assert(self@ =~= updated::<R>(old(self)@, patch@));
                    R::lemma_patched_id(old(self)@[i as int], patch@);
                    assert forall|k: int| 0 <= k < self@.len() implies id_assigned_below(
                        R::id_of(#[trigger] self@[k]),
                        self.next,
                    ) by {
                        assert(R::id_of(self@[k]) == R::id_of(old(self)@[k]));
                        assert(id_assigned_below(R::id_of(old(self)@[k]), old(self).next));
                    }
                    assert forall|k1: int, k2: int| 0 <= k1 < k2 < self@.len() implies R::id_of(
                        #[trigger] self@[k1],
                    ) != R::id_of(#[trigger] self@[k2]) by {
                        assert(R::id_of(self@[k1]) == R::id_of(old(self)@[k1]));
                        assert(R::id_of(self@[k2]) == R::id_of(old(self)@[k2]));
                    }
                }
                return true;
            }
            i = i + 1;
        }
        proof {
            assert(!contains_id::<R>(self@, target));
            assert(self@ == updated::<R>(old(self)@, patch@));
        }
        false
    }

    /// Deletes the entity with the given identifier, if it exists,
    /// through a match filter with only the identifier set.  Returns
    /// whether the entity existed and was deleted.
    #[verifier::loop_isolation(false)]
    pub fn delete(&mut self, id: &Id) -> (r: bool)
        requires
            old(self).wf(),
        ensures
            final(self).wf(),
            final(self)@ == deleted::<R>(old(self)@, id@),
            r == contains_id::<R>(old(self)@, id@),
            final(self).assigned() == old(self).assigned(),
    {
        let mut filter = R::Filter::empty();
        *filter.id_mut() = Some(id.dup());
        let mut i: usize = 0;
        while i < self.entities.len()
            invariant
                self == old(self),
                0 <= i <= self@.len(),
                forall|j: int| 0 <= j < i ==> R::id_of(#[trigger] self@[j]) != id@,
            decreases self@.len() - i,
        {
            let hit = self.entities[i].matches_filter(&filter);
            proof {
                R::lemma_id_filter_matches(self@[i as int], id@);
            }
            if hit {
                proof {
                    self.lemma_wf_unique();
                    lemma_index_of_id_unique::<R>(self@, id@, i as int);
                }
                self.entities.remove(i);
                proof {
                    assert(self@ =~= deleted::<R>(old(self)@, id@));
                    assert forall|k: int| 0 <= k < self@.len() implies id_assigned_below(
                        R::id_of(#[trigger] self@[k]),
                        self.next,
                    ) by {
                        let k0 = if k < i { k } else { k + 1 };
                        assert(self@[k] == old(self)@[k0]);
                        assert(id_assigned_below(R::id_of(old(self)@[k0]), old(self).next));
                    }
                    assert forall|k1: int, k2: int| 0 <= k1 < k2 < self@.len() implies R::id_of(
                        #[trigger] self@[k1],
                    ) != R::id_of(#[trigger] self@[k2]) by {
                        let a = if k1 < i { k1 } else { k1 + 1 };
                        let b = if k2 < i { k2 } else { k2 + 1 };
                        assert(self@[k1] == old(self)@[a]);
                        assert(self@[k2] == old(self)@[b]);
                        assert(R::id_of(old(self)@[a]) != R::id_of(old(self)@[b]));
                    }
                }
                return true;
            }
            i = i + 1;
        }
        proof {
            assert(!contains_id::<R>(self@, id@));
        }
        false
    }

    /// Retrieves copies of all entities matching the filter, in store
    /// order.
    pub fn find_all(&self, filter: &R::Filter) -> (r: Vec<R>)
        requires
            self.wf(),
        ensures
            views_of(r@) == found::<R>(self@, filter@),
    {
        let mut out: Vec<R> = Vec::new();
        let mut i: usize = 0;
        proof {
            assert(self@.take(0) =~= Seq::<R::V>::empty());
            assert(views_of(out@) =~= found::<R>(self@.take(0), filter@));
        }
        while i < self.entities.len()
            invariant
                self.wf(),
                0 <= i <= self@.len(),
                views_of(out@) == found::<R>(self@.take(i as int), filter@),
            decreases self@.len() - i,
        {
            let ghost prefix = self@.take(i as int);
            if self.entities[i].matches_filter(filter) {
                out.push(self.entities[i].dup());
            }
            proof {
                lemma_found_push::<R>(prefix, self@[i as int], filter@);
                assert(self@.take(i + 1) =~= prefix.push(self@[i as int]));
                if R::matched(self@[i as int], filter@) {
                    assert(views_of(out@) =~= found::<R>(prefix, filter@).push(self@[i as int]));
                } else {
                    assert(views_of(out@) =~= found::<R>(prefix, filter@));
                }
            }
            i = i + 1;
        }
        proof {
            assert(self@.take(self@.len() as int) =~= self@);
        }
        out
    }

    /// Retrieves copies of all entities: the same as `find_all` with a
    /// fully-unset filter.
    pub fn retrieve_all(&self) -> (r: Vec<R>)
        requires
            self.wf(),
        ensures
            views_of(r@) == self@,
    {
        let filter = R::Filter::empty();
        let out = self.find_all(&filter);
        proof {
            lemma_empty_filter_finds_all::<R>(self@);
        }
        out
    }

    /// Retrieves copies of the entities matching the filter, in store
    /// order, skipping the first `offset` matches and returning at most
    /// `limit` of them.  An offset past the last match gives an empty
    /// result, not an error.
    pub fn find_page(&self, filter: &R::Filter, offset: usize, limit: usize) -> (r: Vec<R>)
        requires
            self.wf(),
        ensures
            views_of(r@) == page(found::<R>(self@, filter@), offset as int, limit as int),
    {
        let all = self.find_all(filter);
        let ghost matches = found::<R>(self@, filter@);
        let mut out: Vec<R> = Vec::new();
        let mut i: usize = offset;
        if offset > all.len() {
            proof {
                assert(views_of(out@) =~= page(matches, offset as int, limit as int));
            }
            return out;
        }
        while i < all.len() && out.len() < limit
            invariant
                offset <= i <= all.len(),
                views_of(all@) == matches,
                out@.len() == i - offset,
                out@.len() <= limit,
                views_of(out@) == matches.subrange(offset as int, i as int),
            decreases all@.len() - i,
        {
            out.push(all[i].dup());
            proof {
                assert(views_of(out@) =~= matches.subrange(offset as int, i + 1));
            }
            i = i + 1;
        }
        proof {
            assert(views_of(out@) =~= page(matches, offset as int, limit as int));
        }
        out
    }

    /// Retrieves a page of all entities in store order: the same as
    /// `find_page` with a fully-unset filter.
    pub fn retrieve_page(&self, offset: usize, limit: usize) -> (r: Vec<R>)
        requires
            self.wf(),
        ensures
            views_of(r@) == page(self@, offset as int, limit as int),
    {
        let filter = R::Filter::empty();
        let out = self.find_page(&filter, offset, limit);
        proof {
            lemma_empty_filter_finds_all::<R>(self@);
        }
        out
    }
}

impl<R: Reposable> crate::repo::Repo<R> for Store<R> {
    open spec fn contents(&self) -> Seq<R::V> {
        self@
    }

    open spec fn ok(&self) -> bool {
        self.wf()
    }

    open spec fn used_ids(&self) -> u64 {
        self.assigned()
    }

    fn create(&mut self, spec: &R::Spec) -> (r: Id) {
        Store::create(self, spec)
    }

    fn retrieve(&self, id: &Id) -> (r: Option<R>) {
        Store::retrieve(self, id)
    }

    fn retrieve_all(&self) -> (r: Vec<R>) {
        Store::retrieve_all(self)
    }

    fn retrieve_page(&self, offset: usize, limit: usize) -> (r: Vec<R>) {
        Store::retrieve_page(self, offset, limit)
    }

    fn find_all(&self, filter: &R::Filter) -> (r: Vec<R>) {
        Store::find_all(self, filter)
    }

    fn find_page(&self, filter: &R::Filter, offset: usize, limit: usize) -> (r: Vec<R>) {
        Store::find_page(self, filter, offset, limit)
    }

    fn update(&mut self, patch: &R::Patch) -> (r: bool) {
        Store::update(self, patch)
    }

    fn delete(&mut self, id: &Id) -> (r: bool) {
        Store::delete(self, id)
    }
}

impl<R: Reposable> Clone for Store<R> {
    /// Copies the store: same entities, same assignment counter.
    fn clone(&self) -> (r: Store<R>)
        ensures
            r@ == self@,
            r.assigned() == self.assigned(),
            self.wf() ==> r.wf(),
    {
        let mut entities: Vec<R> = Vec::new();
        let mut i: usize = 0;
        while i < self.entities.len()
            invariant
                0 <= i <= self.entities@.len(),
                entities@.len() == i,
                forall|j: int| 0 <= j < i ==> #[trigger] entities@[j]@ == self.entities@[j]@,
            decreases self.entities@.len() - i,
        {
            entities.push(self.entities[i].dup());
            i = i + 1;
        }
        let r = Store { entities, next: self.next };
        proof {
            assert(r@ =~= self@);
        }
        r
    }
}

/// In a store with unique identifiers, retrieving the patch's target
/// after an update yields the patched entity.
pub proof fn lemma_update_then_retrieve<R: Reposable>(s: Seq<R::V>, p: <R::Patch as View>::V)
    requires
        unique_ids::<R>(s),
        contains_id::<R>(s, <R::Patch as Patch>::target_of(p)),
    ensures
        retrieved::<R>(updated::<R>(s, p), <R::Patch as Patch>::target_of(p)) == Some(
            R::patched(retrieved::<R>(s, <R::Patch as Patch>::target_of(p))->Some_0, p),
        ),
{
    let target = <R::Patch as Patch>::target_of(p);
    let i = index_of_id::<R>(s, target);
    let s2 = updated::<R>(s, p);
    R::lemma_patched_id(s[i], p);
    assert(R::id_of(s2[i]) == target);
    assert(contains_id::<R>(s2, target));
    let k = index_of_id::<R>(s2, target);
    if k != i {
        assert(s2[k] == s[k]);
        if k < i {
            assert(R::id_of(s[k]) != R::id_of(s[i]));
        } else {
            assert(R::id_of(s[i]) != R::id_of(s[k]));
        }
        assert(false);
    }
}

/// Filtering a sequence extended by one entity keeps the old matches and
/// appends the new entity exactly when it matches.
pub proof fn lemma_found_push<R: Reposable>(
    s: Seq<R::V>,
    e: R::V,
    f: <R::Filter as View>::V,
)
    ensures
        found::<R>(s.push(e), f) == if R::matched(e, f) {
            found::<R>(s, f).push(e)
        } else {
            found::<R>(s, f)
        },
{
    reveal(Seq::filter);
    assert(s.push(e).drop_last() =~= s);
    assert(s.push(e).last() == e);
}

/// A fully-unset filter finds every entity: `find_all` with such a filter
/// returns the same entities as `retrieve_all`.
pub proof fn lemma_empty_filter_finds_all<R: Reposable>(s: Seq<R::V>)
    ensures
        found::<R>(s, <R::Filter as Filter>::empty_filter()) == s,
    decreases s.len(),
{
    reveal(Seq::filter);
    let f = <R::Filter as Filter>::empty_filter();
    if s.len() == 0 {
        assert(found::<R>(s, f) =~= s);
    } else {
        lemma_empty_filter_finds_all::<R>(s.drop_last());
        R::lemma_empty_filter_matches(s.last());
        assert(found::<R>(s, f) =~= s);
    }
}

/// Creating an entity and retrieving the identifier the store assigned
/// yields exactly the entity the spec describes, carrying that
/// identifier.
pub proof fn lemma_create_then_retrieve<R: Reposable>(
    s: Seq<R::V>,
    spec: <R::Spec as View>::V,
    id: Seq<u8>,
)
    requires
        !contains_id::<R>(s, id),
    ensures
        retrieved::<R>(created::<R>(s, spec, id), id) == Some(R::made(spec, id)),
{
    R::lemma_made_id(spec, id);
    let s2 = created::<R>(s, spec, id);
    assert(R::id_of(s2[s.len() as int]) == id);
    assert(contains_id::<R>(s2, id));
    let k = index_of_id::<R>(s2, id);
    if k < s.len() {
        assert(s2[k] == s[k]);
        assert(false);
    }
}

/// Deleting an identifier signals success exactly once: after a deletion
/// the identifier is gone, so a second deletion of the same identifier
/// reports that nothing existed.
pub proof fn lemma_delete_signals_once<R: Reposable>(s: Seq<R::V>, id: Seq<u8>)
    requires
        unique_ids::<R>(s),
    ensures
        !contains_id::<R>(deleted::<R>(s, id), id),
{
    if contains_id::<R>(s, id) {
        let i = index_of_id::<R>(s, id);
        let s2 = s.remove(i);
        if contains_id::<R>(s2, id) {
            let j = choose|j: int| 0 <= j < s2.len() && R::id_of(#[trigger] s2[j]) == id;
            let j0 = if j < i {
                j
            } else {
                j + 1
            };
            assert(s2[j] == s[j0]);
            assert(j0 != i);
            if j0 < i {
                assert(R::id_of(s[j0]) != R::id_of(s[i]));
            } else {
                assert(R::id_of(s[i]) != R::id_of(s[j0]));
            }
            assert(false);
        }
    }
}

/// After an update, every entity other than the patch's target is exactly
/// as it was, and the target, if present, is exactly the patched entity.
pub proof fn lemma_update_partial<R: Reposable>(s: Seq<R::V>, p: <R::Patch as View>::V)
    requires
        unique_ids::<R>(s),
    ensures
        updated::<R>(s, p).len() == s.len(),
        forall|i: int|
            0 <= i < s.len() && R::id_of(#[trigger] s[i]) != <R::Patch as Patch>::target_of(p)
                ==> updated::<R>(s, p)[i] == s[i],
        forall|i: int|
            0 <= i < s.len() && R::id_of(#[trigger] s[i]) == <R::Patch as Patch>::target_of(p)
                ==> updated::<R>(s, p)[i] == R::patched(s[i], p),
{
    let target = <R::Patch as Patch>::target_of(p);
    assert forall|i: int|
        0 <= i < s.len() && R::id_of(#[trigger] s[i]) == target implies updated::<R>(s, p)[i]
        == R::patched(s[i], p) by {
        lemma_index_of_id_unique::<R>(s, target, i);
    }
}

/// The pages of size `k` starting at `o`, concatenated.
pub open spec fn pages_from<T>(s: Seq<T>, k: int, o: int) -> Seq<T>
    recommends
        1 <= k,
        0 <= o,
    decreases (if o < s.len() { s.len() - o } else { 0 }),
{
    if o >= s.len() || k < 1 {
        Seq::empty()
    } else {
        page(s, o, k) + pages_from(s, k, o + k)
    }
}

/// The concatenation of the pages from `o` on covers exactly the elements
/// from `o` on.
proof fn lemma_pages_from_cover<T>(s: Seq<T>, k: int, o: int)
    requires
        1 <= k,
        0 <= o,
    ensures
        pages_from(s, k, o) == s.subrange(if o <= s.len() { o } else { s.len() as int }, s.len() as int),
    decreases (if o < s.len() { s.len() - o } else { 0 }),
{
    if o >= s.len() {
        assert(pages_from(s, k, o) =~= s.subrange(s.len() as int, s.len() as int));
    } else {
        lemma_pages_from_cover(s, k, o + k);
        assert(pages_from(s, k, o) =~= s.subrange(o, s.len() as int));
    }
}

/// Pagination coverage: for any page size of at least one, the
/// concatenation of the pages at offsets 0, k, 2k, ... is exactly the
/// whole sequence, so every element appears exactly once; and the page
/// starting at the sequence's length is empty, not an error.
pub proof fn lemma_pagination_coverage<T>(s: Seq<T>, k: int)
    requires
        1 <= k,
    ensures
        pages_from(s, k, 0) == s,
        page(s, s.len() as int, k) == Seq::<T>::empty(),
{
    lemma_pages_from_cover(s, k, 0);
    assert(s.subrange(0, s.len() as int) =~= s);
    assert(page(s, s.len() as int, k) =~= Seq::<T>::empty());
}

} // verus!

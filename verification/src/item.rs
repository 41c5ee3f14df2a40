//! The example entity kind: a named item with a size, together with its
//! creation spec, partial-update patch and query filter.

use crate::id::Id;
use crate::name::Name;
use crate::repo::Entity;
use crate::repo::Filter;
use crate::repo::Patch;
use crate::repo::Reposable;
use crate::repo::opt_id_view;
use vstd::prelude::*;

verus! {

/// The size of an item.
#[derive(Clone, Copy, Debug, PartialEq, Eq, Structural)]
pub enum ItemSize {
    Small,
    Medium,
    Large,
}

/// The name characters held by an optional name.
pub open spec fn opt_name_view(o: Option<Name>) -> Option<Seq<char>> {
    match o {
        Some(name) => Some(name@),
        None => None,
    }
}

/// A named item with a specific size.
#[derive(Debug)]
pub struct Item {
    id: Id,
    name: Name,
    size: ItemSize,
}

/// The model of an item.
pub struct ItemView {
    pub id: Seq<u8>,
    pub name: Seq<char>,
    pub size: ItemSize,
}

impl View for Item {
    type V = ItemView;

    closed spec fn view(&self) -> ItemView {
        ItemView { id: self.id@, name: self.name@, size: self.size }
    }
}

impl Item {
    /// Builds an item from its parts.
    pub fn new(id: Id, name: Name, size: ItemSize) -> (r: Item)
        ensures
            r@ == (ItemView { id: id@, name: name@, size }),
    {
        Item { id, name, size }
    }

    /// The name of the item.
    pub fn name(&self) -> (r: &Name)
        ensures
            r@ == self@.name,
    {
        &self.name
    }

    /// The size of the item.
    pub fn size(&self) -> (r: &ItemSize)
        ensures
            *r == self@.size,
    {
        &self.size
    }
}

impl Entity for Item {
    open spec fn id_of(e: ItemView) -> Seq<u8> {
        e.id
    }

    fn id(&self) -> (r: &Id)
        ensures
            r@ == Self::id_of(self@),
    {
        &self.id
    }
}

/// The minimal fields required to create a new item.
#[derive(Debug)]
pub struct ItemSpec {
    name: Name,
    size: ItemSize,
}

/// The model of an item creation spec.
pub struct ItemSpecView {
    pub name: Seq<char>,
    pub size: ItemSize,
}

impl View for ItemSpec {
    type V = ItemSpecView;

    closed spec fn view(&self) -> ItemSpecView {
        ItemSpecView { name: self.name@, size: self.size }
    }
}

impl ItemSpec {
    /// Builds a creation spec from its parts.
    pub fn new(name: Name, size: ItemSize) -> (r: ItemSpec)
        ensures
            r@ == (ItemSpecView { name: name@, size }),
    {
        ItemSpec { name, size }
    }

    /// The name the new item is to carry.
    pub fn name(&self) -> (r: &Name)
        ensures
            r@ == self@.name,
    {
        &self.name
    }

    /// Grants mutable access to the name.
    pub fn name_mut(&mut self) -> (r: &mut Name)
        ensures
            r@ == old(self)@.name,
            final(self)@ == (ItemSpecView { name: final(r)@, ..old(self)@ }),
    {
        &mut self.name
    }

    /// The size the new item is to carry.
    pub fn size(&self) -> (r: &ItemSize)
        ensures
            *r == self@.size,
    {
        &self.size
    }

    /// Grants mutable access to the size.
    pub fn size_mut(&mut self) -> (r: &mut ItemSize)
        ensures
            *r == old(self)@.size,
            final(self)@ == (ItemSpecView { size: *final(r), ..old(self)@ }),
    {
        &mut self.size
    }
}

/// A partial update to one item: the target's identifier plus the fields
/// to change; an unset field means "leave unchanged".
#[derive(Debug)]
pub struct ItemPatch {
    id: Id,
    name: Option<Name>,
    size: Option<ItemSize>,
}

/// The model of an item patch.
pub struct ItemPatchView {
    pub id: Seq<u8>,
    pub name: Option<Seq<char>>,
    pub size: Option<ItemSize>,
}

impl View for ItemPatch {
    type V = ItemPatchView;

    closed spec fn view(&self) -> ItemPatchView {
        ItemPatchView { id: self.id@, name: opt_name_view(self.name), size: self.size }
    }
}

impl ItemPatch {
    /// Builds a patch of the item with the given identifier that changes
    /// nothing yet.
    pub fn new(id: Id) -> (r: ItemPatch)
        ensures
            r@ == (ItemPatchView { id: id@, name: None, size: None }),
    {
        ItemPatch { id, name: None, size: None }
    }

    /// The name to set, if any.
    pub fn name(&self) -> (r: &Option<Name>)
        ensures
            opt_name_view(*r) == self@.name,
    {
        &self.name
    }

    /// Grants mutable access to the name to set.
    pub fn name_mut(&mut self) -> (r: &mut Option<Name>)
        ensures
            opt_name_view(*r) == old(self)@.name,
            final(self)@ == (ItemPatchView { name: opt_name_view(*final(r)), ..old(self)@ }),
    {
        &mut self.name
    }

    /// The size to set, if any.
    pub fn size(&self) -> (r: &Option<ItemSize>)
        ensures
            *r == self@.size,
    {
        &self.size
    }

    /// Grants mutable access to the size to set.
    pub fn size_mut(&mut self) -> (r: &mut Option<ItemSize>)
        ensures
            *r == old(self)@.size,
            final(self)@ == (ItemPatchView { size: *final(r), ..old(self)@ }),
    {
        &mut self.size
    }
}

impl Patch for ItemPatch {
    open spec fn target_of(p: ItemPatchView) -> Seq<u8> {
        p.id
    }

    fn id(&self) -> (r: &Id)
        ensures
            r@ == Self::target_of(self@),
    {
        &self.id
    }
}

/// A partial-match predicate over items; an unset field means "do not
/// constrain on this field".
#[derive(Debug)]
pub struct ItemFilter {
    id: Option<Id>,
    name: Option<Name>,
    size: Option<ItemSize>,
}

/// The model of an item filter.
pub struct ItemFilterView {
    pub id: Option<Seq<u8>>,
    pub name: Option<Seq<char>>,
    pub size: Option<ItemSize>,
}

impl View for ItemFilter {
    type V = ItemFilterView;

    closed spec fn view(&self) -> ItemFilterView {
        ItemFilterView {
            id: opt_id_view(self.id),
            name: opt_name_view(self.name),
            size: self.size,
        }
    }
}

impl ItemFilter {
    /// The identifier constraint, if any.
    pub fn id(&self) -> (r: &Option<Id>)
        ensures
            opt_id_view(*r) == self@.id,
    {
        &self.id
    }

    /// The name constraint, if any.
    pub fn name(&self) -> (r: &Option<Name>)
        ensures
            opt_name_view(*r) == self@.name,
    {
        &self.name
    }

    /// Grants mutable access to the name constraint.
    pub fn name_mut(&mut self) -> (r: &mut Option<Name>)
        ensures
            opt_name_view(*r) == old(self)@.name,
            final(self)@ == (ItemFilterView { name: opt_name_view(*final(r)), ..old(self)@ }),
    {
        &mut self.name
    }

    /// The size constraint, if any.
    pub fn size(&self) -> (r: &Option<ItemSize>)
        ensures
            *r == self@.size,
    {
        &self.size
    }

    /// Grants mutable access to the size constraint.
    pub fn size_mut(&mut self) -> (r: &mut Option<ItemSize>)
        ensures
            *r == old(self)@.size,
            final(self)@ == (ItemFilterView { size: *final(r), ..old(self)@ }),
    {
        &mut self.size
    }
}

impl Default for ItemFilter {
    /// The fully-unset filter, which constrains nothing.
    fn default() -> (r: ItemFilter)
        ensures
            r@ == <ItemFilter as Filter>::empty_filter(),
    {
        ItemFilter { id: None, name: None, size: None }
    }
}

impl Filter for ItemFilter {
    open spec fn empty_filter() -> ItemFilterView {
        ItemFilterView { id: None, name: None, size: None }
    }

    open spec fn filter_id(f: ItemFilterView) -> Option<Seq<u8>> {
        f.id
    }

    open spec fn filter_with_id(f: ItemFilterView, id: Option<Seq<u8>>) -> ItemFilterView {
        ItemFilterView { id, ..f }
    }

    fn empty() -> (r: ItemFilter)
        ensures
            r@ == Self::empty_filter(),
    {
        ItemFilter { id: None, name: None, size: None }
    }

    fn id_mut(&mut self) -> (r: &mut Option<Id>)
        ensures
            opt_id_view(*r) == Self::filter_id(old(self)@),
            final(self)@ == Self::filter_with_id(old(self)@, opt_id_view(*final(r))),
    {
        &mut self.id
    }
}

impl Reposable for Item {
    type Spec = ItemSpec;

    type Patch = ItemPatch;

    type Filter = ItemFilter;

    open spec fn made(s: ItemSpecView, id: Seq<u8>) -> ItemView {
        ItemView { id, name: s.name, size: s.size }
    }

    open spec fn patched(e: ItemView, p: ItemPatchView) -> ItemView {
        ItemView {
            id: e.id,
            name: match p.name {
                Some(name) => name,
                None => e.name,
            },
            size: match p.size {
                Some(size) => size,
                None => e.size,
            },
        }
    }

    open spec fn matched(e: ItemView, f: ItemFilterView) -> bool {
        &&& match f.id {
            Some(id) => e.id == id,
            None => true,
        }
        &&& match f.name {
            Some(name) => e.name == name,
            None => true,
        }
        &&& match f.size {
            Some(size) => e.size == size,
            None => true,
        }
    }

    proof fn lemma_made_id(s: ItemSpecView, id: Seq<u8>)
        ensures
            Self::id_of(Self::made(s, id)) == id,
    {
    }

    proof fn lemma_patched_id(e: ItemView, p: ItemPatchView)
        ensures
            Self::id_of(Self::patched(e, p)) == Self::id_of(e),
    {
    }

    proof fn lemma_empty_filter_matches(e: ItemView)
        ensures
            Self::matched(e, <ItemFilter as Filter>::empty_filter()),
    {
    }

    proof fn lemma_id_filter_matches(e: ItemView, id: Seq<u8>)
        ensures
            Self::matched(
                e,
                <ItemFilter as Filter>::filter_with_id(
                    <ItemFilter as Filter>::empty_filter(),
                    Some(id),
                ),
            ) <==> Self::id_of(e) == id,
    {
    }

    fn make(s: &ItemSpec, id: Id) -> (r: Item)
        ensures
            r@ == Self::made(s@, id@),
    {
        Item { id, name: s.name.dup(), size: s.size }
    }

    fn apply_patch(&self, p: &ItemPatch) -> (r: Item)
        ensures
            r@ == Self::patched(self@, p@),
    {
        let name = match &p.name {
            Some(name) => name.dup(),
            None => self.name.dup(),
        };
        let size = match p.size {
            Some(size) => size,
            None => self.size,
        };
        Item { id: self.id.dup(), name, size }
    }

    fn matches_filter(&self, f: &ItemFilter) -> (r: bool)
        ensures
            r == Self::matched(self@, f@),
    {
        if let Some(id) = &f.id {
            if !self.id.same_as(id) {
                return false;
            }
        }
        if let Some(name) = &f.name {
            if !self.name.same_as(name) {
                return false;
            }
        }
        if let Some(size) = &f.size {
            if !(self.size == *size) {
                return false;
            }
        }
        true
    }

    fn dup(&self) -> (r: Item)
        ensures
            r@ == self@,
    {
        Item { id: self.id.dup(), name: self.name.dup(), size: self.size }
    }
}

impl crate::repo::MongoReposable for Item {
    /// The logical database holding items.
    fn db_name() -> (r: &'static str)
        ensures
            r@ == "repotest"@,
    {
        "repotest"
    }

    /// The collection holding items.
    fn collection_name() -> (r: &'static str)
        ensures
            r@ == "items"@,
    {
        "items"
    }
}

/// Setting only the name changes the name to the patch's value and leaves
/// the identifier and size exactly as they were; setting only the size is
/// symmetric; a patch setting nothing changes nothing.
pub proof fn lemma_update_partiality(e: ItemView, p: ItemPatchView)
    ensures
        p.name is Some && p.size is None ==> Item::patched(e, p) == (ItemView {
            name: p.name->Some_0,
            ..e
        }),
        p.name is None && p.size is Some ==> Item::patched(e, p) == (ItemView {
            size: p.size->Some_0,
            ..e
        }),
        p.name is None && p.size is None ==> Item::patched(e, p) == e,
{
}

} // verus!

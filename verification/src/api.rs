//! The request-facing item operations: each takes plain input values,
//! validates them, performs the domain operation, and answers with item
//! nodes or a client-facing error message.
//!
//! A missing entity is reported as an error message here, distinct from
//! malformed input; the domain below keeps its structural results.

use crate::domain::DomainImpl;
use crate::id::Id;
use crate::id::hex_of;
use crate::id::parsed_hex;
use crate::id::valid_id_text;
use crate::input::CreateItemInput;
use crate::input::ItemFilterInput;
use crate::input::UpdateItemInput;
use crate::input::acceptable_name_input;
use crate::input::opt_string_view;
use crate::item::Item;
use crate::item::ItemPatchView;
use crate::item::ItemSize;
use crate::item::ItemView;
use crate::repo::Entity;
use crate::repo::Reposable;
use crate::store::contains_id;
use crate::store::deleted;
use crate::store::found;
use crate::store::retrieved;
use crate::store::updated;
use crate::store::views_of;
use vstd::prelude::*;

verus! {

/// A named item with a specific size, as presented to callers: the
/// identifier is shown in its textual form.
#[derive(Debug)]
pub struct ItemNode {
    item: Item,
}

impl View for ItemNode {
    type V = ItemView;

    closed spec fn view(&self) -> ItemView {
        self.item@
    }
}

impl ItemNode {
    /// Wraps an item for presentation.
    pub fn from_item(item: Item) -> (r: ItemNode)
        ensures
            r@ == item@,
    {
        ItemNode { item }
    }

    /// The unique identifier for the item, in its textual form.
    pub fn id(&self) -> (r: String)
        ensures
            r@ == hex_of(self@.id),
    {
        self.item.id().to_hex()
    }

    /// The name of the item.
    pub fn name(&self) -> (r: &str)
        ensures
            r@ == self@.name,
    {
        self.item.name().as_str()
    }

    /// The size of the item.
    pub fn size(&self) -> (r: ItemSize)
        ensures
            r == self@.size,
    {
        *self.item.size()
    }
}

/// The models of the items behind a sequence of nodes.
pub open spec fn node_views(nodes: Seq<ItemNode>) -> Seq<ItemView> {
    views_of(nodes)
}

/// The filter model an acceptable filter input denotes.
pub open spec fn filter_input_view(input: ItemFilterInput) -> <crate::item::ItemFilter as View>::V {
    crate::item::ItemFilterView {
        id: match input.id {
            Some(s) => Some(parsed_hex(s@)),
            None => None,
        },
        name: opt_string_view(input.name),
        size: input.size,
    }
}

/// Whether a filter input is acceptable: its identifier, if given, is
/// well formed, and its name, if given, is non-empty.
pub open spec fn acceptable_filter_input(input: ItemFilterInput) -> bool {
    &&& match input.id {
        Some(s) => valid_id_text(s@),
        None => true,
    }
    &&& acceptable_name_input(input.name)
}

/// Creates an item from the input, if its name is non-empty, and answers
/// with the new item.
pub fn create_item_from_input(domain: &mut DomainImpl, input: CreateItemInput) -> (r: Result<
    ItemNode,
    String,
>)
    requires
        old(domain).wf(),
        old(domain).assigned() < u64::MAX,
    ensures
        final(domain).wf(),
        match r {
            Ok(node) => {
                &&& input.name@.len() > 0
                &&& node@.name == input.name@
                &&& node@.size == input.size
                &&& !contains_id::<Item>(old(domain).contents(), node@.id)
                &&& final(domain).contents() == old(domain).contents().push(node@)
            },
            Err(_) => {
                &&& input.name@.len() == 0
                &&& final(domain).contents() == old(domain).contents()
            },
        },
{
    match input.into_spec() {
        Ok(spec) => {
            let item = domain.create_item(&spec);
            Ok(ItemNode::from_item(item))
        },
        Err(e) => Err(e),
    }
}

/// Updates the item the input targets, if the input is acceptable and
/// the item exists, and answers with the updated item; a missing item is
/// an error at this layer.
pub fn update_item_from_input(domain: &mut DomainImpl, input: UpdateItemInput) -> (r: Result<
    ItemNode,
    String,
>)
    requires
        old(domain).wf(),
    ensures
        final(domain).wf(),
        match r {
            Ok(node) => {
                let patch = (ItemPatchView {
                    id: parsed_hex(input.id@),
                    name: opt_string_view(input.name),
                    size: input.size,
                });
                &&& valid_id_text(input.id@)
                &&& acceptable_name_input(input.name)
                &&& contains_id::<Item>(old(domain).contents(), patch.id)
                &&& final(domain).contents() == updated::<Item>(old(domain).contents(), patch)
                &&& node@ == <Item as Reposable>::patched(
                    retrieved::<Item>(old(domain).contents(), patch.id)->Some_0,
                    patch,
                )
            },
            Err(_) => {
                &&& final(domain).contents() == old(domain).contents()
                &&& !(valid_id_text(input.id@) && acceptable_name_input(input.name)
                    && contains_id::<Item>(old(domain).contents(), parsed_hex(input.id@)))
            },
        },
{
    let patch = match input.into_patch() {
        Ok(patch) => patch,
        Err(e) => {
            return Err(e);
        },
    };
    match domain.update_item(&patch) {
        Some(item) => Ok(ItemNode::from_item(item)),
        None => Err(String::from_str("no item exists with the provided ID")),
    }
}

/// Deletes the item with the given identifier, if the identifier is well
/// formed and the item exists; a missing item is an error at this layer.
pub fn delete_item_by_id(domain: &mut DomainImpl, id: &str) -> (r: Result<(), String>)
    requires
        old(domain).wf(),
    ensures
        final(domain).wf(),
        match r {
            Ok(_) => {
                &&& valid_id_text(id@)
                &&& contains_id::<Item>(old(domain).contents(), parsed_hex(id@))
                &&& final(domain).contents() == deleted::<Item>(
                    old(domain).contents(),
                    parsed_hex(id@),
                )
            },
            Err(_) => {
                &&& final(domain).contents() == old(domain).contents()
                &&& !(valid_id_text(id@) && contains_id::<Item>(
                    old(domain).contents(),
                    parsed_hex(id@),
                ))
            },
        },
{
    let id = match Id::parse(id) {
        Ok(id) => id,
        Err(_) => {
            return Err(String::from_str("the provided ID was invalid"));
        },
    };
    if domain.delete_item(&id) {
        Ok(())
    } else {
        Err(String::from_str("no item exists with the provided ID"))
    }
}

/// Answers with the items matching the filter, or with all items when no
/// filter is given.
pub fn item_nodes(domain: &DomainImpl, filter: Option<ItemFilterInput>) -> (r: Result<
    Vec<ItemNode>,
    String,
>)
    requires
        domain.wf(),
    ensures
        match r {
            Ok(nodes) => match filter {
                Some(input) => acceptable_filter_input(input) && node_views(nodes@)
                    == found::<Item>(domain.contents(), filter_input_view(input)),
                None => node_views(nodes@) == domain.contents(),
            },
            Err(_) => filter matches Some(input) && !acceptable_filter_input(input),
        },
{
    let items = match filter {
        Some(input) => {
            let item_filter = match input.into_filter() {
                Ok(item_filter) => item_filter,
                Err(e) => {
                    return Err(e);
                },
            };
            domain.find_items(&item_filter)
        },
        None => domain.all_items(),
    };
    let mut nodes: Vec<ItemNode> = Vec::new();
    let ghost item_models = views_of(items@);
    let mut i: usize = 0;
    while i < items.len()
        invariant
            0 <= i <= items@.len(),
            nodes@.len() == i,
            views_of(items@) == item_models,
            node_views(nodes@) == item_models.take(i as int),
        decreases items@.len() - i,
    {
        let ghost before = nodes@;
        nodes.push(ItemNode::from_item(items[i].dup()));
        proof {
            assert forall|j: int| 0 <= j < i + 1 implies node_views(nodes@)[j]
                == item_models.take(i + 1)[j] by {
                if j < i {
                    assert(nodes@[j] == before[j]);
                    assert(node_views(before)[j] == item_models.take(i as int)[j]);
                } else {
                    assert(nodes@[j]@ == items@[j]@);
                }
            }
            assert(node_views(nodes@) =~= item_models.take(i + 1));
        }
        i = i + 1;
    }
    proof {
        assert(item_models.take(items@.len() as int) =~= item_models);
    }
    Ok(nodes)
}

/// Answers with the item carrying the given identifier, if the
/// identifier is well formed; a missing item is not an error here.
pub fn item_node(domain: &DomainImpl, id: &str) -> (r: Result<Option<ItemNode>, String>)
    requires
        domain.wf(),
    ensures
        match r {
            Ok(node) => valid_id_text(id@) && (match node {
                Some(node) => retrieved::<Item>(domain.contents(), parsed_hex(id@)) == Some(
                    node@,
                ),
                None => retrieved::<Item>(domain.contents(), parsed_hex(id@)) is None,
            }),
            Err(_) => !valid_id_text(id@),
        },
{
    let id = match Id::parse(id) {
        Ok(id) => id,
        Err(_) => {
            return Err(String::from_str("the provided ID was invalid"));
        },
    };
    match domain.item(&id) {
        Some(item) => Ok(Some(ItemNode::from_item(item))),
        None => Ok(None),
    }
}

} // verus!

//! Plain request inputs and their validated conversion into creation
//! specs, patches and filters.
//!
//! The inputs carry unchecked strings; conversion parses the identifier
//! and rejects empty names, so a value of the repository types can only
//! be obtained from acceptable input.

use crate::id::Id;
use crate::id::parsed_hex;
use crate::id::valid_id_text;
use crate::item::ItemFilter;
use crate::item::ItemFilterView;
use crate::item::ItemPatch;
use crate::item::ItemPatchView;
use crate::item::ItemSize;
use crate::item::ItemSpec;
use crate::item::ItemSpecView;
use crate::name::Name;
use crate::repo::Filter;
use vstd::prelude::*;

verus! {

/// Input for creating an item.
pub struct CreateItemInput {
    pub name: String,
    pub size: ItemSize,
}

/// Input for updating an item.
pub struct UpdateItemInput {
    pub id: String,
    pub name: Option<String>,
    pub size: Option<ItemSize>,
}

/// Input for finding items.
pub struct ItemFilterInput {
    pub id: Option<String>,
    pub name: Option<String>,
    pub size: Option<ItemSize>,
}

/// The characters of an optional string.
pub open spec fn opt_string_view(o: Option<String>) -> Option<Seq<char>> {
    match o {
        Some(s) => Some(s@),
        None => None,
    }
}

/// Whether an optional name input is acceptable: absent, or non-empty.
pub open spec fn acceptable_name_input(o: Option<String>) -> bool {
    match o {
        Some(s) => s@.len() > 0,
        None => true,
    }
}

impl CreateItemInput {
    /// Converts the input into a creation spec.  The input is accepted
    /// exactly when its name is non-empty.
    pub fn into_spec(self) -> (r: Result<ItemSpec, String>)
        ensures
            match r {
                Ok(spec) => self.name@.len() > 0 && spec@ == (ItemSpecView {
                    name: self.name@,
                    size: self.size,
                }),
                Err(_) => self.name@.len() == 0,
            },
    {
        match Name::try_new(self.name) {
            Ok(name) => Ok(ItemSpec::new(name, self.size)),
            Err(_) => Err(String::from_str("name cannot be empty")),
        }
    }
}

impl UpdateItemInput {
    /// Converts the input into a patch.  The input is accepted exactly
    /// when its identifier is well formed and its name, if given, is
    /// non-empty.
    pub fn into_patch(self) -> (r: Result<ItemPatch, String>)
        ensures
            match r {
                Ok(patch) => valid_id_text(self.id@) && acceptable_name_input(self.name)
                    && patch@ == (ItemPatchView {
                    id: parsed_hex(self.id@),
                    name: opt_string_view(self.name),
                    size: self.size,
                }),
                Err(_) => !(valid_id_text(self.id@) && acceptable_name_input(self.name)),
            },
    {
        let id = match Id::parse(self.id.as_str()) {
            Ok(id) => id,
            Err(_) => {
                return Err(String::from_str("the provided ID was invalid"));
            },
        };
        let mut patch = ItemPatch::new(id);
        if let Some(s) = self.name {
            match Name::try_new(s) {
                Ok(name) => {
                    *patch.name_mut() = Some(name);
                },
                Err(_) => {
                    return Err(String::from_str("name cannot be empty"));
                },
            }
        }
        if let Some(size) = self.size {
            *patch.size_mut() = Some(size);
        }
        Ok(patch)
    }
}

impl ItemFilterInput {
    /// Converts the input into a filter.  The input is accepted exactly
    /// when its identifier, if given, is well formed, and its name, if
    /// given, is non-empty.
    pub fn into_filter(self) -> (r: Result<ItemFilter, String>)
        ensures
            match r {
                Ok(filter) => (match self.id {
                    Some(s) => valid_id_text(s@) && filter@.id == Some(parsed_hex(s@)),
                    None => filter@.id is None,
                }) && acceptable_name_input(self.name) && filter@.name == opt_string_view(
                    self.name,
                ) && filter@.size == self.size,
                Err(_) => !((match self.id {
                    Some(s) => valid_id_text(s@),
                    None => true,
                }) && acceptable_name_input(self.name)),
            },
    {
        let mut filter = ItemFilter::empty();
        if let Some(s) = self.id {
            match Id::parse(s.as_str()) {
                Ok(id) => {
                    *filter.id_mut() = Some(id);
                },
                Err(_) => {
                    return Err(String::from_str("the provided ID was invalid"));
                },
            }
        }
        if let Some(s) = self.name {
            match Name::try_new(s) {
                Ok(name) => {
                    *filter.name_mut() = Some(name);
                },
                Err(_) => {
                    return Err(String::from_str("name cannot be empty"));
                },
            }
        }
        if let Some(size) = self.size {
            *filter.size_mut() = Some(size);
        }
        Ok(filter)
    }
}

} // verus!

//! The two proxies a script indexes: the namespace of all enum groups, and
//! one group.

use crate::database::{database_group, group_items, lookup_group, lookup_item};
use crate::error::{Fault, InternalConsistencyError};
use crate::value::{convert, EnumValue};
use rbx_reflection::EnumDescriptor;
use vstd::prelude::*;

verus! {

/// The items of the descriptor that a lookup found, where it found one.
pub open spec fn found_items(found: Option<&EnumDescriptor<'_>>) -> Option<Map<Seq<char>, u32>> {
    match found {
        Some(descriptor) => Some(group_items(descriptor)),
        None => None,
    }
}

/// Indexing the namespace by `name`, where the database holds `held` under
/// that name: the name of the group proxy, or the error.
pub open spec fn index_group(name: Seq<char>, held: Option<Map<Seq<char>, u32>>) -> Result<
    Seq<char>,
    Fault,
> {
    match held {
        Some(_) => Ok(name),
        None => Err(Fault::UnknownGroup { group: name }),
    }
}

/// Indexing the proxy of `group` by `item`, where the database holds `held`
/// under the group's name: the converted item, or the error.
pub open spec fn index_item(
    group: Seq<char>,
    held: Option<Map<Seq<char>, u32>>,
    item: Seq<char>,
) -> Result<EnumValue, Fault> {
    match held {
        None => Err(Fault::UnknownGroup { group }),
        Some(items) => if items.contains_key(item) {
            Ok(convert(items[item]))
        } else {
            Err(Fault::UnknownItem { group, item })
        },
    }
}

/// The canonical text of a group: `Enum.` and the group's name.
pub open spec fn display_string(group: Seq<char>) -> Seq<char> {
    "Enum."@ + group
}

/// A result of the namespace, with the proxy and the error by their views.
pub open spec fn group_outcome(result: Result<EnumItemUserData, InternalConsistencyError>) -> Result<
    Seq<char>,
    Fault,
> {
    match result {
        Ok(group) => Ok(group@),
        Err(error) => Err(error@),
    }
}

/// A result of a group proxy, with the error by its view.
pub open spec fn item_outcome(result: Result<EnumValue, InternalConsistencyError>) -> Result<
    EnumValue,
    Fault,
> {
    match result {
        Ok(value) => Ok(value),
        Err(error) => Err(error@),
    }
}

/// One enum group, such as `KeyCode`. The group's name is all it holds, and
/// all that tells it from another.
#[derive(Debug)]
pub struct EnumItemUserData(String);

impl View for EnumItemUserData {
    type V = Seq<char>;

    closed spec fn view(&self) -> Seq<char> {
        self.0@
    }
}

impl Clone for EnumItemUserData {
    fn clone(&self) -> (copy: Self)
        ensures
            copy@ == self@,
    {
        EnumItemUserData(self.0.clone())
    }
}

impl EnumItemUserData {
    /// The name of the group.
    pub fn name(&self) -> (name: &str)
        ensures
            name@ == self@,
    {
        self.0.as_str()
    }

    /// Resolves an item of this group in the bundled database. The group's
    /// own name is looked up again on every call.
    pub fn meta_index(&self, key: &str) -> (result: Result<EnumValue, InternalConsistencyError>)
        ensures
            item_outcome(result) == index_item(self@, database_group(self@), key@),
    {
        self.resolve(lookup_group(self.0.as_str()), key)
    }

    /// Resolves an item of this group, given what the lookup of the group's
    /// name found.
    pub fn resolve(&self, found: Option<&EnumDescriptor<'_>>, key: &str) -> (result: Result<
        EnumValue,
        InternalConsistencyError,
    >)
        ensures
            item_outcome(result) == index_item(self@, found_items(found), key@),
    {
        match found {
            None => Err(InternalConsistencyError::UnknownGroup { group: self.0.clone() }),
            Some(descriptor) => match lookup_item(descriptor, key) {
                Some(item) => Ok(EnumValue::from(*item)),
                None => Err(
                    InternalConsistencyError::UnknownItem {
                        group: self.0.clone(),
                        item: key.to_owned(),
                    },
                ),
            },
        }
    }

    /// Two proxies stand for the same group when their names are the same
    /// string.
    pub open spec fn same_group(&self, other: &EnumItemUserData) -> bool {
        self@ == other@
    }

    /// Whether two proxies stand for the same group.
    pub fn equals(&self, other: &EnumItemUserData) -> (same: bool)
        ensures
            same == self.same_group(other),
    {
        self.0 == other.0
    }

    /// The canonical text of the group.
    pub fn to_string(&self) -> (text: String)
        ensures
            text@ == display_string(self@),
    {
        String::from_str("Enum.").concat(self.0.as_str())
    }
}

/// The namespace of all enum groups: what a script sees as `Enum`.
#[derive(Debug, Clone, Copy)]
pub struct EnumUserData;

impl EnumUserData {
    /// Resolves a group name in the bundled database.
    pub fn meta_index(&self, key: &str) -> (result: Result<
        EnumItemUserData,
        InternalConsistencyError,
    >)
        ensures
            group_outcome(result) == index_group(key@, database_group(key@)),
    {
        self.resolve(key, lookup_group(key))
    }

    /// The proxy for a group name, given what the lookup of that name found.
    pub fn resolve(&self, key: &str, found: Option<&EnumDescriptor<'_>>) -> (result: Result<
        EnumItemUserData,
        InternalConsistencyError,
    >)
        ensures
            group_outcome(result) == index_group(key@, found_items(found)),
    {
        match found {
            Some(_) => Ok(EnumItemUserData(key.to_owned())),
            None => Err(InternalConsistencyError::UnknownGroup { group: key.to_owned() }),
        }
    }
}

} // verus!

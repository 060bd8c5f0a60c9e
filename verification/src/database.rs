//! The reflection database, as far as enum resolution reads it: the lookup of
//! a group by name, and of an item in a group. Nothing here is proved; the
//! contracts say what the outside code is taken to do.

use rbx_reflection::EnumDescriptor;
use vstd::prelude::*;

verus! {

/// `rbx_reflection::EnumDescriptor`: one enum group of a reflection database.
/// It is carried through as an opaque value; `group_items` names what it
/// holds.
#[verifier::external_type_specification]
#[verifier::external_body]
pub struct ExEnumDescriptor<'a>(EnumDescriptor<'a>);

/// What a descriptor holds in its public field `items`, a `HashMap` from item
/// name to number: each name by its characters, with the number stored under
/// it.
pub uninterp spec fn group_items(descriptor: &EnumDescriptor<'_>) -> Map<Seq<char>, u32>;

/// What the bundled database holds under a group name: the items of the
/// descriptor stored under that name in its `enums` map, or `None` where the
/// map has no such key. The database is data compiled into
/// `rbx_reflection_database`, so this depends on the name alone.
pub uninterp spec fn database_group(name: Seq<char>) -> Option<Map<Seq<char>, u32>>;

/// Looks a group up in the bundled database: `rbx_reflection_database::get`,
/// then `HashMap::get` on the `enums` field of what it returns.
///
/// Taken on trust: the descriptor found is the one the database holds under
/// `name`, and nothing is found exactly where the database has no such name.
/// `get` decodes the bundled data on first use and would panic on data it
/// cannot decode; the data shipped with the crate decodes.
#[verifier::external_body]
pub(crate) fn lookup_group(name: &str) -> (found: Option<&'static EnumDescriptor<'static>>)
    ensures
        match found {
            Some(descriptor) => database_group(name@) == Some(group_items(descriptor)),
            None => database_group(name@) is None,
        },
{
    rbx_reflection_database::get().enums.get(name)
}

/// Looks an item up in a descriptor: `HashMap::get` on its `items` field.
///
/// Taken on trust: the number found is the one stored under `name`, and
/// nothing is found exactly where the descriptor has no item of that name.
#[verifier::external_body]
pub(crate) fn lookup_item<'a>(descriptor: &'a EnumDescriptor<'_>, name: &str) -> (found: Option<&'a u32>)
    ensures
        match found {
            Some(value) => group_items(descriptor).contains_key(name@)
                && group_items(descriptor)[name@] == *value,
            None => !group_items(descriptor).contains_key(name@),
        },
{
    descriptor.items.get(name)
}

} // verus!

//! What holds of enum resolution for every name and every database.
//!
//! Each law speaks of `held`: what the database holds under the group's
//! name. For the bundled database that is `database_group` of the name.

use crate::enum_item::{
    display_string, group_outcome, index_group, index_item, item_outcome, EnumItemUserData,
};
use crate::error::{Fault, InternalConsistencyError};
use crate::value::{convert, EnumValue};
use vstd::prelude::*;

verus! {

/// A group name that the database holds resolves to the proxy of that name,
/// and the proxy's text is `Enum.` followed by the name.
pub proof fn lemma_present_group_resolves(name: Seq<char>, held: Option<Map<Seq<char>, u32>>)
    requires
        held is Some,
    ensures
        index_group(name, held) == Ok::<Seq<char>, Fault>(name),
        display_string(name) == "Enum."@ + name,
{
}

/// A group name that the database lacks fails, and the error names it.
pub proof fn lemma_absent_group_fails(name: Seq<char>, held: Option<Map<Seq<char>, u32>>)
    requires
        held is None,
    ensures
        index_group(name, held) == Err::<Seq<char>, Fault>(Fault::UnknownGroup { group: name }),
{
}

/// An item that the group holds resolves, through the namespace and then the
/// group's proxy, to the conversion of the number it has in the database.
pub proof fn lemma_present_item_resolves(
    group: Seq<char>,
    item: Seq<char>,
    held: Option<Map<Seq<char>, u32>>,
)
    requires
        held matches Some(items) && items.contains_key(item),
    ensures
        index_group(group, held) matches Ok(proxy) && index_item(proxy, held, item) == Ok::<
            EnumValue,
            Fault,
        >(convert(held->Some_0[item])),
{
}

/// An item that an existing group lacks fails at the group's proxy, and the
/// error names the item and the group.
pub proof fn lemma_absent_item_fails(
    group: Seq<char>,
    item: Seq<char>,
    held: Option<Map<Seq<char>, u32>>,
)
    requires
        held matches Some(items) && !items.contains_key(item),
    ensures
        index_group(group, held) matches Ok(proxy) && index_item(proxy, held, item) == Err::<
            EnumValue,
            Fault,
        >(Fault::UnknownItem { group, item }),
{
}

/// Equality of proxies is reflexive and symmetric, and two proxies that the
/// namespace gave for two names are equal exactly when the names are the same
/// string.
pub proof fn lemma_equality_follows_names(
    first: EnumItemUserData,
    second: EnumItemUserData,
    first_name: Seq<char>,
    second_name: Seq<char>,
    first_held: Option<Map<Seq<char>, u32>>,
    second_held: Option<Map<Seq<char>, u32>>,
)
    requires
        group_outcome(Ok(first)) == index_group(first_name, first_held),
        group_outcome(Ok(second)) == index_group(second_name, second_held),
    ensures
        first.same_group(&first),
        first.same_group(&second) == second.same_group(&first),
        first.same_group(&second) <==> first_name == second_name,
{
}

/// Resolving one pair of names twice against one database gives one outcome:
/// the same value both times, the conversion of the item's number, or the same
/// error both times.
pub proof fn lemma_resolution_repeats(
    group: Seq<char>,
    item: Seq<char>,
    held: Option<Map<Seq<char>, u32>>,
    first: Result<EnumValue, InternalConsistencyError>,
    second: Result<EnumValue, InternalConsistencyError>,
)
    requires
        item_outcome(first) == index_item(group, held, item),
        item_outcome(second) == index_item(group, held, item),
    ensures
        item_outcome(first) == item_outcome(second),
        first is Ok ==> held is Some && held->Some_0.contains_key(item) && first == Ok::<
            EnumValue,
            InternalConsistencyError,
        >(convert(held->Some_0[item])) && second == first,
        first matches Err(error) ==> second matches Err(again) && error@ == again@,
{
}

} // verus!

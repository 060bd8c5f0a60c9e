//! The value an enum item resolves to.

use vstd::prelude::*;
use vstd::std_specs::convert::FromSpecImpl;

verus! {

/// An item of an enum group, resolved: it carries the number that the
/// database gives the item.
#[derive(Clone, Copy, Debug, PartialEq, Eq, Hash, Structural)]
pub struct EnumValue {
    pub value: u32,
}

/// The conversion of an item's number into the value a script receives.
pub open spec fn convert(item: u32) -> EnumValue {
    EnumValue { value: item }
}

impl From<u32> for EnumValue {
    fn from(item: u32) -> (value: EnumValue) {
        EnumValue { value: item }
    }
}

impl FromSpecImpl<u32> for EnumValue {
    open spec fn obeys_from_spec() -> bool {
        true
    }

    open spec fn from_spec(item: u32) -> EnumValue {
        convert(item)
    }
}

} // verus!

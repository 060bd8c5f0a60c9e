//! The one failure of enum resolution: a name that the database lacks.

use vstd::prelude::*;

verus! {

/// A name reached the resolver that the database does not hold. Names are
/// expected to come from the database in the first place, so this reports a
/// defect in the binding layer and not a mistake of the script.
#[derive(Debug, PartialEq, Eq)]
pub enum InternalConsistencyError {
    /// The database has no enum group of this name.
    UnknownGroup { group: String },
    /// The group exists and has no item of this name.
    UnknownItem { group: String, item: String },
}

/// What an `InternalConsistencyError` says, each name by its characters.
pub enum Fault {
    UnknownGroup { group: Seq<char> },
    UnknownItem { group: Seq<char>, item: Seq<char> },
}

impl View for InternalConsistencyError {
    type V = Fault;

    open spec fn view(&self) -> Fault {
        match self {
            InternalConsistencyError::UnknownGroup { group } => Fault::UnknownGroup {
                group: group@,
            },
            InternalConsistencyError::UnknownItem { group, item } => Fault::UnknownItem {
                group: group@,
                item: item@,
            },
        }
    }
}

impl Fault {
    /// The text of the message, which names the group and the item.
    pub open spec fn message(self) -> Seq<char> {
        match self {
            Fault::UnknownGroup { group } => "unknown enum group "@ + group
                + "; indicates a binding defect"@,
            Fault::UnknownItem { group, item } => "unknown enum item "@ + item + " in group "@
                + group + "; indicates a binding defect"@,
        }
    }
}

impl Clone for InternalConsistencyError {
    fn clone(&self) -> (copy: Self)
        ensures
            copy@ == self@,
    {
        match self {
            InternalConsistencyError::UnknownGroup { group } => {
                InternalConsistencyError::UnknownGroup { group: group.clone() }
            },
            InternalConsistencyError::UnknownItem { group, item } => {
                InternalConsistencyError::UnknownItem { group: group.clone(), item: item.clone() }
            },
        }
    }
}

impl InternalConsistencyError {
    /// The message to raise in the script.
    pub fn to_string(&self) -> (text: String)
        ensures
            text@ == self@.message(),
    {
        match self {
            InternalConsistencyError::UnknownGroup { group } => {
                String::from_str("unknown enum group ").concat(group.as_str()).concat(
                    "; indicates a binding defect",
                )
            },
            InternalConsistencyError::UnknownItem { group, item } => {
                String::from_str("unknown enum item ").concat(item.as_str()).concat(
                    " in group ",
                ).concat(group.as_str()).concat("; indicates a binding defect")
            },
        }
    }
}

} // verus!

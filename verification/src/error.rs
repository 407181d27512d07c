//! The structural errors the builder rejects.
//!
//! Every failure of a builder verb is a programmer error detected at
//! construction time.  The checked verbs (`try_in_set`, `try_run_if`,
//! ...) report it as a value of this type; the plain verbs exclude the
//! offending inputs by precondition instead, so a rejected call never
//! arises in verified code.

use vstd::prelude::*;
use vstd::string::StringExecFns;

verus! {

/// Why a builder verb rejected its input.
#[derive(Debug)]
pub enum ScheduleError {
    /// `in_set`: the parent contains a system-type set, which never
    /// gains explicit members.
    SystemTypeSetParent,
    /// `in_set`: the parent is (or contains) a base set; joining a
    /// base set takes `in_base_set`.
    BaseSetViaInSet,
    /// `in_set`: the receiver is (or contains) a base set; base sets
    /// are never nested inside other sets.
    BaseSetInOtherSet,
    /// `in_set`: the parent contains a system; parents may only be
    /// sets or collections of sets.
    SystemAsParentSet,
    /// `in_base_set`: the chosen identity is a system-type set, which
    /// cannot be a base set.
    SystemTypeSetAsBase,
    /// `in_base_set`: the chosen identity is not a base set; joining a
    /// normal set takes `in_set`.
    NonBaseSetViaInBaseSet,
    /// `run_if`: the receiver is a collection, which owns no
    /// conditions; convert it with `into_set` first.
    RunIfOnCollection,
    /// `distributive_run_if`: the receiver is not a collection.
    DistributiveRunIfOnNonCollection,
    /// `chain`: the receiver owns no ordered member list.
    ChainOnLeaf,
    /// `into_set`: the receiver is already a set.
    IntoSetOnSet,
    /// A condition that is not send-safe was attached; named after the
    /// offending condition.
    NonSendCondition { name: String },
    /// A unique plugin with this name was registered twice.
    DuplicatePlugin { name: String },
}

impl ScheduleError {
    /// A human-readable description, naming the verb that rejected the
    /// call and, where there is one, the offending item.
    pub fn message(&self) -> (m: String)
        ensures
            m@ == match self {
                ScheduleError::SystemTypeSetParent => "adding arbitrary systems to a system type set is not allowed"@,
                ScheduleError::BaseSetViaInSet => "Systems cannot be added to 'base' system sets using 'in_set'. Use 'in_base_set' instead."@,
                ScheduleError::BaseSetInOtherSet => "Base system sets cannot be added to other sets."@,
                ScheduleError::SystemAsParentSet => "systems cannot be used as parent sets using 'in_set'"@,
                ScheduleError::SystemTypeSetAsBase => "System type sets cannot be base sets."@,
                ScheduleError::NonBaseSetViaInBaseSet => "Systems cannot be added to normal sets using 'in_base_set'. Use 'in_set' instead."@,
                ScheduleError::RunIfOnCollection => "'run_if' cannot be used on a collection. Use 'into_set' first, or 'distributive_run_if'."@,
                ScheduleError::DistributiveRunIfOnNonCollection => "'distributive_run_if' can only be used on a collection."@,
                ScheduleError::ChainOnLeaf => "'chain' can only be used on nodes with an ordered member list."@,
                ScheduleError::IntoSetOnSet => "'into_set' cannot be used on a node that is already a set."@,
                ScheduleError::NonSendCondition { name } => "Condition `"@ + name@
                    + "` accesses thread-local resources. This is not currently supported."@,
                ScheduleError::DuplicatePlugin { name } => "Plugin `"@ + name@
                    + "` was already registered and is unique."@,
            },
    {
        match self {
            ScheduleError::SystemTypeSetParent => String::from_str(
                "adding arbitrary systems to a system type set is not allowed",
            ),
            ScheduleError::BaseSetViaInSet => String::from_str(
                "Systems cannot be added to 'base' system sets using 'in_set'. Use 'in_base_set' instead.",
            ),
            ScheduleError::BaseSetInOtherSet => String::from_str(
                "Base system sets cannot be added to other sets.",
            ),
            ScheduleError::SystemAsParentSet => String::from_str(
                "systems cannot be used as parent sets using 'in_set'",
            ),
            ScheduleError::SystemTypeSetAsBase => String::from_str(
                "System type sets cannot be base sets.",
            ),
            ScheduleError::NonBaseSetViaInBaseSet => String::from_str(
                "Systems cannot be added to normal sets using 'in_base_set'. Use 'in_set' instead.",
            ),
            ScheduleError::RunIfOnCollection => String::from_str(
                "'run_if' cannot be used on a collection. Use 'into_set' first, or 'distributive_run_if'.",
            ),
            ScheduleError::DistributiveRunIfOnNonCollection => String::from_str(
                "'distributive_run_if' can only be used on a collection.",
            ),
            ScheduleError::ChainOnLeaf => String::from_str(
                "'chain' can only be used on nodes with an ordered member list.",
            ),
            ScheduleError::IntoSetOnSet => String::from_str(
                "'into_set' cannot be used on a node that is already a set.",
            ),
            ScheduleError::NonSendCondition { name } => String::from_str("Condition `").concat(
                name.as_str(),
            ).concat("` accesses thread-local resources. This is not currently supported."),
            ScheduleError::DuplicatePlugin { name } => String::from_str("Plugin `").concat(
                name.as_str(),
            ).concat("` was already registered and is unique."),
        }
    }
}

} // verus!

//! Descriptions of the work units the graph stores and moves.
//!
//! The graph never invokes a work unit; it only records which units are
//! scheduled, so a unit is described by its stable name, the identity
//! token of its function (erased to `u64`, as set labels are) and its
//! declared send-ness.  A condition is a work unit restricted to boolean
//! output; it must be send-safe to be attached to a node.

use vstd::prelude::*;

verus! {

/// A schedulable work unit ("system"): opaque to the graph, which only
/// stores and moves it.
#[derive(Debug)]
pub struct SystemDesc {
    /// Identity token of the work-unit function; the system-type set
    /// identity of this unit carries the same token.
    pub function: u64,
    /// The unit's stable name, used in diagnostics.
    pub name: String,
    /// Whether the unit may run off the main thread.
    pub send: bool,
}

/// The mathematical value of a `SystemDesc`.
#[verifier::ext_equal]
pub struct SystemView {
    pub function: u64,
    pub name: Seq<char>,
    pub send: bool,
}

impl View for SystemDesc {
    type V = SystemView;

    open spec fn view(&self) -> SystemView {
        SystemView { function: self.function, name: self.name@, send: self.send }
    }
}

impl SystemDesc {
    pub fn new(function: u64, name: String, send: bool) -> (s: SystemDesc)
        ensures
            s@ == (SystemView { function, name: name@, send }),
    {
        SystemDesc { function, name, send }
    }

    /// Lifting a work unit to a set identity yields the system-type
    /// identity of its function, never a fresh anonymous one.
    pub fn type_set(&self) -> (s: crate::set::SystemTypeSet)
        ensures
            s.function == self@.function,
    {
        crate::set::SystemTypeSet::new(self.function)
    }
}

/// A condition gating execution: a work unit restricted to boolean
/// output.  Stored per node in attachment order.
#[derive(Debug)]
pub struct ConditionDesc {
    /// The condition's stable name, used in diagnostics.
    pub name: String,
    /// Whether the condition may run off the main thread; only
    /// send-safe conditions may be attached to a node.
    pub send: bool,
}

/// The mathematical value of a `ConditionDesc`.
#[verifier::ext_equal]
pub struct ConditionView {
    pub name: Seq<char>,
    pub send: bool,
}

impl View for ConditionDesc {
    type V = ConditionView;

    open spec fn view(&self) -> ConditionView {
        ConditionView { name: self.name@, send: self.send }
    }
}

impl ConditionDesc {
    pub fn new(name: String, send: bool) -> (c: ConditionDesc)
        ensures
            c@ == (ConditionView { name: name@, send }),
    {
        ConditionDesc { name, send }
    }

    /// An owned copy with the same mathematical value; conditions are
    /// duplicated when one condition is distributed over many leaves.
    pub fn duplicate(&self) -> (c: ConditionDesc)
        ensures
            c@ == self@,
    {
        ConditionDesc { name: self.name.clone(), send: self.send }
    }
}

} // verus!

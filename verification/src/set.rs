//! The identity layer: names for logical groups of work units.
//!
//! A group ("system set") is identified in one of three disjoint ways:
//! a user-declared label, the implicit set of all instances of one
//! work-unit function, or an opaque generated identifier.  User label
//! types and work-unit function types are erased to `u64` identity
//! tokens; equality of identities is equality of tokens.

use vstd::prelude::*;

verus! {

/// A type-erased set identity.
///
/// `Named` carries the identity token of a user-declared label type and
/// the user's choice whether the set is a "base" set (a node belongs to
/// at most one base set).  `SystemType` carries the identity token of a
/// work-unit function; all identities for the same function are equal.
/// `Anonymous` carries a generated identifier, unique per creation.
/// System-type and anonymous identities are never base sets.
#[derive(Clone, Copy, Debug, PartialEq, Eq, Hash, Structural)]
pub enum SetLabel {
    Named { label: u64, base: bool },
    SystemType { function: u64 },
    Anonymous { id: u64 },
}

impl SetLabel {
    /// A user-declared label, erased to its identity token.
    pub fn named(label: u64, base: bool) -> (s: SetLabel)
        ensures
            s == (SetLabel::Named { label, base }),
    {
        SetLabel::Named { label, base }
    }

    pub open spec fn spec_is_system_type(self) -> bool {
        self is SystemType
    }

    /// True exactly for system-type identities.
    pub fn is_system_type(&self) -> (r: bool)
        ensures
            r == self.spec_is_system_type(),
    {
        matches!(self, SetLabel::SystemType { .. })
    }

    pub open spec fn spec_is_anonymous(self) -> bool {
        self is Anonymous
    }

    /// True exactly for generated anonymous identities.
    pub fn is_anonymous(&self) -> (r: bool)
        ensures
            r == self.spec_is_anonymous(),
    {
        matches!(self, SetLabel::Anonymous { .. })
    }

    pub open spec fn spec_is_base(self) -> bool {
        self matches SetLabel::Named { base, .. } && base
    }

    /// True exactly for named identities declared as base sets.
    pub fn is_base(&self) -> (r: bool)
        ensures
            r == self.spec_is_base(),
    {
        match self {
            SetLabel::Named { base, .. } => *base,
            _ => false,
        }
    }
}

/// The identity of the implicit set grouping all instances of one
/// work-unit function, erased to that function's identity token.
#[derive(Clone, Copy, Debug, PartialEq, Eq, Hash, Structural)]
pub struct SystemTypeSet {
    pub function: u64,
}

impl SystemTypeSet {
    /// The system-type identity for the work-unit function with the
    /// given identity token.
    pub fn new(function: u64) -> (s: SystemTypeSet)
        ensures
            s.function == function,
    {
        SystemTypeSet { function }
    }

    /// This identity in type-erased form.
    pub fn label(&self) -> (l: SetLabel)
        ensures
            l == (SetLabel::SystemType { function: self.function }),
    {
        SetLabel::SystemType { function: self.function }
    }
}

/// Two system-type identities for the same work-unit function are the
/// same identity.
pub proof fn lemma_system_type_sets_equal(a: SystemTypeSet, b: SystemTypeSet)
    requires
        a.function == b.function,
    ensures
        a == b,
{
}

/// Issues the identifiers behind anonymous set identities.  Identifiers
/// are issued in strictly increasing order, so no identifier is ever
/// issued twice by the same generator.
pub struct IdGenerator {
    pub next_id: u64,
}

impl IdGenerator {
    pub fn new() -> (g: IdGenerator)
        ensures
            g.next_id == 0,
    {
        IdGenerator { next_id: 0 }
    }
}

/// An opaque, uniquely-identified group created implicitly when a
/// collection of work units is promoted to a set.  Equality is equality
/// of the generated identifier; copying preserves the identifier.
#[derive(Clone, Copy, Debug, PartialEq, Eq, Hash, Structural)]
pub struct AnonymousSet {
    pub id: u64,
}

impl AnonymousSet {
    /// A fresh anonymous identity: its identifier is the generator's
    /// current counter value, which no earlier call on the same
    /// generator has issued and no later call will issue again.
    pub fn new(ids: &mut IdGenerator) -> (s: AnonymousSet)
        requires
            old(ids).next_id < u64::MAX,
        ensures
            s.id == old(ids).next_id,
            final(ids).next_id == old(ids).next_id + 1,
    {
        let id = ids.next_id;
        ids.next_id = ids.next_id + 1;
        AnonymousSet { id }
    }

    /// This identity in type-erased form.
    pub fn label(&self) -> (l: SetLabel)
        ensures
            l == (SetLabel::Anonymous { id: self.id }),
    {
        SetLabel::Anonymous { id: self.id }
    }
}

/// Anonymous identities with distinct identifiers are distinct; with
/// the issuing discipline of `AnonymousSet::new`, identities from
/// distinct calls on one generator always have distinct identifiers.
pub proof fn lemma_anonymous_sets_distinct(a: AnonymousSet, b: AnonymousSet)
    requires
        a.id != b.id,
    ensures
        a != b,
{
}

} // verus!

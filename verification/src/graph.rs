//! The canonical intermediate representation: a system graph node.
//!
//! Every compositional expression over work units and sets is normalised
//! into a `SystemGraph`: a tree whose leaves are single work units or
//! named sets and whose inner nodes are anonymous sets or transient
//! collections.  Each node carries a `GraphInfo` record of parent-set
//! memberships, its chosen base set, ordering dependencies, ambiguity
//! policy and the default-base-set toggle.
//!
//! The mathematical value of a node is a `SystemGraphView`, the same
//! tree over `Seq` instead of `Vec`; every builder verb's contract is
//! stated over these views.

use vstd::prelude::*;

use crate::set::SetLabel;
use crate::system::{ConditionDesc, ConditionView, SystemDesc, SystemView};

verus! {

/// Whether a recorded dependency orders the node before or after the
/// other node.
#[derive(Clone, Copy, Debug, PartialEq, Eq, Structural)]
pub enum DependencyKind {
    Before,
    After,
}

/// An ordering dependency: the node this record sits on runs before or
/// after `graph`.  Dependencies are recorded verbatim, in attachment
/// order, for the downstream scheduler; no uniqueness check is made.
#[derive(Debug)]
pub struct Dependency {
    pub kind: DependencyKind,
    pub graph: SystemGraph,
}

impl Dependency {
    pub fn new(kind: DependencyKind, graph: SystemGraph) -> (d: Dependency)
        ensures
            d == (Dependency { kind, graph }),
    {
        Dependency { kind, graph }
    }
}

/// The ambiguity-suppression policy of a node.  It starts at `Check`;
/// suppressing against particular sets moves it to `IgnoreWithSet`,
/// which accumulates; suppressing against everything moves it to the
/// absorbing state `IgnoreAll`.
#[derive(Debug)]
pub enum Ambiguity {
    Check,
    IgnoreWithSet(Vec<SetLabel>),
    IgnoreAll,
}

/// Scheduling metadata attached to every graph node.
#[derive(Debug)]
pub struct GraphInfo {
    /// Parent set nodes this node was added to, in attachment order.
    pub sets: Vec<SystemGraph>,
    /// The single base set this node belongs to, if any.
    pub base_set: Option<SetLabel>,
    /// Recorded ordering dependencies, in attachment order.
    pub dependencies: Vec<Dependency>,
    /// The ambiguity-suppression policy.
    pub ambiguous_with: Ambiguity,
    /// Whether the downstream schedule should place this node in its
    /// configured default base set.
    pub add_default_base_set: bool,
}

/// A node of the canonical intermediate representation.
#[derive(Debug)]
pub struct SystemGraph {
    pub graph_info: GraphInfo,
    pub graph_type: SystemGraphType,
}

/// The variants of a graph node.
///
/// A `Collection` is a transient, identity-less wrapper ("just these
/// things together"); it owns no conditions of its own.  An
/// `AnonymousSet` is an ad-hoc group promoted from a collection or a
/// single unit; unlike a collection it may carry conditions.
#[derive(Debug)]
pub enum SystemGraphType {
    System { system: SystemDesc, conditions: Vec<ConditionDesc> },
    LabeledSet { set: SetLabel, conditions: Vec<ConditionDesc> },
    AnonymousSet { members: Vec<SystemGraph>, chained: bool, conditions: Vec<ConditionDesc> },
    Collection { members: Vec<SystemGraph>, chained: bool },
}

/// The mathematical value of a `Dependency`.
#[verifier::ext_equal]
pub struct DependencyView {
    pub kind: DependencyKind,
    pub graph: SystemGraphView,
}

/// The mathematical value of an `Ambiguity`.
#[verifier::ext_equal]
pub enum AmbiguityView {
    Check,
    IgnoreWithSet(Seq<SetLabel>),
    IgnoreAll,
}

/// The mathematical value of a `GraphInfo`.
#[verifier::ext_equal]
pub struct GraphInfoView {
    pub sets: Seq<SystemGraphView>,
    pub base_set: Option<SetLabel>,
    pub dependencies: Seq<DependencyView>,
    pub ambiguous_with: AmbiguityView,
    pub add_default_base_set: bool,
}

/// The mathematical value of a `SystemGraph`.
#[verifier::ext_equal]
pub struct SystemGraphView {
    pub graph_info: GraphInfoView,
    pub graph_type: GraphTypeView,
}

/// The mathematical value of a `SystemGraphType`.
#[verifier::ext_equal]
pub enum GraphTypeView {
    System { system: SystemView, conditions: Seq<ConditionView> },
    LabeledSet { set: SetLabel, conditions: Seq<ConditionView> },
    AnonymousSet { members: Seq<SystemGraphView>, chained: bool, conditions: Seq<ConditionView> },
    Collection { members: Seq<SystemGraphView>, chained: bool },
}

pub open spec fn conds_view(s: Seq<ConditionDesc>) -> Seq<ConditionView> {
    s.map_values(|c: ConditionDesc| c@)
}

pub open spec fn ambiguity_view(a: Ambiguity) -> AmbiguityView {
    match a {
        Ambiguity::Check => AmbiguityView::Check,
        Ambiguity::IgnoreWithSet(sets) => AmbiguityView::IgnoreWithSet(sets@),
        Ambiguity::IgnoreAll => AmbiguityView::IgnoreAll,
    }
}

pub open spec fn node_view(g: SystemGraph) -> SystemGraphView
    decreases g,
{
    SystemGraphView {
        graph_info: info_view(g.graph_info),
        graph_type: match g.graph_type {
            SystemGraphType::System { system, conditions } => GraphTypeView::System {
                system: system@,
                conditions: conds_view(conditions@),
            },
            SystemGraphType::LabeledSet { set, conditions } => GraphTypeView::LabeledSet {
                set,
                conditions: conds_view(conditions@),
            },
            SystemGraphType::AnonymousSet { members, chained, conditions } => GraphTypeView::AnonymousSet {
                members: nodes_view(members@),
                chained,
                conditions: conds_view(conditions@),
            },
            SystemGraphType::Collection { members, chained } => GraphTypeView::Collection {
                members: nodes_view(members@),
                chained,
            },
        },
    }
}

pub open spec fn nodes_view(s: Seq<SystemGraph>) -> Seq<SystemGraphView>
    decreases s,
{
    if s.len() == 0 {
        Seq::empty()
    } else {
        seq![node_view(s[0])] + nodes_view(s.subrange(1, s.len() as int))
    }
}

pub open spec fn info_view(i: GraphInfo) -> GraphInfoView
    decreases i,
{
    GraphInfoView {
        sets: nodes_view(i.sets@),
        base_set: i.base_set,
        dependencies: deps_view(i.dependencies@),
        ambiguous_with: ambiguity_view(i.ambiguous_with),
        add_default_base_set: i.add_default_base_set,
    }
}

pub open spec fn deps_view(s: Seq<Dependency>) -> Seq<DependencyView>
    decreases s,
{
    if s.len() == 0 {
        Seq::empty()
    } else {
        seq![dep_view(s[0])] + deps_view(s.subrange(1, s.len() as int))
    }
}

pub open spec fn dep_view(d: Dependency) -> DependencyView
    decreases d,
{
    DependencyView { kind: d.kind, graph: node_view(d.graph) }
}

/// Sequence views are element-wise node views.
pub proof fn lemma_nodes_view(s: Seq<SystemGraph>)
    ensures
        nodes_view(s).len() == s.len(),
        forall|i: int| 0 <= i < s.len() ==> nodes_view(s)[i] == node_view(#[trigger] s[i]),
    decreases s,
{
    if s.len() > 0 {
        lemma_nodes_view(s.subrange(1, s.len() as int));
        assert forall|i: int| 0 <= i < s.len() implies nodes_view(s)[i] == node_view(#[trigger] s[i]) by {
            if i > 0 {
                assert(s.subrange(1, s.len() as int)[i - 1] == s[i]);
            }
        }
    }
}

/// Appending a node appends its view.
pub proof fn lemma_nodes_view_push(s: Seq<SystemGraph>, g: SystemGraph)
    ensures
        nodes_view(s.push(g)) == nodes_view(s).push(node_view(g)),
{
    lemma_nodes_view(s);
    lemma_nodes_view(s.push(g));
    assert forall|i: int| 0 <= i < s.len() + 1 implies nodes_view(s.push(g))[i] == nodes_view(s).push(
        node_view(g),
    )[i] by {
        if i < s.len() {
            assert(s.push(g)[i] == s[i]);
        } else {
            assert(s.push(g)[i] == g);
        }
    }
    assert(nodes_view(s.push(g)) =~= nodes_view(s).push(node_view(g)));
}

/// Dependency-sequence views are element-wise dependency views.
pub proof fn lemma_deps_view(s: Seq<Dependency>)
    ensures
        deps_view(s).len() == s.len(),
        forall|i: int| 0 <= i < s.len() ==> deps_view(s)[i] == dep_view(#[trigger] s[i]),
    decreases s,
{
    if s.len() > 0 {
        lemma_deps_view(s.subrange(1, s.len() as int));
        assert forall|i: int| 0 <= i < s.len() implies deps_view(s)[i] == dep_view(#[trigger] s[i]) by {
            if i > 0 {
                assert(s.subrange(1, s.len() as int)[i - 1] == s[i]);
            }
        }
    }
}

/// Appending a dependency appends its view.
pub proof fn lemma_deps_view_push(s: Seq<Dependency>, d: Dependency)
    ensures
        deps_view(s.push(d)) == deps_view(s).push(dep_view(d)),
{
    lemma_deps_view(s);
    lemma_deps_view(s.push(d));
    assert forall|i: int| 0 <= i < s.len() + 1 implies deps_view(s.push(d))[i] == deps_view(s).push(
        dep_view(d),
    )[i] by {
        if i < s.len() {
            assert(s.push(d)[i] == s[i]);
        } else {
            assert(s.push(d)[i] == d);
        }
    }
    assert(deps_view(s.push(d)) =~= deps_view(s).push(dep_view(d)));
}

impl SystemGraphView {
    /// True if the node is a single work unit, or a collection that
    /// transitively holds one.  The query never crosses a set boundary:
    /// a set node hides its contents.
    pub open spec fn contains_system(self) -> bool
        decreases self,
    {
        match self.graph_type {
            GraphTypeView::System { .. } => true,
            GraphTypeView::LabeledSet { .. } | GraphTypeView::AnonymousSet { .. } => false,
            GraphTypeView::Collection { members, .. } => exists|i: int|
                0 <= i < members.len() && (#[trigger] members[i]).contains_system(),
        }
    }

    /// True if the node is a set with a system-type identity, or a
    /// collection that transitively holds one.
    pub open spec fn contains_system_type_set(self) -> bool
        decreases self,
    {
        match self.graph_type {
            GraphTypeView::System { .. } | GraphTypeView::AnonymousSet { .. } => false,
            GraphTypeView::LabeledSet { set, .. } => set.spec_is_system_type(),
            GraphTypeView::Collection { members, .. } => exists|i: int|
                0 <= i < members.len() && (#[trigger] members[i]).contains_system_type_set(),
        }
    }

    /// True if the node is a set with a base identity, or a collection
    /// that transitively holds one.
    pub open spec fn contains_base_set(self) -> bool
        decreases self,
    {
        match self.graph_type {
            GraphTypeView::System { .. } | GraphTypeView::AnonymousSet { .. } => false,
            GraphTypeView::LabeledSet { set, .. } => set.spec_is_base(),
            GraphTypeView::Collection { members, .. } => exists|i: int|
                0 <= i < members.len() && (#[trigger] members[i]).contains_base_set(),
        }
    }

    /// The node's members, where it has an ordered member list.
    pub open spec fn members(self) -> Seq<SystemGraphView> {
        match self.graph_type {
            GraphTypeView::AnonymousSet { members, .. } => members,
            GraphTypeView::Collection { members, .. } => members,
            _ => Seq::empty(),
        }
    }

    /// The node's own attached conditions; a collection owns none.
    pub open spec fn conditions(self) -> Seq<ConditionView> {
        match self.graph_type {
            GraphTypeView::System { conditions, .. } => conditions,
            GraphTypeView::LabeledSet { conditions, .. } => conditions,
            GraphTypeView::AnonymousSet { conditions, .. } => conditions,
            GraphTypeView::Collection { .. } => Seq::empty(),
        }
    }

    /// The structural rules every well-formed node obeys, at every
    /// depth:
    /// - a parent recorded in `sets` is never a system-type set, never
    ///   a base set and never contains a system, and is well formed;
    /// - a node that has joined a set is not a base-set node (base sets
    ///   are never nested inside other sets);
    /// - a chosen `base_set` identity is a base set and not
    ///   system-type;
    /// - dependencies and members are well formed.
    pub open spec fn wf(self) -> bool
        decreases self,
    {
        &&& (forall|i: int|
            0 <= i < self.graph_info.sets.len() ==> {
                let p = #[trigger] self.graph_info.sets[i];
                &&& p.wf()
                &&& !p.contains_system()
                &&& !p.contains_base_set()
                &&& !p.contains_system_type_set()
            })
        &&& (self.graph_info.sets.len() > 0 ==> !self.contains_base_set())
        &&& (forall|i: int|
            0 <= i < self.graph_info.dependencies.len() ==> (
            #[trigger] self.graph_info.dependencies[i]).graph.wf())
        &&& (self.graph_info.base_set matches Some(b) ==> b.spec_is_base()
            && !b.spec_is_system_type())
        &&& (forall|i: int| 0 <= i < self.members().len() ==> (#[trigger] self.members()[i]).wf())
    }
}

/// The graph-info record a freshly lifted single work unit starts
/// with: empty, ambiguity checked, and placed in the schedule's
/// default base set.
pub open spec fn system_origin_info() -> GraphInfoView {
    GraphInfoView {
        sets: Seq::empty(),
        base_set: None,
        dependencies: Seq::empty(),
        ambiguous_with: AmbiguityView::Check,
        add_default_base_set: true,
    }
}

/// The graph-info record a freshly lifted set or collection starts
/// with: as for a work unit, but not placed in any default base set.
pub open spec fn set_origin_info() -> GraphInfoView {
    GraphInfoView {
        sets: Seq::empty(),
        base_set: None,
        dependencies: Seq::empty(),
        ambiguous_with: AmbiguityView::Check,
        add_default_base_set: false,
    }
}

impl GraphInfo {
    /// The record for a node of system origin.
    pub fn system() -> (i: GraphInfo)
        ensures
            i@ == system_origin_info(),
    {
        GraphInfo {
            sets: Vec::new(),
            base_set: None,
            dependencies: Vec::new(),
            ambiguous_with: Ambiguity::Check,
            add_default_base_set: true,
        }
    }

    /// The record for a node of set origin.
    pub fn system_set() -> (i: GraphInfo)
        ensures
            i@ == set_origin_info(),
    {
        GraphInfo {
            sets: Vec::new(),
            base_set: None,
            dependencies: Vec::new(),
            ambiguous_with: Ambiguity::Check,
            add_default_base_set: false,
        }
    }
}

/// The node a single work unit lifts to.
pub open spec fn lifted_system(s: SystemView) -> SystemGraphView {
    SystemGraphView {
        graph_info: system_origin_info(),
        graph_type: GraphTypeView::System { system: s, conditions: Seq::empty() },
    }
}

/// The node a set identity lifts to.
pub open spec fn lifted_set(l: SetLabel) -> SystemGraphView {
    SystemGraphView {
        graph_info: set_origin_info(),
        graph_type: GraphTypeView::LabeledSet { set: l, conditions: Seq::empty() },
    }
}

/// The node a tuple of already-lifted members lifts to.
pub open spec fn lifted_collection(members: Seq<SystemGraphView>) -> SystemGraphView {
    SystemGraphView {
        graph_info: set_origin_info(),
        graph_type: GraphTypeView::Collection { members, chained: false },
    }
}

impl SystemGraph {
    /// Lift a raw or boxed work unit: a system node with an empty
    /// condition list and system-origin graph info.
    pub fn from_system(system: SystemDesc) -> (g: SystemGraph)
        ensures
            g@ == lifted_system(system@),
            g@.wf(),
    {
        let g = SystemGraph {
            graph_info: GraphInfo::system(),
            graph_type: SystemGraphType::System { system, conditions: Vec::new() },
        };
        proof {
            let gv = g@;
            assert(gv.graph_info == system_origin_info());
            assert(gv.graph_type->System_conditions =~= Seq::<ConditionView>::empty());
            assert(gv =~~= lifted_system(gv.graph_type->System_system));
        }
        g
    }

    /// Lift a set identity: a set node with an empty condition list
    /// and set-origin graph info.
    pub fn from_set(set: SetLabel) -> (g: SystemGraph)
        ensures
            g@ == lifted_set(set),
            g@.wf(),
    {
        let g = SystemGraph {
            graph_info: GraphInfo::system_set(),
            graph_type: SystemGraphType::LabeledSet { set, conditions: Vec::new() },
        };
        proof {
            let gv = g@;
            assert(gv.graph_info == set_origin_info());
            assert(gv.graph_type->LabeledSet_conditions =~= Seq::<ConditionView>::empty());
            assert(gv =~~= lifted_set(set));
        }
        g
    }

    /// Lift a tuple of already-lifted members (any arity, the empty
    /// tuple included): an unchained collection with set-origin graph
    /// info.
    pub fn collection(members: Vec<SystemGraph>) -> (g: SystemGraph)
        ensures
            g@ == lifted_collection(nodes_view(members@)),
            (forall|i: int| 0 <= i < members@.len() ==> (#[trigger] members@[i])@.wf()) ==> g@.wf(),
    {
        let ghost ms = members@;
        let g = SystemGraph {
            graph_info: GraphInfo::system_set(),
            graph_type: SystemGraphType::Collection { members, chained: false },
        };
        proof {
            let gv = g@;
            assert(gv.graph_info == set_origin_info());
            assert(gv =~~= lifted_collection(nodes_view(ms)));
            lemma_nodes_view(ms);
            if forall|i: int| 0 <= i < ms.len() ==> (#[trigger] ms[i])@.wf() {
                assert forall|i: int| 0 <= i < gv.members().len() implies (
                #[trigger] gv.members()[i]).wf() by {
                    assert(gv.members()[i] == node_view(ms[i]));
                    assert(ms[i]@.wf());
                }
                assert(gv.wf());
            }
        }
        g
    }
}

fn any_contains_system(members: &Vec<SystemGraph>, i: usize) -> (r: bool)
    requires
        i <= members@.len(),
    ensures
        r == exists|j: int|
            i <= j < members@.len() && (#[trigger] nodes_view(members@)[j]).contains_system(),
    decreases *members, members@.len() - i,
{
    proof {
        lemma_nodes_view(members@);
    }
    if i == members.len() {
        false
    } else if members[i].contains_system() {
        proof {
            assert(nodes_view(members@)[i as int].contains_system());
        }
        true
    } else {
        any_contains_system(members, i + 1)
    }
}

fn any_contains_system_type_set(members: &Vec<SystemGraph>, i: usize) -> (r: bool)
    requires
        i <= members@.len(),
    ensures
        r == exists|j: int|
            i <= j < members@.len() && (
            #[trigger] nodes_view(members@)[j]).contains_system_type_set(),
    decreases *members, members@.len() - i,
{
    proof {
        lemma_nodes_view(members@);
    }
    if i == members.len() {
        false
    } else if members[i].contains_system_type_set() {
        proof {
            assert(nodes_view(members@)[i as int].contains_system_type_set());
        }
        true
    } else {
        any_contains_system_type_set(members, i + 1)
    }
}

fn any_contains_base_set(members: &Vec<SystemGraph>, i: usize) -> (r: bool)
    requires
        i <= members@.len(),
    ensures
        r == exists|j: int|
            i <= j < members@.len() && (#[trigger] nodes_view(members@)[j]).contains_base_set(),
    decreases *members, members@.len() - i,
{
    proof {
        lemma_nodes_view(members@);
    }
    if i == members.len() {
        false
    } else if members[i].contains_base_set() {
        proof {
            assert(nodes_view(members@)[i as int].contains_base_set());
        }
        true
    } else {
        any_contains_base_set(members, i + 1)
    }
}

impl SystemGraph {
    /// True if this node is a single work unit, or a collection that
    /// transitively holds one; set boundaries hide their contents.
    pub fn contains_system(&self) -> (r: bool)
        ensures
            r == self@.contains_system(),
        decreases *self,
    {
        match &self.graph_type {
            SystemGraphType::System { .. } => true,
            SystemGraphType::LabeledSet { .. } | SystemGraphType::AnonymousSet { .. } => false,
            SystemGraphType::Collection { members, .. } => {
                proof {
                    lemma_nodes_view(members@);
                }
                let r = any_contains_system(members, 0);
                proof {
                    let mv = self@.graph_type->Collection_members;
                    assert(mv == nodes_view(members@));
                    assert(mv.len() == members@.len());
                    if r {
                        let j = choose|j: int|
                            0 <= j < members@.len() && (
                            #[trigger] nodes_view(members@)[j]).contains_system();
                        assert(mv[j].contains_system());
                        assert(self@.contains_system());
                    } else {
                        if self@.contains_system() {
                            let j = choose|j: int|
                                0 <= j < mv.len() && (#[trigger] mv[j]).contains_system();
                            assert(nodes_view(members@)[j].contains_system());
                            assert(false);
                        }
                    }
                }
                r
            },
        }
    }

    /// True if this node is a set with a system-type identity, or a
    /// collection that transitively holds one.
    pub fn contains_system_type_set(&self) -> (r: bool)
        ensures
            r == self@.contains_system_type_set(),
        decreases *self,
    {
        match &self.graph_type {
            SystemGraphType::System { .. } | SystemGraphType::AnonymousSet { .. } => false,
            SystemGraphType::LabeledSet { set, .. } => set.is_system_type(),
            SystemGraphType::Collection { members, .. } => {
                proof {
                    lemma_nodes_view(members@);
                }
                let r = any_contains_system_type_set(members, 0);
                proof {
                    let mv = self@.graph_type->Collection_members;
                    assert(mv == nodes_view(members@));
                    assert(mv.len() == members@.len());
                    if r {
                        let j = choose|j: int|
                            0 <= j < members@.len() && (
                            #[trigger] nodes_view(members@)[j]).contains_system_type_set();
                        assert(mv[j].contains_system_type_set());
                        assert(self@.contains_system_type_set());
                    } else {
                        if self@.contains_system_type_set() {
                            let j = choose|j: int|
                                0 <= j < mv.len() && (#[trigger] mv[j]).contains_system_type_set();
                            assert(nodes_view(members@)[j].contains_system_type_set());
                            assert(false);
                        }
                    }
                }
                r
            },
        }
    }

    /// True if this node is a set with a base identity, or a
    /// collection that transitively holds one.
    pub fn contains_base_set(&self) -> (r: bool)
        ensures
            r == self@.contains_base_set(),
        decreases *self,
    {
        match &self.graph_type {
            SystemGraphType::System { .. } | SystemGraphType::AnonymousSet { .. } => false,
            SystemGraphType::LabeledSet { set, .. } => set.is_base(),
            SystemGraphType::Collection { members, .. } => {
                proof {
                    lemma_nodes_view(members@);
                }
                let r = any_contains_base_set(members, 0);
                proof {
                    let mv = self@.graph_type->Collection_members;
                    assert(mv == nodes_view(members@));
                    assert(mv.len() == members@.len());
                    if r {
                        let j = choose|j: int|
                            0 <= j < members@.len() && (
                            #[trigger] nodes_view(members@)[j]).contains_base_set();
                        assert(mv[j].contains_base_set());
                        assert(self@.contains_base_set());
                    } else {
                        if self@.contains_base_set() {
                            let j = choose|j: int|
                                0 <= j < mv.len() && (#[trigger] mv[j]).contains_base_set();
                            assert(nodes_view(members@)[j].contains_base_set());
                            assert(false);
                        }
                    }
                }
                r
            },
        }
    }
}

impl View for SystemGraph {
    type V = SystemGraphView;

    open spec fn view(&self) -> SystemGraphView {
        node_view(*self)
    }
}

impl View for GraphInfo {
    type V = GraphInfoView;

    open spec fn view(&self) -> GraphInfoView {
        info_view(*self)
    }
}

impl View for Dependency {
    type V = DependencyView;

    open spec fn view(&self) -> DependencyView {
        dep_view(*self)
    }
}

} // verus!

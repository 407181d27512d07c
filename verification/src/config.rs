//! The builder verbs: the DSL surface that transforms graph nodes.
//!
//! Every verb consumes its receiver and returns the modified node; its
//! contract states the new node's mathematical value as a function of
//! the old one.  A verb whose structural rules an input would violate
//! excludes that input by precondition; the `try_` form of each such
//! verb accepts every input and reports the violation as a
//! `ScheduleError`, with an exact statement of which error comes on
//! which input.

use vstd::prelude::*;

use crate::error::ScheduleError;
use crate::graph::{
    ambiguity_view, conds_view, lemma_deps_view_push, lemma_nodes_view, lemma_nodes_view_push,
    node_view,
    nodes_view,
    set_origin_info, Ambiguity, AmbiguityView, Dependency, DependencyKind, DependencyView,
    GraphInfo, GraphInfoView, GraphTypeView, SystemGraph, SystemGraphType, SystemGraphView,
};
use crate::set::SetLabel;
use crate::system::{ConditionDesc, ConditionView};

verus! {

impl SystemGraphView {
    /// The node with one more ordering dependency recorded.
    pub open spec fn with_dependency(self, kind: DependencyKind, other: SystemGraphView) -> SystemGraphView {
        SystemGraphView {
            graph_info: GraphInfoView {
                dependencies: self.graph_info.dependencies.push(
                    DependencyView { kind, graph: other },
                ),
                ..self.graph_info
            },
            ..self
        }
    }

    /// The node with one more parent set recorded.
    pub open spec fn with_parent_set(self, parent: SystemGraphView) -> SystemGraphView {
        SystemGraphView {
            graph_info: GraphInfoView { sets: self.graph_info.sets.push(parent), ..self.graph_info },
            ..self
        }
    }

    /// The node with its base set chosen, replacing any prior choice.
    pub open spec fn with_base_set(self, base: SetLabel) -> SystemGraphView {
        SystemGraphView {
            graph_info: GraphInfoView { base_set: Some(base), ..self.graph_info },
            ..self
        }
    }

    /// The node with the default-base-set toggle set to `value`.
    pub open spec fn with_default_base_set(self, value: bool) -> SystemGraphView {
        SystemGraphView {
            graph_info: GraphInfoView { add_default_base_set: value, ..self.graph_info },
            ..self
        }
    }

    /// The ambiguity state machine: from `Check` to suppression
    /// against one set; suppression lists accumulate; `IgnoreAll`
    /// absorbs every further step.
    pub open spec fn with_ambiguous_with(self, set: SetLabel) -> SystemGraphView {
        SystemGraphView {
            graph_info: GraphInfoView {
                ambiguous_with: match self.graph_info.ambiguous_with {
                    AmbiguityView::Check => AmbiguityView::IgnoreWithSet(seq![set]),
                    AmbiguityView::IgnoreWithSet(sets) => AmbiguityView::IgnoreWithSet(
                        sets.push(set),
                    ),
                    AmbiguityView::IgnoreAll => AmbiguityView::IgnoreAll,
                },
                ..self.graph_info
            },
            ..self
        }
    }

    /// The node with ambiguity suppressed against every other system.
    pub open spec fn with_ambiguous_all(self) -> SystemGraphView {
        SystemGraphView {
            graph_info: GraphInfoView {
                ambiguous_with: AmbiguityView::IgnoreAll,
                ..self.graph_info
            },
            ..self
        }
    }

    /// The node with one more condition appended to its own condition
    /// list.  Meaningful only for nodes that own conditions; a
    /// collection is left unchanged by this description and is
    /// excluded by the verbs that use it.
    pub open spec fn with_condition(self, c: ConditionView) -> SystemGraphView {
        SystemGraphView {
            graph_info: self.graph_info,
            graph_type: match self.graph_type {
                GraphTypeView::System { system, conditions } => GraphTypeView::System {
                    system,
                    conditions: conditions.push(c),
                },
                GraphTypeView::LabeledSet { set, conditions } => GraphTypeView::LabeledSet {
                    set,
                    conditions: conditions.push(c),
                },
                GraphTypeView::AnonymousSet { members, chained, conditions } => GraphTypeView::AnonymousSet {
                    members,
                    chained,
                    conditions: conditions.push(c),
                },
                GraphTypeView::Collection { members, chained } => GraphTypeView::Collection {
                    members,
                    chained,
                },
            },
        }
    }

    /// The node with its member list marked as a chained sequence.
    /// Meaningful only for nodes with an ordered member list.
    pub open spec fn with_chained(self) -> SystemGraphView {
        SystemGraphView {
            graph_info: self.graph_info,
            graph_type: match self.graph_type {
                GraphTypeView::AnonymousSet { members, chained, conditions } => GraphTypeView::AnonymousSet {
                    members,
                    chained: true,
                    conditions,
                },
                GraphTypeView::Collection { members, .. } => GraphTypeView::Collection {
                    members,
                    chained: true,
                },
                other => other,
            },
        }
    }

    /// The node promoted to an anonymous set: a single work unit is
    /// wrapped as the sole member of a fresh set node; a collection is
    /// promoted in place, keeping its members, chaining flag and graph
    /// info.  Set nodes are excluded by the verbs that use this.
    pub open spec fn promoted_to_set(self) -> SystemGraphView {
        match self.graph_type {
            GraphTypeView::Collection { members, chained } => SystemGraphView {
                graph_info: self.graph_info,
                graph_type: GraphTypeView::AnonymousSet {
                    members,
                    chained,
                    conditions: Seq::empty(),
                },
            },
            _ => SystemGraphView {
                graph_info: set_origin_info(),
                graph_type: GraphTypeView::AnonymousSet {
                    members: seq![self],
                    chained: false,
                    conditions: Seq::empty(),
                },
            },
        }
    }

    /// The node with one copy of `c` pushed onto the condition list of
    /// every transitive non-collection descendant: a collection passes
    /// the condition on to each member, every other node receives it
    /// itself.
    pub open spec fn distributed(self, c: ConditionView) -> SystemGraphView
        decreases self,
    {
        match self.graph_type {
            GraphTypeView::Collection { members, chained } => SystemGraphView {
                graph_info: self.graph_info,
                graph_type: GraphTypeView::Collection {
                    members: SystemGraphView::all_distributed(members, c),
                    chained,
                },
            },
            _ => self.with_condition(c),
        }
    }

    /// `distributed`, applied to each node of a member list.
    pub open spec fn all_distributed(members: Seq<SystemGraphView>, c: ConditionView) -> Seq<SystemGraphView>
        decreases members,
    {
        if members.len() == 0 {
            Seq::empty()
        } else {
            seq![members[0].distributed(c)] + SystemGraphView::all_distributed(
                members.subrange(1, members.len() as int),
                c,
            )
        }
    }
}

/// Distribution over a member list is element-wise distribution.
pub proof fn lemma_all_distributed(members: Seq<SystemGraphView>, c: ConditionView)
    ensures
        SystemGraphView::all_distributed(members, c).len() == members.len(),
        forall|i: int|
            0 <= i < members.len() ==> SystemGraphView::all_distributed(members, c)[i] == (
            #[trigger] members[i]).distributed(c),
    decreases members,
{
    if members.len() > 0 {
        lemma_all_distributed(members.subrange(1, members.len() as int), c);
        assert forall|i: int|
            0 <= i < members.len() implies SystemGraphView::all_distributed(members, c)[i] == (
        #[trigger] members[i]).distributed(c) by {
            if i > 0 {
                assert(members.subrange(1, members.len() as int)[i - 1] == members[i]);
            }
        }
    }
}

/// Appending a condition appends its view.
pub proof fn lemma_conds_view_push(s: Seq<ConditionDesc>, c: ConditionDesc)
    ensures
        conds_view(s.push(c)) == conds_view(s).push(c@),
{
    assert(conds_view(s.push(c)) =~= conds_view(s).push(c@));
}

/// A condition checked for attachment: only send-safe conditions may
/// gate a node.  An unchecked condition is excluded by precondition;
/// `try_new_condition` reports it as an error instead.
pub fn new_condition(condition: ConditionDesc) -> (c: ConditionDesc)
    requires
        condition@.send,
    ensures
        c@ == condition@,
{
    condition
}

/// `new_condition` on every input: a condition that is not send-safe
/// is rejected with an error naming it.
pub fn try_new_condition(condition: ConditionDesc) -> (r: Result<ConditionDesc, ScheduleError>)
    ensures
        match r {
            Ok(c) => condition@.send && c@ == condition@,
            Err(e) => !condition@.send && (e matches ScheduleError::NonSendCondition { name }
                && name@ == condition@.name),
        },
{
    if condition.send {
        Ok(condition)
    } else {
        Err(ScheduleError::NonSendCondition { name: condition.name })
    }
}

impl SystemGraph {
    /// Record an ordering dependency on this node.
    fn insert_dependency(&mut self, kind: DependencyKind, graph: SystemGraph)
        ensures
            final(self)@ == old(self)@.with_dependency(kind, graph@),
    {
        let ghost gv = graph@;
        let ghost pre = *self;
        self.graph_info.dependencies.push(Dependency::new(kind, graph));
        proof {
            lemma_deps_view_push(
                pre.graph_info.dependencies@,
                self.graph_info.dependencies@.last(),
            );
            assert(self@ =~~= pre@.with_dependency(kind, gv));
        }
    }

    /// Run this node before `graph`: record the dependency verbatim.
    pub fn before(self, graph: SystemGraph) -> (r: SystemGraph)
        ensures
            r@ == self@.with_dependency(DependencyKind::Before, graph@),
    {
        let mut this = self;
        this.insert_dependency(DependencyKind::Before, graph);
        this
    }

    /// Run this node after `graph`: record the dependency verbatim.
    pub fn after(self, graph: SystemGraph) -> (r: SystemGraph)
        ensures
            r@ == self@.with_dependency(DependencyKind::After, graph@),
    {
        let mut this = self;
        this.insert_dependency(DependencyKind::After, graph);
        this
    }

    /// Add this node to the parent set `parent`.  The parent must not
    /// be (or contain) a system-type set or a base set, must not
    /// contain a system, and this node must not be (or contain) a base
    /// set; `try_in_set` reports a violation instead of excluding it.
    pub fn in_set(self, parent: SystemGraph) -> (r: SystemGraph)
        requires
            !parent@.contains_system_type_set(),
            !parent@.contains_base_set(),
            !self@.contains_base_set(),
            !parent@.contains_system(),
        ensures
            r@ == self@.with_parent_set(parent@),
    {
        let ghost pre = self;
        let ghost pv = parent@;
        let SystemGraph { mut graph_info, graph_type } = self;
        graph_info.sets.push(parent);
        let g = SystemGraph { graph_info, graph_type };
        proof {
            lemma_nodes_view_push(pre.graph_info.sets@, g.graph_info.sets@.last());
            assert(g@ =~~= pre@.with_parent_set(pv));
        }
        g
    }

    /// Choose the base set of this node, replacing any prior choice;
    /// a node belongs to at most one base set at a time.  The identity
    /// must be a base set and not a system-type set; `try_in_base_set`
    /// reports a violation instead of excluding it.
    pub fn in_base_set(self, set: SetLabel) -> (r: SystemGraph)
        requires
            !set.spec_is_system_type(),
            set.spec_is_base(),
        ensures
            r@ == self@.with_base_set(set),
    {
        let ghost pre = self;
        let SystemGraph { mut graph_info, graph_type } = self;
        graph_info.base_set = Some(set);
        let g = SystemGraph { graph_info, graph_type };
        proof {
            assert(g@ =~~= pre@.with_base_set(set));
        }
        g
    }

    /// Ask the downstream schedule to place this node in its
    /// configured default base set.
    pub fn in_default_base_set(self) -> (r: SystemGraph)
        ensures
            r@ == self@.with_default_base_set(true),
    {
        let ghost pre = self;
        let SystemGraph { mut graph_info, graph_type } = self;
        graph_info.add_default_base_set = true;
        let g = SystemGraph { graph_info, graph_type };
        proof {
            assert(g@ =~~= pre@.with_default_base_set(true));
        }
        g
    }

    /// Keep this node out of the schedule's default base set.
    pub fn no_default_base_set(self) -> (r: SystemGraph)
        ensures
            r@ == self@.with_default_base_set(false),
    {
        let ghost pre = self;
        let SystemGraph { mut graph_info, graph_type } = self;
        graph_info.add_default_base_set = false;
        let g = SystemGraph { graph_info, graph_type };
        proof {
            assert(g@ =~~= pre@.with_default_base_set(false));
        }
        g
    }

    /// Gate this node on `condition`, appending it to the node's own
    /// condition list.  A collection owns no conditions, so it is
    /// excluded here (`try_run_if` reports it; `into_set` converts a
    /// collection first); the condition must be send-safe.
    pub fn run_if(self, condition: ConditionDesc) -> (r: SystemGraph)
        requires
            !(self@.graph_type is Collection),
            condition@.send,
        ensures
            r@ == self@.with_condition(condition@),
    {
        let ghost pre = self;
        let ghost cv = condition@;
        let SystemGraph { graph_info, graph_type } = self;
        match graph_type {
            SystemGraphType::System { system, mut conditions } => {
                let ghost cs = conditions@;
                conditions.push(new_condition(condition));
                let g = SystemGraph {
                    graph_info,
                    graph_type: SystemGraphType::System { system, conditions },
                };
                proof {
                    lemma_conds_view_push(cs, conditions@.last());
                    assert(g@ =~~= pre@.with_condition(cv));
                }
                g
            },
            SystemGraphType::LabeledSet { set, mut conditions } => {
                let ghost cs = conditions@;
                conditions.push(new_condition(condition));
                let g = SystemGraph {
                    graph_info,
                    graph_type: SystemGraphType::LabeledSet { set, conditions },
                };
                proof {
                    lemma_conds_view_push(cs, conditions@.last());
                    assert(g@ =~~= pre@.with_condition(cv));
                }
                g
            },
            SystemGraphType::AnonymousSet { members, chained, mut conditions } => {
                let ghost cs = conditions@;
                conditions.push(new_condition(condition));
                let g = SystemGraph {
                    graph_info,
                    graph_type: SystemGraphType::AnonymousSet { members, chained, conditions },
                };
                proof {
                    lemma_conds_view_push(cs, conditions@.last());
                    assert(g@ =~~= pre@.with_condition(cv));
                }
                g
            },
            SystemGraphType::Collection { .. } => unreached(),
        }
    }

    /// Mark this node's member list as a chained sequence: the
    /// downstream scheduler orders every consecutive pair of members.
    /// Only nodes with an ordered member list can be chained;
    /// `try_chain` reports a violation instead of excluding it.
    pub fn chain(self) -> (r: SystemGraph)
        requires
            self@.graph_type is AnonymousSet || self@.graph_type is Collection,
        ensures
            r@ == self@.with_chained(),
    {
        let ghost pre = self;
        let SystemGraph { graph_info, graph_type } = self;
        match graph_type {
            SystemGraphType::AnonymousSet { members, chained: _, conditions } => {
                let g = SystemGraph {
                    graph_info,
                    graph_type: SystemGraphType::AnonymousSet {
                        members,
                        chained: true,
                        conditions,
                    },
                };
                proof {
                    assert(g@ =~~= pre@.with_chained());
                }
                g
            },
            SystemGraphType::Collection { members, chained: _ } => {
                let g = SystemGraph {
                    graph_info,
                    graph_type: SystemGraphType::Collection { members, chained: true },
                };
                proof {
                    assert(g@ =~~= pre@.with_chained());
                }
                g
            },
            SystemGraphType::System { .. } | SystemGraphType::LabeledSet { .. } => unreached(),
        }
    }

    /// Promote this node to an anonymous set: a single work unit is
    /// wrapped as the sole member of a fresh set node; a collection is
    /// promoted in place, keeping its members, chaining flag and graph
    /// info.  A node that is already a set is excluded here;
    /// `try_into_set` reports it instead.
    pub fn into_set(self) -> (r: SystemGraph)
        requires
            !(self@.graph_type is LabeledSet),
            !(self@.graph_type is AnonymousSet),
        ensures
            r@ == self@.promoted_to_set(),
    {
        let ghost pre = self;
        match self.graph_type {
            SystemGraphType::System { system, conditions } => {
                let node = SystemGraph {
                    graph_info: self.graph_info,
                    graph_type: SystemGraphType::System { system, conditions },
                };
                proof {
                    assert(node == pre);
                }
                let mut members: Vec<SystemGraph> = Vec::new();
                members.push(node);
                let no_conds: Vec<ConditionDesc> = Vec::new();
                let ghost ncv = no_conds@;
                let g = SystemGraph {
                    graph_info: GraphInfo::system_set(),
                    graph_type: SystemGraphType::AnonymousSet {
                        members,
                        chained: false,
                        conditions: no_conds,
                    },
                };
                proof {
                    lemma_nodes_view(members@);
                    assert(members@[0] == node);
                    assert(nodes_view(members@) =~= seq![pre@]);
                    assert(conds_view(ncv) =~= Seq::<ConditionView>::empty());
                    assert(g@ =~~= pre@.promoted_to_set());
                }
                g
            },
            SystemGraphType::Collection { members, chained } => {
                let no_conds: Vec<ConditionDesc> = Vec::new();
                let ghost ncv = no_conds@;
                let g = SystemGraph {
                    graph_info: self.graph_info,
                    graph_type: SystemGraphType::AnonymousSet {
                        members,
                        chained,
                        conditions: no_conds,
                    },
                };
                proof {
                    assert(conds_view(ncv) =~= Seq::<ConditionView>::empty());
                    assert(g@ =~~= pre@.promoted_to_set());
                }
                g
            },
            SystemGraphType::LabeledSet { .. } | SystemGraphType::AnonymousSet { .. } => unreached(),
        }
    }

    /// Push one copy of `condition` onto the condition list of every
    /// transitive non-collection descendant: a collection passes the
    /// condition on to each member in order, every other node receives
    /// its own copy.
    #[verifier::loop_isolation(false)]
    fn distribute_run_condition(self, condition: &ConditionDesc) -> (r: SystemGraph)
        requires
            condition@.send,
        ensures
            r@ == self@.distributed(condition@),
        decreases self,
    {
        let ghost orig = self;
        let SystemGraph { graph_info, graph_type } = self;
        match graph_type {
            SystemGraphType::System { system, mut conditions } => {
                let ghost cs = conditions@;
                conditions.push(new_condition(condition.duplicate()));
                let g = SystemGraph {
                    graph_info,
                    graph_type: SystemGraphType::System { system, conditions },
                };
                proof {
                    lemma_conds_view_push(cs, conditions@.last());
                    assert(g@ =~~= orig@.distributed(condition@));
                }
                g
            },
            SystemGraphType::LabeledSet { set, mut conditions } => {
                let ghost cs = conditions@;
                conditions.push(new_condition(condition.duplicate()));
                let g = SystemGraph {
                    graph_info,
                    graph_type: SystemGraphType::LabeledSet { set, conditions },
                };
                proof {
                    lemma_conds_view_push(cs, conditions@.last());
                    assert(g@ =~~= orig@.distributed(condition@));
                }
                g
            },
            SystemGraphType::AnonymousSet { members, chained, mut conditions } => {
                let ghost cs = conditions@;
                conditions.push(new_condition(condition.duplicate()));
                let g = SystemGraph {
                    graph_info,
                    graph_type: SystemGraphType::AnonymousSet { members, chained, conditions },
                };
                proof {
                    lemma_conds_view_push(cs, conditions@.last());
                    assert(g@ =~~= orig@.distributed(condition@));
                }
                g
            },
            SystemGraphType::Collection { members, chained } => {
                let ghost ms = members@;
                let mut rest = members;
                let mut out: Vec<SystemGraph> = Vec::new();
                while rest.len() > 0
                    invariant
                        condition@.send,
                        out@.len() + rest@.len() == ms.len(),
                        rest@ == ms.subrange(out@.len() as int, ms.len() as int),
                        forall|j: int|
                            0 <= j < out@.len() ==> node_view(#[trigger] out@[j]) == node_view(
                                ms[j],
                            ).distributed(condition@),
                        orig.graph_type matches SystemGraphType::Collection { members: m2, .. }
                            && m2@ == ms,
                    decreases rest@.len(),
                {
                    let ghost k = out@.len() as int;
                    let m = rest.remove(0);
                    proof {
                        assert(m == ms[k]);
                        assert(decreases_to!(orig => orig.graph_type));
                        assert(decreases_to!(orig.graph_type =>
                            orig.graph_type->Collection_members));
                        assert(decreases_to!(orig.graph_type->Collection_members =>
                            orig.graph_type->Collection_members@));
                        assert(decreases_to!(orig.graph_type->Collection_members@ =>
                            orig.graph_type->Collection_members@[k]));
                        assert(decreases_to!(orig => m));
                        assert(rest@ == ms.subrange(k + 1, ms.len() as int));
                    }
                    let d = m.distribute_run_condition(condition);
                    out.push(d);
                }
                let ghost ov = out@;
                let g = SystemGraph {
                    graph_info,
                    graph_type: SystemGraphType::Collection { members: out, chained },
                };
                proof {
                    lemma_nodes_view(ov);
                    lemma_nodes_view(ms);
                    lemma_all_distributed(nodes_view(ms), condition@);
                    assert(ov.len() == ms.len());
                    assert(nodes_view(ov) =~= SystemGraphView::all_distributed(
                        nodes_view(ms),
                        condition@,
                    )) by {
                        assert forall|j: int| 0 <= j < ms.len() implies nodes_view(ov)[j]
                            == SystemGraphView::all_distributed(nodes_view(ms), condition@)[j] by {
                            assert(nodes_view(ov)[j] == node_view(ov[j]));
                            assert(node_view(ov[j]) == node_view(ms[j]).distributed(condition@));
                            assert(nodes_view(ms)[j] == node_view(ms[j]));
                        }
                    }
                    assert(g@ =~~= orig@.distributed(condition@));
                }
                g
            },
        }
    }

    /// Gate every transitive non-collection descendant of this
    /// collection on its own copy of `condition`; the collection
    /// itself gains no conditions.  Only a collection distributes;
    /// `try_distributive_run_if` reports a violation instead of
    /// excluding it.  The condition must be send-safe.
    pub fn distributive_run_if(self, condition: ConditionDesc) -> (r: SystemGraph)
        requires
            self@.graph_type is Collection,
            condition@.send,
        ensures
            r@ == self@.distributed(condition@),
    {
        self.distribute_run_condition(&condition)
    }

    /// Suppress ambiguity warnings between this node and the systems
    /// of `set`: one step of the ambiguity state machine.
    pub fn ambiguous_with(self, set: SetLabel) -> (r: SystemGraph)
        ensures
            r@ == self@.with_ambiguous_with(set),
    {
        let ghost pre = self;
        let SystemGraph { mut graph_info, graph_type } = self;
        ambiguous_with(&mut graph_info, set);
        let g = SystemGraph { graph_info, graph_type };
        proof {
            assert(g@ =~~= pre@.with_ambiguous_with(set));
        }
        g
    }

    /// Suppress ambiguity warnings between this node and every other
    /// system: move the state machine to its absorbing state.
    pub fn ambiguous_with_all(self) -> (r: SystemGraph)
        ensures
            r@ == self@.with_ambiguous_all(),
    {
        let ghost pre = self;
        let SystemGraph { mut graph_info, graph_type } = self;
        graph_info.ambiguous_with = Ambiguity::IgnoreAll;
        let g = SystemGraph { graph_info, graph_type };
        proof {
            assert(g@ =~~= pre@.with_ambiguous_all());
        }
        g
    }
}

impl SystemGraph {
    /// `in_set` on every input: the first violated structural rule, in
    /// the order the builder checks them, is reported as an error.
    pub fn try_in_set(self, parent: SystemGraph) -> (r: Result<SystemGraph, ScheduleError>)
        ensures
            match r {
                Ok(g) => !parent@.contains_system_type_set() && !parent@.contains_base_set()
                    && !self@.contains_base_set() && !parent@.contains_system() && g@
                    == self@.with_parent_set(parent@),
                Err(e) => match e {
                    ScheduleError::SystemTypeSetParent => parent@.contains_system_type_set(),
                    ScheduleError::BaseSetViaInSet => !parent@.contains_system_type_set()
                        && parent@.contains_base_set(),
                    ScheduleError::BaseSetInOtherSet => !parent@.contains_system_type_set()
                        && !parent@.contains_base_set() && self@.contains_base_set(),
                    ScheduleError::SystemAsParentSet => !parent@.contains_system_type_set()
                        && !parent@.contains_base_set() && !self@.contains_base_set()
                        && parent@.contains_system(),
                    _ => false,
                },
            },
    {
        if parent.contains_system_type_set() {
            Err(ScheduleError::SystemTypeSetParent)
        } else if parent.contains_base_set() {
            Err(ScheduleError::BaseSetViaInSet)
        } else if self.contains_base_set() {
            Err(ScheduleError::BaseSetInOtherSet)
        } else if parent.contains_system() {
            Err(ScheduleError::SystemAsParentSet)
        } else {
            Ok(self.in_set(parent))
        }
    }

    /// `in_base_set` on every input: a system-type identity is
    /// rejected first, then an identity that is not a base set.
    pub fn try_in_base_set(self, set: SetLabel) -> (r: Result<SystemGraph, ScheduleError>)
        ensures
            match r {
                Ok(g) => !set.spec_is_system_type() && set.spec_is_base() && g@
                    == self@.with_base_set(set),
                Err(e) => match e {
                    ScheduleError::SystemTypeSetAsBase => set.spec_is_system_type(),
                    ScheduleError::NonBaseSetViaInBaseSet => !set.spec_is_system_type()
                        && !set.spec_is_base(),
                    _ => false,
                },
            },
    {
        if set.is_system_type() {
            Err(ScheduleError::SystemTypeSetAsBase)
        } else if !set.is_base() {
            Err(ScheduleError::NonBaseSetViaInBaseSet)
        } else {
            Ok(self.in_base_set(set))
        }
    }

    /// `run_if` on every input: a collection is rejected first, then a
    /// condition that is not send-safe, with an error naming it.
    pub fn try_run_if(self, condition: ConditionDesc) -> (r: Result<SystemGraph, ScheduleError>)
        ensures
            match r {
                Ok(g) => !(self@.graph_type is Collection) && condition@.send && g@
                    == self@.with_condition(condition@),
                Err(e) => (self@.graph_type is Collection && e is RunIfOnCollection) || (!(
                self@.graph_type is Collection) && !condition@.send && (e matches ScheduleError::NonSendCondition { name }
                    && name@ == condition@.name)),
            },
    {
        let is_collection = matches!(&self.graph_type, SystemGraphType::Collection { .. });
        if is_collection {
            Err(ScheduleError::RunIfOnCollection)
        } else if !condition.send {
            Err(ScheduleError::NonSendCondition { name: condition.name })
        } else {
            Ok(self.run_if(condition))
        }
    }

    /// `distributive_run_if` on every input: a non-collection is
    /// rejected first, then a condition that is not send-safe.
    pub fn try_distributive_run_if(self, condition: ConditionDesc) -> (r: Result<
        SystemGraph,
        ScheduleError,
    >)
        ensures
            match r {
                Ok(g) => self@.graph_type is Collection && condition@.send && g@
                    == self@.distributed(condition@),
                Err(e) => (!(self@.graph_type is Collection)
                    && e is DistributiveRunIfOnNonCollection) || (self@.graph_type is Collection
                    && !condition@.send && (e matches ScheduleError::NonSendCondition { name }
                    && name@ == condition@.name)),
            },
    {
        let is_collection = matches!(&self.graph_type, SystemGraphType::Collection { .. });
        if !is_collection {
            Err(ScheduleError::DistributiveRunIfOnNonCollection)
        } else if !condition.send {
            Err(ScheduleError::NonSendCondition { name: condition.name })
        } else {
            Ok(self.distributive_run_if(condition))
        }
    }

    /// `chain` on every input: a node without an ordered member list
    /// is rejected.
    pub fn try_chain(self) -> (r: Result<SystemGraph, ScheduleError>)
        ensures
            match r {
                Ok(g) => (self@.graph_type is AnonymousSet || self@.graph_type is Collection)
                    && g@ == self@.with_chained(),
                Err(e) => (self@.graph_type is System || self@.graph_type is LabeledSet)
                    && e is ChainOnLeaf,
            },
    {
        let chainable = matches!(
            &self.graph_type,
            SystemGraphType::AnonymousSet { .. } | SystemGraphType::Collection { .. }
        );
        if chainable {
            Ok(self.chain())
        } else {
            Err(ScheduleError::ChainOnLeaf)
        }
    }

    /// `into_set` on every input: a node that is already a set is
    /// rejected.
    pub fn try_into_set(self) -> (r: Result<SystemGraph, ScheduleError>)
        ensures
            match r {
                Ok(g) => (self@.graph_type is System || self@.graph_type is Collection) && g@
                    == self@.promoted_to_set(),
                Err(e) => (self@.graph_type is LabeledSet || self@.graph_type is AnonymousSet)
                    && e is IntoSetOnSet,
            },
    {
        let already_set = matches!(
            &self.graph_type,
            SystemGraphType::LabeledSet { .. } | SystemGraphType::AnonymousSet { .. }
        );
        if already_set {
            Err(ScheduleError::IntoSetOnSet)
        } else {
            Ok(self.into_set())
        }
    }
}

/// The ambiguity state-machine step on a graph-info record: `Check`
/// moves to suppression against `set`; an existing suppression list
/// accumulates `set`; `IgnoreAll` stays `IgnoreAll`.
pub fn ambiguous_with(graph_info: &mut GraphInfo, set: SetLabel)
    ensures
        final(graph_info)@ == (GraphInfoView {
            ambiguous_with: match old(graph_info)@.ambiguous_with {
                AmbiguityView::Check => AmbiguityView::IgnoreWithSet(seq![set]),
                AmbiguityView::IgnoreWithSet(sets) => AmbiguityView::IgnoreWithSet(sets.push(set)),
                AmbiguityView::IgnoreAll => AmbiguityView::IgnoreAll,
            },
            ..old(graph_info)@
        }),
{
    let ghost pre = *graph_info;
    let mut taken = Ambiguity::Check;
    core::mem::swap(&mut taken, &mut graph_info.ambiguous_with);
    match taken {
        Ambiguity::Check => {
            let mut sets: Vec<SetLabel> = Vec::new();
            sets.push(set);
            graph_info.ambiguous_with = Ambiguity::IgnoreWithSet(sets);
            proof {
                assert(sets@ =~= seq![set]);
                assert(graph_info@ =~~= (GraphInfoView {
                    ambiguous_with: AmbiguityView::IgnoreWithSet(seq![set]),
                    ..pre@
                }));
            }
        },
        Ambiguity::IgnoreWithSet(mut sets) => {
            sets.push(set);
            graph_info.ambiguous_with = Ambiguity::IgnoreWithSet(sets);
            proof {
                assert(graph_info@ =~~= (GraphInfoView {
                    ambiguous_with: ambiguity_view(graph_info.ambiguous_with),
                    ..pre@
                }));
            }
        },
        Ambiguity::IgnoreAll => {
            graph_info.ambiguous_with = Ambiguity::IgnoreAll;
            proof {
                assert(graph_info@ =~~= (GraphInfoView {
                    ambiguous_with: AmbiguityView::IgnoreAll,
                    ..pre@
                }));
            }
        },
    }
}

} // verus!

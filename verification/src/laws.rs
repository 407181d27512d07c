//! The laws of the builder, stated and proved over the mathematical
//! model.
//!
//! Well-formedness (`SystemGraphView::wf`) is established by the
//! lifting layer and preserved by every builder verb; the lemmas here
//! prove preservation for each verb, together with the algebraic laws
//! of the verbs: the absorbing ambiguity state, idempotence and
//! convergence of the toggles, the overwrite semantics of base-set
//! choice, and what distribution of a condition does to every
//! descendant.

use vstd::prelude::*;

use crate::config::lemma_all_distributed;
use crate::graph::{DependencyKind, DependencyView, GraphTypeView, SystemGraphView};
use crate::set::SetLabel;
use crate::system::ConditionView;

verus! {

/// Two nodes whose graph types have the same shape (same variant,
/// same set identity, same collection members) contain the same
/// things, whatever their graph info.
pub proof fn lemma_contains_same_shape(a: SystemGraphView, b: SystemGraphView)
    requires
        (a.graph_type is System) == (b.graph_type is System),
        (a.graph_type is LabeledSet) == (b.graph_type is LabeledSet),
        (a.graph_type is Collection) == (b.graph_type is Collection),
        a.graph_type matches GraphTypeView::LabeledSet { set: s1, .. } ==> (b.graph_type matches GraphTypeView::LabeledSet { set: s2, .. }
            && s1 == s2),
        a.graph_type matches GraphTypeView::Collection { members: m1, .. } ==> (b.graph_type matches GraphTypeView::Collection { members: m2, .. }
            && m1 == m2),
    ensures
        a.contains_system() == b.contains_system(),
        a.contains_system_type_set() == b.contains_system_type_set(),
        a.contains_base_set() == b.contains_base_set(),
{
    if a.graph_type is Collection {
        let m1 = a.graph_type->Collection_members;
        let m2 = b.graph_type->Collection_members;
        assert(m1 == m2);
        assert(a.contains_system() == b.contains_system()) by {
            if a.contains_system() {
                let i = choose|i: int|
                    0 <= i < m1.len() && (#[trigger] m1[i]).contains_system();
                assert(m2[i].contains_system());
                assert(b.contains_system());
            }
            if b.contains_system() {
                let i = choose|i: int|
                    0 <= i < m2.len() && (#[trigger] m2[i]).contains_system();
                assert(m1[i].contains_system());
                assert(a.contains_system());
            }
        }
        assert(a.contains_system_type_set() == b.contains_system_type_set()) by {
            if a.contains_system_type_set() {
                let i = choose|i: int|
                    0 <= i < m1.len() && (#[trigger] m1[i]).contains_system_type_set();
                assert(m2[i].contains_system_type_set());
                assert(b.contains_system_type_set());
            }
            if b.contains_system_type_set() {
                let i = choose|i: int|
                    0 <= i < m2.len() && (#[trigger] m2[i]).contains_system_type_set();
                assert(m1[i].contains_system_type_set());
                assert(a.contains_system_type_set());
            }
        }
        assert(a.contains_base_set() == b.contains_base_set()) by {
            if a.contains_base_set() {
                let i = choose|i: int|
                    0 <= i < m1.len() && (#[trigger] m1[i]).contains_base_set();
                assert(m2[i].contains_base_set());
                assert(b.contains_base_set());
            }
            if b.contains_base_set() {
                let i = choose|i: int|
                    0 <= i < m2.len() && (#[trigger] m2[i]).contains_base_set();
                assert(m1[i].contains_base_set());
                assert(a.contains_base_set());
            }
        }
    }
}

/// A node is well formed once its parents and dependencies are those
/// of a well-formed node, its members are those of a well-formed
/// node, its base-set choice observes the base-set rules, and it is
/// no base set while it sits inside a parent set.
pub proof fn lemma_wf_same_shape(g: SystemGraphView, post: SystemGraphView)
    requires
        g.wf(),
        post.graph_info.sets == g.graph_info.sets,
        post.graph_info.dependencies == g.graph_info.dependencies,
        post.graph_info.base_set matches Some(b) ==> b.spec_is_base() && !b.spec_is_system_type(),
        post.members() == g.members(),
        post.graph_info.sets.len() > 0 ==> !post.contains_base_set(),
    ensures
        post.wf(),
{
    assert forall|i: int| 0 <= i < post.graph_info.sets.len() implies {
        let p = #[trigger] post.graph_info.sets[i];
        &&& p.wf()
        &&& !p.contains_system()
        &&& !p.contains_base_set()
        &&& !p.contains_system_type_set()
    } by {
        let q = g.graph_info.sets[i];
        assert(q.wf());
        assert(!q.contains_system());
        assert(!q.contains_base_set());
        assert(!q.contains_system_type_set());
        assert(post.graph_info.sets[i] == q);
    }
    assert forall|i: int| 0 <= i < post.graph_info.dependencies.len() implies (
    #[trigger] post.graph_info.dependencies[i]).graph.wf() by {
        assert(g.graph_info.dependencies[i].graph.wf());
        assert(post.graph_info.dependencies[i] == g.graph_info.dependencies[i]);
    }
    assert forall|i: int| 0 <= i < post.members().len() implies (
    #[trigger] post.members()[i]).wf() by {
        assert(g.members()[i].wf());
        assert(post.members()[i] == g.members()[i]);
    }
}

/// Recording a dependency preserves well-formedness, keeps every
/// earlier dependency in place and appends the new one.
pub proof fn lemma_with_dependency_wf(g: SystemGraphView, kind: DependencyKind, other: SystemGraphView)
    requires
        g.wf(),
        other.wf(),
    ensures
        g.with_dependency(kind, other).wf(),
        g.with_dependency(kind, other).graph_info.dependencies == g.graph_info.dependencies.push(
            DependencyView { kind, graph: other },
        ),
        g.with_dependency(kind, other).graph_info.sets == g.graph_info.sets,
        g.with_dependency(kind, other).members() == g.members(),
{
    let post = g.with_dependency(kind, other);
    lemma_contains_same_shape(post, g);
    let pre_deps = g.graph_info.dependencies;
    assert forall|i: int| 0 <= i < post.graph_info.dependencies.len() implies (
    #[trigger] post.graph_info.dependencies[i]).graph.wf() by {
        if i < pre_deps.len() {
            assert(pre_deps[i].graph.wf());
            assert(post.graph_info.dependencies[i] == pre_deps[i]);
        } else {
            assert(post.graph_info.dependencies[i].graph == other);
        }
    }
    assert forall|i: int| 0 <= i < post.graph_info.sets.len() implies {
        let p = #[trigger] post.graph_info.sets[i];
        &&& p.wf()
        &&& !p.contains_system()
        &&& !p.contains_base_set()
        &&& !p.contains_system_type_set()
    } by {
        let q = g.graph_info.sets[i];
        assert(q.wf());
        assert(!q.contains_system());
        assert(!q.contains_base_set());
        assert(!q.contains_system_type_set());
        assert(post.graph_info.sets[i] == q);
    }
    assert forall|i: int| 0 <= i < post.members().len() implies (
    #[trigger] post.members()[i]).wf() by {
        assert(g.members()[i].wf());
        assert(post.members()[i] == g.members()[i]);
    }
}

/// Joining a parent set preserves well-formedness when the parent
/// observes the structural rules; earlier parents keep their places
/// and the new parent is appended.
pub proof fn lemma_with_parent_set_wf(g: SystemGraphView, parent: SystemGraphView)
    requires
        g.wf(),
        parent.wf(),
        !parent.contains_system(),
        !parent.contains_base_set(),
        !parent.contains_system_type_set(),
        !g.contains_base_set(),
    ensures
        g.with_parent_set(parent).wf(),
        g.with_parent_set(parent).graph_info.sets == g.graph_info.sets.push(parent),
        g.with_parent_set(parent).graph_info.dependencies == g.graph_info.dependencies,
        g.with_parent_set(parent).members() == g.members(),
{
    let post = g.with_parent_set(parent);
    lemma_contains_same_shape(post, g);
    let pre_sets = g.graph_info.sets;
    assert forall|i: int| 0 <= i < post.graph_info.sets.len() implies {
        let p = #[trigger] post.graph_info.sets[i];
        &&& p.wf()
        &&& !p.contains_system()
        &&& !p.contains_base_set()
        &&& !p.contains_system_type_set()
    } by {
        if i < pre_sets.len() {
            let q = pre_sets[i];
            assert(q.wf());
            assert(!q.contains_system());
            assert(!q.contains_base_set());
            assert(!q.contains_system_type_set());
            assert(post.graph_info.sets[i] == q);
        } else {
            assert(post.graph_info.sets[i] == parent);
        }
    }
    assert forall|i: int| 0 <= i < post.graph_info.dependencies.len() implies (
    #[trigger] post.graph_info.dependencies[i]).graph.wf() by {
        assert(g.graph_info.dependencies[i].graph.wf());
        assert(post.graph_info.dependencies[i] == g.graph_info.dependencies[i]);
    }
    assert forall|i: int| 0 <= i < post.members().len() implies (
    #[trigger] post.members()[i]).wf() by {
        assert(g.members()[i].wf());
        assert(post.members()[i] == g.members()[i]);
    }
}

/// Choosing a base set preserves well-formedness when the identity is
/// a base set and not system-type; the choice replaces any earlier
/// one and leaves every ordered list untouched.
pub proof fn lemma_with_base_set_wf(g: SystemGraphView, base: SetLabel)
    requires
        g.wf(),
        base.spec_is_base(),
        !base.spec_is_system_type(),
    ensures
        g.with_base_set(base).wf(),
        g.with_base_set(base).graph_info.base_set == Some(base),
        g.with_base_set(base).graph_info.sets == g.graph_info.sets,
        g.with_base_set(base).graph_info.dependencies == g.graph_info.dependencies,
        g.with_base_set(base).members() == g.members(),
{
    let post = g.with_base_set(base);
    lemma_contains_same_shape(post, g);
    lemma_wf_same_shape(g, post);
}

/// The default-base-set toggle preserves well-formedness and touches
/// nothing else.
pub proof fn lemma_with_default_base_set_wf(g: SystemGraphView, value: bool)
    requires
        g.wf(),
    ensures
        g.with_default_base_set(value).wf(),
        g.with_default_base_set(value).graph_info.sets == g.graph_info.sets,
        g.with_default_base_set(value).graph_info.dependencies == g.graph_info.dependencies,
        g.with_default_base_set(value).members() == g.members(),
{
    let post = g.with_default_base_set(value);
    lemma_contains_same_shape(post, g);
    lemma_wf_same_shape(g, post);
}

/// An ambiguity step preserves well-formedness and touches nothing
/// but the ambiguity field.
pub proof fn lemma_with_ambiguous_wf(g: SystemGraphView, set: SetLabel)
    requires
        g.wf(),
    ensures
        g.with_ambiguous_with(set).wf(),
        g.with_ambiguous_all().wf(),
        g.with_ambiguous_with(set).graph_info.sets == g.graph_info.sets,
        g.with_ambiguous_with(set).graph_info.dependencies == g.graph_info.dependencies,
        g.with_ambiguous_with(set).members() == g.members(),
        g.with_ambiguous_all().graph_info.sets == g.graph_info.sets,
        g.with_ambiguous_all().graph_info.dependencies == g.graph_info.dependencies,
        g.with_ambiguous_all().members() == g.members(),
{
    let post1 = g.with_ambiguous_with(set);
    lemma_contains_same_shape(post1, g);
    lemma_wf_same_shape(g, post1);
    let post2 = g.with_ambiguous_all();
    lemma_contains_same_shape(post2, g);
    lemma_wf_same_shape(g, post2);
}

/// Attaching a condition preserves well-formedness; the node's own
/// condition list gains exactly the one new condition at its end, and
/// members, parents and dependencies are untouched.  This is the
/// `run_if` law: on a set node, descendants' condition lists are
/// unchanged.
pub proof fn lemma_with_condition_wf(g: SystemGraphView, c: ConditionView)
    requires
        g.wf(),
        !(g.graph_type is Collection),
    ensures
        g.with_condition(c).wf(),
        g.with_condition(c).conditions() == g.conditions().push(c),
        g.with_condition(c).members() == g.members(),
        g.with_condition(c).graph_info == g.graph_info,
{
    let post = g.with_condition(c);
    lemma_contains_same_shape(post, g);
    lemma_wf_same_shape(g, post);
}

/// Chaining preserves well-formedness and keeps the member list
/// exactly as it was, in order.
pub proof fn lemma_with_chained_wf(g: SystemGraphView)
    requires
        g.wf(),
    ensures
        g.with_chained().wf(),
        g.with_chained().members() == g.members(),
        g.with_chained().conditions() == g.conditions(),
        g.with_chained().graph_info == g.graph_info,
{
    let post = g.with_chained();
    lemma_contains_same_shape(post, g);
    lemma_wf_same_shape(g, post);
}

/// Promotion to an anonymous set preserves well-formedness.  On a
/// collection it keeps member order, the chaining flag and the graph
/// info, and owns no conditions; on a single work unit it wraps the
/// unit as the sole member of a fresh set node.
pub proof fn lemma_promoted_to_set_wf(g: SystemGraphView)
    requires
        g.wf(),
    ensures
        g.promoted_to_set().wf(),
        g.promoted_to_set().graph_type is AnonymousSet,
        g.promoted_to_set().conditions() == Seq::<ConditionView>::empty(),
        g.graph_type is Collection ==> g.promoted_to_set().members() == g.members()
            && g.promoted_to_set().graph_info == g.graph_info && (g.promoted_to_set().graph_type
            matches GraphTypeView::AnonymousSet { chained, .. }
            && chained == g.graph_type->Collection_chained),
        !(g.graph_type is Collection) ==> g.promoted_to_set().members() == seq![g],
{
    let post = g.promoted_to_set();
    assert(!post.contains_base_set());
    if g.graph_type is Collection {
        lemma_wf_same_shape(g, post);
    } else {
        assert forall|i: int| 0 <= i < post.members().len() implies (
        #[trigger] post.members()[i]).wf() by {
            assert(post.members()[i] == g);
        }
    }
}

/// Distribution changes no graph info and no node variant anywhere in
/// the tree: what a node contains is what it contained before.
pub proof fn lemma_distributed_preserves_structure(g: SystemGraphView, c: ConditionView)
    ensures
        g.distributed(c).graph_info == g.graph_info,
        g.distributed(c).contains_system() == g.contains_system(),
        g.distributed(c).contains_system_type_set() == g.contains_system_type_set(),
        g.distributed(c).contains_base_set() == g.contains_base_set(),
        (g.distributed(c).graph_type is Collection) == (g.graph_type is Collection),
        g.distributed(c).members().len() == g.members().len(),
    decreases g,
{
    let post = g.distributed(c);
    match g.graph_type {
        GraphTypeView::Collection { members, chained } => {
            lemma_all_distributed(members, c);
            let pm = SystemGraphView::all_distributed(members, c);
            assert(post.graph_type == (GraphTypeView::Collection { members: pm, chained }));
            assert(post.graph_type->Collection_members == pm);
            assert forall|i: int| 0 <= i < members.len() implies {
                &&& ((#[trigger] pm[i]).contains_system() == members[i].contains_system())
                &&& (pm[i].contains_system_type_set() == members[i].contains_system_type_set())
                &&& (pm[i].contains_base_set() == members[i].contains_base_set())
            } by {
                lemma_distributed_preserves_structure(members[i], c);
            }
            assert(post.contains_system() == g.contains_system()) by {
                if post.contains_system() {
                    let i = choose|i: int|
                        0 <= i < pm.len() && (#[trigger] pm[i]).contains_system();
                    assert(members[i].contains_system());
                    assert(g.contains_system());
                }
                if g.contains_system() {
                    let i = choose|i: int|
                        0 <= i < members.len() && (#[trigger] members[i]).contains_system();
                    assert(pm[i].contains_system());
                    assert(post.contains_system());
                }
            }
            assert(post.contains_system_type_set() == g.contains_system_type_set()) by {
                if post.contains_system_type_set() {
                    let i = choose|i: int|
                        0 <= i < pm.len() && (#[trigger] pm[i]).contains_system_type_set();
                    assert(members[i].contains_system_type_set());
                    assert(g.contains_system_type_set());
                }
                if g.contains_system_type_set() {
                    let i = choose|i: int|
                        0 <= i < members.len() && (
                        #[trigger] members[i]).contains_system_type_set();
                    assert(pm[i].contains_system_type_set());
                    assert(post.contains_system_type_set());
                }
            }
            assert(post.contains_base_set() == g.contains_base_set()) by {
                if post.contains_base_set() {
                    let i = choose|i: int|
                        0 <= i < pm.len() && (#[trigger] pm[i]).contains_base_set();
                    assert(members[i].contains_base_set());
                    assert(g.contains_base_set());
                }
                if g.contains_base_set() {
                    let i = choose|i: int|
                        0 <= i < members.len() && (#[trigger] members[i]).contains_base_set();
                    assert(pm[i].contains_base_set());
                    assert(post.contains_base_set());
                }
            }
        },
        _ => {},
    }
}

/// Distribution preserves well-formedness.
pub proof fn lemma_distributed_wf(g: SystemGraphView, c: ConditionView)
    requires
        g.wf(),
    ensures
        g.distributed(c).wf(),
    decreases g,
{
    let post = g.distributed(c);
    lemma_distributed_preserves_structure(g, c);
    assert forall|i: int| 0 <= i < post.graph_info.sets.len() implies {
        let p = #[trigger] post.graph_info.sets[i];
        &&& p.wf()
        &&& !p.contains_system()
        &&& !p.contains_base_set()
        &&& !p.contains_system_type_set()
    } by {
        let q = g.graph_info.sets[i];
        assert(q.wf());
        assert(!q.contains_system());
        assert(!q.contains_base_set());
        assert(!q.contains_system_type_set());
        assert(post.graph_info.sets[i] == q);
    }
    assert forall|i: int| 0 <= i < post.graph_info.dependencies.len() implies (
    #[trigger] post.graph_info.dependencies[i]).graph.wf() by {
        assert(g.graph_info.dependencies[i].graph.wf());
        assert(post.graph_info.dependencies[i] == g.graph_info.dependencies[i]);
    }
    match g.graph_type {
        GraphTypeView::Collection { members, chained } => {
            lemma_all_distributed(members, c);
            assert forall|i: int| 0 <= i < post.members().len() implies (
            #[trigger] post.members()[i]).wf() by {
                assert(g.members()[i].wf());
                assert(post.members()[i] == members[i].distributed(c));
                lemma_distributed_wf(members[i], c);
            }
        },
        _ => {
            assert forall|i: int| 0 <= i < post.members().len() implies (
            #[trigger] post.members()[i]).wf() by {
                assert(g.members()[i].wf());
                assert(post.members()[i] == g.members()[i]);
            }
        },
    }
}

/// The law of `distributive_run_if`: the result carries, at each
/// transitive non-collection descendant, exactly the descendant's old
/// conditions with one copy of the condition appended; collections
/// pass the condition on without keeping one, and nothing else in the
/// tree changes.
pub open spec fn distributes_once(pre: SystemGraphView, post: SystemGraphView, c: ConditionView) -> bool
    decreases pre,
{
    match pre.graph_type {
        GraphTypeView::Collection { members, chained } => {
            &&& post.graph_info == pre.graph_info
            &&& post.graph_type matches GraphTypeView::Collection { members: pm, chained: pc }
                && pc == chained && pm.len() == members.len() && (forall|i: int|
                0 <= i < members.len() ==> distributes_once(#[trigger] members[i], pm[i], c))
        },
        _ => post == pre.with_condition(c),
    }
}

/// Distributing a condition over a node distributes it exactly once
/// to every transitive non-collection descendant.
pub proof fn lemma_distribute_adds_one_copy(g: SystemGraphView, c: ConditionView)
    ensures
        distributes_once(g, g.distributed(c), c),
    decreases g,
{
    match g.graph_type {
        GraphTypeView::Collection { members, chained } => {
            lemma_all_distributed(members, c);
            let pm = SystemGraphView::all_distributed(members, c);
            assert forall|i: int| 0 <= i < members.len() implies distributes_once(
                #[trigger] members[i],
                pm[i],
                c,
            ) by {
                lemma_distribute_adds_one_copy(members[i], c);
            }
        },
        _ => {},
    }
}

/// The ambiguity state machine never leaves `IgnoreAll`: once a node
/// suppresses ambiguity against everything, both ambiguity verbs
/// leave it exactly as it is.
pub proof fn lemma_ignore_all_absorbing(g: SystemGraphView, set: SetLabel)
    requires
        g.graph_info.ambiguous_with is IgnoreAll,
    ensures
        g.with_ambiguous_with(set) == g,
        g.with_ambiguous_all() == g,
{
    assert(g.with_ambiguous_with(set).graph_info =~= g.graph_info);
    assert(g.with_ambiguous_with(set) =~= g);
    assert(g.with_ambiguous_all().graph_info =~= g.graph_info);
    assert(g.with_ambiguous_all() =~= g);
}

/// Suppressing ambiguity against everything is idempotent.
pub proof fn lemma_ambiguous_all_idempotent(g: SystemGraphView)
    ensures
        g.with_ambiguous_all().with_ambiguous_all() == g.with_ambiguous_all(),
{
    lemma_ignore_all_absorbing(g.with_ambiguous_all(), SetLabel::Anonymous { id: 0 });
}

/// The default-base-set toggle converges: clearing it and then
/// setting it is the same as setting it at once, and in general only
/// the last value remains.
pub proof fn lemma_default_base_set_converges(g: SystemGraphView, first: bool, second: bool)
    ensures
        g.with_default_base_set(first).with_default_base_set(second) == g.with_default_base_set(
            second,
        ),
{
    assert(g.with_default_base_set(first).with_default_base_set(second).graph_info
        =~= g.with_default_base_set(second).graph_info);
    assert(g.with_default_base_set(first).with_default_base_set(second) =~= g.with_default_base_set(
        second,
    ));
}

/// Choosing a base set twice overwrites: only the second choice
/// remains.
pub proof fn lemma_base_set_overwrites(g: SystemGraphView, first: SetLabel, second: SetLabel)
    ensures
        g.with_base_set(first).with_base_set(second) == g.with_base_set(second),
{
    assert(g.with_base_set(first).with_base_set(second).graph_info =~= g.with_base_set(
        second,
    ).graph_info);
    assert(g.with_base_set(first).with_base_set(second) =~= g.with_base_set(second));
}

/// The empty tuple lifts to an empty collection, and chaining it is
/// legal and leaves it with no members to order.
pub proof fn lemma_empty_collection_chain()
    ensures
        crate::graph::lifted_collection(Seq::empty()).members() == Seq::<SystemGraphView>::empty(),
        crate::graph::lifted_collection(Seq::empty()).with_chained().members() == Seq::<
            SystemGraphView,
        >::empty(),
        crate::graph::lifted_collection(Seq::empty()).with_chained().graph_type
            == (GraphTypeView::Collection { members: Seq::empty(), chained: true }),
{
}

/// A single element lifts to a one-member collection, not a bare
/// node.
pub proof fn lemma_singleton_collection(m: SystemGraphView)
    ensures
        crate::graph::lifted_collection(seq![m]).graph_type is Collection,
        crate::graph::lifted_collection(seq![m]).members() == seq![m],
{
}

} // verus!

use schedule_dsl::error::ScheduleError;
use schedule_dsl::graph::{Ambiguity, DependencyKind, SystemGraph, SystemGraphType};
use schedule_dsl::set::{SetLabel, SystemTypeSet};
use schedule_dsl::system::{ConditionDesc, SystemDesc};

fn system(function: u64, name: &str) -> SystemGraph {
    SystemGraph::from_system(SystemDesc::new(function, name.to_string(), true))
}

fn named_set(label: u64) -> SystemGraph {
    SystemGraph::from_set(SetLabel::named(label, false))
}

fn base_set(label: u64) -> SystemGraph {
    SystemGraph::from_set(SetLabel::named(label, true))
}

fn condition(name: &str) -> ConditionDesc {
    ConditionDesc::new(name.to_string(), true)
}

fn member_names(members: &[SystemGraph]) -> Vec<String> {
    members
        .iter()
        .map(|m| match &m.graph_type {
            SystemGraphType::System { system, .. } => system.name.clone(),
            _ => panic!("expected a system node"),
        })
        .collect()
}

#[test]
fn simple_order() {
    let graph = SystemGraph::collection(vec![system(1, "a"), system(2, "b")]).chain();
    match &graph.graph_type {
        SystemGraphType::Collection { members, chained } => {
            assert!(*chained);
            assert_eq!(member_names(members), vec!["a".to_string(), "b".to_string()]);
        }
        _ => panic!("expected a collection"),
    }
}

#[test]
fn named_set_membership() {
    let graph = system(1, "a").in_set(named_set(10));
    assert!(graph.graph_info.base_set.is_none());
    assert_eq!(graph.graph_info.sets.len(), 1);
    match &graph.graph_info.sets[0].graph_type {
        SystemGraphType::LabeledSet { set, .. } => {
            assert_eq!(*set, SetLabel::named(10, false));
        }
        _ => panic!("expected a set node"),
    }
}

#[test]
fn base_set_rejection() {
    let err = base_set(10).try_in_set(named_set(11)).unwrap_err();
    assert!(matches!(err, ScheduleError::BaseSetInOtherSet));
    assert_eq!(
        err.message(),
        "Base system sets cannot be added to other sets."
    );
}

#[test]
fn distributive_condition() {
    let graph = SystemGraph::collection(vec![system(1, "a"), system(2, "b"), system(3, "c")])
        .distributive_run_if(condition("tick"));
    match &graph.graph_type {
        SystemGraphType::Collection { members, chained } => {
            assert!(!*chained);
            assert_eq!(members.len(), 3);
            for member in members {
                match &member.graph_type {
                    SystemGraphType::System { conditions, .. } => {
                        assert_eq!(conditions.len(), 1);
                        assert_eq!(conditions[0].name, "tick");
                    }
                    _ => panic!("expected a system node"),
                }
            }
        }
        _ => panic!("expected a collection with no conditions of its own"),
    }
}

#[test]
fn group_condition_requires_into_set() {
    let err = SystemGraph::collection(vec![system(1, "a"), system(2, "b")])
        .try_run_if(condition("gate"))
        .unwrap_err();
    assert!(matches!(err, ScheduleError::RunIfOnCollection));
    assert_eq!(
        err.message(),
        "'run_if' cannot be used on a collection. Use 'into_set' first, or 'distributive_run_if'."
    );

    let graph = SystemGraph::collection(vec![system(1, "a"), system(2, "b")])
        .into_set()
        .run_if(condition("gate"));
    match &graph.graph_type {
        SystemGraphType::AnonymousSet { members, chained, conditions } => {
            assert!(!*chained);
            assert_eq!(member_names(members), vec!["a".to_string(), "b".to_string()]);
            assert_eq!(conditions.len(), 1);
            assert_eq!(conditions[0].name, "gate");
        }
        _ => panic!("expected an anonymous set"),
    }
}

#[test]
fn ambiguity_absorbing_state() {
    let graph = system(1, "a")
        .ambiguous_with(SetLabel::named(10, false))
        .ambiguous_with_all()
        .ambiguous_with(SetLabel::named(11, false));
    assert!(matches!(graph.graph_info.ambiguous_with, Ambiguity::IgnoreAll));
}

#[test]
fn ambiguity_accumulates_before_ignore_all() {
    let graph = system(1, "a")
        .ambiguous_with(SetLabel::named(10, false))
        .ambiguous_with(SetLabel::named(11, false));
    match &graph.graph_info.ambiguous_with {
        Ambiguity::IgnoreWithSet(sets) => {
            assert_eq!(
                sets.as_slice(),
                &[SetLabel::named(10, false), SetLabel::named(11, false)]
            );
        }
        _ => panic!("expected suppression against the two sets"),
    }
}

#[test]
fn ambiguous_with_all_is_idempotent() {
    let graph = system(1, "a").ambiguous_with_all().ambiguous_with_all();
    assert!(matches!(graph.graph_info.ambiguous_with, Ambiguity::IgnoreAll));
}

#[test]
fn empty_tuple_lifts_to_empty_collection() {
    let graph = SystemGraph::collection(Vec::new()).chain();
    match &graph.graph_type {
        SystemGraphType::Collection { members, chained } => {
            assert!(*chained);
            assert!(members.is_empty());
        }
        _ => panic!("expected a collection"),
    }
    assert!(!graph.graph_info.add_default_base_set);
}

#[test]
fn single_element_tuple_lifts_to_one_member_collection() {
    let graph = SystemGraph::collection(vec![system(1, "a")]);
    match &graph.graph_type {
        SystemGraphType::Collection { members, chained } => {
            assert!(!*chained);
            assert_eq!(member_names(members), vec!["a".to_string()]);
        }
        _ => panic!("expected a collection, not a bare node"),
    }
}

#[test]
fn in_base_set_overwrites() {
    let graph = system(1, "a")
        .in_base_set(SetLabel::named(10, true))
        .in_base_set(SetLabel::named(11, true));
    assert_eq!(graph.graph_info.base_set, Some(SetLabel::named(11, true)));
}

#[test]
fn default_base_set_toggle_converges() {
    let graph = system(1, "a").no_default_base_set().in_default_base_set();
    assert!(graph.graph_info.add_default_base_set);
    let direct = system(1, "a").in_default_base_set();
    assert!(direct.graph_info.add_default_base_set);
    let cleared = system(1, "a").no_default_base_set();
    assert!(!cleared.graph_info.add_default_base_set);
}

#[test]
fn system_nodes_default_into_default_base_set() {
    assert!(system(1, "a").graph_info.add_default_base_set);
    assert!(!named_set(10).graph_info.add_default_base_set);
    assert!(!SystemGraph::collection(Vec::new()).graph_info.add_default_base_set);
}

#[test]
fn before_and_after_record_dependencies_in_order() {
    let graph = system(1, "a").before(named_set(10)).after(named_set(11));
    let deps = &graph.graph_info.dependencies;
    assert_eq!(deps.len(), 2);
    assert_eq!(deps[0].kind, DependencyKind::Before);
    match &deps[0].graph.graph_type {
        SystemGraphType::LabeledSet { set, .. } => assert_eq!(*set, SetLabel::named(10, false)),
        _ => panic!("expected a set node"),
    }
    assert_eq!(deps[1].kind, DependencyKind::After);
    match &deps[1].graph.graph_type {
        SystemGraphType::LabeledSet { set, .. } => assert_eq!(*set, SetLabel::named(11, false)),
        _ => panic!("expected a set node"),
    }
}

#[test]
fn into_set_preserves_collection_contents() {
    let graph = SystemGraph::collection(vec![system(1, "a"), system(2, "b")])
        .chain()
        .before(named_set(10))
        .into_set();
    match &graph.graph_type {
        SystemGraphType::AnonymousSet { members, chained, conditions } => {
            assert!(*chained);
            assert_eq!(member_names(members), vec!["a".to_string(), "b".to_string()]);
            assert!(conditions.is_empty());
        }
        _ => panic!("expected an anonymous set"),
    }
    assert_eq!(graph.graph_info.dependencies.len(), 1);
}

#[test]
fn into_set_wraps_a_single_system() {
    let graph = system(1, "a").into_set();
    match &graph.graph_type {
        SystemGraphType::AnonymousSet { members, chained, conditions } => {
            assert!(!*chained);
            assert_eq!(member_names(members), vec!["a".to_string()]);
            assert!(conditions.is_empty());
        }
        _ => panic!("expected an anonymous set"),
    }
    assert!(!graph.graph_info.add_default_base_set);
}

#[test]
fn system_type_set_cannot_gain_members() {
    let parent = SystemGraph::from_set(SystemTypeSet::new(9).label());
    let err = system(1, "a").try_in_set(parent).unwrap_err();
    assert!(matches!(err, ScheduleError::SystemTypeSetParent));
    assert_eq!(
        err.message(),
        "adding arbitrary systems to a system type set is not allowed"
    );
}

#[test]
fn base_set_requires_in_base_set() {
    let err = system(1, "a").try_in_set(base_set(10)).unwrap_err();
    assert!(matches!(err, ScheduleError::BaseSetViaInSet));
    assert_eq!(
        err.message(),
        "Systems cannot be added to 'base' system sets using 'in_set'. Use 'in_base_set' instead."
    );
}

#[test]
fn systems_cannot_be_parent_sets() {
    let err = system(1, "a").try_in_set(system(2, "b")).unwrap_err();
    assert!(matches!(err, ScheduleError::SystemAsParentSet));
}

#[test]
fn collections_containing_systems_cannot_be_parent_sets() {
    let parent = SystemGraph::collection(vec![named_set(10), system(2, "b")]);
    let err = system(1, "a").try_in_set(parent).unwrap_err();
    assert!(matches!(err, ScheduleError::SystemAsParentSet));
}

#[test]
fn system_type_sets_cannot_be_base_sets() {
    let err = system(1, "a")
        .try_in_base_set(SystemTypeSet::new(9).label())
        .unwrap_err();
    assert!(matches!(err, ScheduleError::SystemTypeSetAsBase));
    assert_eq!(err.message(), "System type sets cannot be base sets.");
}

#[test]
fn normal_sets_require_in_set() {
    let err = system(1, "a")
        .try_in_base_set(SetLabel::named(10, false))
        .unwrap_err();
    assert!(matches!(err, ScheduleError::NonBaseSetViaInBaseSet));
    assert_eq!(
        err.message(),
        "Systems cannot be added to normal sets using 'in_base_set'. Use 'in_set' instead."
    );
}

#[test]
fn distributive_run_if_rejects_non_collections() {
    let err = system(1, "a")
        .try_distributive_run_if(condition("tick"))
        .unwrap_err();
    assert!(matches!(err, ScheduleError::DistributiveRunIfOnNonCollection));
    assert_eq!(
        err.message(),
        "'distributive_run_if' can only be used on a collection."
    );
}

#[test]
fn chain_rejects_leaf_nodes() {
    let err = system(1, "a").try_chain().unwrap_err();
    assert!(matches!(err, ScheduleError::ChainOnLeaf));
    assert_eq!(
        err.message(),
        "'chain' can only be used on nodes with an ordered member list."
    );
    let err = named_set(10).try_chain().unwrap_err();
    assert!(matches!(err, ScheduleError::ChainOnLeaf));
}

#[test]
fn into_set_rejects_sets() {
    let err = named_set(10).try_into_set().unwrap_err();
    assert!(matches!(err, ScheduleError::IntoSetOnSet));
    assert_eq!(
        err.message(),
        "'into_set' cannot be used on a node that is already a set."
    );
    let err = system(1, "a").into_set().try_into_set().unwrap_err();
    assert!(matches!(err, ScheduleError::IntoSetOnSet));
}

#[test]
fn non_send_conditions_are_rejected_by_name() {
    let non_send = ConditionDesc::new("local_only".to_string(), false);
    let err = system(1, "a").try_run_if(non_send).unwrap_err();
    match &err {
        ScheduleError::NonSendCondition { name } => assert_eq!(name, "local_only"),
        _ => panic!("expected a send violation"),
    }
    assert_eq!(
        err.message(),
        format!(
            "Condition `{}` accesses thread-local resources. This is not currently supported.",
            "local_only"
        )
    );
}

#[test]
fn try_new_condition_checks_sendness() {
    let ok = schedule_dsl::config::try_new_condition(condition("fine")).unwrap();
    assert_eq!(ok.name, "fine");
    let err = schedule_dsl::config::try_new_condition(ConditionDesc::new("bad".to_string(), false))
        .unwrap_err();
    assert!(matches!(err, ScheduleError::NonSendCondition { .. }));
}

#[test]
fn run_if_on_sets_stores_on_the_set_itself() {
    let graph = SystemGraph::collection(vec![system(1, "a"), system(2, "b")])
        .into_set()
        .run_if(condition("outer"));
    match &graph.graph_type {
        SystemGraphType::AnonymousSet { members, conditions, .. } => {
            assert_eq!(conditions.len(), 1);
            for member in members {
                match &member.graph_type {
                    SystemGraphType::System { conditions, .. } => assert!(conditions.is_empty()),
                    _ => panic!("expected a system node"),
                }
            }
        }
        _ => panic!("expected an anonymous set"),
    }
}

#[test]
fn distributive_run_if_recurses_through_nested_collections() {
    let inner = SystemGraph::collection(vec![system(1, "a"), system(2, "b")]);
    let graph = SystemGraph::collection(vec![inner, system(3, "c")])
        .distributive_run_if(condition("tick"));
    match &graph.graph_type {
        SystemGraphType::Collection { members, .. } => {
            match &members[0].graph_type {
                SystemGraphType::Collection { members: inner_members, .. } => {
                    for member in inner_members {
                        match &member.graph_type {
                            SystemGraphType::System { conditions, .. } => {
                                assert_eq!(conditions.len(), 1);
                                assert_eq!(conditions[0].name, "tick");
                            }
                            _ => panic!("expected a system node"),
                        }
                    }
                }
                _ => panic!("expected the nested collection to stay a collection"),
            }
            match &members[1].graph_type {
                SystemGraphType::System { conditions, .. } => {
                    assert_eq!(conditions.len(), 1);
                }
                _ => panic!("expected a system node"),
            }
        }
        _ => panic!("expected a collection"),
    }
}

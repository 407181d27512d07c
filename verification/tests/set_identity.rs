use std::collections::hash_map::DefaultHasher;
use std::hash::{Hash, Hasher};

use schedule_dsl::set::{AnonymousSet, IdGenerator, SetLabel, SystemTypeSet};

#[test]
fn same_instance() {
    let mut ids = IdGenerator::new();
    let set_a = AnonymousSet::new(&mut ids);
    let set_b = set_a;

    assert_eq!(set_a, set_b);

    let mut hasher = DefaultHasher::default();
    set_a.hash(&mut hasher);
    let hash_a = hasher.finish();

    let mut hasher = DefaultHasher::default();
    set_b.hash(&mut hasher);
    let hash_b = hasher.finish();

    assert_eq!(hash_a, hash_b);
}

#[test]
fn different_instances() {
    let mut ids = IdGenerator::new();
    let set_a = AnonymousSet::new(&mut ids);
    let set_b = AnonymousSet::new(&mut ids);

    assert_ne!(set_a, set_b);
}

#[test]
fn system_type_sets_for_same_function_are_equal() {
    let a = SystemTypeSet::new(7);
    let b = SystemTypeSet::new(7);
    assert_eq!(a, b);

    let mut hasher = DefaultHasher::default();
    a.hash(&mut hasher);
    let hash_a = hasher.finish();

    let mut hasher = DefaultHasher::default();
    b.hash(&mut hasher);
    let hash_b = hasher.finish();

    assert_eq!(hash_a, hash_b);
    assert_eq!(a.label(), b.label());
}

#[test]
fn system_type_sets_for_different_functions_are_disjoint() {
    let a = SystemTypeSet::new(7);
    let b = SystemTypeSet::new(8);
    assert_ne!(a, b);
    assert_ne!(a.label(), b.label());
}

#[test]
fn anonymous_ids_are_issued_in_order() {
    let mut ids = IdGenerator::new();
    let a = AnonymousSet::new(&mut ids);
    let b = AnonymousSet::new(&mut ids);
    let c = AnonymousSet::new(&mut ids);
    assert_eq!(a.id, 0);
    assert_eq!(b.id, 1);
    assert_eq!(c.id, 2);
    assert_ne!(a, c);
    assert_ne!(b, c);
}

#[test]
fn label_predicates() {
    let named = SetLabel::named(5, false);
    let base = SetLabel::named(6, true);
    let system_type = SystemTypeSet::new(9).label();
    let mut ids = IdGenerator::new();
    let anonymous = AnonymousSet::new(&mut ids).label();

    assert!(!named.is_base() && !named.is_system_type() && !named.is_anonymous());
    assert!(base.is_base() && !base.is_system_type() && !base.is_anonymous());
    assert!(!system_type.is_base() && system_type.is_system_type() && !system_type.is_anonymous());
    assert!(!anonymous.is_base() && !anonymous.is_system_type() && anonymous.is_anonymous());
}

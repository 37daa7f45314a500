use std::any::TypeId;

use edu::engine::{CompA, CompB};
use edu::{Component, ComponentStorage, ECS};

#[test]
fn new_registry_is_empty() {
    let ecs = ECS::new();
    assert!(ecs.entities().is_empty());
    assert_eq!(ecs.next_free_eid(), 1);
    assert_eq!(ecs.component_type_count(), 0);
}

#[test]
fn entities_get_increasing_ids_from_one() {
    let mut ecs = ECS::new();
    assert_eq!(ecs.create_entity(), 1);
    assert_eq!(ecs.create_entity(), 2);
    assert_eq!(ecs.create_entity(), 3);
    assert_eq!(ecs.entities(), &[1u64, 2, 3][..]);
    assert_eq!(ecs.next_free_eid(), 4);
}

#[test]
fn created_ids_are_never_zero_and_never_repeat() {
    let mut ecs = ECS::new();
    let mut seen: Vec<u64> = Vec::new();
    for _ in 0..100 {
        let id = ecs.create_entity();
        assert_ne!(id, 0);
        assert!(!seen.contains(&id));
        seen.push(id);
    }
}

#[test]
fn registering_a_kind_twice_registers_it_once() {
    let mut ecs = ECS::new();
    assert!(ecs.register_component::<CompA>());
    assert!(ecs.register_component::<CompB>());
    assert!(!ecs.register_component::<CompA>());
    assert_eq!(ecs.component_type_count(), 2);
    assert!(ecs.is_component_registered(&TypeId::of::<CompA>()));
    assert!(ecs.is_component_registered(&TypeId::of::<CompB>()));
    assert!(!ecs.is_component_registered(&TypeId::of::<u8>()));
}

struct Health {
    points: u32,
}

impl Component for Health {
    fn new() -> Health {
        Health { points: 100 }
    }
}

#[test]
fn register_with_explicit_type_id() {
    let mut ecs = ECS::new();
    let t = TypeId::of::<Health>();
    assert!(ecs.register_component_with_id::<Health>(t));
    assert!(!ecs.register_component_with_id::<Health>(t));
    assert!(!ecs.register_component::<Health>());
    assert_eq!(ecs.component_type_count(), 1);
}

#[test]
fn registering_leaves_entities_alone() {
    let mut ecs = ECS::new();
    ecs.create_entity();
    ecs.register_component::<CompA>();
    assert_eq!(ecs.entities(), &[1u64][..]);
    assert_eq!(ecs.next_free_eid(), 2);
    assert_eq!(ecs.create_entity(), 2);
}

#[test]
fn component_lookup_and_removal_change_nothing() {
    let mut ecs = ECS::new();
    let id = ecs.create_entity();
    ecs.register_component::<CompA>();
    ecs.get_component::<CompA>(id);
    ecs.remove_component::<CompA>(id);
    assert_eq!(ecs.entities(), &[1u64][..]);
    assert_eq!(ecs.component_type_count(), 1);
    assert!(ecs.is_component_registered(&TypeId::of::<CompA>()));
}

#[test]
fn component_storage_grows_by_one_per_add() {
    let mut storage: ComponentStorage<Health> = ComponentStorage::new();
    assert_eq!(storage.len(), 0);
    storage.add();
    storage.add();
    assert_eq!(storage.len(), 2);
    assert_eq!(Health::new().points, 100);
}

#[test]
fn registration_order_does_not_change_the_registered_kinds() {
    let mut a = ECS::new();
    a.register_component::<CompA>();
    a.register_component::<CompB>();
    let mut b = ECS::new();
    b.register_component::<CompB>();
    b.register_component::<CompA>();
    assert_eq!(a.component_type_count(), b.component_type_count());
    for t in [TypeId::of::<CompA>(), TypeId::of::<CompB>()] {
        assert!(a.is_component_registered(&t));
        assert!(b.is_component_registered(&t));
    }
}

use ignition::ecs::component_pool::ComponentPool;
use ignition::life::annihilation::{EntityDestructor, LifeError};

#[test]
fn deleting_an_entity_updates_component_pool_correctly() {
    let mut pool = ComponentPool::new_with_entity(1, 32 as i32);
    pool.assign_component(2, 21 as i32);

    pool.delete_entity(1);

    assert_eq!(
        pool,
        ComponentPool {
            num_components: 1,

            sparse_array: vec![-1, -1, 0],
            packed_array: vec![2],
            component_array: vec![21],
        },
    );
}

#[test]
fn deleting_last_entity_doesn_t_swap_with_non_existing_component() {
    let mut pool = ComponentPool::new_with_entity(1, 32 as i32);

    pool.delete_entity(1);

    assert_eq!(
        pool,
        ComponentPool {
            num_components: 0,

            sparse_array: vec![-1, -1],
            packed_array: vec![],
            component_array: vec![],
        },
    );
}

#[test]
fn deleting_a_non_existing_entity_does_nothing() {
    let mut pool = ComponentPool::new_with_entity(1, 32 as i32);
    pool.delete_entity(0);

    assert_eq!(
        pool,
        ComponentPool {
            num_components: 1,

            sparse_array: vec![-1, 0],
            packed_array: vec![1],
            component_array: vec![32],
        },
    );
}

#[test]
fn take_entity_returns_the_removed_component() {
    let mut pool = ComponentPool::new_with_entity(1, 32 as i32);
    pool.assign_component(2, 21 as i32);

    assert_eq!(Ok(32), pool.take_entity(1));
    assert!(!pool.entity_exists(1));
    assert!(pool.entity_exists(2));
}

#[test]
fn take_entity_reports_an_unbound_entity() {
    let mut pool = ComponentPool::new_with_entity(1, 32 as i32);

    assert_eq!(Err(LifeError::EntityNotBoundToComponent(0)), pool.take_entity(0));
    assert_eq!(Err(LifeError::EntityNotBoundToComponent(7)), pool.take_entity(7));
}

#[test]
fn taking_a_disabled_component_leaves_active_ones_alone() {
    let mut pool = ComponentPool::new_with_entity(1, 10);
    pool.assign_component(2, 20);
    pool.disable_entity(2);

    assert_eq!(Ok(20), pool.take_entity(2));
    assert_eq!(vec![&10], pool.iter());
}

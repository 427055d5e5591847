use ignition::ecs::component_pool::ComponentPool;

#[test]
fn adding_an_entity_to_sparse_array_fills_the_gaps() {
    let mut sparse_array = vec![-1, -1, 0];
    ComponentPool::<i32>::add_entity_to_sparse_array(5, 1, &mut sparse_array);

    assert_eq!(vec![-1, -1, 0, -1, -1, 1], sparse_array);
}

#[test]
fn recycling_an_entity_in_sparse_array_does_not_resize_it_incorrectly() {
    let mut sparse_array = vec![-1, -1, 0];
    ComponentPool::<i32>::add_entity_to_sparse_array(0, 1, &mut sparse_array);

    assert_eq!(vec![1, -1, 0], sparse_array);
}

#[test]
fn iterator_does_not_go_over_disabled_components() {
    let mut component_pool = ComponentPool::new_with_entity(2, 32);
    component_pool.assign_component(4, 64);
    component_pool.assign_component(5, 128);

    component_pool.disable_entity(2);

    assert_eq!(vec![&128, &64], component_pool.iter());
}

#[test]
fn iterator_goes_over_reenabled_components() {
    let mut component_pool = ComponentPool::new_with_entity(2, 32);
    component_pool.assign_component(4, 64);
    component_pool.assign_component(5, 128);

    component_pool.disable_entity(2);
    component_pool.disable_entity(5);

    component_pool.enable_entity(5);

    assert_eq!(vec![&64, &128], component_pool.iter());
}

#[test]
fn first_attach_grows_sparse_array_to_reach_the_entity() {
    let pool = ComponentPool::new_with_entity(2, 32);

    assert_eq!(vec![-1, -1, 0], pool.sparse_array);
    assert_eq!(vec![2], pool.packed_array);
    assert_eq!(vec![32], pool.component_array);
    assert_eq!(1, pool.num_components);
}

#[test]
fn entity_exists_checks_bounds_and_sparse_entry() {
    let pool = ComponentPool::new_with_entity(2, 32);

    assert!(pool.entity_exists(2));
    assert!(!pool.entity_exists(0));
    assert!(!pool.entity_exists(9));
}

#[test]
fn iter_mut_updates_an_active_component_in_place() {
    let mut pool = ComponentPool::new_with_entity(1, 32);

    *pool.iter_mut(0) = 99;

    assert_eq!(vec![&99], pool.iter());
}

#[test]
fn disabling_the_only_component_empties_iteration() {
    let mut pool = ComponentPool::new_with_entity(1, 32);

    pool.disable_entity(1);
    assert_eq!(Vec::<&i32>::new(), pool.iter());

    pool.enable_entity(1);
    assert_eq!(vec![&32], pool.iter());
}

#[test]
fn attach_keeps_active_prefix_contiguous_past_disabled_entries() {
    let mut pool = ComponentPool::new_with_entity(1, 10);
    pool.assign_component(2, 20);
    pool.disable_entity(1);

    pool.assign_component(3, 30);

    assert_eq!(vec![&20, &30], pool.iter());
    assert!(pool.entity_exists(1));
}

#[test]
fn sparse_and_packed_arrays_round_trip() {
    let mut pool = ComponentPool::new_with_entity(3, 1);
    pool.assign_component(1, 2);
    pool.assign_component(4, 3);
    pool.disable_entity(3);
    pool.take_entity(1).unwrap();

    for i in 0..pool.packed_array.len() {
        assert_eq!(pool.sparse_array[pool.packed_array[i]] as usize, i);
    }
    assert_eq!(pool.packed_array.len(), pool.component_array.len());
    assert!(pool.num_components <= pool.packed_array.len());
}

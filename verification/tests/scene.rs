use ignition::ecs::component_pool::ComponentPool;
use ignition::ecs::entity::IgnitionScene;
use ignition::ecs::gizmos::PoolToolbox;
use ignition::Number;

#[test]
fn fresh_entities_count_up_from_zero() {
    let mut scene: IgnitionScene<i32> = IgnitionScene::new();

    assert_eq!(0, scene.entity());
    assert_eq!(1, scene.entity());
    assert_eq!(2, scene.entity());
}

#[test]
fn released_entity_is_recycled_first() {
    let mut scene: IgnitionScene<i32> = IgnitionScene::new();
    let first = scene.entity();
    let second = scene.entity();
    assert_eq!(0, first);
    assert_eq!(1, second);

    scene.delete(first);

    assert_eq!(first, scene.entity());
    assert_eq!(2, scene.entity());
}

#[test]
fn scene_registers_one_pool_per_component_type() {
    let mut scene: IgnitionScene<i32> = IgnitionScene::new();
    let entity = scene.entity();

    assert!(!scene.component_exists(7));
    scene.attach_component(7, entity, 32);
    assert!(scene.component_exists(7));
    assert!(!scene.component_exists(8));

    let pool = scene.get_pool(7).unwrap();
    assert_eq!(vec![&32], pool.iter());
    assert!(scene.get_pool(8).is_none());
}

#[test]
fn scene_delete_evicts_the_entity_from_every_pool() {
    let mut scene: IgnitionScene<i32> = IgnitionScene::new();
    let first = scene.entity();
    let second = scene.entity();
    scene.attach_component(7, first, 32);
    scene.attach_component(7, second, 21);
    scene.attach_component(9, first, 5);

    scene.delete(first);

    assert_eq!(vec![&21], scene.get_pool(7).unwrap().iter());
    assert_eq!(Vec::<&i32>::new(), scene.get_pool(9).unwrap().iter());
    assert_eq!(first, scene.entity());
}

#[test]
fn scene_disable_and_enable_move_components_across_the_boundary() {
    let mut scene: IgnitionScene<i32> = IgnitionScene::new();
    let first = scene.entity();
    let second = scene.entity();
    scene.attach_component(7, first, 32);
    scene.attach_component(7, second, 21);

    scene.disable(7, first);
    assert_eq!(vec![&21], scene.get_pool(7).unwrap().iter());

    scene.enable(7, first);
    assert_eq!(vec![&21, &32], scene.get_pool(7).unwrap().iter());
}

#[test]
fn pool_obtained_mutably_can_update_components() {
    let mut scene: IgnitionScene<i32> = IgnitionScene::new();
    let entity = scene.entity();
    scene.attach_component(7, entity, 32);

    *scene.get_pool_mut(7).unwrap().iter_mut(0) = 50;

    assert_eq!(vec![&50], scene.get_pool(7).unwrap().iter());
    assert!(scene.get_pool_mut(8).is_none());
}

#[test]
fn swap_keyed_by_entities_matches_swap_keyed_by_indices() {
    let mut by_entities = ComponentPool::new_with_entity(1, 10);
    by_entities.assign_component(2, 20);
    let mut by_indices = by_entities.clone();

    by_entities.swap_entities(1, 2);
    by_indices.swap_components(0, 1);

    assert_eq!(by_entities, by_indices);
}

#[test]
fn number_component_carries_its_value() {
    let mut scene: IgnitionScene<Number> = IgnitionScene::new();
    let entity = scene.entity();
    scene.attach_component(1, entity, Number { num: 41 });

    assert_eq!(vec![&Number { num: 41 }], scene.get_pool(1).unwrap().iter());
}

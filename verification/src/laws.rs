//! Laws of the registry, stated over the transition relations that the
//! operations' contracts establish and proved once and for all.

use vstd::prelude::*;

verus! {

use crate::ecs::component_pool::{seq_swap, ComponentPool};
use crate::ecs::entity::IgnitionScene;

/// Round-trip law: in a well-formed pool every packed entry points back at
/// its own sparse slot, and the packed and component arrays have the same
/// length, of which the active count takes no more than all. Every
/// operation of the pool requires well-formedness and re-establishes it, so
/// this holds after any sequence of attach, enable, disable and delete
/// operations.
pub proof fn lemma_sparse_packed_round_trip<G>(pool: ComponentPool<G>)
    requires
        pool.wf(),
    ensures
        forall|i: int|
            0 <= i < pool.packed_array@.len() ==> pool.sparse_array@[(
            #[trigger] pool.packed_array@[i]) as int] == i,
        pool.packed_array@.len() == pool.component_array@.len(),
        pool.num_components <= pool.packed_array@.len(),
{
}

/// Re-enable restores membership: disabling an active component and then
/// re-enabling it leaves the same `(entity, component)` pairs active,
/// though the two swaps may have reordered the packed arrays.
pub proof fn lemma_reenable_restores_membership<G>(
    pre: ComponentPool<G>,
    mid: ComponentPool<G>,
    post: ComponentPool<G>,
    entity: int,
)
    requires
        pre.wf(),
        pre.spec_is_active(entity),
        ComponentPool::spec_disabled(pre, mid, entity),
        ComponentPool::spec_enabled(mid, post, entity),
    ensures
        post.spec_is_active(entity),
        post.spec_active_pairs() == pre.spec_active_pairs(),
{
    let component = pre.spec_index_of(entity);
    let boundary = pre.num_components - 1;

    // after the disable, the entity sits exactly at the retreated boundary
    assert(mid.spec_index_of(entity) == boundary);
    assert(mid.packed_array@[boundary] == entity as usize);

    // so the enable swaps the boundary entry with itself
    assert(post.num_components == pre.num_components);
    assert(post.packed_array@ =~= seq_swap(pre.packed_array@, component, boundary));
    assert(post.component_array@ =~= seq_swap(pre.component_array@, component, boundary));
    assert(post.spec_is_active(entity));

    // the active prefixes are transpositions of each other
    assert forall|pair: (usize, G)| pre.spec_active_pairs().contains(pair) implies
        post.spec_active_pairs().contains(pair) by {
        let i = choose|i: int|
            0 <= i < pre.num_components && (#[trigger] pre.packed_array@[i]) == pair.0
                && pre.component_array@[i] == pair.1;
        let j = if i == component {
            boundary
        } else if i == boundary {
            component
        } else {
            i
        };
        assert(0 <= j < post.num_components && post.packed_array@[j] == pair.0
            && post.component_array@[j] == pair.1);
    }
    assert forall|pair: (usize, G)| post.spec_active_pairs().contains(pair) implies
        pre.spec_active_pairs().contains(pair) by {
        let i = choose|i: int|
            0 <= i < post.num_components && (#[trigger] post.packed_array@[i]) == pair.0
                && post.component_array@[i] == pair.1;
        let j = if i == component {
            boundary
        } else if i == boundary {
            component
        } else {
            i
        };
        assert(0 <= j < pre.num_components && pre.packed_array@[j] == pair.0
            && pre.component_array@[j] == pair.1);
    }
    assert(post.spec_active_pairs() =~= pre.spec_active_pairs());
}

/// A swap keyed by the two entities and one keyed by the two packed
/// indices produce identical array states for the same logical pair: the
/// swap relation determines the outcome from the pair alone, however it
/// was looked up.
pub proof fn lemma_swap_keying_agrees<G>(
    pre: ComponentPool<G>,
    by_entities: ComponentPool<G>,
    by_indices: ComponentPool<G>,
    component: int,
    component_destination: int,
)
    requires
        ComponentPool::spec_swapped(pre, by_entities, component, component_destination),
        ComponentPool::spec_swapped(pre, by_indices, component, component_destination),
    ensures
        by_entities.num_components == by_indices.num_components,
        by_entities.sparse_array@ == by_indices.sparse_array@,
        by_entities.packed_array@ == by_indices.packed_array@,
        by_entities.component_array@ == by_indices.component_array@,
{
}

/// Recycling law: releasing an entity id and then allocating hands the same
/// id straight back — the free stack is LIFO, most recently released
/// first.
pub proof fn lemma_release_then_allocate_recycles<G>(
    s0: IgnitionScene<G>,
    s1: IgnitionScene<G>,
    s2: IgnitionScene<G>,
    entity: usize,
    id: usize,
)
    requires
        s0.wf(),
        IgnitionScene::spec_released(s0, s1, entity),
        IgnitionScene::spec_allocated(s1, s2, id),
    ensures
        id == entity,
{
    assert(s1.available_entities@.len() > 1);
    assert(s1.available_entities@.last() == entity);
}

} // verus!

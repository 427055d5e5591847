//! Index juggling shared by everything that relocates packed entries.
//!
//! Moving a component across the active boundary, or removing one, is a
//! three-way parallel swap: two sparse entries, two packed entries and two
//! component entries exchange places. The swap is keyed two ways — by the
//! two entities or by the two packed indices — and both produce the same
//! array states for the same logical pair.

use vstd::prelude::*;

verus! {

use crate::ecs::component_pool::{vec_swap, ComponentPool};

/// The capability to relocate packed entries, stated abstractly so that a
/// registry can drive any pool through one interface.
pub trait PoolToolbox {
    /// The sparse/packed consistency invariant every swap preserves.
    spec fn pool_wf(&self) -> bool;

    /// The packed index recorded for `entity`.
    spec fn index_of(&self, entity: int) -> int;

    /// Whether `entity` has an entry.
    spec fn has_entity(&self, entity: int) -> bool;

    /// Number of packed entries.
    spec fn packed_len(&self) -> int;

    /// The pool `post` is `pre` with the packed entries at `component` and
    /// `component_destination` exchanged, bookkeeping included.
    spec fn swapped(pre: &Self, post: &Self, component: int, component_destination: int) -> bool;

    fn swap_entities(&mut self, entity: usize, entity_destination: usize)
        requires
            old(self).pool_wf(),
            old(self).has_entity(entity as int),
            old(self).has_entity(entity_destination as int),
        ensures
            final(self).pool_wf(),
            Self::swapped(
                old(self),
                final(self),
                old(self).index_of(entity as int),
                old(self).index_of(entity_destination as int),
            ),
    ;

    fn swap_components(&mut self, component: usize, component_destination: usize)
        requires
            old(self).pool_wf(),
            component < old(self).packed_len(),
            component_destination < old(self).packed_len(),
        ensures
            final(self).pool_wf(),
            Self::swapped(old(self), final(self), component as int, component_destination as int),
    ;

    fn swap(
        &mut self,
        entity: usize,
        entity_destination: usize,
        component: usize,
        component_destination: usize,
    )
        requires
            old(self).pool_wf(),
            old(self).has_entity(entity as int),
            old(self).has_entity(entity_destination as int),
            component == old(self).index_of(entity as int),
            component_destination == old(self).index_of(entity_destination as int),
        ensures
            final(self).pool_wf(),
            Self::swapped(old(self), final(self), component as int, component_destination as int),
    ;
}

impl<G> PoolToolbox for ComponentPool<G> {
    open spec fn pool_wf(&self) -> bool {
        self.wf()
    }

    open spec fn index_of(&self, entity: int) -> int {
        self.spec_index_of(entity)
    }

    open spec fn has_entity(&self, entity: int) -> bool {
        self.spec_exists(entity)
    }

    open spec fn packed_len(&self) -> int {
        self.packed_array@.len() as int
    }

    open spec fn swapped(pre: &Self, post: &Self, component: int, component_destination: int) -> bool {
        ComponentPool::spec_swapped(*pre, *post, component, component_destination)
    }

    /// Looks up both entities' packed indices, then swaps.
    fn swap_entities(&mut self, entity: usize, entity_destination: usize) {
        let component = self.sparse_array[entity] as usize;
        let component_destination = self.sparse_array[entity_destination] as usize;

        self.swap(entity, entity_destination, component, component_destination);
    }

    /// Looks up both packed slots' owning entities, then swaps.
    fn swap_components(&mut self, component: usize, component_destination: usize) {
        let entity = self.packed_array[component];
        let entity_destination = self.packed_array[component_destination];

        self.swap(entity, entity_destination, component, component_destination);
    }

    /// The three-way parallel swap itself.
    fn swap(
        &mut self,
        entity: usize,
        entity_destination: usize,
        component: usize,
        component_destination: usize,
    ) {
        vec_swap(&mut self.sparse_array, entity, entity_destination);
        vec_swap(&mut self.packed_array, component, component_destination);
        vec_swap(&mut self.component_array, component, component_destination);
    }
}

} // verus!

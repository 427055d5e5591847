//! Removal of a component from a pool: swap-remove from the true end of the
//! packed arrays, keeping the active prefix contiguous.

use vstd::prelude::*;

verus! {

use crate::ecs::component_pool::{seq_swap, ComponentPool};
use crate::ecs::gizmos::PoolToolbox;

/// A failed operation on the entity/component registry.
#[derive(Debug, Eq, PartialEq)]
pub enum LifeError {
    /// The named entity has no component of the requested type in the pool
    /// it was addressed to.
    EntityNotBoundToComponent(usize),
}

impl<G> ComponentPool<G> {
    /// The pool `post` is `pre` with `entity`'s component removed. An active
    /// victim is first swapped to the active boundary and the boundary
    /// retreats; the victim is then swapped with the true last entry, which
    /// is popped. Every other entity keeps its component and its
    /// active/disabled status.
    pub open spec fn spec_taken(pre: Self, post: Self, entity: int) -> bool {
        let component = pre.spec_index_of(entity);
        let active = component < pre.num_components;
        let boundary = pre.num_components - 1;
        let victim = if active { boundary } else { component };
        let len = pre.packed_array@.len() as int;
        let packed1 = if active {
            seq_swap(pre.packed_array@, component, boundary)
        } else {
            pre.packed_array@
        };
        let dense1 = if active {
            seq_swap(pre.component_array@, component, boundary)
        } else {
            pre.component_array@
        };
        let sparse1 = if active {
            seq_swap(pre.sparse_array@, entity, pre.packed_array@[boundary] as int)
        } else {
            pre.sparse_array@
        };
        &&& post.num_components == if active {
            pre.num_components - 1
        } else {
            pre.num_components as int
        }
        &&& post.packed_array@ == seq_swap(packed1, victim, len - 1).drop_last()
        &&& post.component_array@ == seq_swap(dense1, victim, len - 1).drop_last()
        &&& post.sparse_array@ == seq_swap(sparse1, entity, packed1[len - 1] as int).update(
            entity,
            -1i32,
        )
        &&& post.sparse_array@.len() == pre.sparse_array@.len()
        &&& !post.spec_exists(entity)
        &&& forall|o: int|
            o != entity ==> ((#[trigger] post.spec_exists(o)) <==> pre.spec_exists(o)) && (
            post.spec_is_active(o) <==> pre.spec_is_active(o))
        &&& forall|o: int|
            o != entity && (#[trigger] pre.spec_exists(o))
                ==> post.component_array@[post.spec_index_of(o)]
                == pre.component_array@[pre.spec_index_of(o)]
    }

    /// The pool `post` is `pre` with any component bound to `entity`
    /// removed: `spec_taken` if the entity had one, unchanged otherwise.
    pub open spec fn spec_deleted(pre: Self, post: Self, entity: int) -> bool {
        if pre.spec_exists(entity) {
            Self::spec_taken(pre, post, entity)
        } else {
            post == pre
        }
    }

    /// Removes and returns `entity`'s component, active or disabled, or
    /// reports that the entity has none.
    pub fn take_entity(&mut self, entity: usize) -> (taken: Result<G, LifeError>)
        requires
            old(self).wf(),
        ensures
            final(self).wf(),
            taken matches Ok(component) ==> old(self).spec_exists(entity as int) && component
                == old(self).component_array@[old(self).spec_index_of(entity as int)],
            taken matches Err(error) ==> !old(self).spec_exists(entity as int) && *final(self)
                == *old(self) && error == LifeError::EntityNotBoundToComponent(entity),
            old(self).spec_exists(entity as int) ==> Self::spec_taken(
                *old(self),
                *final(self),
                entity as int,
            ),
    {
        if entity >= self.sparse_array.len() || self.sparse_array[entity] == -1 {
            return Err(LifeError::EntityNotBoundToComponent(entity));
        }
        let mut component = self.sparse_array[entity] as usize;
        if component < self.num_components {
            // swap the active victim to the boundary, then retreat it
            self.swap_components(component, self.num_components - 1);
            self.num_components = self.num_components - 1;
            component = self.num_components;
        }
        let last = self.packed_array.len() - 1;
        self.swap_components(component, last);
        self.sparse_array.set(entity, -1);
        let _ = self.packed_array.pop();
        let taken_component = self.component_array.pop().unwrap();
        Ok(taken_component)
    }
}

/// The capability to evict one entity's component, however the pool stores
/// it; the registry drives every pool through this interface when an entity
/// dies.
pub trait EntityDestructor {
    /// The invariant a deletion preserves.
    spec fn destructor_wf(&self) -> bool;

    /// The pool `post` is `pre` with any component bound to `entity`
    /// removed, and nothing else changed for other entities.
    spec fn entity_deleted(pre: &Self, post: &Self, entity: int) -> bool;

    fn delete_entity(&mut self, entity: usize)
        requires
            old(self).destructor_wf(),
        ensures
            final(self).destructor_wf(),
            Self::entity_deleted(old(self), final(self), entity as int),
    ;
}

impl<G> EntityDestructor for ComponentPool<G> {
    open spec fn destructor_wf(&self) -> bool {
        self.wf()
    }

    open spec fn entity_deleted(pre: &Self, post: &Self, entity: int) -> bool {
        Self::spec_deleted(*pre, *post, entity)
    }

    /// Deleting an entity that never had this component type is a no-op,
    /// not an error: the failure is swallowed.
    fn delete_entity(&mut self, entity: usize) {
        let _ = self.take_entity(entity);
    }
}

} // verus!

//! The scene: entity-id lifecycle plus a registry of component pools.
//!
//! `available_entities` serves two roles, as in the sparse-set literature:
//! slot 0 is the monotonic counter holding the next fresh id, and the slots
//! beyond it form a LIFO stack of released ids awaiting reuse. Pools are
//! registered under a caller-chosen component-type key, one pool per key.

use vstd::prelude::*;

verus! {

use crate::ecs::component_pool::ComponentPool;
use crate::life::annihilation::EntityDestructor;

pub struct IgnitionScene<G> {
    pub available_entities: Vec<usize>,
    pub component_indices: Vec<usize>,
    pub component_pools: Vec<ComponentPool<G>>,
}

impl<G> IgnitionScene<G> {
    /// The scene invariant: the allocator keeps its counter slot, each
    /// component-type key registers at most one pool, and every pool is
    /// well-formed.
    pub open spec fn wf(self) -> bool {
        &&& self.available_entities@.len() >= 1
        &&& self.component_indices@.len() == self.component_pools@.len()
        &&& forall|a: int, b: int|
            0 <= a < b < self.component_indices@.len() ==> #[trigger] self.component_indices@[a]
                != #[trigger] self.component_indices@[b]
        &&& forall|k: int|
            0 <= k < self.component_pools@.len() ==> (#[trigger] self.component_pools@[k]).wf()
    }

    /// Whether a pool is registered under `key`.
    pub open spec fn spec_has_pool(self, key: int) -> bool {
        exists|k: int|
            0 <= k < self.component_indices@.len() && self.component_indices@[k] == key
    }

    /// The position of `key`'s pool in the registry.
    pub open spec fn spec_pool_index(self, key: int) -> int {
        choose|k: int|
            0 <= k < self.component_indices@.len() && self.component_indices@[k] == key
    }

    /// The pool registered under `key`.
    pub open spec fn spec_pool(self, key: int) -> ComponentPool<G> {
        self.component_pools@[self.spec_pool_index(key)]
    }

    /// The scene `post` is `pre` with one entity id handed out: the top of
    /// the recycling stack if the stack is non-empty, else the fresh
    /// counter, which advances. Pools are untouched.
    pub open spec fn spec_allocated(pre: Self, post: Self, id: usize) -> bool {
        &&& post.component_indices@ == pre.component_indices@
        &&& post.component_pools@ == pre.component_pools@
        &&& if pre.available_entities@.len() > 1 {
            id == pre.available_entities@.last() && post.available_entities@
                == pre.available_entities@.drop_last()
        } else {
            id == pre.available_entities@[0] && post.available_entities@
                == pre.available_entities@.update(0, (id + 1) as usize)
        }
    }

    /// The scene `post` is `pre` with `entity` pushed onto the recycling
    /// stack and its component evicted from every registered pool.
    pub open spec fn spec_released(pre: Self, post: Self, entity: usize) -> bool {
        &&& post.available_entities@ == pre.available_entities@.push(entity)
        &&& post.component_indices@ == pre.component_indices@
        &&& post.component_pools@.len() == pre.component_pools@.len()
        &&& forall|k: int|
            #![trigger post.component_pools@[k]]
            0 <= k < pre.component_pools@.len() ==> ComponentPool::spec_deleted(
                pre.component_pools@[k],
                post.component_pools@[k],
                entity as int,
            )
    }

    /// An empty scene: no pools, no released ids, fresh ids start at 0.
    pub fn new() -> (scene: Self)
        ensures
            scene.wf(),
            scene.available_entities@ == seq![0usize],
            scene.component_indices@ == Seq::<usize>::empty(),
            scene.component_pools@ == Seq::<ComponentPool<G>>::empty(),
    {
        let mut available_entities: Vec<usize> = Vec::new();
        available_entities.push(0);
        Self { available_entities, component_indices: Vec::new(), component_pools: Vec::new() }
    }

    /// Hands out an entity id: the most recently released id if any is
    /// waiting, else a fresh one.
    pub fn entity(&mut self) -> (id: usize)
        requires
            old(self).wf(),
            old(self).available_entities@.len() == 1 ==> old(self).available_entities@[0]
                < usize::MAX,
        ensures
            final(self).wf(),
            Self::spec_allocated(*old(self), *final(self), id),
    {
        if self.available_entities.len() == 1 {
            self.generate_new_entity()
        } else {
            let recycled_entity = self.available_entities.pop().unwrap();
            recycled_entity
        }
    }

    /// Releases `entity` for reuse and evicts its component from every
    /// registered pool.
    pub fn delete(&mut self, entity: usize)
        requires
            old(self).wf(),
        ensures
            final(self).wf(),
            Self::spec_released(*old(self), *final(self), entity),
    {
        self.available_entities.push(entity);
        self.delete_entity_from_each_component_pool(entity);
    }

    /// Whether a pool for `key`'s component type has ever been created —
    /// not whether a specific entity has a component of it.
    pub fn component_exists(&self, key: usize) -> (present: bool)
        requires
            self.wf(),
        ensures
            present == self.spec_has_pool(key as int),
    {
        self.pool_index(key).is_some()
    }

    /// The pool registered under `key`, if any entity ever attached a
    /// component of that type.
    pub fn get_pool(&self, key: usize) -> (pool: Option<&ComponentPool<G>>)
        requires
            self.wf(),
        ensures
            match pool {
                Some(p) => self.spec_has_pool(key as int) && *p == self.spec_pool(key as int),
                None => !self.spec_has_pool(key as int),
            },
    {
        match self.pool_index(key) {
            Some(k) => Some(&self.component_pools[k]),
            None => None,
        }
    }

    /// Mutable access to the pool registered under `key`. The caller gets
    /// the pool as it stands; whatever it leaves behind through the
    /// borrow is what the scene ends up holding at that registry slot.
    pub fn get_pool_mut(&mut self, key: usize) -> (pool: Option<&mut ComponentPool<G>>)
        requires
            old(self).wf(),
        ensures
            (pool is Some) <==> old(self).spec_has_pool(key as int),
            pool matches Some(p) ==> *p == old(self).spec_pool(key as int)
                && final(self).component_pools@ == old(self).component_pools@.update(
                old(self).spec_pool_index(key as int),
                *final(p),
            ) && final(self).component_indices@ == old(self).component_indices@
                && final(self).available_entities@ == old(self).available_entities@,
            (pool is None) ==> *final(self) == *old(self),
    {
        match self.pool_index(key) {
            Some(k) => Some(&mut self.component_pools[k]),
            None => None,
        }
    }

    /// Attaches `component` to `entity` in the pool registered under `key`,
    /// creating that pool if this is the first attach of its type.
    pub fn attach_component(&mut self, key: usize, entity: usize, component: G)
        requires
            old(self).wf(),
            entity < usize::MAX,
            old(self).spec_has_pool(key as int) ==> !old(self).spec_pool(key as int).spec_exists(
                entity as int,
            ) && old(self).spec_pool(key as int).packed_array@.len() < i32::MAX,
        ensures
            final(self).wf(),
            final(self).spec_has_pool(key as int),
            final(self).available_entities@ == old(self).available_entities@,
            old(self).spec_has_pool(key as int) ==> {
                &&& final(self).component_indices@ == old(self).component_indices@
                &&& final(self).component_pools@.len() == old(self).component_pools@.len()
                &&& forall|j: int|
                    0 <= j < old(self).component_pools@.len() && j != old(self).spec_pool_index(
                        key as int,
                    ) ==> final(self).component_pools@[j] == old(self).component_pools@[j]
                &&& ComponentPool::spec_assigned(
                    old(self).spec_pool(key as int),
                    final(self).spec_pool(key as int),
                    entity as int,
                    component,
                )
            },
            !old(self).spec_has_pool(key as int) ==> {
                &&& final(self).component_indices@ == old(self).component_indices@.push(key)
                &&& final(self).component_pools@.len() == old(self).component_pools@.len() + 1
                &&& forall|j: int|
                    0 <= j < old(self).component_pools@.len() ==> final(self).component_pools@[j]
                        == old(self).component_pools@[j]
                &&& ComponentPool::spec_created(
                    final(self).component_pools@.last(),
                    entity as int,
                    component,
                )
            },
    {
        match self.pool_index(key) {
            Some(k) => {
                self.component_pools[k].assign_component(entity, component);
                proof {
                    assert(self.spec_pool_index(key as int) == k as int);
                }
            },
            None => {
                self.component_pools.push(ComponentPool::new_with_entity(entity, component));
                self.component_indices.push(key);
                proof {
                    assert(self.component_indices@[self.component_indices@.len() - 1] == key);
                }
            },
        }
    }

    /// Re-enables `entity`'s component in the pool registered under `key`.
    pub fn enable(&mut self, key: usize, entity: usize)
        requires
            old(self).wf(),
            old(self).spec_has_pool(key as int),
            old(self).spec_pool(key as int).spec_exists(entity as int),
            !old(self).spec_pool(key as int).spec_is_active(entity as int),
        ensures
            final(self).wf(),
            final(self).available_entities@ == old(self).available_entities@,
            final(self).component_indices@ == old(self).component_indices@,
            final(self).component_pools@.len() == old(self).component_pools@.len(),
            forall|j: int|
                0 <= j < old(self).component_pools@.len() && j != old(self).spec_pool_index(
                    key as int,
                ) ==> final(self).component_pools@[j] == old(self).component_pools@[j],
            ComponentPool::spec_enabled(
                old(self).spec_pool(key as int),
                final(self).spec_pool(key as int),
                entity as int,
            ),
    {
        if let Some(k) = self.pool_index(key) {
            self.component_pools[k].enable_entity(entity);
            proof {
                assert(self.spec_pool_index(key as int) == k as int);
            }
        }
    }

    /// Disables `entity`'s component in the pool registered under `key`.
    pub fn disable(&mut self, key: usize, entity: usize)
        requires
            old(self).wf(),
            old(self).spec_has_pool(key as int),
            old(self).spec_pool(key as int).spec_is_active(entity as int),
        ensures
            final(self).wf(),
            final(self).available_entities@ == old(self).available_entities@,
            final(self).component_indices@ == old(self).component_indices@,
            final(self).component_pools@.len() == old(self).component_pools@.len(),
            forall|j: int|
                0 <= j < old(self).component_pools@.len() && j != old(self).spec_pool_index(
                    key as int,
                ) ==> final(self).component_pools@[j] == old(self).component_pools@[j],
            ComponentPool::spec_disabled(
                old(self).spec_pool(key as int),
                final(self).spec_pool(key as int),
                entity as int,
            ),
    {
        if let Some(k) = self.pool_index(key) {
            self.component_pools[k].disable_entity(entity);
            proof {
                assert(self.spec_pool_index(key as int) == k as int);
            }
        }
    }

    /* Utility functions */

    /// Finds the registry position of `key`'s pool by a linear scan.
    fn pool_index(&self, key: usize) -> (found: Option<usize>)
        requires
            self.wf(),
        ensures
            match found {
                Some(k) => k < self.component_indices@.len() && self.component_indices@[k as int]
                    == key && k as int == self.spec_pool_index(key as int) && self.spec_has_pool(
                    key as int,
                ),
                None => !self.spec_has_pool(key as int),
            },
    {
        let n = self.component_indices.len();
        let mut k: usize = 0;
        while k < n
            invariant
                k <= n,
                n == self.component_indices@.len(),
                self.wf(),
                forall|j: int| 0 <= j < k ==> self.component_indices@[j] != key,
            decreases n - k,
        {
            if self.component_indices[k] == key {
                proof {
                    let picked = self.spec_pool_index(key as int);
                    assert(0 <= picked < self.component_indices@.len()
                        && self.component_indices@[picked] == key);
                    assert(picked == k);
                }
                return Some(k);
            }
            k += 1;
        }
        None
    }

    /// Advances the fresh-id counter in slot 0 and returns its old value.
    pub fn generate_new_entity(&mut self) -> (id: usize)
        requires
            old(self).wf(),
            old(self).available_entities@[0] < usize::MAX,
        ensures
            final(self).wf(),
            id == old(self).available_entities@[0],
            final(self).available_entities@ == old(self).available_entities@.update(
                0,
                (id + 1) as usize,
            ),
            final(self).component_indices@ == old(self).component_indices@,
            final(self).component_pools@ == old(self).component_pools@,
    {
        let id = self.available_entities[0];
        self.available_entities.set(0, id + 1);

        id
    }

    /// The fan-out of a deletion: every registered pool evicts `entity`.
    pub fn delete_entity_from_each_component_pool(&mut self, entity: usize)
        requires
            old(self).wf(),
        ensures
            final(self).wf(),
            final(self).available_entities@ == old(self).available_entities@,
            final(self).component_indices@ == old(self).component_indices@,
            final(self).component_pools@.len() == old(self).component_pools@.len(),
            forall|k: int|
                #![trigger final(self).component_pools@[k]]
                0 <= k < old(self).component_pools@.len() ==> ComponentPool::spec_deleted(
                    old(self).component_pools@[k],
                    final(self).component_pools@[k],
                    entity as int,
                ),
    {
        let ghost pre = *self;
        let n = self.component_pools.len();
        let mut k: usize = 0;
        while k < n
            invariant
                k <= n,
                pre.wf(),
                n == pre.component_pools@.len(),
                self.available_entities@ == pre.available_entities@,
                self.component_indices@ == pre.component_indices@,
                self.component_pools@.len() == pre.component_pools@.len(),
                forall|j: int|
                    #![trigger self.component_pools@[j]]
                    0 <= j < k ==> ComponentPool::spec_deleted(
                        pre.component_pools@[j],
                        self.component_pools@[j],
                        entity as int,
                    ) && self.component_pools@[j].wf(),
                forall|j: int|
                    k <= j < n ==> self.component_pools@[j] == pre.component_pools@[j],
            decreases n - k,
        {
            proof {
                assert(self.component_pools@[k as int] == pre.component_pools@[k as int]);
                assert(pre.component_pools@[k as int].wf());
            }
            self.component_pools[k].delete_entity(entity);
            k += 1;
        }
    }
}

} // verus!

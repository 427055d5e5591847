//! Per-type dense component storage with sparse-to-packed indirection.
//!
//! A pool keeps three parallel structures: `sparse_array` maps an entity id
//! to a packed index (or `-1` for "absent"), while `packed_array` and
//! `component_array` hold, for each packed index, the owning entity and its
//! component. The packed range `[0, num_components)` is the active prefix;
//! entries at `[num_components, len)` are stored but disabled.

use vstd::prelude::*;

verus! {

use crate::ecs::gizmos::PoolToolbox;

/// Exchanges the entries of `s` at positions `a` and `b`.
pub open spec fn seq_swap<T>(s: Seq<T>, a: int, b: int) -> Seq<T> {
    s.update(a, s[b]).update(b, s[a])
}

/// Exchanges the elements of `v` at positions `a` and `b`, by rotating them
/// through the popped last element so that no element is ever cloned.
pub(crate) fn vec_swap<T>(v: &mut Vec<T>, a: usize, b: usize)
    requires
        a < old(v)@.len(),
        b < old(v)@.len(),
    ensures
        final(v)@ == seq_swap(old(v)@, a as int, b as int),
{
    if a == b {
        proof {
            assert(v@ =~= seq_swap(v@, a as int, b as int));
        }
        return;
    }
    let n = v.len();
    let mut tmp = v.pop().unwrap();
    if a == n - 1 {
        v.set_and_swap(b, &mut tmp);
    } else if b == n - 1 {
        v.set_and_swap(a, &mut tmp);
    } else {
        v.set_and_swap(a, &mut tmp);
        v.set_and_swap(b, &mut tmp);
        v.set_and_swap(a, &mut tmp);
    }
    v.push(tmp);
    proof {
        assert(v@ =~= seq_swap(old(v)@, a as int, b as int));
    }
}

#[derive(Debug, Eq, PartialEq, Clone)]
pub struct ComponentPool<G> {
    pub num_components: usize,
    pub sparse_array: Vec<i32>,
    pub packed_array: Vec<usize>,
    pub component_array: Vec<G>,
}

impl<G> ComponentPool<G> {
    /// The sparse/packed index consistency invariant: every non-negative
    /// sparse entry points at a packed slot owned by that entity, and every
    /// packed slot points back at its own sparse entry.
    pub open spec fn wf(self) -> bool {
        &&& self.packed_array@.len() == self.component_array@.len()
        &&& self.num_components <= self.packed_array@.len()
        &&& self.packed_array@.len() <= i32::MAX
        &&& forall|e: int|
            0 <= e < self.sparse_array@.len() ==> (#[trigger] self.sparse_array@[e] == -1 || (
            0 <= self.sparse_array@[e] < self.packed_array@.len()
                && self.packed_array@[self.sparse_array@[e] as int] == e))
        &&& forall|i: int|
            0 <= i < self.packed_array@.len() ==> (#[trigger] self.packed_array@[i]
                < self.sparse_array@.len() && self.sparse_array@[self.packed_array@[i] as int]
                == i)
    }

    /// Whether `entity` has a component in this pool.
    pub open spec fn spec_exists(self, entity: int) -> bool {
        0 <= entity < self.sparse_array@.len() && self.sparse_array@[entity] != -1
    }

    /// The packed index of `entity`'s component.
    pub open spec fn spec_index_of(self, entity: int) -> int {
        self.sparse_array@[entity] as int
    }

    /// Whether `entity`'s component lies in the active prefix.
    pub open spec fn spec_is_active(self, entity: int) -> bool {
        self.spec_exists(entity) && self.spec_index_of(entity) < self.num_components
    }

    /// The components the pool currently iterates over, in packed order.
    pub open spec fn spec_active_components(self) -> Seq<G> {
        self.component_array@.subrange(0, self.num_components as int)
    }

    /// The set of `(entity, component)` pairs the active prefix holds.
    pub open spec fn spec_active_pairs(self) -> Set<(usize, G)> {
        Set::new(
            |pair: (usize, G)|
                exists|i: int|
                    0 <= i < self.num_components && (#[trigger] self.packed_array@[i]) == pair.0
                        && self.component_array@[i] == pair.1,
        )
    }

    /// The pool `post` holds exactly one entry, `(entity, component)`,
    /// active, with every lower sparse slot empty.
    pub open spec fn spec_created(post: Self, entity: int, component: G) -> bool {
        &&& post.num_components == 1
        &&& post.sparse_array@.len() == entity + 1
        &&& forall|j: int| 0 <= j < entity ==> post.sparse_array@[j] == -1
        &&& post.sparse_array@[entity] == 0
        &&& post.packed_array@ == seq![entity as usize]
        &&& post.component_array@ == seq![component]
    }

    /// The pool `post` is `pre` with a new active entry `(entity,
    /// component)` at the old active boundary. The sparse array grows to
    /// reach `entity` if needed, new slots filled with `-1`; a disabled
    /// entry previously at the boundary moves to the end of the packed
    /// arrays.
    pub open spec fn spec_assigned(pre: Self, post: Self, entity: int, component: G) -> bool {
        let boundary = pre.num_components as int;
        let grown = pre.num_components < pre.packed_array@.len();
        let moved = pre.packed_array@[boundary] as int;
        &&& post.num_components == pre.num_components + 1
        &&& post.spec_is_active(entity)
        &&& post.spec_index_of(entity) == boundary
        &&& post.sparse_array@.len() == if pre.sparse_array@.len() >= entity + 1 {
            pre.sparse_array@.len() as int
        } else {
            entity + 1
        }
        &&& forall|j: int|
            0 <= j < pre.sparse_array@.len() && j != entity && (!grown || j != moved)
                ==> post.sparse_array@[j] == pre.sparse_array@[j]
        &&& forall|j: int|
            pre.sparse_array@.len() <= j < post.sparse_array@.len() && j != entity
                ==> post.sparse_array@[j] == -1
        &&& !grown ==> {
            &&& post.packed_array@ == pre.packed_array@.push(entity as usize)
            &&& post.component_array@ == pre.component_array@.push(component)
        }
        &&& grown ==> {
            &&& post.packed_array@ == seq_swap(
                pre.packed_array@.push(entity as usize),
                boundary,
                pre.packed_array@.len() as int,
            )
            &&& post.component_array@ == seq_swap(
                pre.component_array@.push(component),
                boundary,
                pre.packed_array@.len() as int,
            )
            &&& post.sparse_array@[moved] == pre.packed_array@.len() as i32
        }
    }

    /// The pool `post` is `pre` with the packed entries at `component` and
    /// `component_destination` exchanged, bookkeeping included: the two
    /// owning entities' sparse entries exchange places too.
    pub open spec fn spec_swapped(
        pre: Self,
        post: Self,
        component: int,
        component_destination: int,
    ) -> bool {
        &&& post.num_components == pre.num_components
        &&& post.packed_array@ == seq_swap(pre.packed_array@, component, component_destination)
        &&& post.component_array@ == seq_swap(
            pre.component_array@,
            component,
            component_destination,
        )
        &&& post.sparse_array@ == seq_swap(
            pre.sparse_array@,
            pre.packed_array@[component] as int,
            pre.packed_array@[component_destination] as int,
        )
    }

    /// The pool `post` is `pre` with `entity`'s component moved out of the
    /// active prefix: its entry and the last active entry exchange places,
    /// and the boundary retreats by one.
    pub open spec fn spec_disabled(pre: Self, post: Self, entity: int) -> bool {
        let component = pre.spec_index_of(entity);
        let boundary = pre.num_components - 1;
        &&& post.num_components == pre.num_components - 1
        &&& post.packed_array@ == seq_swap(pre.packed_array@, component, boundary)
        &&& post.component_array@ == seq_swap(pre.component_array@, component, boundary)
        &&& post.sparse_array@ == seq_swap(
            pre.sparse_array@,
            entity,
            pre.packed_array@[boundary] as int,
        )
    }

    /// The pool `post` is `pre` with `entity`'s component moved into the
    /// active prefix: its entry and the first disabled entry exchange
    /// places, and the boundary advances by one.
    pub open spec fn spec_enabled(pre: Self, post: Self, entity: int) -> bool {
        let component = pre.spec_index_of(entity);
        let boundary = pre.num_components as int;
        &&& post.num_components == pre.num_components + 1
        &&& post.packed_array@ == seq_swap(pre.packed_array@, component, boundary)
        &&& post.component_array@ == seq_swap(pre.component_array@, component, boundary)
        &&& post.sparse_array@ == seq_swap(
            pre.sparse_array@,
            entity,
            pre.packed_array@[boundary] as int,
        )
    }

    /// Moves `entity`'s active component into the disabled suffix by
    /// swapping it with the entry at the active boundary.
    pub fn disable_entity(&mut self, entity: usize)
        requires
            old(self).wf(),
            old(self).spec_is_active(entity as int),
        ensures
            final(self).wf(),
            Self::spec_disabled(*old(self), *final(self), entity as int),
            final(self).spec_exists(entity as int),
            !final(self).spec_is_active(entity as int),
            forall|o: int|
                o != entity ==> ((#[trigger] final(self).spec_exists(o)) <==> old(self).spec_exists(o))
                    && (final(self).spec_is_active(o) <==> old(self).spec_is_active(o)),
            forall|o: int|
                o != entity && (#[trigger] old(self).spec_exists(o))
                    ==> final(self).component_array@[final(self).spec_index_of(o)]
                    == old(self).component_array@[old(self).spec_index_of(o)],
    {
        let component = self.sparse_array[entity] as usize;
        self.swap_components(component, self.num_components - 1);
        self.num_components = self.num_components - 1;
    }

    /// Moves `entity`'s disabled component back into the active prefix by
    /// swapping it with the entry just past the active boundary.
    pub fn enable_entity(&mut self, entity: usize)
        requires
            old(self).wf(),
            old(self).spec_exists(entity as int),
            !old(self).spec_is_active(entity as int),
        ensures
            final(self).wf(),
            Self::spec_enabled(*old(self), *final(self), entity as int),
            final(self).spec_is_active(entity as int),
            forall|o: int|
                o != entity ==> ((#[trigger] final(self).spec_exists(o)) <==> old(self).spec_exists(o))
                    && (final(self).spec_is_active(o) <==> old(self).spec_is_active(o)),
            forall|o: int|
                o != entity && (#[trigger] old(self).spec_exists(o))
                    ==> final(self).component_array@[final(self).spec_index_of(o)]
                    == old(self).component_array@[old(self).spec_index_of(o)],
    {
        let component = self.sparse_array[entity] as usize;
        self.swap_components(component, self.num_components);
        self.num_components = self.num_components + 1;
    }

    /// Constructs a pool whose single entry is `(entity, component)`, active.
    pub fn new_with_entity(entity: usize, component: G) -> (pool: Self)
        requires
            entity < usize::MAX,
        ensures
            pool.wf(),
            Self::spec_created(pool, entity as int, component),
    {
        let mut sparse_array: Vec<i32> = Vec::with_capacity(entity + 1);
        Self::add_entity_to_sparse_array(entity, 0, &mut sparse_array);

        let pool = Self {
            num_components: 1,
            sparse_array,
            packed_array: vec![entity],
            component_array: vec![component],
        };
        proof {
            assert(pool.packed_array@ =~= seq![entity]);
            assert(pool.component_array@ =~= seq![component]);
        }
        pool
    }

    /// Appends a new active entry for `entity`, growing the sparse array if
    /// needed. The new entry enters the packed arrays at the old active
    /// boundary; a disabled entry previously sitting at the boundary moves to
    /// the end, so the active prefix stays contiguous.
    pub fn assign_component(&mut self, entity: usize, component: G)
        requires
            old(self).wf(),
            !old(self).spec_exists(entity as int),
            entity < usize::MAX,
            old(self).packed_array@.len() < i32::MAX,
        ensures
            final(self).wf(),
            Self::spec_assigned(*old(self), *final(self), entity as int, component),
    {
        let n = self.num_components;
        let len = self.packed_array.len();
        self.packed_array.push(entity);
        self.component_array.push(component);
        if n < len {
            // relocate the disabled entry at the active boundary to the end
            let moved: usize = self.packed_array[n];
            vec_swap(&mut self.packed_array, n, len);
            vec_swap(&mut self.component_array, n, len);
            self.sparse_array.set(moved, len as i32);
        }
        Self::add_entity_to_sparse_array(entity, n, &mut self.sparse_array);
        self.num_components = n + 1;
    }

    /* Utility functions */

    /// Grows `sparse_array` (if needed) so that `entity` is in bounds, then
    /// records `value` as `entity`'s packed index.
    pub fn add_entity_to_sparse_array(entity: usize, value: usize, sparse_array: &mut Vec<i32>)
        requires
            entity < usize::MAX,
            value <= i32::MAX,
        ensures
            final(sparse_array)@.len() == if old(sparse_array)@.len() >= entity + 1 {
                old(sparse_array)@.len() as int
            } else {
                entity + 1
            },
            final(sparse_array)@[entity as int] == value as i32,
            forall|j: int|
                0 <= j < old(sparse_array)@.len() && j != entity ==> final(sparse_array)@[j]
                    == old(sparse_array)@[j],
            forall|j: int|
                old(sparse_array)@.len() <= j < final(sparse_array)@.len() && j != entity
                    ==> final(sparse_array)@[j] == -1,
    {
        Self::prolong_sparse_array(entity, sparse_array);
        sparse_array.set(entity, value as i32);
    }

    /// Whether `entity` has a component in this pool: a sparse bounds check
    /// plus a check that the sparse entry is not `-1`.
    pub fn entity_exists(&self, entity: usize) -> (present: bool)
        ensures
            present == self.spec_exists(entity as int),
    {
        entity < self.sparse_array.len() && self.sparse_array[entity] != -1
    }

    /// The active components, in packed order: exactly the entries of
    /// `component_array` below the active boundary. Disabled entries are
    /// never yielded.
    pub fn iter(&self) -> (components: Vec<&G>)
        requires
            self.num_components <= self.component_array@.len(),
        ensures
            components@.len() == self.spec_active_components().len(),
            forall|i: int|
                0 <= i < components@.len() ==> components@[i] == self.spec_active_components()[i],
    {
        let mut components: Vec<&G> = Vec::new();
        let mut i: usize = 0;
        while i < self.num_components
            invariant
                i <= self.num_components,
                self.num_components <= self.component_array@.len(),
                components@.len() == i,
                forall|j: int| 0 <= j < i ==> components@[j] == self.component_array@[j],
            decreases self.num_components - i,
        {
            components.push(&self.component_array[i]);
            i += 1;
        }
        components
    }

    /// Mutable access to one active component, by its packed index below the
    /// active boundary.
    pub fn iter_mut(&mut self, index: usize) -> (component: &mut G)
        requires
            index < old(self).num_components,
            old(self).num_components <= old(self).component_array@.len(),
        ensures
            *component == old(self).component_array@[index as int],
            final(self).component_array@ == old(self).component_array@.update(
                index as int,
                *final(component),
            ),
            final(self).num_components == old(self).num_components,
            final(self).sparse_array@ == old(self).sparse_array@,
            final(self).packed_array@ == old(self).packed_array@,
    {
        &mut self.component_array[index]
    }

    /// Resizes `sparse_array` up to `entity + 1` slots, filling the new
    /// slots with `-1`; never shrinks it.
    pub fn prolong_sparse_array(entity: usize, sparse_array: &mut Vec<i32>)
        requires
            entity < usize::MAX,
        ensures
            final(sparse_array)@.len() >= entity + 1,
            old(sparse_array)@.len() >= entity + 1 ==> final(sparse_array)@ == old(
                sparse_array,
            )@,
            old(sparse_array)@.len() < entity + 1 ==> {
                &&& final(sparse_array)@.len() == entity + 1
                &&& forall|j: int|
                    0 <= j < old(sparse_array)@.len() ==> final(sparse_array)@[j] == old(
                        sparse_array,
                    )@[j]
                &&& forall|j: int|
                    old(sparse_array)@.len() <= j < entity + 1 ==> final(sparse_array)@[j] == -1
            },
    {
        if entity + 1 > sparse_array.len() {
            sparse_array.resize(entity + 1, -1);
        }
    }
}

} // verus!

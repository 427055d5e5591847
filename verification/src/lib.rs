//! A sparse-set entity/component registry.
//!
//! Entities are bare integer ids handed out by a scene-owned allocator that
//! recycles released ids in LIFO order. Each component type lives in a
//! [`ecs::component_pool::ComponentPool`]: a densely packed array of
//! components with a sparse entity-indexed array pointing into it, split into
//! an active prefix and a disabled suffix. All operations keep the
//! sparse/packed indices consistent, which is stated as the pool's
//! well-formedness invariant and proved for every operation.

use vstd::prelude::*;

pub mod ecs;
pub mod laws;
pub mod life;

verus! {

/// A minimal sample component: a single integer value.
#[derive(Debug, PartialEq)]
pub struct Number {
    pub num: i32,
}

} // verus!

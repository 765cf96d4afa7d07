//! Descriptor pools: how many descriptors of each kind a pool holds, and
//! which writes fill a set.

use crate::shader::{DescriptorSetLayoutBinding, DescriptorType};
use vstd::prelude::*;

verus! {

/// The room a pool has for descriptors of one kind.
#[derive(Clone, Copy, Debug, PartialEq, Eq, Structural)]
pub struct DescriptorRangeDesc {
    pub ty: DescriptorType,
    pub count: usize,
}

/// The write of one descriptor to one binding of a set.
#[derive(Clone, Copy, Debug, PartialEq, Eq, Structural)]
pub struct DescriptorSetWrite {
    /// The position of the set in its pool.
    pub set: usize,
    pub binding: u32,
    pub array_offset: usize,
    /// The position of the descriptor in the list that was written.
    pub descriptor: usize,
}

/// What a descriptor pool is created with.
pub struct DescriptorPool {
    /// The number of sets allocated from the pool, all of the shader's layout.
    pub set_count: usize,
    pub ranges: Vec<DescriptorRangeDesc>,
}

/// The room for the kind of the binding at position `index`.
pub open spec fn range_at(bindings: Seq<DescriptorSetLayoutBinding>, pool_count: usize, index: int) -> DescriptorRangeDesc {
    DescriptorRangeDesc { ty: bindings[index].ty, count: pool_count }
}

/// The write of the descriptor at position `index` to the set `set`.
pub open spec fn write_at(set: usize, index: int) -> DescriptorSetWrite {
    DescriptorSetWrite { set, binding: index as u32, array_offset: 0, descriptor: index as usize }
}

impl DescriptorPool {
    /// A pool of `pool_count` sets for a shader with the layout `bindings`:
    /// for each binding it has room for `pool_count` descriptors of its kind.
    pub fn create(bindings: &[DescriptorSetLayoutBinding], pool_count: usize) -> (pool:
        DescriptorPool)
        ensures
            pool.set_count == pool_count,
            pool.ranges@ == Seq::new(
                bindings@.len(),
                |index: int| range_at(bindings@, pool_count, index),
            ),
    {
        let mut ranges: Vec<DescriptorRangeDesc> = Vec::new();
        let mut i: usize = 0;
        while i < bindings.len()
            invariant
                i <= bindings@.len(),
                ranges@.len() == i,
                forall|k: int| 0 <= k < i ==> ranges@[k] == range_at(bindings@, pool_count, k),
            decreases bindings@.len() - i,
        {
            ranges.push(DescriptorRangeDesc { ty: bindings[i].ty, count: pool_count });
            i += 1;
        }
        assert(ranges@ =~= Seq::new(
            bindings@.len(),
            |index: int| range_at(bindings@, pool_count, index),
        ));
        DescriptorPool { set_count: pool_count, ranges }
    }

    /// The writes that fill the set `set` with `count` descriptors: the
    /// descriptor at each position goes to the binding of that number.
    pub fn write(&self, set: usize, count: usize) -> (writes: Vec<DescriptorSetWrite>)
        requires
            set < self.set_count,
            count <= u32::MAX,
        ensures
            writes@ == Seq::new(count as nat, |index: int| write_at(set, index)),
    {
        let mut writes: Vec<DescriptorSetWrite> = Vec::new();
        let mut i: usize = 0;
        while i < count
            invariant
                i <= count <= u32::MAX,
                writes@.len() == i,
                forall|k: int| 0 <= k < i ==> writes@[k] == write_at(set, k),
            decreases count - i,
        {
            writes.push(DescriptorSetWrite { set, binding: i as u32, array_offset: 0, descriptor: i });
            i += 1;
        }
        assert(writes@ =~= Seq::new(count as nat, |index: int| write_at(set, index)));
        writes
    }
}

} // verus!

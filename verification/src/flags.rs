//! Flag sets, kept as the plain bit patterns the graphics layer defines.
//!
//! A flag set is an unsigned integer; the union of two sets is their bitwise
//! or, and a set contains another when every bit of the other is set in it.

use vstd::prelude::*;

verus! {

/// Buffer can be the source of a transfer.
pub const BUFFER_TRANSFER_SRC: u32 = 0x1;
/// Buffer can be the destination of a transfer.
pub const BUFFER_TRANSFER_DST: u32 = 0x2;
/// Buffer can back uniform blocks.
pub const BUFFER_UNIFORM: u32 = 0x10;
/// Buffer can hold indices.
pub const BUFFER_INDEX: u32 = 0x40;
/// Buffer can hold vertices.
pub const BUFFER_VERTEX: u32 = 0x80;

/// Memory that lives on the device.
pub const MEMORY_DEVICE_LOCAL: u16 = 0x1;
/// Memory the host can map.
pub const MEMORY_CPU_VISIBLE: u16 = 0x2;
/// Memory whose host writes need no flush.
pub const MEMORY_COHERENT: u16 = 0x4;

/// Image can be the source of a transfer.
pub const IMAGE_TRANSFER_SRC: u32 = 0x1;
/// Image can be the destination of a transfer.
pub const IMAGE_TRANSFER_DST: u32 = 0x2;
/// Image can be sampled in a shader.
pub const IMAGE_SAMPLED: u32 = 0x4;
/// Image can be a depth-stencil attachment.
pub const IMAGE_DEPTH_STENCIL_ATTACHMENT: u32 = 0x20;

/// The colour aspect of an image.
pub const ASPECT_COLOR: u8 = 0x1;
/// The depth aspect of an image.
pub const ASPECT_DEPTH: u8 = 0x2;
/// The stencil aspect of an image.
pub const ASPECT_STENCIL: u8 = 0x4;

/// No access at all.
pub const ACCESS_NONE: u32 = 0x0;
/// Read by a shader.
pub const ACCESS_SHADER_READ: u32 = 0x20;
/// Read as a colour attachment.
pub const ACCESS_COLOR_ATTACHMENT_READ: u32 = 0x80;
/// Written as a colour attachment.
pub const ACCESS_COLOR_ATTACHMENT_WRITE: u32 = 0x100;
/// Read as a depth-stencil attachment.
pub const ACCESS_DEPTH_STENCIL_ATTACHMENT_READ: u32 = 0x200;
/// Written as a depth-stencil attachment.
pub const ACCESS_DEPTH_STENCIL_ATTACHMENT_WRITE: u32 = 0x400;
/// Read by a transfer.
pub const ACCESS_TRANSFER_READ: u32 = 0x800;
/// Written by a transfer.
pub const ACCESS_TRANSFER_WRITE: u32 = 0x1000;

/// Before any command of the pipeline.
pub const STAGE_TOP_OF_PIPE: u32 = 0x1;
/// The fragment shader.
pub const STAGE_FRAGMENT_SHADER: u32 = 0x80;
/// The depth and stencil tests that precede fragment shading.
pub const STAGE_EARLY_FRAGMENT_TESTS: u32 = 0x100;
/// The writing of colour attachments.
pub const STAGE_COLOR_ATTACHMENT_OUTPUT: u32 = 0x400;
/// Copies and blits.
pub const STAGE_TRANSFER: u32 = 0x1000;

/// Whether every bit of `other` is set in `flags`.
pub open spec fn spec_contains(flags: u32, other: u32) -> bool {
    flags & other == other
}

/// Whether every bit of `other` is set in `flags`.
pub fn contains(flags: u32, other: u32) -> (r: bool)
    ensures
        r == spec_contains(flags, other),
{
    flags & other == other
}

/// The union of the first `n` sets of `sets`, starting from `start`.
pub open spec fn union_of(start: u32, sets: Seq<u32>, n: int) -> u32
    decreases n,
{
    if n <= 0 {
        start
    } else {
        union_of(start, sets, n - 1) | sets[n - 1]
    }
}

/// The union of `start` and every set in `sets`.
pub fn union_all(start: u32, sets: &[u32]) -> (r: u32)
    ensures
        r == union_of(start, sets@, sets@.len() as int),
{
    let mut acc: u32 = start;
    let mut i: usize = 0;
    while i < sets.len()
        invariant
            i <= sets.len(),
            acc == union_of(start, sets@, i as int),
        decreases sets.len() - i,
    {
        acc = acc | sets[i];
        i += 1;
    }
    acc
}

/// A union contains its starting set and each set that went into it.
pub proof fn lemma_union_contains(start: u32, sets: Seq<u32>, n: int, k: int)
    requires
        0 <= k < n <= sets.len(),
    ensures
        spec_contains(union_of(start, sets, n), start),
        spec_contains(union_of(start, sets, n), sets[k]),
    decreases n,
{
    let prev = union_of(start, sets, n - 1);
    let last = sets[n - 1];
    assert((prev | last) & last == last) by (bit_vector);
    if n - 1 > 0 {
        if k < n - 1 {
            lemma_union_contains(start, sets, n - 1, k);
        } else {
            lemma_union_contains(start, sets, n - 1, 0);
        }
    }
    assert(start & start == start) by (bit_vector);
    assert(prev & start == start ==> (prev | last) & start == start) by (bit_vector);
    if k < n - 1 {
        let s = sets[k];
        assert(prev & s == s ==> (prev | last) & s == s) by (bit_vector);
    }
}

} // verus!

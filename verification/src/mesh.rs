//! Meshes: vertices and indices side by side in one buffer.

use vstd::prelude::*;

verus! {

/// Where the vertices and indices of a mesh lie in its buffer.
#[derive(Clone, Copy, Debug, PartialEq, Eq, Structural)]
pub struct Mesh {
    /// Where the vertices start, in bytes.
    pub vert_offset: u64,
    /// Where the indices start, in bytes.
    pub index_offset: u64,
    /// The size of the buffer in bytes.
    pub size: u64,
    /// The number of indices.
    pub index_count: usize,
}

/// One indexed draw of a mesh.
#[derive(Clone, Copy, Debug, PartialEq, Eq, Structural)]
pub struct Draw {
    pub vert_offset: u64,
    pub index_offset: u64,
    /// The indices drawn are `0..index_end`.
    pub index_end: u32,
    /// The instances drawn are `0..instance_end`.
    pub instance_end: u32,
    /// Whether push constants are set before the draw.
    pub push_constants: bool,
}

/// The bytes of the vertices.
pub open spec fn vertex_bytes(vertex_size: usize, vertex_count: usize) -> int {
    vertex_size * vertex_count
}

/// Where the indices start: behind the vertices, moved on by what the end of
/// the vertices leaves over when divided by the alignment of an index.
pub open spec fn index_start(vertex_size: usize, vertex_count: usize, index_align: usize) -> int {
    vertex_bytes(vertex_size, vertex_count) + vertex_bytes(vertex_size, vertex_count)
        % (index_align as int)
}

/// The bytes of a buffer that holds the vertices and the indices.
pub open spec fn mesh_bytes(
    vertex_size: usize,
    vertex_count: usize,
    index_size: usize,
    index_align: usize,
    index_count: usize,
) -> int {
    index_start(vertex_size, vertex_count, index_align) + index_size * index_count
}

impl Mesh {
    /// Lays out `vertex_count` vertices of `vertex_size` bytes, followed by
    /// `index_count` indices of `index_size` bytes. Nothing is returned where
    /// the start of the indices or the bytes of the indices do not fit a
    /// `usize`, or the size of the buffer does not fit a `u64`.
    pub fn create(
        vertex_size: usize,
        vertex_count: usize,
        index_size: usize,
        index_align: usize,
        index_count: usize,
    ) -> (r: Option<Mesh>)
        requires
            0 < index_align,
        ensures
            r.is_some() == (index_start(vertex_size, vertex_count, index_align) <= usize::MAX
                && index_size * index_count <= usize::MAX && mesh_bytes(
                vertex_size,
                vertex_count,
                index_size,
                index_align,
                index_count,
            ) <= u64::MAX),
            match r {
                Some(mesh) => {
                    &&& mesh.vert_offset == 0
                    &&& mesh.index_offset == index_start(vertex_size, vertex_count, index_align)
                    &&& mesh.size == mesh_bytes(
                        vertex_size,
                        vertex_count,
                        index_size,
                        index_align,
                        index_count,
                    )
                    &&& mesh.index_count == index_count
                },
                None => true,
            },
    {
        proof {
            assert(0 <= vertex_size * vertex_count) by (nonlinear_arith)
                requires
                    0 <= vertex_size,
                    0 <= vertex_count,
            ;
            assert(0 <= index_size * index_count) by (nonlinear_arith)
                requires
                    0 <= index_size,
                    0 <= index_count,
            ;
        }
        let vertices = match vertex_size.checked_mul(vertex_count) {
            Some(bytes) => bytes,
            None => {
                return None;
            },
        };
        let padding = vertices % index_align;
        let index_offset = match vertices.checked_add(padding) {
            Some(offset) => offset,
            None => {
                return None;
            },
        };
        let indices = match index_size.checked_mul(index_count) {
            Some(bytes) => bytes,
            None => {
                return None;
            },
        };
        let size = match (index_offset as u64).checked_add(indices as u64) {
            Some(size) => size,
            None => {
                return None;
            },
        };
        Some(Mesh { vert_offset: 0, index_offset: index_offset as u64, size, index_count })
    }

    /// The draw of the whole mesh, once. The number of indices is cut to 32
    /// bits. Push constants are set where the shader has any, that is where
    /// their size `constants_size` is not zero.
    pub fn draw(&self, constants_size: u32) -> (draw: Draw)
        ensures
            draw == (Draw {
                vert_offset: self.vert_offset,
                index_offset: self.index_offset,
                index_end: self.index_count as u32,
                instance_end: 1,
                push_constants: constants_size != 0,
            }),
    {
        Draw {
            vert_offset: self.vert_offset,
            index_offset: self.index_offset,
            index_end: #[verifier::truncate]
            (self.index_count as u32),
            instance_end: 1,
            push_constants: constants_size != 0,
        }
    }
}

} // verus!

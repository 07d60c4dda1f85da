//! The fixed catalog of object shapes.
//!
//! Kinds are a dense enumeration: every kind has exactly one slot in the
//! buffer array built at startup, and kind values double as array indices
//! with no gaps.

use vstd::prelude::*;

verus! {

/// Number of declared object kinds; kind indices are dense in
/// `0 .. NUM_OBJECT_TYPES`.
pub const NUM_OBJECT_TYPES: usize = 3;

/// A shape from the fixed catalog.
#[derive(Clone, Copy, Debug, PartialEq, Eq, Structural)]
pub enum Object {
    Cube,
    Sphere,
    Cylinder,
}

impl Object {
    /// The dense array slot this kind occupies.
    pub open spec fn spec_index(self) -> int {
        match self {
            Object::Cube => 0,
            Object::Sphere => 1,
            Object::Cylinder => 2,
        }
    }

    /// The dense array slot this kind occupies.
    pub fn index(&self) -> (i: usize)
        ensures
            i as int == self.spec_index(),
            i < NUM_OBJECT_TYPES,
    {
        match self {
            Object::Cube => 0,
            Object::Sphere => 1,
            Object::Cylinder => 2,
        }
    }

    /// The kind occupying a given slot.
    pub open spec fn spec_from_index(i: int) -> Object {
        if i == 0 {
            Object::Cube
        } else if i == 1 {
            Object::Sphere
        } else {
            Object::Cylinder
        }
    }

    /// The kind occupying a given slot.
    pub fn from_index(i: usize) -> (r: Object)
        requires
            i < NUM_OBJECT_TYPES,
        ensures
            r == Object::spec_from_index(i as int),
            r.spec_index() == i as int,
    {
        if i == 0 {
            Object::Cube
        } else if i == 1 {
            Object::Sphere
        } else {
            Object::Cylinder
        }
    }
}

/// How a shape is drawn: through an explicit index buffer, or directly from
/// the vertex buffer without indices.
#[derive(Clone, Copy, Debug, PartialEq, Eq, Structural)]
pub enum IndexData {
    /// Draw `count` indices out of the referenced index buffer.
    Indexed { buffer: u64, count: usize },
    /// Draw every vertex of the vertex buffer, in order.
    NoIndices,
}

/// The GPU-side buffers of one object kind: a handle to its vertex buffer,
/// how many vertices that buffer holds, and its index specification.
/// Created once during resource construction and immutable afterwards.
#[derive(Clone, Copy, Debug, PartialEq, Eq, Structural)]
pub struct ObjectBuffers {
    pub vertex_buffer: u64,
    pub vertex_count: usize,
    pub index: IndexData,
}

impl ObjectBuffers {
    /// A usable buffer set is non-empty: it holds at least one vertex, and
    /// an index buffer, if it has one, covers at least one index.
    pub open spec fn wf(self) -> bool {
        &&& self.vertex_count > 0
        &&& match self.index {
            IndexData::Indexed { buffer: _, count } => count > 0,
            IndexData::NoIndices => true,
        }
    }
}

/// Failure to allocate one object kind's GPU buffers.
#[derive(Clone, Copy, Debug, PartialEq, Eq, Structural)]
pub enum ObjectCreationError {
    VertexBufferCreationError,
    IndexBufferCreationError,
}

} // verus!

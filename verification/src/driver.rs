//! The part of the driver's call surface that the handles use, as data.

use vstd::prelude::*;

verus! {

/// Width in bytes of one buffer element. A single-precision component and a
/// 32-bit index are both four bytes wide.
pub const ELEMENT_BYTES: usize = 4;

/// Whether a buffer can be made of `len` elements: there is at least one to
/// upload, and their size in bytes is one that the driver can be told, which
/// takes sizes as signed machine words.
pub open spec fn uploadable(len: nat) -> bool {
    0 < len && len * ELEMENT_BYTES <= isize::MAX
}

/// Tests whether a buffer can be made of `len` elements.
pub fn is_uploadable(len: usize) -> (ok: bool)
    ensures
        ok == uploadable(len as nat),
{
    let most: usize = (isize::MAX as usize) / ELEMENT_BYTES;
    0 < len && len <= most
}

/// The binding point that a buffer object is attached to.
#[derive(Clone, Copy, Debug, PartialEq, Eq, Structural)]
pub enum BufferTarget {
    /// Vertex attribute data.
    Array,
    /// Vertex indices.
    ElementArray,
}

/// How often the contents of a data store are rewritten, for stores that the
/// application writes and the driver draws from. The handles of this crate
/// make static stores only.
#[derive(Clone, Copy, Debug, PartialEq, Eq, Structural)]
pub enum Usage {
    /// Written once, used a few times.
    StreamDraw,
    /// Written once, used many times.
    StaticDraw,
    /// Rewritten repeatedly, used many times.
    DynamicDraw,
}

/// The type of one component of a vertex attribute. Only types that are
/// [`ELEMENT_BYTES`] wide are listed, and the handles of this crate declare
/// `Float` only.
#[derive(Clone, Copy, Debug, PartialEq, Eq, Structural)]
pub enum ComponentType {
    Int,
    UnsignedInt,
    Float,
}

/// The polygon faces that a rasterization mode is set for.
#[derive(Clone, Copy, Debug, PartialEq, Eq, Structural)]
pub enum Face {
    Front,
    Back,
    FrontAndBack,
}

/// How the interior of a polygon is rasterized.
#[derive(Clone, Copy, Debug, PartialEq, Eq, Structural)]
pub enum RasterMode {
    /// Only the vertices are drawn.
    Point,
    /// Only the outline is drawn.
    Line,
    /// The interior is filled.
    Fill,
}

/// One call into the graphics driver, with every argument that the driver
/// receives.
///
/// Name `0` is the null object of every category: binding it leaves nothing
/// bound.
#[must_use]
#[derive(Clone, Copy, Debug, PartialEq, Eq, Structural)]
pub enum Call {
    /// Make vertex array `id` the active one.
    BindVertexArray { id: u32 },
    /// Release the one vertex array `id`.
    DeleteVertexArrays { id: u32 },
    /// Attach buffer `id` to `target`.
    BindBuffer { target: BufferTarget, id: u32 },
    /// Create the data store of the buffer attached to `target` and fill it
    /// with the first `bytes` bytes of the elements that the handle under
    /// construction retains.
    BufferData { target: BufferTarget, bytes: isize, usage: Usage },
    /// Declare that attribute slot `index` reads `size` components of type
    /// `component` per vertex from the buffer attached to the array target,
    /// `stride` bytes apart (`0`: tightly packed) and starting `offset` bytes
    /// into the store.
    VertexAttribPointer {
        index: u32,
        size: i32,
        component: ComponentType,
        normalized: bool,
        stride: i32,
        offset: usize,
    },
    /// Switch attribute slot `index` on.
    EnableVertexAttribArray { index: u32 },
    /// Release the one buffer `id`.
    DeleteBuffers { id: u32 },
    /// Rasterize the polygons facing `face` in `mode`.
    PolygonMode { face: Face, mode: RasterMode },
}

} // verus!

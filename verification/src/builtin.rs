//! Layout of the built-in geometry buffer: a unit rectangle of four
//! vertices and six indices, packed as one vertex block followed by one
//! index block in a single device-local buffer.

use vstd::prelude::*;

verus! {

use crate::recorder::{IndexBufferSlice, IndexFormat, VertexArray, VertexBufferSlice};

/// Bytes per built-in vertex: a four-component position, a two-component
/// texture coordinate and two reserved lanes, four bytes each.
pub const BUILTIN_VERTEX_STRIDE: usize = 32;

/// Vertices in the unit rectangle.
pub const UNIT_RECT_VERTEX_COUNT: usize = 4;

/// Indices drawing the unit rectangle as two triangles.
pub const UNIT_RECT_INDEX_COUNT: usize = 6;

/// Byte offset of the unit rectangle's vertices in the built-in buffer.
pub const UNIT_RECT_VERTEX_OFFSET: usize = 0;

/// Byte offset of the unit rectangle's indices: right after the vertex
/// block.
pub const UNIT_RECT_INDEX_OFFSET: usize = 128;

/// Total size of the built-in buffer: the vertex block and the two-byte
/// indices behind it.
pub const BUILTIN_BUFFER_SIZE: usize = 140;

/// The built-in buffer holds the vertex block first and the index block
/// directly after it.
pub proof fn lemma_builtin_buffer_layout()
    ensures
        UNIT_RECT_INDEX_OFFSET == UNIT_RECT_VERTEX_OFFSET + UNIT_RECT_VERTEX_COUNT
            * BUILTIN_VERTEX_STRIDE,
        BUILTIN_BUFFER_SIZE == UNIT_RECT_INDEX_OFFSET + UNIT_RECT_INDEX_COUNT * 2,
{
}

/// The built-in resources a scene can ask for.
#[derive(Debug, Clone, Copy, PartialEq, Eq, Structural)]
pub enum BuiltinResourceKey {
    UnitRect,
}

/// The vertex array for a built-in resource inside the built-in buffer
/// `buffer`: for the unit rectangle, four vertices at the start and six
/// sixteen-bit indices right after the vertex block.
pub fn get_builtin_vertex_array(key: BuiltinResourceKey, buffer: usize) -> (r: VertexArray)
    ensures
        key is UnitRect ==> r == (VertexArray {
            vb_desc: VertexBufferSlice {
                buffer,
                offset: UNIT_RECT_VERTEX_OFFSET as usize,
                count: UNIT_RECT_VERTEX_COUNT as usize,
            },
            ib_desc: Some(
                IndexBufferSlice {
                    buffer,
                    offset: UNIT_RECT_INDEX_OFFSET as usize,
                    format: IndexFormat::U16,
                    count: UNIT_RECT_INDEX_COUNT as usize,
                },
            ),
        }),
{
    match key {
        BuiltinResourceKey::UnitRect => VertexArray {
            vb_desc: VertexBufferSlice {
                buffer,
                offset: UNIT_RECT_VERTEX_OFFSET,
                count: UNIT_RECT_VERTEX_COUNT,
            },
            ib_desc: Some(
                IndexBufferSlice {
                    buffer,
                    offset: UNIT_RECT_INDEX_OFFSET,
                    format: IndexFormat::U16,
                    count: UNIT_RECT_INDEX_COUNT,
                },
            ),
        },
    }
}

} // verus!

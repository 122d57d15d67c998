//! The GPU form of a polyline and its one-shot preparation: the vertex ring
//! packed into a tight `float32x3` byte buffer (stride 12, little-endian)
//! plus a snapshot of the segment ranges.

use vstd::prelude::*;

use crate::polyline::{IndexRange, Polyline, Vertex};

verus! {

/// The little-endian bytes of one 32-bit word.
pub open spec fn u32_le_bytes(x: u32) -> Seq<u8> {
    seq![
        (x & 0xff) as u8,
        ((x >> 8) & 0xff) as u8,
        ((x >> 16) & 0xff) as u8,
        ((x >> 24) & 0xff) as u8,
    ]
}

/// The 12 bytes of one vertex: its three components, each little-endian.
pub open spec fn vertex_bytes(v: Vertex) -> Seq<u8> {
    u32_le_bytes(v.x_bits) + u32_le_bytes(v.y_bits) + u32_le_bytes(v.z_bits)
}

/// The GPU mirror of a [`Polyline`]: the packed contents of its vertex
/// buffer and the segment ranges at preparation time. The host uploads the
/// bytes into a device buffer with vertex usage.
#[derive(Clone, Debug, PartialEq)]
pub struct GpuPolyline {
    pub vertex_buffer: Vec<u8>,
    pub index_ranges: Vec<IndexRange>,
}

/// What preparation promises: the buffer is exactly the vertices packed at
/// stride 12, and the ranges are copied unchanged.
pub open spec fn gpu_polyline_matches(
    vertices: Seq<Vertex>,
    index_ranges: Seq<IndexRange>,
    gpu: GpuPolyline,
) -> bool {
    &&& gpu.vertex_buffer@.len() == 12 * vertices.len()
    &&& forall|i: int|
        0 <= i < vertices.len() ==> gpu.vertex_buffer@.subrange(12 * i, 12 * i + 12)
            == vertex_bytes(#[trigger] vertices[i])
    &&& gpu.index_ranges@ == index_ranges
}

/// Appends the little-endian bytes of `x`.
fn push_u32_le(buf: &mut Vec<u8>, x: u32)
    ensures
        final(buf)@ == old(buf)@ + u32_le_bytes(x),
{
    buf.push((x & 0xff) as u8);
    buf.push(((x >> 8) & 0xff) as u8);
    buf.push(((x >> 16) & 0xff) as u8);
    buf.push(((x >> 24) & 0xff) as u8);
    proof {
        assert(buf@ =~= old(buf)@ + u32_le_bytes(x));
    }
}

impl Polyline {
    /// Translates the asset into its GPU form: reinterprets the vertex ring
    /// as a packed `float32x3` byte buffer and snapshots the segment ranges.
    /// Idempotent with respect to identical inputs; the host re-runs it
    /// whenever the asset changes.
    pub fn prepare_asset(&self) -> (gpu: GpuPolyline)
        requires
            12 * self@.vertices.len() <= usize::MAX,
        ensures
            gpu_polyline_matches(self@.vertices, self@.index_ranges, gpu),
    {
        let mut vertex_buffer: Vec<u8> = Vec::new();
        let mut i: usize = 0;
        while i < self.vertices.len()
            invariant
                i <= self.vertices@.len(),
                12 * self.vertices@.len() <= usize::MAX,
                vertex_buffer@.len() == 12 * i,
                forall|j: int|
                    0 <= j < i ==> vertex_buffer@.subrange(12 * j, 12 * j + 12) == vertex_bytes(
                        #[trigger] self.vertices@[j],
                    ),
            decreases self.vertices@.len() - i,
        {
            let ghost prev = vertex_buffer@;
            let v = self.vertices[i];
            push_u32_le(&mut vertex_buffer, v.x_bits);
            push_u32_le(&mut vertex_buffer, v.y_bits);
            push_u32_le(&mut vertex_buffer, v.z_bits);
            proof {
                assert(vertex_buffer@ =~= prev + vertex_bytes(v));
                assert forall|j: int| 0 <= j < i + 1 implies vertex_buffer@.subrange(
                    12 * j,
                    12 * j + 12,
                ) == vertex_bytes(#[trigger] self.vertices@[j]) by {
                    if j < i {
                        assert(vertex_buffer@.subrange(12 * j, 12 * j + 12) =~= prev.subrange(
                            12 * j,
                            12 * j + 12,
                        ));
                    } else {
                        assert(vertex_buffer@.subrange(12 * j, 12 * j + 12) =~= vertex_bytes(v));
                    }
                }
            }
            i = i + 1;
        }

        let mut index_ranges: Vec<IndexRange> = Vec::new();
        let mut k: usize = 0;
        while k < self.index_ranges.len()
            invariant
                k <= self.index_ranges@.len(),
                index_ranges@ == self.index_ranges@.take(k as int),
            decreases self.index_ranges@.len() - k,
        {
            index_ranges.push(self.index_ranges[k]);
            proof {
                assert(index_ranges@ =~= self.index_ranges@.take(k + 1));
            }
            k = k + 1;
        }
        proof {
            assert(index_ranges@ =~= self.index_ranges@);
        }

        GpuPolyline { vertex_buffer, index_ranges }
    }
}

} // verus!

//! The CPU-side polyline asset: a fixed-capacity ring of vertex positions
//! plus a parallel fixed-capacity ring of half-open segment ranges, mutated
//! solely through `add_vertex`.

use vstd::prelude::*;

verus! {

/// One vertex position, stored as the IEEE-754 bit patterns of its three
/// `f32` components. The store never interprets a component — it only moves
/// vertices whole — so the bit patterns carry everything the logic needs.
#[derive(Clone, Copy, PartialEq, Eq, Structural, Debug)]
pub struct Vertex {
    pub x_bits: u32,
    pub y_bits: u32,
    pub z_bits: u32,
}

/// A half-open range `[start, end)` over vertex slots, identifying one
/// connected polyline. The all-zero range is the "unused" sentinel.
#[derive(Clone, Copy, PartialEq, Eq, Structural, Debug)]
pub struct IndexRange {
    pub start: u32,
    pub end: u32,
}

impl IndexRange {
    /// A range with both bounds zero marks an unused slot; the draw path
    /// skips it.
    pub open spec fn is_sentinel(self) -> bool {
        self.start == 0 && self.end == 0
    }

    /// Every used range is non-empty and stays within `cap` vertex slots.
    pub open spec fn wf(self, cap: nat) -> bool {
        !self.is_sentinel() ==> self.start < self.end && self.end <= cap
    }
}

/// The mathematical value of a [`Polyline`]: the two rings as sequences and
/// the two cursors as unbounded integers.
pub ghost struct PolylineModel {
    pub vertices: Seq<Vertex>,
    pub current_vertex_index: int,
    pub index_ranges: Seq<IndexRange>,
    pub current_index_index: int,
}

impl PolylineModel {
    /// Both rings are pre-allocated to the same capacity, the capacity fits
    /// the `u32` range bounds, and both cursors point into their rings.
    pub open spec fn wf(self) -> bool {
        &&& self.vertices.len() == self.index_ranges.len()
        &&& 0 < self.vertices.len() <= u32::MAX
        &&& 0 <= self.current_vertex_index < self.vertices.len()
        &&& 0 <= self.current_index_index < self.index_ranges.len()
    }

    /// Every non-sentinel range is well-formed for this capacity.
    pub open spec fn ranges_wf(self) -> bool {
        forall|i: int|
            0 <= i < self.index_ranges.len() ==> (#[trigger] self.index_ranges[i]).wf(
                self.vertices.len(),
            )
    }

    /// The append step. Writes the vertex at the cursor; a connected append
    /// stretches the current range's `end` to just past the cursor, a
    /// disconnected one advances to the next range slot and starts it as a
    /// one-vertex range; finally the vertex cursor advances around the ring.
    pub open spec fn add_vertex(self, vertex: Vertex, connected: bool) -> PolylineModel {
        let cvi = self.current_vertex_index;
        let cii = if connected {
            self.current_index_index
        } else {
            (self.current_index_index + 1) % (self.index_ranges.len() as int)
        };
        let range = if connected {
            IndexRange { start: self.index_ranges[cii].start, end: (cvi + 1) as u32 }
        } else {
            IndexRange { start: cvi as u32, end: (cvi + 1) as u32 }
        };
        PolylineModel {
            vertices: self.vertices.update(cvi, vertex),
            current_vertex_index: (cvi + 1) % (self.vertices.len() as int),
            index_ranges: self.index_ranges.update(cii, range),
            current_index_index: cii,
        }
    }
}

/// A whole batch of appends: `ops` applied in order, oldest first.
pub open spec fn add_vertices(m: PolylineModel, ops: Seq<(Vertex, bool)>) -> PolylineModel
    decreases ops.len(),
{
    if ops.len() == 0 {
        m
    } else {
        add_vertices(m.add_vertex(ops[0].0, ops[0].1), ops.drop_first())
    }
}

/// Capacity invariance: no sequence of appends changes the length of either
/// ring, and well-formedness is kept throughout.
pub proof fn lemma_capacity_invariant(m: PolylineModel, ops: Seq<(Vertex, bool)>)
    requires
        m.wf(),
    ensures
        add_vertices(m, ops).wf(),
        add_vertices(m, ops).vertices.len() == m.vertices.len(),
        add_vertices(m, ops).index_ranges.len() == m.index_ranges.len(),
    decreases ops.len(),
{
    if ops.len() > 0 {
        lemma_capacity_invariant(m.add_vertex(ops[0].0, ops[0].1), ops.drop_first());
    }
}

/// Range well-formedness is preserved by an append, except by a connected
/// append whose current range has gone stale across a ring wrap: extending a
/// range whose `start` lies past the vertex cursor would close it over the
/// wrap. That one case is excluded by hypothesis.
pub proof fn lemma_ranges_wf_preserved(m: PolylineModel, vertex: Vertex, connected: bool)
    requires
        m.wf(),
        m.ranges_wf(),
        connected ==> m.index_ranges[m.current_index_index].start <= m.current_vertex_index,
    ensures
        m.add_vertex(vertex, connected).ranges_wf(),
{
}

/// The vertex cursor stands exactly one slot past the current range's
/// `end`, taken around the ring. This holds of a fresh polyline and — as
/// [`lemma_cursor_tracks_current_range`] shows — survives every append, so
/// it holds of every reachable polyline.
pub open spec fn cursor_tracks_current_range(m: PolylineModel) -> bool {
    m.current_vertex_index == m.index_ranges[m.current_index_index].end as int % (
    m.vertices.len() as int)
}

/// Every append leaves the vertex cursor in step with the range it just
/// wrote: both the extended and the freshly started range end one slot
/// before the advanced cursor, around the ring.
pub proof fn lemma_cursor_tracks_current_range(m: PolylineModel, vertex: Vertex, connected: bool)
    requires
        m.wf(),
    ensures
        cursor_tracks_current_range(m.add_vertex(vertex, connected)),
{
}

/// Connected append extends: on any reachable polyline (one where the
/// cursor tracks the current range), `add_vertex(v, true)` leaves the range
/// cursor and the range's `start` unchanged and grows its `end` by one,
/// modulo the ring wrap.
pub proof fn lemma_connected_append_extends(m: PolylineModel, vertex: Vertex)
    requires
        m.wf(),
        cursor_tracks_current_range(m),
    ensures
        m.add_vertex(vertex, true).current_index_index == m.current_index_index,
        m.add_vertex(vertex, true).index_ranges[m.current_index_index].start
            == m.index_ranges[m.current_index_index].start,
        m.add_vertex(vertex, true).index_ranges[m.current_index_index].end
            == m.index_ranges[m.current_index_index].end as int % (m.vertices.len() as int) + 1,
{
}

/// Disconnected append creates: `add_vertex(v, false)` advances the range
/// cursor by one around the ring and starts the new range as the one-vertex
/// span `[current_vertex_index, current_vertex_index + 1)`.
pub proof fn lemma_disconnected_append_creates(m: PolylineModel, vertex: Vertex)
    requires
        m.wf(),
    ensures
        m.add_vertex(vertex, false).current_index_index
            == (m.current_index_index + 1) % (m.index_ranges.len() as int),
        m.add_vertex(vertex, false).index_ranges[m.add_vertex(vertex, false).current_index_index]
            == (IndexRange { start: m.current_vertex_index as u32, end: (m.current_vertex_index + 1) as u32 }),
{
}

/// The CPU-side polyline asset. Both containers keep their initial length —
/// the capacity — for their entire lifetime.
#[derive(Clone, Debug)]
pub struct Polyline {
    pub vertices: Vec<Vertex>,
    pub current_vertex_index: usize,
    pub index_ranges: Vec<IndexRange>,
    pub current_index_index: usize,
}

impl View for Polyline {
    type V = PolylineModel;

    open spec fn view(&self) -> PolylineModel {
        PolylineModel {
            vertices: self.vertices@,
            current_vertex_index: self.current_vertex_index as int,
            index_ranges: self.index_ranges@,
            current_index_index: self.current_index_index as int,
        }
    }
}

impl Polyline {
    /// The fixed number of vertex slots (equally, of range slots).
    pub open spec fn capacity(self) -> nat {
        self.vertices@.len()
    }

    /// Creates a polyline with `capacity` zeroed vertex slots and `capacity`
    /// sentinel range slots, both cursors at zero.
    pub fn with_capacity(capacity: usize) -> (p: Self)
        requires
            1 <= capacity <= u32::MAX,
        ensures
            p@.wf(),
            p@.ranges_wf(),
            p.capacity() == capacity,
            p.current_vertex_index == 0,
            p.current_index_index == 0,
            forall|i: int|
                0 <= i < capacity ==> p.vertices@[i] == (Vertex { x_bits: 0, y_bits: 0, z_bits: 0 }),
            forall|i: int| 0 <= i < capacity ==> (#[trigger] p.index_ranges@[i]).is_sentinel(),
    {
        let mut vertices: Vec<Vertex> = Vec::new();
        let mut index_ranges: Vec<IndexRange> = Vec::new();
        let mut i: usize = 0;
        while i < capacity
            invariant
                i <= capacity,
                vertices@.len() == i,
                index_ranges@.len() == i,
                forall|j: int|
                    0 <= j < i ==> vertices@[j] == (Vertex { x_bits: 0, y_bits: 0, z_bits: 0 }),
                forall|j: int| 0 <= j < i ==> (#[trigger] index_ranges@[j]).is_sentinel(),
            decreases capacity - i,
        {
            vertices.push(Vertex { x_bits: 0, y_bits: 0, z_bits: 0 });
            index_ranges.push(IndexRange { start: 0, end: 0 });
            i = i + 1;
        }
        Polyline { vertices, current_vertex_index: 0, index_ranges, current_index_index: 0 }
    }

    /// Appends one vertex. `connected = true` extends the segment currently
    /// being built; `connected = false` starts a new segment at this vertex.
    /// The exact effect is [`PolylineModel::add_vertex`].
    ///
    /// The vertex cursor advances `(i + 1) mod capacity`, so an append that
    /// wraps overwrites the oldest slot; a range whose vertices have been
    /// overwritten is stale and is expected to be reclaimed by later
    /// disconnected appends ([`lemma_ranges_wf_preserved`] names the one
    /// append that a stale range makes ill-formed).
    pub fn add_vertex(&mut self, vertex: Vertex, connected: bool)
        requires
            old(self)@.wf(),
        ensures
            final(self)@ == old(self)@.add_vertex(vertex, connected),
            final(self)@.wf(),
    {
        self.vertices[self.current_vertex_index] = vertex;

        if connected {
            let end_value = self.current_vertex_index as u32 + 1;
            let range = self.index_ranges[self.current_index_index];
            self.index_ranges[self.current_index_index] =
                IndexRange { start: range.start, end: end_value };
        } else {
            self.current_index_index = (self.current_index_index + 1) % self.index_ranges.len();
            self.index_ranges[self.current_index_index] =
                IndexRange {
                    start: self.current_vertex_index as u32,
                    end: self.current_vertex_index as u32 + 1,
                };
        }

        self.current_vertex_index = (self.current_vertex_index + 1) % self.vertices.len();
    }
}

} // verus!

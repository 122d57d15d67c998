//! The two render-command fragments at the end of the phase item's command
//! chain: binding the per-instance uniform group, and issuing the instanced
//! quad draws over a prepared polyline's segment ranges.

use vstd::prelude::*;

use crate::polyline::IndexRange;
use crate::prepare::PolylineBindGroup;
use crate::render_asset::GpuPolyline;

verus! {

/// One call a render-command fragment asks the host's tracked render pass
/// to make.
#[derive(Clone, Copy, PartialEq, Eq, Structural, Debug)]
pub enum PassCommand {
    /// Bind a bind group at a pipeline slot with one dynamic offset.
    SetBindGroup { index: usize, dynamic_offset: u32 },
    /// Bind a vertex buffer at a slot over its full extent.
    SetVertexBuffer { slot: u32 },
    /// An instanced draw: vertices `[vertex_start, vertex_end)` for
    /// instances `[instance_start, instance_end)`.
    Draw { vertex_start: u32, vertex_end: u32, instance_start: u32, instance_end: u32 },
}

/// Outcome of a render-command fragment. A failure is transient: the host
/// reissues the command next frame.
#[derive(Clone, Copy, PartialEq, Eq, Structural, Debug)]
pub enum RenderCommandResult {
    Success,
    Failure,
}

/// A range takes part in drawing unless it is the `(0, 0)` sentinel.
pub open spec fn spec_drawn(r: IndexRange) -> bool {
    !r.is_sentinel()
}

/// The drawn-range filter as a single function value.
pub open spec fn drawn_pred() -> spec_fn(IndexRange) -> bool {
    |r: IndexRange| spec_drawn(r)
}

/// The draw call one segment range becomes: six vertices per instance (the
/// quad the vertex shader synthesizes), one instance per segment slot in
/// `[start, end)`.
pub open spec fn spec_draw_call(r: IndexRange) -> PassCommand {
    PassCommand::Draw {
        vertex_start: 0,
        vertex_end: 6,
        instance_start: r.start,
        instance_end: r.end,
    }
}

/// The draw-call constructor as a single function value.
pub open spec fn draw_call_fn() -> spec_fn(IndexRange) -> PassCommand {
    |r: IndexRange| spec_draw_call(r)
}

/// All draw calls for a prepared polyline: one per non-sentinel range, in
/// range order.
pub open spec fn spec_draw_calls(ranges: Seq<IndexRange>) -> Seq<PassCommand> {
    ranges.filter(drawn_pred()).map_values(draw_call_fn())
}

/// Binds the polyline instance group at pipeline slot `I`, passing the
/// phase item's per-entity dynamic uniform offset. The offset accompanies
/// every item the host enqueues; an item without one is outside this
/// command's contract.
pub struct SetPolylineBindGroup<const I: usize>;

impl<const I: usize> SetPolylineBindGroup<I> {
    /// Appends the bind call to the pass and succeeds.
    pub fn render(
        polyline_index: Option<u32>,
        bind_group: &PolylineBindGroup,
        pass: &mut Vec<PassCommand>,
    ) -> (r: RenderCommandResult)
        requires
            polyline_index is Some,
        ensures
            r == RenderCommandResult::Success,
            final(pass)@ == old(pass)@.push(
                PassCommand::SetBindGroup { index: I, dynamic_offset: polyline_index->0 },
            ),
    {
        let offset = match polyline_index {
            Some(offset) => offset,
            None => 0,
        };
        pass.push(PassCommand::SetBindGroup { index: I, dynamic_offset: offset });
        RenderCommandResult::Success
    }
}

/// Issues the instanced draws for the phase item's polyline, if its GPU
/// form is ready.
pub struct DrawPolyline;

impl DrawPolyline {
    /// With the prepared asset at hand, binds its vertex buffer at slot 0
    /// and draws every non-sentinel range; with no prepared asset, leaves
    /// the pass untouched and fails transiently so the host retries next
    /// frame.
    pub fn render(gpu_polyline: Option<&GpuPolyline>, pass: &mut Vec<PassCommand>) -> (r:
        RenderCommandResult)
        ensures
            gpu_polyline is None ==> r == RenderCommandResult::Failure && final(pass)@ == old(
                pass,
            )@,
            gpu_polyline matches Some(gp) ==> r == RenderCommandResult::Success && final(pass)@
                == old(pass)@ + seq![PassCommand::SetVertexBuffer { slot: 0 }]
                + spec_draw_calls(gp.index_ranges@),
    {
        match gpu_polyline {
            None => RenderCommandResult::Failure,
            Some(gp) => {
                let ghost base = pass@;
                pass.push(PassCommand::SetVertexBuffer { slot: 0 });
                let mut i: usize = 0;
                while i < gp.index_ranges.len()
                    invariant
                        i <= gp.index_ranges@.len(),
                        pass@ == base + seq![PassCommand::SetVertexBuffer { slot: 0 }]
                            + spec_draw_calls(gp.index_ranges@.take(i as int)),
                    decreases gp.index_ranges@.len() - i,
                {
                    let range = gp.index_ranges[i];
                    if !(range.start == 0 && range.end == 0) {
                        pass.push(PassCommand::Draw {
                            vertex_start: 0,
                            vertex_end: 6,
                            instance_start: range.start,
                            instance_end: range.end,
                        });
                    }
                    proof {
                        reveal(Seq::filter);
                        let t = gp.index_ranges@.take(i + 1);
                        assert(t.drop_last() =~= gp.index_ranges@.take(i as int));
                        assert(t.last() == gp.index_ranges@[i as int]);
                        if spec_drawn(range) {
                            assert(t.filter(drawn_pred()) == gp.index_ranges@.take(i as int).filter(
                                drawn_pred(),
                            ).push(range));
                            assert(spec_draw_calls(t) =~= spec_draw_calls(
                                gp.index_ranges@.take(i as int),
                            ).push(spec_draw_call(range)));
                        } else {
                            assert(t.filter(drawn_pred()) == gp.index_ranges@.take(i as int).filter(
                                drawn_pred(),
                            ));
                        }
                        assert(pass@ =~= base + seq![PassCommand::SetVertexBuffer { slot: 0 }]
                            + spec_draw_calls(t));
                    }
                    i = i + 1;
                }
                proof {
                    assert(gp.index_ranges@.take(gp.index_ranges@.len() as int)
                        =~= gp.index_ranges@);
                }
                RenderCommandResult::Success
            },
        }
    }
}

/// Draw skip sentinel: a `(0, 0)` range produces no draw call — adding one
/// more sentinel slot to the ranges leaves the draw calls unchanged.
pub proof fn lemma_draw_skip_sentinel(ranges: Seq<IndexRange>, r: IndexRange)
    requires
        r.is_sentinel(),
    ensures
        spec_draw_calls(ranges.push(r)) == spec_draw_calls(ranges),
{
    reveal(Seq::filter);
    let t = ranges.push(r);
    assert(t.drop_last() =~= ranges);
    assert(t.filter(drawn_pred()) == ranges.filter(drawn_pred()));
}

/// Every draw call stays inside the prepared vertex buffer: under range
/// well-formedness, each instanced draw covers a non-empty instance range
/// that ends at or before the vertex capacity — whose 12-byte slots are
/// exactly what preparation packs into the buffer.
pub proof fn lemma_draw_calls_within_capacity(ranges: Seq<IndexRange>, cap: nat, j: int)
    requires
        forall|i: int| 0 <= i < ranges.len() ==> (#[trigger] ranges[i]).wf(cap),
        0 <= j < spec_draw_calls(ranges).len(),
    ensures
        spec_draw_calls(ranges)[j] matches PassCommand::Draw {
            instance_start,
            instance_end,
            ..
        } && instance_start < instance_end <= cap,
{
    crate::seq_util::lemma_filter_element_origin(ranges, drawn_pred(), j);
    let fs = ranges.filter(drawn_pred());
    let i = choose|i: int| 0 <= i < ranges.len() && drawn_pred()(ranges[i]) && fs[j] == ranges[i];
    assert(spec_draw_calls(ranges)[j] == spec_draw_call(ranges[i]));
}

/// Every issued draw covers a non-sentinel range: six quad vertices and the
/// range's own `[start, end)` as the instance range.
pub proof fn lemma_draw_calls_shape(ranges: Seq<IndexRange>, j: int)
    requires
        0 <= j < spec_draw_calls(ranges).len(),
    ensures
        spec_draw_calls(ranges)[j] matches PassCommand::Draw {
            vertex_start,
            vertex_end,
            instance_start,
            instance_end,
        } && vertex_start == 0 && vertex_end == 6 && !(instance_start == 0 && instance_end == 0),
{
    let fs = ranges.filter(drawn_pred());
    ranges.lemma_filter_pred(drawn_pred(), j);
    assert(spec_draw_calls(ranges)[j] == spec_draw_call(fs[j]));
}

} // verus!

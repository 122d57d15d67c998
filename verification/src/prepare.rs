//! Per-frame bind-group preparation: the polyline instance group shared by
//! all drawn polylines, and one view group per extracted view. Either is
//! skipped for a frame when the host has not yet bound the underlying
//! uniform buffer; the host retries next frame.

use vstd::prelude::*;

use crate::pipeline::PolylinePipeline;
use crate::render_resource::{BindGroup, BindGroupEntry};

verus! {

/// The render-world resource holding the polyline instance bind group.
#[derive(Clone, Debug, PartialEq)]
pub struct PolylineBindGroup {
    pub value: BindGroup,
}

/// The per-view component holding a view bind group.
#[derive(Clone, Debug, PartialEq)]
pub struct PolylineViewBindGroup {
    pub value: BindGroup,
}

/// What a prepared group looks like: labelled, against the layout the
/// pipeline owns, with the host's uniform binding (by id) at slot 0.
pub open spec fn bind_group_matches(
    g: BindGroup,
    label: Seq<char>,
    layout_label: Seq<char>,
    layout_entries: Seq<crate::render_resource::BindGroupLayoutEntry>,
    resource: u64,
) -> bool {
    &&& g.label@ == label
    &&& g.layout.label@ == layout_label
    &&& g.layout.entries@ == layout_entries
    &&& g.entries@ == seq![BindGroupEntry { binding: 0, resource }]
}

/// Prepares the polyline instance bind group, once the host presents a
/// binding for the per-instance uniform buffer; skips the frame otherwise.
pub fn prepare_polyline_bind_group(pipeline: &PolylinePipeline, uniforms_binding: Option<u64>) -> (r:
    Option<PolylineBindGroup>)
    ensures
        uniforms_binding is None ==> r is None,
        uniforms_binding matches Some(b) ==> r matches Some(g) && bind_group_matches(
            g.value,
            "polyline_bind_group"@,
            pipeline.polyline_layout.label@,
            pipeline.polyline_layout.entries@,
            b,
        ),
{
    match uniforms_binding {
        None => None,
        Some(binding) => {
            let mut entries: Vec<BindGroupEntry> = Vec::new();
            entries.push(BindGroupEntry { binding: 0, resource: binding });
            proof {
                assert(entries@ =~= seq![BindGroupEntry { binding: 0, resource: binding }]);
            }
            Some(PolylineBindGroup {
                value: BindGroup {
                    label: "polyline_bind_group",
                    layout: pipeline.polyline_layout.duplicate(),
                    entries,
                },
            })
        },
    }
}

/// Prepares one view bind group per extracted view entity, once the host
/// presents a binding for its view uniform buffer; skips the frame
/// otherwise.
pub fn prepare_polyline_view_bind_groups(
    pipeline: &PolylinePipeline,
    view_uniforms_binding: Option<u64>,
    views: &Vec<u64>,
) -> (r: Vec<(u64, PolylineViewBindGroup)>)
    ensures
        view_uniforms_binding is None ==> r@.len() == 0,
        view_uniforms_binding matches Some(b) ==> {
            &&& r@.len() == views@.len()
            &&& forall|i: int|
                0 <= i < views@.len() ==> (#[trigger] r@[i]).0 == views@[i] && bind_group_matches(
                    r@[i].1.value,
                    "polyline_view_bind_group"@,
                    pipeline.view_layout.label@,
                    pipeline.view_layout.entries@,
                    b,
                )
        },
{
    let mut r: Vec<(u64, PolylineViewBindGroup)> = Vec::new();
    match view_uniforms_binding {
        None => r,
        Some(binding) => {
            let mut i: usize = 0;
            while i < views.len()
                invariant
                    i <= views@.len(),
                    r@.len() == i,
                    forall|j: int|
                        0 <= j < i ==> (#[trigger] r@[j]).0 == views@[j] && bind_group_matches(
                            r@[j].1.value,
                            "polyline_view_bind_group"@,
                            pipeline.view_layout.label@,
                            pipeline.view_layout.entries@,
                            binding,
                        ),
                decreases views@.len() - i,
            {
                let mut entries: Vec<BindGroupEntry> = Vec::new();
                entries.push(BindGroupEntry { binding: 0, resource: binding });
                proof {
                    assert(entries@ =~= seq![BindGroupEntry { binding: 0, resource: binding }]);
                }
                let group = PolylineViewBindGroup {
                    value: BindGroup {
                        label: "polyline_view_bind_group",
                        layout: pipeline.view_layout.duplicate(),
                        entries,
                    },
                };
                r.push((views[i], group));
                i = i + 1;
            }
            r
        },
    }
}

} // verus!

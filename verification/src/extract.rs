//! Per-frame extraction: the snapshot of visible polyline entities that the
//! application world hands to the render world. The host's query layer
//! collects one record per candidate entity; extraction keeps those whose
//! two visibility flags are both set and emits each one's handle and world
//! transform as the per-instance uniform.

use vstd::prelude::*;

verus! {

/// The per-instance uniform: the entity's 4x4 world transform at extraction
/// time, column-major, each element an IEEE-754 `f32` bit pattern.
#[derive(Clone, Copy, PartialEq, Eq, Debug)]
pub struct PolylineUniform {
    pub transform: [u32; 16],
}

/// One entity as the extraction query sees it: its id, the two visibility
/// flags, its computed world matrix, and its polyline asset handle (by id).
#[derive(Clone, Copy, PartialEq, Eq, Debug)]
pub struct PolylineEntity {
    pub entity: u64,
    pub inherited_visibility: bool,
    pub view_visibility: bool,
    pub transform: [u32; 16],
    pub polyline: u64,
}

/// One row of the extracted batch, keyed by the same entity id on the
/// render side.
#[derive(Clone, Copy, PartialEq, Eq, Debug)]
pub struct ExtractedPolyline {
    pub entity: u64,
    pub polyline: u64,
    pub uniform: PolylineUniform,
}

/// An entity is extracted only when both visibility flags are set.
pub open spec fn spec_visible(e: PolylineEntity) -> bool {
    e.inherited_visibility && e.view_visibility
}

/// The batch row an entity becomes.
pub open spec fn spec_extracted(e: PolylineEntity) -> ExtractedPolyline {
    ExtractedPolyline {
        entity: e.entity,
        polyline: e.polyline,
        uniform: PolylineUniform { transform: e.transform },
    }
}

/// The visibility filter as a single function value, so every mention is
/// the same term.
pub open spec fn visible_pred() -> spec_fn(PolylineEntity) -> bool {
    |e: PolylineEntity| spec_visible(e)
}

/// The row constructor as a single function value.
pub open spec fn extracted_fn() -> spec_fn(PolylineEntity) -> ExtractedPolyline {
    |e: PolylineEntity| spec_extracted(e)
}

/// The whole extracted batch: the visible entities, in query order, each
/// turned into its batch row.
pub open spec fn spec_extract_polylines(query: Seq<PolylineEntity>) -> Seq<ExtractedPolyline> {
    query.filter(visible_pred()).map_values(extracted_fn())
}

/// Runs the extraction over one frame's query results.
pub fn extract_polylines(query: &Vec<PolylineEntity>) -> (batch: Vec<ExtractedPolyline>)
    ensures
        batch@ == spec_extract_polylines(query@),
{
    let mut batch: Vec<ExtractedPolyline> = Vec::new();
    let mut i: usize = 0;
    while i < query.len()
        invariant
            i <= query@.len(),
            batch@ == spec_extract_polylines(query@.take(i as int)),
        decreases query@.len() - i,
    {
        let e = query[i];
        if e.inherited_visibility && e.view_visibility {
            batch.push(ExtractedPolyline {
                entity: e.entity,
                polyline: e.polyline,
                uniform: PolylineUniform { transform: e.transform },
            });
        }
        proof {
            reveal(Seq::filter);
            let t = query@.take(i + 1);
            assert(t.drop_last() =~= query@.take(i as int));
            assert(t.last() == query@[i as int]);
            if spec_visible(e) {
                assert(t.filter(visible_pred()) == query@.take(i as int).filter(
                    visible_pred(),
                ).push(e));
                assert(t.filter(visible_pred()).map_values(extracted_fn()) =~= query@.take(
                    i as int,
                ).filter(visible_pred()).map_values(extracted_fn()).push(spec_extracted(e)));
            } else {
                assert(t.filter(visible_pred()) == query@.take(i as int).filter(visible_pred()));
            }
            assert(batch@ =~= spec_extract_polylines(t));
        }
        i = i + 1;
    }
    proof {
        assert(query@.take(query@.len() as int) =~= query@);
    }
    batch
}

/// Extraction visibility filter: every row of the extracted batch is the
/// extract of a query entity whose two visibility flags are both set — an
/// entity with either flag false never appears in the batch.
pub proof fn lemma_extraction_visibility_filter(query: Seq<PolylineEntity>, j: int)
    requires
        0 <= j < spec_extract_polylines(query).len(),
    ensures
        exists|i: int|
            0 <= i < query.len() && spec_visible(query[i]) && spec_extract_polylines(query)[j]
                == spec_extracted(query[i]),
{
    crate::seq_util::lemma_filter_element_origin(query, visible_pred(), j);
    let i = choose|i: int|
        0 <= i < query.len() && visible_pred()(query[i]) && query.filter(visible_pred())[j]
            == query[i];
    assert(spec_extract_polylines(query)[j] == spec_extracted(query[i]));
}

} // verus!

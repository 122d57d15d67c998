//! Verified core of a polyline renderer: a ring-buffered vertex store with
//! disjoint segment ranges, its translation into a packed GPU vertex buffer,
//! a pipeline-specialization key with an embedded MSAA field, the pure
//! specialization function that turns a key into a render-pipeline
//! descriptor, the per-frame extraction filter, bind-group preparation, and
//! the instanced-quad draw protocol.
//!
//! The host engine's scene graph, asset registry, GPU device and render
//! graph are outside collaborators: everything here works on plain values
//! that a thin host-integration layer hands in and carries out.

pub mod draw;
pub mod extract;
pub mod pipeline;
pub mod pipeline_key;
pub mod polyline;
pub mod prepare;
pub mod render_asset;
pub mod render_resource;
pub mod seq_util;

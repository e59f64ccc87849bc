//! The fixed-function state of the one render pipeline: triangle lists,
//! filled polygons, one sample per pixel, and a configurable cull mode.

use vstd::prelude::*;
use wgpu::{Face, FrontFace, IndexFormat, MultisampleState, PolygonMode, PrimitiveState, PrimitiveTopology};

verus! {

#[verifier::external_type_specification]
pub struct ExPrimitiveTopology(PrimitiveTopology);

#[verifier::external_type_specification]
pub struct ExFrontFace(FrontFace);

#[verifier::external_type_specification]
pub struct ExFace(Face);

#[verifier::external_type_specification]
pub struct ExPolygonMode(PolygonMode);

#[verifier::external_type_specification]
pub struct ExIndexFormat(IndexFormat);

#[verifier::external_type_specification]
pub struct ExPrimitiveState(PrimitiveState);

#[verifier::external_type_specification]
pub struct ExMultisampleState(MultisampleState);

/// The cull mode the quad pipeline is built with: faces wound as front
/// faces are culled.
pub fn default_cull_mode() -> (r: Option<Face>)
    ensures
        r == Some(Face::Front),
{
    Some(Face::Front)
}

/// Primitive assembly for the quad: independent triangles, counter-clockwise
/// front faces, the given cull mode, filled polygons, depth clipping kept and
/// no conservative rasterization.
pub fn primitive_state(cull_mode: Option<Face>) -> (r: PrimitiveState)
    ensures
        r.topology == PrimitiveTopology::TriangleList,
        r.strip_index_format.is_none(),
        r.front_face == FrontFace::Ccw,
        r.cull_mode == cull_mode,
        !r.unclipped_depth,
        r.polygon_mode == PolygonMode::Fill,
        !r.conservative,
{
    PrimitiveState {
        topology: PrimitiveTopology::TriangleList,
        strip_index_format: None,
        front_face: FrontFace::Ccw,
        cull_mode,
        unclipped_depth: false,
        polygon_mode: PolygonMode::Fill,
        conservative: false,
    }
}

/// One sample per pixel, every sample enabled, no alpha-to-coverage.
pub fn multisample_state() -> (r: MultisampleState)
    ensures
        r.count == 1,
        r.mask == u64::MAX,
        !r.alpha_to_coverage_enabled,
{
    MultisampleState { count: 1, mask: u64::MAX, alpha_to_coverage_enabled: false }
}

} // verus!

//! What every frame does the same way: the background it clears to, the
//! vertices and instances it draws, and how a failure to acquire the next
//! surface texture is answered.

use vstd::prelude::*;
use crate::geometry::{bytes_of, lemma_bytes_len, lemma_words_len, quad_vertices, words_of, VERTEX_STRIDE};

verus! {

#[verifier::external_type_specification]
pub struct ExSurfaceError(wgpu::SurfaceError);

/// Bit pattern of the `f64` value `0.01298`.
pub const CLEAR_RED_GREEN: u64 = 0x3F8A_9542_1C04_4285;

/// Bit pattern of the `f64` value `0.02732`.
pub const CLEAR_BLUE: u64 = 0x3F9B_F9C6_2A1B_5C7D;

/// Bit pattern of the `f64` value `1.0`.
pub const CLEAR_ALPHA: u64 = 0x3FF0_0000_0000_0000;

/// A color as the bit patterns of its four `f64` channels.
#[derive(Clone, Copy, Debug, PartialEq, Eq, Structural)]
pub struct ClearColor {
    pub r: u64,
    pub g: u64,
    pub b: u64,
    pub a: u64,
}

/// The dark background every frame starts from.
pub open spec fn background() -> ClearColor {
    ClearColor { r: CLEAR_RED_GREEN, g: CLEAR_RED_GREEN, b: CLEAR_BLUE, a: CLEAR_ALPHA }
}

/// The color the frame is cleared to: (0.01298, 0.01298, 0.02732, 1.0).
/// It depends on nothing, so every frame clears alike.
pub fn clear_color() -> (r: ClearColor)
    ensures
        r == background(),
{
    ClearColor { r: CLEAR_RED_GREEN, g: CLEAR_RED_GREEN, b: CLEAR_BLUE, a: CLEAR_ALPHA }
}

/// The ranges of one non-indexed draw: vertices `first_vertex..vertex_end`
/// of instances `first_instance..instance_end`.
#[derive(Clone, Copy, Debug, PartialEq, Eq, Structural)]
pub struct DrawRange {
    pub first_vertex: u32,
    pub vertex_end: u32,
    pub first_instance: u32,
    pub instance_end: u32,
}

/// One draw over all `n` vertices of the buffer, as a single instance.
pub open spec fn full_draw(n: u32) -> DrawRange {
    DrawRange { first_vertex: 0, vertex_end: n, first_instance: 0, instance_end: 1 }
}

/// The draw for a vertex buffer of `num_vertices` records.
pub fn draw_range(num_vertices: u32) -> (r: DrawRange)
    ensures
        r == full_draw(num_vertices),
{
    DrawRange { first_vertex: 0, vertex_end: num_vertices, first_instance: 0, instance_end: 1 }
}

/// The draw of the quad covers exactly the records that the vertex buffer
/// holds: the buffer's byte length, in either byte order, divided by the
/// stride is the end of the vertex range, which is six.
pub proof fn lemma_draw_covers_buffer(little: bool)
    ensures
        bytes_of(words_of(quad_vertices()), little).len() == VERTEX_STRIDE * full_draw(
            quad_vertices().len() as u32,
        ).vertex_end,
        words_of(quad_vertices()).len() * 4 == VERTEX_STRIDE * full_draw(
            quad_vertices().len() as u32,
        ).vertex_end,
        full_draw(quad_vertices().len() as u32).vertex_end == 6,
        full_draw(quad_vertices().len() as u32).first_vertex == 0,
{
    lemma_words_len(quad_vertices());
    lemma_bytes_len(words_of(quad_vertices()), little);
}

/// What the caller does after a frame could not be acquired.
#[derive(Clone, Copy, Debug, PartialEq, Eq, Structural)]
pub enum Recovery {
    /// Skip this frame and try again on the next one.
    Retry,
    /// Configure the surface again with the current size, then retry.
    Reconfigure,
    /// Stop rendering: the error cannot be recovered from.
    Abort,
}

pub open spec fn recovery_spec(e: wgpu::SurfaceError) -> Recovery {
    match e {
        wgpu::SurfaceError::Timeout => Recovery::Retry,
        wgpu::SurfaceError::Outdated => Recovery::Reconfigure,
        wgpu::SurfaceError::Lost => Recovery::Reconfigure,
        wgpu::SurfaceError::OutOfMemory => Recovery::Abort,
    }
}

/// The answer to a failed acquisition of the next surface texture: a
/// timeout is retried, an outdated or lost surface is reconfigured, and
/// running out of memory ends rendering.
pub fn recovery(e: &wgpu::SurfaceError) -> (r: Recovery)
    ensures
        r == recovery_spec(*e),
{
    match e {
        wgpu::SurfaceError::Timeout => Recovery::Retry,
        wgpu::SurfaceError::Outdated => Recovery::Reconfigure,
        wgpu::SurfaceError::Lost => Recovery::Reconfigure,
        wgpu::SurfaceError::OutOfMemory => Recovery::Abort,
    }
}

} // verus!

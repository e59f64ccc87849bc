//! A small render-context core: the fixed quad geometry and its vertex layout,
//! the surface configuration and its resize rule, the texture upload taken
//! from encoded image bytes, and the per-frame constants and error policy.

pub mod geometry;
pub mod surface;
pub mod texture;
pub mod frame;
pub mod pipeline;

pub use frame::{clear_color, draw_range, recovery, ClearColor, DrawRange, Recovery};
pub use geometry::{num_vertices, vertex_buffer_contents, vertices, Vertex, VertexLayout};
pub use pipeline::{default_cull_mode, multisample_state, primitive_state};
pub use surface::{choose_format, preferred_format_index, ConfigError, SurfaceConfig, SurfaceState};
pub use texture::{texture_from_bytes, TextureError, TextureUpload};

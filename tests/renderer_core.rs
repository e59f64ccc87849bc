use renderer::{
    choose_format, clear_color, default_cull_mode, draw_range, multisample_state, num_vertices,
    preferred_format_index, primitive_state, recovery, texture_from_bytes, vertex_buffer_contents,
    vertices, ConfigError, DrawRange, Recovery, SurfaceState, TextureError, TextureUpload, Vertex,
};
use wgpu::{
    AstcBlock, AstcChannel,    CompositeAlphaMode, Face, FrontFace, PolygonMode, PresentMode, PrimitiveTopology,
    SurfaceError, TextureFormat, VertexFormat, VertexStepMode,
};
use winit::dpi::PhysicalSize;

fn position(v: &Vertex) -> (f32, f32, f32) {
    (f32::from_bits(v.x), f32::from_bits(v.y), f32::from_bits(v.z))
}

fn tex_coords(v: &Vertex) -> (f32, f32) {
    (f32::from_bits(v.u), f32::from_bits(v.v))
}

fn encode_png(width: u32, height: u32, pixels: Vec<u8>) -> Vec<u8> {
    let img = image::RgbaImage::from_raw(width, height, pixels).unwrap();
    let mut out = std::io::Cursor::new(Vec::new());
    image::DynamicImage::ImageRgba8(img)
        .write_to(&mut out, image::ImageOutputFormat::Png)
        .unwrap();
    out.into_inner()
}

fn sample_state() -> SurfaceState {
    SurfaceState::new(
        &vec![TextureFormat::Bgra8Unorm, TextureFormat::Bgra8UnormSrgb],
        &vec![PresentMode::Fifo, PresentMode::Mailbox],
        &vec![CompositeAlphaMode::Opaque],
        PhysicalSize::new(800, 600),
    )
    .unwrap()
}

#[test]
fn quad_has_six_vertices_with_fixed_coordinates() {
    let vs = vertices();
    assert_eq!(vs.len(), 6);
    let expected = [
        ((-0.4, 0.4, 0.0), (0.0, 0.0)),
        ((0.4, 0.4, 0.0), (1.0, 0.0)),
        ((0.4, -0.4, 0.0), (1.0, 1.0)),
        ((-0.4, 0.4, 0.0), (0.0, 0.0)),
        ((0.4, -0.4, 0.0), (1.0, 1.0)),
        ((-0.4, -0.4, 0.0), (0.0, 1.0)),
    ];
    for (v, (p, t)) in vs.iter().zip(expected.iter()) {
        assert_eq!(position(v), *p);
        assert_eq!(tex_coords(v), *t);
    }
}

#[test]
fn buffer_length_matches_draw_range() {
    let bytes = vertex_buffer_contents();
    let layout = Vertex::desc();
    assert_eq!(bytes.len(), 120);
    assert_eq!(bytes.len() as u64 / layout.array_stride, num_vertices() as u64);
    let draw = draw_range(num_vertices());
    assert_eq!(
        draw,
        DrawRange { first_vertex: 0, vertex_end: 6, first_instance: 0, instance_end: 1 }
    );
}

#[test]
fn buffer_holds_the_vertex_records() {
    let bytes = vertex_buffer_contents();
    let first: Vec<u8> = [-0.4f32, 0.4, 0.0, 0.0, 0.0]
        .iter()
        .flat_map(|f| f.to_ne_bytes())
        .collect();
    assert_eq!(&bytes[0..20], &first[..]);
    let last: Vec<u8> = [-0.4f32, -0.4, 0.0, 0.0, 1.0]
        .iter()
        .flat_map(|f| f.to_ne_bytes())
        .collect();
    assert_eq!(&bytes[100..120], &last[..]);
}

#[test]
fn triangles_share_the_diagonal() {
    let vs = vertices();
    let mut shared = Vec::new();
    for a in &vs[0..3] {
        for b in &vs[3..6] {
            if a == b {
                shared.push(position(a));
            }
        }
    }
    assert_eq!(shared, vec![(-0.4, 0.4, 0.0), (0.4, -0.4, 0.0)]);
}

#[test]
fn layout_matches_record() {
    let layout = Vertex::desc();
    assert_eq!(layout.array_stride, 20);
    assert_eq!(layout.step_mode, VertexStepMode::Vertex);
    assert_eq!(layout.attributes.len(), 2);
    assert_eq!(layout.attributes[0].format, VertexFormat::Float32x3);
    assert_eq!(layout.attributes[0].offset, 0);
    assert_eq!(layout.attributes[0].shader_location, 0);
    assert_eq!(layout.attributes[1].format, VertexFormat::Float32x2);
    assert_eq!(layout.attributes[1].offset, 12);
    assert_eq!(layout.attributes[1].shader_location, 1);
}

#[test]
fn clear_color_is_fixed() {
    let c = clear_color();
    assert_eq!(f64::from_bits(c.r), 0.01298);
    assert_eq!(f64::from_bits(c.g), 0.01298);
    assert_eq!(f64::from_bits(c.b), 0.02732);
    assert_eq!(f64::from_bits(c.a), 1.0);
    let mut state = sample_state();
    state.resize(PhysicalSize::new(10, 20));
    assert_eq!(clear_color(), c);
}

#[test]
fn recovery_per_surface_error() {
    assert_eq!(recovery(&SurfaceError::Timeout), Recovery::Retry);
    assert_eq!(recovery(&SurfaceError::Outdated), Recovery::Reconfigure);
    assert_eq!(recovery(&SurfaceError::Lost), Recovery::Reconfigure);
    assert_eq!(recovery(&SurfaceError::OutOfMemory), Recovery::Abort);
}

#[test]
fn pipeline_fixed_state() {
    let cull = default_cull_mode();
    assert_eq!(cull, Some(Face::Front));
    let p = primitive_state(cull);
    assert_eq!(p.topology, PrimitiveTopology::TriangleList);
    assert_eq!(p.strip_index_format, None);
    assert_eq!(p.front_face, FrontFace::Ccw);
    assert_eq!(p.cull_mode, Some(Face::Front));
    assert!(!p.unclipped_depth);
    assert_eq!(p.polygon_mode, PolygonMode::Fill);
    assert!(!p.conservative);
    assert_eq!(primitive_state(None).cull_mode, None);
    let m = multisample_state();
    assert_eq!(m.count, 1);
    assert_eq!(m.mask, !0);
    assert!(!m.alpha_to_coverage_enabled);
}

#[test]
fn preferred_index_cases() {
    assert_eq!(preferred_format_index(&vec![]), None);
    assert_eq!(preferred_format_index(&vec![false, false]), Some(0));
    assert_eq!(preferred_format_index(&vec![false, false, true, true]), Some(2));
    assert_eq!(preferred_format_index(&vec![true]), Some(0));
}

#[test]
fn format_prefers_srgb() {
    assert_eq!(choose_format(&vec![]), None);
    assert_eq!(
        choose_format(&vec![TextureFormat::Bgra8Unorm, TextureFormat::Bgra8UnormSrgb]),
        Some(TextureFormat::Bgra8UnormSrgb)
    );
    assert_eq!(
        choose_format(&vec![TextureFormat::Rgba8Unorm, TextureFormat::Bgra8Unorm]),
        Some(TextureFormat::Rgba8Unorm)
    );
    let astc = TextureFormat::Astc { block: AstcBlock::B4x4, channel: AstcChannel::UnormSrgb };
    assert_eq!(choose_format(&vec![TextureFormat::Rgba8Unorm, astc]), Some(astc));
}

#[test]
fn configuration_from_capabilities() {
    let s = sample_state();
    assert_eq!(s.size, PhysicalSize::new(800, 600));
    assert_eq!(s.config.format, TextureFormat::Bgra8UnormSrgb);
    assert_eq!(s.config.present_mode, PresentMode::Fifo);
    assert_eq!(s.config.alpha_mode, CompositeAlphaMode::Opaque);
    assert_eq!((s.config.width, s.config.height), (800, 600));
}

#[test]
fn configuration_errors() {
    let size = PhysicalSize::new(1, 1);
    let f = vec![TextureFormat::Rgba8Unorm];
    let p = vec![PresentMode::Fifo];
    let a = vec![CompositeAlphaMode::Auto];
    assert_eq!(SurfaceState::new(&vec![], &p, &a, size).err(), Some(ConfigError::NoFormat));
    assert_eq!(SurfaceState::new(&f, &vec![], &a, size).err(), Some(ConfigError::NoPresentMode));
    assert_eq!(SurfaceState::new(&f, &p, &vec![], size).err(), Some(ConfigError::NoAlphaMode));
    assert!(SurfaceState::new(&f, &p, &a, size).is_ok());
}

#[test]
fn resize_to_nonzero_size() {
    let mut s = sample_state();
    assert!(s.resize(PhysicalSize::new(1024, 768)));
    assert_eq!(s.size, PhysicalSize::new(1024, 768));
    assert_eq!((s.config.width, s.config.height), (1024, 768));
    assert_eq!(s.config.format, TextureFormat::Bgra8UnormSrgb);
    assert!(s.resize(PhysicalSize::new(u32::MAX, 1)));
    assert_eq!((s.config.width, s.config.height), (u32::MAX, 1));
}

#[test]
fn resize_to_zero_area_changes_nothing() {
    let mut s = sample_state();
    for size in [PhysicalSize::new(0, 600), PhysicalSize::new(800, 0), PhysicalSize::new(0, 0)] {
        assert!(!s.resize(size));
        assert_eq!(s.size, PhysicalSize::new(800, 600));
        assert_eq!((s.config.width, s.config.height), (800, 600));
    }
}

#[test]
fn initial_configuration_uses_window_size() {
    let s = SurfaceState::new(
        &vec![TextureFormat::Rgba8UnormSrgb],
        &vec![PresentMode::Immediate],
        &vec![CompositeAlphaMode::PreMultiplied],
        PhysicalSize::new(640, 480),
    )
    .unwrap();
    assert_eq!((s.config.width, s.config.height), (640, 480));
    assert_eq!(s.size, PhysicalSize::new(640, 480));
}

#[test]
fn texture_decodes_png() {
    let pixels: Vec<u8> = (0u8..24).collect();
    let png = encode_png(2, 3, pixels.clone());
    let t = texture_from_bytes(&png).unwrap();
    assert_eq!((t.width, t.height), (2, 3));
    assert_eq!(t.bytes_per_row, 8);
    assert_eq!(t.pixels, pixels);
}

#[test]
fn texture_decode_failure() {
    assert_eq!(texture_from_bytes(&[]).err(), Some(TextureError::Decode));
    assert_eq!(texture_from_bytes(b"not an image").err(), Some(TextureError::Decode));
    let png = encode_png(1, 1, vec![255, 255, 255, 255]);
    assert_eq!(texture_from_bytes(&png[..png.len() / 2]).err(), Some(TextureError::Decode));
}

#[test]
fn upload_from_decoded_pixels() {
    let t = TextureUpload::from_rgba8(3, 2, vec![7; 24]).unwrap();
    assert_eq!((t.width, t.height, t.bytes_per_row), (3, 2, 12));
    assert_eq!(t.pixels, vec![7; 24]);
    let widest = TextureUpload::from_rgba8(u32::MAX / 4, 0, vec![]).unwrap();
    assert_eq!(widest.bytes_per_row, u32::MAX - 3);
    assert_eq!(
        TextureUpload::from_rgba8(u32::MAX / 4 + 1, 0, vec![]).err(),
        Some(TextureError::TooWide)
    );
}

#[test]
fn zero_initial_size_defers_configuration() {
    let mut s = SurfaceState::new(
        &vec![TextureFormat::Bgra8UnormSrgb],
        &vec![PresentMode::Fifo],
        &vec![CompositeAlphaMode::Opaque],
        PhysicalSize::new(0, 0),
    )
    .unwrap();
    assert!(!s.can_configure());
    assert!(s.resize(PhysicalSize::new(300, 200)));
    assert!(s.can_configure());
    assert_eq!((s.config.width, s.config.height), (300, 200));
}

#[test]
fn nonzero_initial_size_configures_at_once() {
    assert!(sample_state().can_configure());
}

#[test]
fn decoded_pixels_cover_the_extent() {
    let png = encode_png(5, 4, vec![9; 80]);
    let t = texture_from_bytes(&png).unwrap();
    assert_eq!(t.pixels.len(), 4 * 5 * 4);
    assert_eq!(t.bytes_per_row, 20);
}

#[test]
fn buffer_bytes_follow_the_records() {
    let bytes = vertex_buffer_contents();
    let expected: Vec<u8> = vertices()
        .iter()
        .flat_map(|v| [v.x, v.y, v.z, v.u, v.v])
        .flat_map(|w| w.to_ne_bytes())
        .collect();
    assert_eq!(bytes, expected);
}

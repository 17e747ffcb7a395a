use render_session::geometry::GeometryBuffer;
use render_session::layout::{VertexAttribute, VertexLayout};
use render_session::session::{DrawCall, Frame, GpuHandles, Primitive, Release, RenderSession};
use render_session::texture::{decode_texture, PixelFormat};

fn bits(v: &[f32]) -> Vec<u32> {
    v.iter().map(|x| x.to_bits()).collect()
}

fn square() -> GeometryBuffer {
    let layout = VertexLayout::new(vec![VertexAttribute { name: "position".to_string(), width: 2 }])
        .unwrap();
    GeometryBuffer::new(
        layout,
        bits(&[-0.5, 0.5, 0.5, 0.5, 0.5, -0.5, -0.5, -0.5]),
        Some(vec![0, 1, 2, 2, 3, 0]),
    )
    .unwrap()
}

fn handles(index_buffer: Option<u32>) -> GpuHandles {
    GpuHandles {
        vertex_array: 1,
        vertex_buffer: 2,
        index_buffer,
        vertex_shader: 4,
        fragment_shader: 5,
        program: 6,
    }
}

/// Runs the loop as the program does, with the window closing after `open_frames` frames.
fn run_loop(s: &mut RenderSession, open_frames: usize) -> Vec<DrawCall> {
    let mut drawn = Vec::new();
    let mut frame = 0;
    loop {
        match s.next_frame(frame >= open_frames) {
            Frame::Draw(d) => drawn.push(d),
            Frame::Stop => return drawn,
        }
        frame += 1;
    }
}

#[test]
fn one_frame_draws_six_indexed_triangle_vertices() {
    let mut s = RenderSession::new(square(), handles(Some(3)), vec![]);
    assert!(s.textures_ready());
    let drawn = run_loop(&mut s, 1);
    assert_eq!(
        drawn,
        vec![DrawCall { mode: Primitive::Triangles, indexed: true, count: 6, textures_bound: 0 }]
    );
    assert_eq!(s.next_frame(false), Frame::Stop);
}

#[test]
fn failed_texture_skips_the_loop() {
    let failed = decode_texture(b"missing", PixelFormat::Rgba);
    assert!(failed.is_err());
    let mut s = RenderSession::new(square(), handles(Some(3)), vec![None]);
    assert!(!s.textures_ready());
    assert!(run_loop(&mut s, 100).is_empty());
    let released = s.teardown();
    assert!(!released.iter().any(|r| matches!(r, Release::Texture(_))));
    assert_eq!(
        released,
        vec![
            Release::Program(6),
            Release::Shader(5),
            Release::Shader(4),
            Release::Buffer(3),
            Release::Buffer(2),
            Release::VertexArray(1),
            Release::Context,
        ]
    );
}

#[test]
fn second_of_two_textures_missing_draws_nothing_and_releases_all() {
    let mut s = RenderSession::new(square(), handles(Some(3)), vec![Some(10), None]);
    assert!(run_loop(&mut s, 5).is_empty());
    assert_eq!(
        s.teardown(),
        vec![
            Release::Texture(10),
            Release::Program(6),
            Release::Shader(5),
            Release::Shader(4),
            Release::Buffer(3),
            Release::Buffer(2),
            Release::VertexArray(1),
            Release::Context,
        ]
    );
}

#[test]
fn two_loaded_textures_are_bound_and_released_first() {
    let mut s = RenderSession::new(square(), handles(Some(3)), vec![Some(10), Some(11)]);
    let drawn = run_loop(&mut s, 3);
    assert_eq!(drawn.len(), 3);
    assert!(drawn.iter().all(|d| d.textures_bound == 2 && d.count == 6));
    let released = s.teardown();
    assert_eq!(&released[..3], &[Release::Texture(10), Release::Texture(11), Release::Program(6)]);
    assert_eq!(released.len(), 9);
}

#[test]
fn teardown_twice_releases_nothing_more() {
    let mut s = RenderSession::new(square(), handles(Some(3)), vec![]);
    assert_eq!(s.teardown().len(), 7);
    assert!(s.teardown().is_empty());
    assert!(s.teardown().is_empty());
    assert_eq!(s.next_frame(false), Frame::Stop);
}

#[test]
fn unindexed_triangle_draws_its_vertices() {
    let layout = VertexLayout::new(vec![VertexAttribute { name: "position".to_string(), width: 2 }])
        .unwrap();
    let g = GeometryBuffer::new(layout, bits(&[0.0, 0.5, 0.5, -0.5, -0.5, -0.5]), None).unwrap();
    let mut s = RenderSession::new(g, handles(None), vec![]);
    assert_eq!(
        s.next_frame(false),
        Frame::Draw(DrawCall { mode: Primitive::Triangles, indexed: false, count: 3, textures_bound: 0 })
    );
    assert_eq!(s.geometry().vertex_count(), 3);
    assert_eq!(s.handles().index_buffer, None);
    assert_eq!(s.teardown().len(), 6);
}

#[test]
fn closing_at_once_draws_nothing() {
    let mut s = RenderSession::new(square(), handles(Some(3)), vec![]);
    assert!(run_loop(&mut s, 0).is_empty());
}

use render_session::geometry::{macros, GeometryBuffer, GeometryError};
use render_session::layout::{VertexAttribute, VertexLayout};

fn attr(name: &str, width: u32) -> VertexAttribute {
    VertexAttribute { name: name.to_string(), width }
}

fn bits(v: &[f32]) -> Vec<u32> {
    v.iter().map(|x| x.to_bits()).collect()
}

fn quad_vertices() -> Vec<u32> {
    bits(&[
        -0.5, 0.5, 1.0, 0.0, 0.0, 0.0, 0.0, //
        0.5, 0.5, 0.0, 1.0, 0.0, 1.0, 0.0, //
        0.5, -0.5, 0.0, 0.0, 1.0, 1.0, 1.0, //
        -0.5, -0.5, 1.0, 1.0, 1.0, 0.0, 1.0,
    ])
}

fn quad_layout() -> VertexLayout {
    VertexLayout::new(vec![attr("position", 2), attr("color", 3), attr("texcoord", 2)]).unwrap()
}

#[test]
fn quad_upload_is_four_by_seven_floats() {
    let g = GeometryBuffer::new(quad_layout(), quad_vertices(), Some(vec![0, 1, 2, 2, 3, 0])).unwrap();
    assert_eq!(g.vertex_bytes(), 4 * 7 * std::mem::size_of::<f32>());
    assert_eq!(g.vertex_bytes(), 112);
    assert_eq!(g.vertex_count(), 4);
    assert_eq!(g.index_bytes(), Some(24));
    assert_eq!(g.vertex_data().len(), 28);
    assert_eq!(f32::from_bits(g.vertex_data()[7]), 0.5);
}

#[test]
fn index_past_last_vertex_is_refused() {
    let r = GeometryBuffer::new(quad_layout(), quad_vertices(), Some(vec![0, 1, 4, 2, 3, 0]));
    assert!(matches!(r, Err(GeometryError::IndexOutOfRange { position: 2 })));
    let r = GeometryBuffer::new(quad_layout(), quad_vertices(), Some(vec![0, 1, 2, 2, 3, 9, 7]));
    assert!(matches!(r, Err(GeometryError::IndexOutOfRange { position: 5 })));
}

#[test]
fn last_vertex_index_is_accepted() {
    let r = GeometryBuffer::new(quad_layout(), quad_vertices(), Some(vec![3]));
    assert!(r.is_ok());
}

#[test]
fn ragged_vertex_data_is_refused() {
    let mut v = quad_vertices();
    v.pop();
    assert!(matches!(
        GeometryBuffer::new(quad_layout(), v, None),
        Err(GeometryError::RaggedVertexData)
    ));
}

#[test]
fn triangle_without_indices() {
    let layout = VertexLayout::new(vec![attr("position", 2)]).unwrap();
    let g = GeometryBuffer::new(layout, bits(&[0.0, 0.5, 0.5, -0.5, -0.5, -0.5]), None).unwrap();
    assert_eq!(g.vertex_count(), 3);
    assert_eq!(g.vertex_bytes(), 24);
    assert_eq!(g.index_bytes(), None);
    assert!(g.indices().is_none());
}

#[test]
fn empty_geometry_is_accepted() {
    let layout = VertexLayout::new(vec![attr("position", 2)]).unwrap();
    let g = GeometryBuffer::new(layout, vec![], Some(vec![])).unwrap();
    assert_eq!(g.vertex_count(), 0);
    assert_eq!(g.vertex_bytes(), 0);
    let layout = VertexLayout::new(vec![attr("position", 2)]).unwrap();
    let r = GeometryBuffer::new(layout, vec![], Some(vec![0]));
    assert!(matches!(r, Err(GeometryError::IndexOutOfRange { position: 0 })));
}

#[test]
fn index_literals_are_cast() {
    assert_eq!(macros(&vec![0, 1, 2, 2, 3, 0]), vec![0u32, 1, 2, 2, 3, 0]);
    assert_eq!(macros(&vec![(1u64 << 32) + 5, u64::MAX]), vec![5u32, u32::MAX]);
    assert_eq!(macros(&vec![]), Vec::<u32>::new());
}

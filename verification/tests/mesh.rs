use darkness::mesh::{DrawSlice, Mesh, MeshError, NUMBERS_PER_VERTEX};
use darkness::vertex::{Number, Vertex};

fn decimal(value: f64) -> Number {
    Number::Real(value.to_bits())
}

fn corner(x: f64, y: f64) -> Vertex {
    Vertex::new([decimal(x), decimal(y), decimal(0.0)], [decimal(0.0), decimal(1.0)])
}

#[test]
fn a_vertex_is_a_point() {
    let v = Vertex::new([decimal(1.5), decimal(-2.0), Number::Integer(3)], [decimal(0.25), decimal(0.75)]);
    assert_eq!(v.pos, [decimal(1.5), decimal(-2.0), Number::Integer(3), Number::Integer(1)]);
    assert_eq!(v.uv, [decimal(0.25), decimal(0.75)]);
}

#[test]
fn a_triangle_is_drawn_vertex_by_vertex() {
    let triangle = vec![corner(-0.5, -0.5), corner(0.5, -0.5), corner(0.0, 0.5)];
    let mesh = Mesh::new(triangle.clone(), None).unwrap();
    assert_eq!(mesh.draw_slice(), DrawSlice { start: 0, end: 3, indexed: false });
    assert_eq!(*mesh.vertices(), triangle);
    assert!(mesh.indices().is_none());
}

#[test]
fn an_indexed_mesh_is_drawn_by_index() {
    let quad = vec![corner(0.0, 0.0), corner(1.0, 0.0), corner(1.0, 1.0), corner(0.0, 1.0)];
    let mesh = Mesh::new(quad, Some(vec![0, 1, 2, 2, 3, 0])).unwrap();
    assert_eq!(mesh.draw_slice(), DrawSlice { start: 0, end: 6, indexed: true });
    assert_eq!(mesh.indices(), Some(&vec![0, 1, 2, 2, 3, 0]));
    assert_eq!(mesh.vertices().len(), 4);
}

#[test]
fn an_empty_mesh_draws_nothing() {
    let bare = Mesh::new(vec![], None).unwrap();
    assert_eq!(bare.draw_slice(), DrawSlice { start: 0, end: 0, indexed: false });
    let indexed = Mesh::new(vec![], Some(vec![])).unwrap();
    assert_eq!(indexed.draw_slice(), DrawSlice { start: 0, end: 0, indexed: true });
}

#[test]
fn an_index_must_refer_to_a_vertex() {
    let quad = vec![corner(0.0, 0.0), corner(1.0, 0.0), corner(1.0, 1.0), corner(0.0, 1.0)];
    assert!(Mesh::new(quad.clone(), Some(vec![3, 3, 3])).is_ok());
    assert_eq!(Mesh::new(quad.clone(), Some(vec![0, 1, 4])).unwrap_err(), MeshError::DanglingIndex);
    assert_eq!(Mesh::new(quad, Some(vec![65535])).unwrap_err(), MeshError::DanglingIndex);
    assert_eq!(Mesh::new(vec![], Some(vec![0])).unwrap_err(), MeshError::DanglingIndex);
}

#[test]
fn flat_arrays_are_grouped_five_numbers_a_vertex() {
    assert_eq!(NUMBERS_PER_VERTEX, 5);
    let numbers: Vec<Number> = (0..10).map(Number::Integer).collect();
    let mesh = Mesh::from_arrays(&numbers, vec![1, 0, 1]).unwrap();
    let one = Number::Integer(1);
    assert_eq!(
        *mesh.vertices(),
        vec![
            Vertex {
                pos: [Number::Integer(0), Number::Integer(1), Number::Integer(2), one],
                uv: [Number::Integer(3), Number::Integer(4)],
            },
            Vertex {
                pos: [Number::Integer(5), Number::Integer(6), Number::Integer(7), one],
                uv: [Number::Integer(8), Number::Integer(9)],
            },
        ]
    );
    assert_eq!(mesh.indices(), Some(&vec![1, 0, 1]));
    assert_eq!(mesh.draw_slice(), DrawSlice { start: 0, end: 3, indexed: true });
}

#[test]
fn flat_arrays_must_divide_into_vertices() {
    for len in [1, 4, 6, 9, 11] {
        let numbers = vec![decimal(0.0); len];
        assert_eq!(Mesh::from_arrays(&numbers, vec![]).unwrap_err(), MeshError::Ragged);
    }
    assert!(Mesh::from_arrays(&[].to_vec(), vec![]).is_ok());
}

#[test]
fn a_ragged_array_is_reported_before_a_dangling_index() {
    let numbers = vec![decimal(0.0); 6];
    assert_eq!(Mesh::from_arrays(&numbers, vec![9]).unwrap_err(), MeshError::Ragged);
    let whole = vec![decimal(0.0); 5];
    assert_eq!(Mesh::from_arrays(&whole, vec![1]).unwrap_err(), MeshError::DanglingIndex);
    assert!(Mesh::from_arrays(&whole, vec![0]).is_ok());
}

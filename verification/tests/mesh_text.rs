use darkness::asset::{decode_mesh, mesh_from_reading, ParseError};
use darkness::notation::{Datum, Reading, Span};
use darkness::vertex::Number;

const QUAD: &str = "{:vertices [-1.0 -1.0 0.0 0.0 0.0,
             1.0 -1.0 0.0 1.0 0.0,
             1.0  1.0 0.0 1.0 1.0,
            -1.0  1.0 0.0 0.0 1.0]
 :indices [0 1 2 2 3 0]}";

fn decimal(value: f64) -> Number {
    Number::Real(value.to_bits())
}

fn keyword(name: &str) -> Datum {
    Datum::Keyword(name.to_string())
}

fn form(entries: Vec<(Datum, Datum)>) -> Reading {
    Reading::Form(Datum::Mapping(entries))
}

#[test]
fn decodes_a_quad() {
    let arrays = decode_mesh(QUAD).unwrap();
    assert_eq!(arrays.vertices.len(), 20);
    assert_eq!(arrays.indices, vec![0, 1, 2, 2, 3, 0]);
    assert_eq!(arrays.vertices[0], decimal(-1.0));
    assert_eq!(arrays.vertices[2], decimal(0.0));
    assert_eq!(arrays.vertices[5], decimal(1.0));
    assert_eq!(arrays.vertices[19], decimal(1.0));
}

#[test]
fn arrays_have_the_lengths_written() {
    for k in [0usize, 1, 5, 17] {
        for m in [0usize, 1, 3, 40] {
            let vertices = vec!["0.5"; k].join(" ");
            let indices = vec!["7"; m].join(" ");
            let text = format!("{{:vertices [{}] :indices [{}]}}", vertices, indices);
            let arrays = decode_mesh(&text).unwrap();
            assert_eq!(arrays.vertices.len(), k);
            assert_eq!(arrays.indices.len(), m);
            assert!(arrays.vertices.iter().all(|n| *n == decimal(0.5)));
            assert!(arrays.indices.iter().all(|i| *i == 7));
        }
    }
}

#[test]
fn whole_numbers_are_vertices_too() {
    let arrays = decode_mesh("{:vertices [1 -2 3.5] :indices []}").unwrap();
    assert_eq!(arrays.vertices, vec![Number::Integer(1), Number::Integer(-2), decimal(3.5)]);
    assert!(arrays.indices.is_empty());
}

#[test]
fn the_order_of_the_keys_does_not_matter() {
    let arrays = decode_mesh("{:indices [2 1] :name cube :vertices [0.0]}").unwrap();
    assert_eq!(arrays.vertices, vec![decimal(0.0)]);
    assert_eq!(arrays.indices, vec![2, 1]);
}

#[test]
fn missing_indices_fail() {
    assert_eq!(decode_mesh("{:vertices [1.0 2.0]}").unwrap_err(), ParseError::MissingIndices);
}

#[test]
fn missing_vertices_fail() {
    assert_eq!(decode_mesh("{:indices [0 1]}").unwrap_err(), ParseError::MissingVertices);
    assert_eq!(decode_mesh("{}").unwrap_err(), ParseError::MissingVertices);
}

#[test]
fn a_symbol_is_no_key() {
    assert_eq!(
        decode_mesh("{vertices [1.0] :indices [0]}").unwrap_err(),
        ParseError::MissingVertices
    );
}

#[test]
fn only_a_map_describes_a_mesh() {
    for text in ["[1 2 3]", "12", ":vertices", "vertices"] {
        assert_eq!(decode_mesh(text).unwrap_err(), ParseError::NotAMap, "{:?}", text);
    }
}

#[test]
fn vertices_must_be_a_vector_of_numbers() {
    for text in [
        "{:vertices 1.0 :indices [0]}",
        "{:vertices [1.0 :a] :indices [0]}",
        "{:vertices [[1.0]] :indices [0]}",
        "{:vertices {} :indices [0]}",
        "{:vertices [1.0 x] :indices [0]}",
    ] {
        assert_eq!(decode_mesh(text).unwrap_err(), ParseError::VerticesNotNumeric, "{:?}", text);
    }
}

#[test]
fn indices_must_be_a_vector_of_whole_numbers() {
    for text in [
        "{:vertices [1.0] :indices 0}",
        "{:vertices [1.0] :indices [0 1.0]}",
        "{:vertices [1.0] :indices [0 :a]}",
        "{:vertices [1.0] :indices [70000 1.5]}",
    ] {
        assert_eq!(decode_mesh(text).unwrap_err(), ParseError::IndicesNotWhole, "{:?}", text);
    }
}

#[test]
fn indices_must_fit_in_sixteen_bits() {
    assert_eq!(decode_mesh("{:vertices [] :indices [65535]}").unwrap().indices, vec![65535]);
    for text in ["{:vertices [] :indices [65536]}", "{:vertices [] :indices [0 -1]}"] {
        assert_eq!(decode_mesh(text).unwrap_err(), ParseError::IndexOutOfRange, "{:?}", text);
    }
}

#[test]
fn a_missing_key_is_reported_before_a_malformed_array() {
    assert_eq!(decode_mesh("{:vertices [:a]}").unwrap_err(), ParseError::MissingIndices);
    assert_eq!(
        decode_mesh("{:vertices [:a] :indices [:b]}").unwrap_err(),
        ParseError::VerticesNotNumeric
    );
}

#[test]
fn text_that_is_not_read_is_no_mesh() {
    assert_eq!(decode_mesh("").unwrap_err(), ParseError::Empty);
    assert_eq!(decode_mesh("  \n").unwrap_err(), ParseError::Empty);
    assert_eq!(decode_mesh("{:vertices \"a\"}").unwrap_err(), ParseError::Unreadable);
    assert_eq!(decode_mesh("{:vertices [1.0}").unwrap_err(), ParseError::Unreadable);
    assert_eq!(
        decode_mesh("{:vertices [1.0]").unwrap_err(),
        ParseError::Syntax(Span { lo: 0, hi: 16 })
    );
}

#[test]
fn each_outcome_of_reading_decodes_as_stated() {
    assert_eq!(mesh_from_reading(&Reading::Unreadable).unwrap_err(), ParseError::Unreadable);
    assert_eq!(mesh_from_reading(&Reading::Nothing).unwrap_err(), ParseError::Empty);
    assert_eq!(
        mesh_from_reading(&Reading::Malformed(Span { lo: 3, hi: 9 })).unwrap_err(),
        ParseError::Syntax(Span { lo: 3, hi: 9 })
    );
    assert_eq!(
        mesh_from_reading(&Reading::Form(Datum::Other)).unwrap_err(),
        ParseError::NotAMap
    );
}

#[test]
fn the_first_entry_under_a_key_counts() {
    let reading = form(vec![
        (Datum::Integer(1), Datum::Other),
        (keyword("vertices"), Datum::Vector(vec![Datum::Integer(4), Datum::Real(9)])),
        (keyword("indices"), Datum::Vector(vec![Datum::Integer(5)])),
        (keyword("vertices"), Datum::Other),
    ]);
    let arrays = mesh_from_reading(&reading).unwrap();
    assert_eq!(arrays.vertices, vec![Number::Integer(4), Number::Real(9)]);
    assert_eq!(arrays.indices, vec![5]);
}

#[test]
fn a_form_without_indices_is_no_mesh() {
    let reading = form(vec![(keyword("vertices"), Datum::Vector(vec![]))]);
    assert_eq!(mesh_from_reading(&reading).unwrap_err(), ParseError::MissingIndices);
    let misspelt = form(vec![
        (keyword("vertices"), Datum::Vector(vec![])),
        (keyword("indexes"), Datum::Vector(vec![])),
    ]);
    assert_eq!(mesh_from_reading(&misspelt).unwrap_err(), ParseError::MissingIndices);
}

//! A mesh: vertices, and the indices that draw them.

use vstd::prelude::*;
use crate::vertex::{Number, Vertex};

verus! {

/// How many numbers of a flat vertex array make one vertex: three of the
/// position, two of the texture coordinate.
pub const NUMBERS_PER_VERTEX: usize = 5;

/// The range of a draw call: vertices `start..end` of the vertex buffer, or,
/// where `indexed`, entries `start..end` of the index buffer.
#[derive(Debug, Clone, Copy, PartialEq, Eq, Structural)]
pub struct DrawSlice {
    pub start: u32,
    pub end: u32,
    pub indexed: bool,
}

/// Why vertices and indices make no mesh.
#[derive(Debug, Clone, Copy, PartialEq, Eq, Structural)]
pub enum MeshError {
    /// The flat vertex array does not divide into whole vertices.
    Ragged,
    /// More vertices or indices than a draw call can count.
    TooLarge,
    /// An index refers to no vertex.
    DanglingIndex,
}

/// A mesh as a mathematical value.
pub struct MeshModel {
    pub vertices: Seq<Vertex>,
    pub indices: Option<Seq<u16>>,
}

impl MeshModel {
    /// A draw call can count the vertices and the indices, and each index
    /// refers to a vertex.
    pub open spec fn wf(self) -> bool {
        &&& self.vertices.len() <= u32::MAX
        &&& self.indices matches Some(indices) ==> {
            &&& indices.len() <= u32::MAX
            &&& forall|i: int| 0 <= i < indices.len() ==> (#[trigger] indices[i]) < self.vertices.len()
        }
    }

    /// The draw call that shows the whole mesh.
    pub open spec fn draw_slice(self) -> DrawSlice {
        match self.indices {
            Some(indices) => DrawSlice { start: 0, end: indices.len() as u32, indexed: true },
            None => DrawSlice { start: 0, end: self.vertices.len() as u32, indexed: false },
        }
    }
}

/// The mesh that `vertices` and `indices` make, or why they make none. Size
/// is judged before the indices are.
pub open spec fn checked(vertices: Seq<Vertex>, indices: Option<Seq<u16>>) -> Result<
    MeshModel,
    MeshError,
> {
    let model = MeshModel { vertices, indices };
    if vertices.len() > u32::MAX || (indices matches Some(ix) && ix.len() > u32::MAX) {
        Err(MeshError::TooLarge)
    } else if !model.wf() {
        Err(MeshError::DanglingIndex)
    } else {
        Ok(model)
    }
}

/// The vertex that entry `i` of a flat array describes.
pub open spec fn vertex_at(numbers: Seq<Number>, i: int) -> Vertex {
    let at = i * NUMBERS_PER_VERTEX;
    Vertex::at([numbers[at], numbers[at + 1], numbers[at + 2]], [numbers[at + 3], numbers[at + 4]])
}

/// The vertices that a flat array describes, [`NUMBERS_PER_VERTEX`] numbers
/// each.
pub open spec fn grouped(numbers: Seq<Number>) -> Seq<Vertex> {
    Seq::new(numbers.len() / NUMBERS_PER_VERTEX as nat, |i: int| vertex_at(numbers, i))
}

/// The mesh that flat arrays make, or why they make none.
pub open spec fn assembled(numbers: Seq<Number>, indices: Seq<u16>) -> Result<
    MeshModel,
    MeshError,
> {
    if numbers.len() % NUMBERS_PER_VERTEX as nat != 0 {
        Err(MeshError::Ragged)
    } else {
        checked(grouped(numbers), Some(indices))
    }
}

/// A mesh, created once and not edited afterwards.
#[derive(Debug)]
pub struct Mesh {
    vertices: Vec<Vertex>,
    indices: Option<Vec<u16>>,
}

impl View for Mesh {
    type V = MeshModel;

    closed spec fn view(&self) -> MeshModel {
        MeshModel {
            vertices: self.vertices@,
            indices: match self.indices {
                Some(indices) => Some(indices@),
                None => None,
            },
        }
    }
}

/// The contents of a result that holds a mesh.
pub open spec fn mesh_view(r: Result<Mesh, MeshError>) -> Result<MeshModel, MeshError> {
    match r {
        Ok(mesh) => Ok(mesh@),
        Err(e) => Err(e),
    }
}

/// The contents of an optional index array.
pub open spec fn indices_view(indices: Option<Vec<u16>>) -> Option<Seq<u16>> {
    match indices {
        Some(indices) => Some(indices@),
        None => None,
    }
}

impl Mesh {
    #[verifier::type_invariant]
    spec fn inv(self) -> bool {
        self@.wf()
    }

    /// Makes a mesh of `vertices`, drawn in the order of `indices` where
    /// there are any.
    pub fn new(vertices: Vec<Vertex>, indices: Option<Vec<u16>>) -> (r: Result<Mesh, MeshError>)
        ensures
            mesh_view(r) == checked(vertices@, indices_view(indices)),
    {
        if vertices.len() > u32::MAX as usize {
            return Err(MeshError::TooLarge);
        }
        match &indices {
            Some(ix) => {
                if ix.len() > u32::MAX as usize {
                    return Err(MeshError::TooLarge);
                }
                let mut i: usize = 0;
                while i < ix.len()
                    invariant
                        indices == Some(*ix),
                        vertices.len() <= u32::MAX,
                        ix.len() <= u32::MAX,
                        0 <= i <= ix.len(),
                        forall|j: int| 0 <= j < i ==> (#[trigger] ix@[j]) < vertices@.len(),
                    decreases ix.len() - i,
                {
                    if ix[i] as usize >= vertices.len() {
                        return Err(MeshError::DanglingIndex);
                    }
                    i += 1;
                }
            },
            None => {},
        }
        Ok(Mesh { vertices, indices })
    }

    /// Makes an indexed mesh of flat arrays: the vertices from
    /// [`NUMBERS_PER_VERTEX`] numbers each.
    pub fn from_arrays(numbers: &Vec<Number>, indices: Vec<u16>) -> (r: Result<Mesh, MeshError>)
        ensures
            mesh_view(r) == assembled(numbers@, indices@),
    {
        if numbers.len() % NUMBERS_PER_VERTEX != 0 {
            return Err(MeshError::Ragged);
        }
        let count = numbers.len() / NUMBERS_PER_VERTEX;
        let mut vertices: Vec<Vertex> = Vec::new();
        let mut i: usize = 0;
        while i < count
            invariant
                count == numbers@.len() / NUMBERS_PER_VERTEX as nat,
                count * 5 == numbers@.len(),
                numbers@.len() <= usize::MAX,
                NUMBERS_PER_VERTEX == 5,
                0 <= i <= count,
                vertices@.len() == i,
                forall|j: int| 0 <= j < i ==> #[trigger] vertices@[j] == vertex_at(numbers@, j),
            decreases count - i,
        {
            assert(i * NUMBERS_PER_VERTEX + NUMBERS_PER_VERTEX <= numbers@.len()) by (nonlinear_arith)
                requires
                    i < count,
                    count * 5 == numbers@.len(),
                    NUMBERS_PER_VERTEX == 5,
            ;
            let at = i * NUMBERS_PER_VERTEX;
            let v = Vertex::new(
                [numbers[at], numbers[at + 1], numbers[at + 2]],
                [numbers[at + 3], numbers[at + 4]],
            );
            vertices.push(v);
            i += 1;
        }
        assert(vertices@ =~= grouped(numbers@));
        Mesh::new(vertices, Some(indices))
    }

    /// The vertices, in drawing order where the mesh has no indices.
    pub fn vertices(&self) -> (r: &Vec<Vertex>)
        ensures
            r@ == self@.vertices,
            self@.wf(),
    {
        proof {
            use_type_invariant(self);
        }
        &self.vertices
    }

    /// The indices, where the mesh is drawn by index.
    pub fn indices(&self) -> (r: Option<&Vec<u16>>)
        ensures
            match r {
                Some(indices) => self@.indices == Some(indices@),
                None => self@.indices is None,
            },
    {
        self.indices.as_ref()
    }

    /// The draw call that shows the whole mesh: by index where it has
    /// indices, else vertex by vertex.
    pub fn draw_slice(&self) -> (r: DrawSlice)
        ensures
            r == self@.draw_slice(),
    {
        proof {
            use_type_invariant(self);
        }
        match &self.indices {
            Some(indices) => DrawSlice { start: 0, end: indices.len() as u32, indexed: true },
            None => DrawSlice { start: 0, end: self.vertices.len() as u32, indexed: false },
        }
    }
}

} // verus!

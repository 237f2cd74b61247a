use vstd::prelude::*;

verus! {

/// The vertex indices of a list of faces, face after face.
pub open spec fn face_indices(faces: Seq<Vec<u32>>) -> Seq<u32>
    decreases faces.len(),
{
    if faces.len() == 0 {
        Seq::empty()
    } else {
        face_indices(faces.drop_last()) + faces.last()@
    }
}

/// Joins the index lists of a mesh's faces into one index buffer, in face order.
pub fn collect_face_indices(faces: &Vec<Vec<u32>>) -> (r: Vec<u32>)
    ensures
        r@ == face_indices(faces@),
{
    let mut indices: Vec<u32> = Vec::new();
    let mut i: usize = 0;
    while i < faces.len()
        invariant
            i <= faces@.len(),
            indices@ == face_indices(faces@.take(i as int)),
        decreases faces@.len() - i,
    {
        let face = &faces[i];
        let ghost before = indices@;
        let mut j: usize = 0;
        while j < face.len()
            invariant
                j <= face@.len(),
                indices@ == before + face@.take(j as int),
            decreases face@.len() - j,
        {
            indices.push(face[j]);
            j = j + 1;
            proof {
                assert(face@.take(j as int) =~= face@.take(j - 1 as int).push(face@[j - 1 as int]));
            }
        }
        proof {
            assert(face@.take(j as int) =~= face@);
            assert(faces@.take(i + 1 as int).drop_last() =~= faces@.take(i as int));
        }
        i = i + 1;
    }
    proof {
        assert(faces@.take(i as int) =~= faces@);
    }
    indices
}

/// Why a mesh cannot become a bottom-level acceleration structure.
#[derive(Clone, Copy, Debug, PartialEq, Eq, Structural)]
pub enum BlasGeometryError {
    NonIndexedMesh,
    InvalidVertexSize,
    TooManyVertices,
    TooManyIndices,
}

/// The sizes an acceleration structure build needs of a triangle mesh.
#[derive(Clone, Copy, Debug, PartialEq, Eq, Structural)]
pub struct BlasGeometryCounts {
    pub vertex_stride: u64,
    pub max_vertex: u32,
    pub primitive_count: u32,
}

/// The geometry counts of a mesh with `vertex_count` vertices of `vertex_size`
/// bytes and, when it is indexed, `index_count` indices: the highest vertex index
/// and the number of triangles must each fit in 32 bits, and the mesh must have
/// an index buffer. The checks come in this order: index buffer, vertex count,
/// indices.
pub open spec fn spec_blas_geometry_counts(
    has_index_buffer: bool,
    vertex_count: usize,
    vertex_size: usize,
    index_count: Option<usize>,
) -> Result<BlasGeometryCounts, BlasGeometryError> {
    if !has_index_buffer {
        Err(BlasGeometryError::NonIndexedMesh)
    } else if vertex_count - 1 > u32::MAX {
        Err(BlasGeometryError::TooManyVertices)
    } else {
        match index_count {
            None => Err(BlasGeometryError::NonIndexedMesh),
            Some(n) => if n / 3 > u32::MAX {
                Err(BlasGeometryError::TooManyIndices)
            } else {
                Ok(
                    BlasGeometryCounts {
                        vertex_stride: vertex_size as u64,
                        max_vertex: (vertex_count - 1) as u32,
                        primitive_count: (n / 3) as u32,
                    },
                )
            },
        }
    }
}

/// An indexed mesh needs at least one vertex: its highest vertex index is one
/// less than the vertex count.
pub fn blas_geometry_counts(
    has_index_buffer: bool,
    vertex_count: usize,
    vertex_size: usize,
    index_count: Option<usize>,
) -> (r: Result<BlasGeometryCounts, BlasGeometryError>)
    requires
        has_index_buffer ==> vertex_count > 0,
    ensures
        r == spec_blas_geometry_counts(has_index_buffer, vertex_count, vertex_size, index_count),
{
    if !has_index_buffer {
        return Err(BlasGeometryError::NonIndexedMesh);
    }
    let vertex_stride = vertex_size as u64;
    let max_vertex = vertex_count - 1;
    if max_vertex > u32::MAX as usize {
        return Err(BlasGeometryError::TooManyVertices);
    }
    let max_vertex = max_vertex as u32;
    match index_count {
        None => Err(BlasGeometryError::NonIndexedMesh),
        Some(n) => {
            let triangles = n / 3;
            if triangles > u32::MAX as usize {
                Err(BlasGeometryError::TooManyIndices)
            } else {
                Ok(
                    BlasGeometryCounts {
                        vertex_stride,
                        max_vertex,
                        primitive_count: triangles as u32,
                    },
                )
            }
        },
    }
}

} // verus!

use morrigu::mesh_data::{
    blas_geometry_counts, collect_face_indices, BlasGeometryCounts, BlasGeometryError,
};

#[test]
fn face_indices_are_joined_in_order() {
    let faces = vec![vec![0, 1, 2], vec![2, 3, 0], vec![], vec![4, 5, 6]];
    assert_eq!(collect_face_indices(&faces), vec![0, 1, 2, 2, 3, 0, 4, 5, 6]);
    assert_eq!(collect_face_indices(&vec![]), Vec::<u32>::new());
}

#[test]
fn blas_counts_of_an_indexed_mesh() {
    assert_eq!(
        blas_geometry_counts(true, 24, 32, Some(36)),
        Ok(BlasGeometryCounts { vertex_stride: 32, max_vertex: 23, primitive_count: 12 })
    );
    assert_eq!(
        blas_geometry_counts(true, 1, 12, Some(2)),
        Ok(BlasGeometryCounts { vertex_stride: 12, max_vertex: 0, primitive_count: 0 })
    );
}

#[test]
fn blas_refuses_a_mesh_without_indices() {
    assert_eq!(
        blas_geometry_counts(false, 3, 32, None),
        Err(BlasGeometryError::NonIndexedMesh)
    );
    assert_eq!(
        blas_geometry_counts(true, 3, 32, None),
        Err(BlasGeometryError::NonIndexedMesh)
    );
}

#[test]
fn blas_refuses_too_many_vertices_or_indices() {
    if usize::BITS > 32 {
        let many = (u32::MAX as usize) + 2;
        assert_eq!(
            blas_geometry_counts(true, many, 32, Some(3)),
            Err(BlasGeometryError::TooManyVertices)
        );
        let indices = (u32::MAX as usize + 1) * 3;
        assert_eq!(
            blas_geometry_counts(true, 3, 32, Some(indices)),
            Err(BlasGeometryError::TooManyIndices)
        );
    }
}

use truck_ffi::assemble::{assemble_indices, usize_to_u32, FaceList, TriangleMesh};
use truck_ffi::error::{decimal_string, TruckErrorCode};

fn face_list(
    tri: Vec<Vec<usize>>,
    quad: Vec<Vec<usize>>,
    other: Vec<Vec<usize>>,
) -> FaceList {
    FaceList { tri_faces: tri, quad_faces: quad, other_faces: other }
}

#[test]
fn triangle_face_is_emitted_as_is() {
    let faces = face_list(vec![vec![0, 1, 2]], vec![], vec![]);
    let mesh: TriangleMesh = assemble_indices(3, &faces).unwrap();
    assert_eq!(mesh.indices, vec![0u32, 1, 2]);
    assert_eq!(mesh.vertex_count, 3);
}

#[test]
fn quad_face_fans_along_fixed_diagonal() {
    // A unit square (0,1,2,3) must split into (0,1,2) and (0,2,3),
    // never along the other diagonal.
    let faces = face_list(vec![], vec![vec![0, 1, 2, 3]], vec![]);
    let mesh = assemble_indices(4, &faces).unwrap();
    assert_eq!(mesh.indices, vec![0u32, 1, 2, 0, 2, 3]);
}

#[test]
fn pentagon_face_fans_into_three_triangles() {
    let faces = face_list(vec![], vec![], vec![vec![0, 1, 2, 3, 4]]);
    let mesh = assemble_indices(5, &faces).unwrap();
    assert_eq!(mesh.indices, vec![0u32, 1, 2, 0, 2, 3, 0, 3, 4]);
    assert_eq!(mesh.indices.len() / 3, 3);
}

#[test]
fn groups_are_emitted_in_partition_order() {
    let faces = face_list(
        vec![vec![0, 1, 2]],
        vec![vec![3, 4, 5, 6]],
        vec![vec![0, 2, 4, 6, 1]],
    );
    let mesh = assemble_indices(7, &faces).unwrap();
    assert_eq!(
        mesh.indices,
        vec![0u32, 1, 2, 3, 4, 5, 3, 5, 6, 0, 2, 4, 0, 4, 6, 0, 6, 1]
    );
    assert_eq!(mesh.indices.len() % 3, 0);
    assert!(mesh.indices.iter().all(|&i| (i as usize) < 7));
}

#[test]
fn short_polygon_is_skipped_silently() {
    let faces = face_list(
        vec![vec![0, 1, 2]],
        vec![],
        vec![vec![0], vec![1, 2]],
    );
    let mesh = assemble_indices(3, &faces).unwrap();
    assert_eq!(mesh.indices, vec![0u32, 1, 2]);
}

#[test]
fn no_vertices_fails_before_faces_are_read() {
    let empty = face_list(vec![], vec![], vec![]);
    let err = assemble_indices(0, &empty).unwrap_err();
    assert_eq!(err.kind.code(), 4);
    assert_eq!(err.message, "tessellation produced no vertices");
}

#[test]
fn no_triangles_fails_after_all_faces_are_read() {
    let faces = face_list(vec![], vec![], vec![vec![0, 1]]);
    let err = assemble_indices(2, &faces).unwrap_err();
    assert_eq!(err.kind.code(), 4);
    assert_eq!(err.message, "tessellation produced no triangle indices");
}

#[test]
fn index_above_u32_range_is_a_hard_failure_naming_the_value() {
    let big: usize = (u32::MAX as usize) + 1;
    let faces = face_list(vec![vec![0, 1, big]], vec![], vec![]);
    let err = assemble_indices(big + 1, &faces).unwrap_err();
    assert_eq!(err.kind.code(), 4);
    assert_eq!(err.message, "index 4294967296 exceeds u32 range");
}

#[test]
fn usize_to_u32_narrows_at_the_exact_boundary() {
    assert_eq!(usize_to_u32(0).unwrap(), 0);
    assert_eq!(usize_to_u32(u32::MAX as usize).unwrap(), u32::MAX);
    let err = usize_to_u32(u32::MAX as usize + 1).unwrap_err();
    assert!(matches!(err.kind, TruckErrorCode::ErrTessellationFailed));
    assert_eq!(err.message, "index 4294967296 exceeds u32 range");
}

#[test]
fn decimal_rendering_is_exact() {
    assert_eq!(decimal_string(0), "0");
    assert_eq!(decimal_string(7), "7");
    assert_eq!(decimal_string(10), "10");
    assert_eq!(decimal_string(4294967296), "4294967296");
    assert_eq!(decimal_string(u64::MAX), "18446744073709551615");
}

#[test]
fn surface_area_is_summed_over_exactly_the_indexed_triangles() {
    // The buffer of a unit square fanned as (0,1,2),(0,2,3): summing the
    // triangle areas over the triples of the returned buffer gives the
    // square's area, confirming area and indices describe the same
    // triangles.
    let positions: Vec<[f64; 3]> = vec![
        [0.0, 0.0, 0.0],
        [1.0, 0.0, 0.0],
        [1.0, 1.0, 0.0],
        [0.0, 1.0, 0.0],
    ];
    let faces = face_list(vec![], vec![vec![0, 1, 2, 3]], vec![]);
    let mesh = assemble_indices(4, &faces).unwrap();
    let mut area = 0.0_f64;
    for t in mesh.indices.chunks(3) {
        let p0 = positions[t[0] as usize];
        let p1 = positions[t[1] as usize];
        let p2 = positions[t[2] as usize];
        let u = [p1[0] - p0[0], p1[1] - p0[1], p1[2] - p0[2]];
        let v = [p2[0] - p0[0], p2[1] - p0[1], p2[2] - p0[2]];
        let c = [
            u[1] * v[2] - u[2] * v[1],
            u[2] * v[0] - u[0] * v[2],
            u[0] * v[1] - u[1] * v[0],
        ];
        area += 0.5 * (c[0] * c[0] + c[1] * c[1] + c[2] * c[2]).sqrt();
    }
    assert!((area - 1.0).abs() < 1e-12);
}

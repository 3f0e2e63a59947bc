//! A document with two disjoint closed shells, modelled at the level the
//! assembler sees: two closed cube meshes merged into one combined mesh.

use truck_ffi::assemble::{assemble_indices, FaceList};
use truck_meshalgo::analyzers::{CalcVolume, Topology};
use truck_polymesh::{Faces, Point3, PolygonMesh, StandardAttributes};
use truck_topology::shell::ShellCondition;

fn cube_mesh(offset: f64) -> PolygonMesh {
    let positions = vec![
        Point3::new(offset, 0.0, 0.0),
        Point3::new(offset + 1.0, 0.0, 0.0),
        Point3::new(offset + 1.0, 1.0, 0.0),
        Point3::new(offset, 1.0, 0.0),
        Point3::new(offset, 0.0, 1.0),
        Point3::new(offset + 1.0, 0.0, 1.0),
        Point3::new(offset + 1.0, 1.0, 1.0),
        Point3::new(offset, 1.0, 1.0),
    ];
    let attrs = StandardAttributes { positions, ..Default::default() };
    let faces = Faces::from_iter(&[
        [0usize, 3, 2, 1],
        [4, 5, 6, 7],
        [0, 1, 5, 4],
        [1, 2, 6, 5],
        [2, 3, 7, 6],
        [3, 0, 4, 7],
    ]);
    PolygonMesh::new(attrs, faces)
}

#[test]
fn two_disjoint_closed_shells_stay_watertight_and_additive() {
    let mut merged = PolygonMesh::default();
    merged.merge(cube_mesh(0.0));
    merged.merge(cube_mesh(5.0));

    // Watertight: the combined shell condition is still closed.
    assert_eq!(merged.shell_condition(), ShellCondition::Closed);

    // Volume: the sum of both unit cubes, up to floating tolerance.
    assert!((merged.volume().abs() - 2.0).abs() < 1e-9);

    // Bounding box: spans both shells' extents.
    let mut min = [f64::INFINITY; 3];
    let mut max = [f64::NEG_INFINITY; 3];
    for p in merged.positions() {
        min[0] = min[0].min(p.x);
        min[1] = min[1].min(p.y);
        min[2] = min[2].min(p.z);
        max[0] = max[0].max(p.x);
        max[1] = max[1].max(p.y);
        max[2] = max[2].max(p.z);
    }
    assert_eq!(min, [0.0, 0.0, 0.0]);
    assert_eq!(max, [6.0, 1.0, 1.0]);

    // The assembled index buffer covers both shells: 6 quad faces per
    // cube, two triangles each, and indices referencing both halves of
    // the combined position list.
    let position_mesh = merged.to_positions_mesh();
    let positions = position_mesh.attributes();
    let faces = position_mesh.faces();
    let face_list = FaceList {
        tri_faces: faces.tri_faces().iter().map(|f| f.to_vec()).collect(),
        quad_faces: faces.quad_faces().iter().map(|f| f.to_vec()).collect(),
        other_faces: faces.other_faces().clone(),
    };
    let mesh = assemble_indices(positions.len(), &face_list).unwrap();
    assert_eq!(mesh.vertex_count, 16);
    assert_eq!(mesh.indices.len(), 2 * 6 * 2 * 3);
    assert!(mesh.indices.iter().any(|&i| (i as usize) < 8));
    assert!(mesh.indices.iter().any(|&i| (i as usize) >= 8));
    assert!(mesh.indices.iter().all(|&i| (i as usize) < 16));
}

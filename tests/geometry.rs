use wenderer::geometry::{
    create_cube_fbo, Coord2, Coord3, Geometry, IndexFormat, Mesh2, Mesh3, Rectangle,
};

#[test]
fn cube_has_eight_corners_and_twelve_triangles() {
    let cube = create_cube_fbo();
    assert_eq!(cube.vertices.len(), 8);
    assert_eq!(cube.get_num_indices(), 36);
    assert_eq!(cube.get_index_format(), IndexFormat::Uint16);
    for v in &cube.vertices {
        assert_eq!(v.attrib.x, v.position.x + 1);
        assert_eq!(v.attrib.y, v.position.y + 1);
        assert_eq!(v.attrib.z, v.position.z + 1);
    }
    assert_eq!(cube.vertices[0].position, Coord3 { x: -1, y: -1, z: 1 });
    assert_eq!(cube.vertices[6].attrib, Coord3 { x: 2, y: 2, z: 0 });
}

#[test]
fn cube_index_bytes_decode_to_indices() {
    let cube = create_cube_fbo();
    let bytes = cube.get_index_raw();
    assert_eq!(bytes.len(), 72);
    let expected: [u16; 36] = [
        0, 1, 3, 3, 1, 2, 2, 1, 5, 2, 5, 6, 3, 2, 7, 7, 2, 6, 4, 0, 3, 4, 3, 7, 4, 1, 0, 4, 5,
        1, 7, 6, 5, 7, 5, 4,
    ];
    for (i, e) in expected.iter().enumerate() {
        let v = u16::from_ne_bytes([bytes[2 * i], bytes[2 * i + 1]]);
        assert_eq!(v, *e);
    }
}

#[test]
fn large_mesh_uses_32_bit_indices() {
    let n = 70_000usize;
    let pos: Vec<Coord3> = (0..n).map(|i| Coord3 { x: i as i32, y: 0, z: 0 }).collect();
    let attribs = pos.clone();
    let indices: Vec<usize> = vec![0, 69_999, 65_536];
    let mesh = Mesh3::new(&pos, &indices, &attribs);
    assert_eq!(mesh.get_index_format(), IndexFormat::Uint32);
    let bytes = mesh.get_index_raw();
    assert_eq!(bytes.len(), 12);
    let v = u32::from_ne_bytes([bytes[4], bytes[5], bytes[6], bytes[7]]);
    assert_eq!(v, 69_999);
    let w = u32::from_ne_bytes([bytes[8], bytes[9], bytes[10], bytes[11]]);
    assert_eq!(w, 65_536);
}

#[test]
fn small_mesh_truncates_indices_like_a_cast() {
    let pos = vec![Coord3 { x: 0, y: 0, z: 0 }; 3];
    let attribs = vec![Coord2 { x: 0, y: 0 }; 3];
    let mesh = Mesh2::new(&pos, &vec![0, 1, 65_537], &attribs, false);
    assert_eq!(mesh.get_index_format(), IndexFormat::Uint16);
    let bytes = mesh.get_index_raw();
    assert_eq!(u16::from_ne_bytes([bytes[4], bytes[5]]), 1);
}

#[test]
fn standard_rectangle_maps_depth_into_wgpu_range() {
    let r = Rectangle::new_standard_rectangle();
    assert_eq!(r.get_num_indices(), 6);
    assert_eq!(r.mesh.vertices.len(), 4);
    for v in &r.mesh.vertices {
        assert_eq!(v.position.z, 1);
    }
    assert_eq!(r.mesh.vertices[0].position, Coord3 { x: -2, y: -2, z: 1 });
    assert_eq!(r.mesh.vertices[0].attrib, Coord2 { x: 0, y: 2 });
    let u = Rectangle::new_unit_rectangle();
    assert_eq!(u.mesh.vertices[2].position, Coord3 { x: 2, y: 2, z: 1 });
    let bytes = u.get_index_raw();
    assert_eq!(bytes.len(), 12);
    assert_eq!(u16::from_ne_bytes([bytes[10], bytes[11]]), 3);
}

use morrigu::painter::{flatten_rgba_pixels, EguiVertex};
use morrigu::pipeline::{
    Vertex, VertexAttribute, VertexBinding, FORMAT_R32G32B32A32_SFLOAT, FORMAT_R32G32B32_SFLOAT,
    FORMAT_R32G32_SFLOAT,
};
use morrigu::sample_vertex::{
    assemble_obj_vertices, Face, PlyProperty, TexturedVertex, Vec2Bits, Vec3Bits,
};

#[test]
fn ply_vertex_properties_fill_the_vertex() {
    let mut v = TexturedVertex::new();
    v.set_property("x", PlyProperty::Float(1.0f32.to_bits()));
    v.set_property("y", PlyProperty::Float(2.0f32.to_bits()));
    v.set_property("z", PlyProperty::Float(3.0f32.to_bits()));
    v.set_property("nx", PlyProperty::Float(0.5f32.to_bits()));
    v.set_property("t", PlyProperty::Float(0.25f32.to_bits()));
    v.set_property("red", PlyProperty::Float(9.0f32.to_bits()));
    v.set_property("s", PlyProperty::Other);
    assert_eq!(
        v.position,
        Vec3Bits { x: 1.0f32.to_bits(), y: 2.0f32.to_bits(), z: 3.0f32.to_bits() }
    );
    assert_eq!(v.normal, Vec3Bits { x: 0.5f32.to_bits(), y: 0, z: 0 });
    assert_eq!(v.texture_coords, Vec2Bits { x: 0, y: 0.25f32.to_bits() });
}

#[test]
fn ply_faces_read_their_indices() {
    let mut f = Face::new();
    f.set_property("vertex_indices", PlyProperty::ListUInt(vec![0, 1, 2]));
    assert_eq!(f.indices, vec![0, 1, 2]);
    f.set_property("other", PlyProperty::ListUInt(vec![7]));
    f.set_property("vertex_indices", PlyProperty::Float(1));
    assert_eq!(f.indices, vec![0, 1, 2]);
}

#[test]
fn obj_vertices_pair_positions_normals_and_texcoords() {
    let positions = vec![1, 2, 3, 4, 5, 6, 7];
    let normals = vec![10, 20, 30, 40, 50, 60];
    let texcoords = vec![100, 200, 300, 400];
    let vs = assemble_obj_vertices(&positions, &normals, &texcoords);
    assert_eq!(vs.len(), 2);
    assert_eq!(vs[1].position, Vec3Bits { x: 4, y: 5, z: 6 });
    assert_eq!(vs[1].normal, Vec3Bits { x: 40, y: 50, z: 60 });
    assert_eq!(vs[1].texture_coords, Vec2Bits { x: 300, y: 400 });
    assert_eq!(vs[0].texture_coords, Vec2Bits { x: 100, y: 200 });
}

#[test]
fn textured_vertex_layout() {
    let d = TexturedVertex::vertex_input_description();
    assert_eq!(d.bindings, vec![VertexBinding { binding: 0, stride: 32 }]);
    assert_eq!(
        d.attributes,
        vec![
            VertexAttribute { location: 0, binding: 0, format: FORMAT_R32G32B32_SFLOAT, offset: 0 },
            VertexAttribute { location: 1, binding: 0, format: FORMAT_R32G32B32_SFLOAT, offset: 12 },
            VertexAttribute { location: 2, binding: 0, format: FORMAT_R32G32_SFLOAT, offset: 24 },
        ]
    );
    assert_eq!((FORMAT_R32G32_SFLOAT, FORMAT_R32G32B32_SFLOAT, FORMAT_R32G32B32A32_SFLOAT), (103, 106, 109));
}

#[test]
fn egui_vertex_layout() {
    let d = EguiVertex::vertex_input_description();
    assert_eq!(d.bindings, vec![VertexBinding { binding: 0, stride: 32 }]);
    assert_eq!(d.attributes[1].offset, 8);
    assert_eq!(d.attributes[2].offset, 16);
    assert_eq!(d.attributes[2].format, FORMAT_R32G32B32A32_SFLOAT);
}

#[test]
fn rgba_pixels_are_flattened_in_order() {
    let pixels = vec![[1, 2, 3, 4], [5, 6, 7, 8]];
    assert_eq!(flatten_rgba_pixels(&pixels), vec![1, 2, 3, 4, 5, 6, 7, 8]);
    assert_eq!(flatten_rgba_pixels(&vec![]), Vec::<u8>::new());
}

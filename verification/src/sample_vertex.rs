use vstd::prelude::*;

use crate::pipeline::{
    Vertex, VertexAttribute, VertexBinding, VertexInputDescription, FORMAT_R32G32B32_SFLOAT,
    FORMAT_R32G32_SFLOAT,
};

verus! {

/// Three floats, each kept as the bit pattern of an `f32`.
#[derive(Debug, Copy, Clone, PartialEq, Eq, Structural)]
pub struct Vec3Bits {
    pub x: u32,
    pub y: u32,
    pub z: u32,
}

/// Two floats, each kept as the bit pattern of an `f32`.
#[derive(Debug, Copy, Clone, PartialEq, Eq, Structural)]
pub struct Vec2Bits {
    pub x: u32,
    pub y: u32,
}

/// A vertex with a position, a normal and texture coordinates, laid out as eight
/// consecutive 4-byte floats: position, normal, then texture coordinates.
#[derive(Debug, Copy, Clone, PartialEq, Eq, Structural)]
pub struct TexturedVertex {
    pub position: Vec3Bits,
    pub normal: Vec3Bits,
    pub texture_coords: Vec2Bits,
}

/// The size of a textured vertex in bytes, and the offsets of its attributes.
pub const TEXTURED_VERTEX_SIZE: u32 = 32;

pub const TEXTURED_VERTEX_NORMAL_OFFSET: u32 = 12;

pub const TEXTURED_VERTEX_TEXTURE_COORDS_OFFSET: u32 = 24;

/// The value of a property of a PLY element, as far as vertices and faces read
/// it: a float (by its bit pattern), a list of unsigned integers, or anything else.
#[derive(Debug, Clone, PartialEq, Eq)]
pub enum PlyProperty {
    Float(u32),
    ListUInt(Vec<u32>),
    Other,
}

/// The vertex after one property of a PLY vertex element is read into it: `x`,
/// `y`, `z` set the position, `nx`, `ny`, `nz` the normal and `s`, `t` the texture
/// coordinates, when the value is a float; anything else leaves it as it was.
pub open spec fn vertex_with_property(
    v: TexturedVertex,
    key: Seq<char>,
    value: PlyProperty,
) -> TexturedVertex {
    match value {
        PlyProperty::Float(f) => if key == "x"@ {
            TexturedVertex { position: Vec3Bits { x: f, ..v.position }, ..v }
        } else if key == "y"@ {
            TexturedVertex { position: Vec3Bits { y: f, ..v.position }, ..v }
        } else if key == "z"@ {
            TexturedVertex { position: Vec3Bits { z: f, ..v.position }, ..v }
        } else if key == "nx"@ {
            TexturedVertex { normal: Vec3Bits { x: f, ..v.normal }, ..v }
        } else if key == "ny"@ {
            TexturedVertex { normal: Vec3Bits { y: f, ..v.normal }, ..v }
        } else if key == "nz"@ {
            TexturedVertex { normal: Vec3Bits { z: f, ..v.normal }, ..v }
        } else if key == "s"@ {
            TexturedVertex { texture_coords: Vec2Bits { x: f, ..v.texture_coords }, ..v }
        } else if key == "t"@ {
            TexturedVertex { texture_coords: Vec2Bits { y: f, ..v.texture_coords }, ..v }
        } else {
            v
        },
        _ => v,
    }
}

/// Reading a float property sets exactly the component its name stands for:
/// `x`, `y`, `z` the position's, `nx`, `ny`, `nz` the normal's and `s`, `t` the
/// texture coordinates', each to the value read, and no other component.
pub proof fn lemma_ply_property_sets_named_component(v: TexturedVertex, f: u32)
    ensures
        vertex_with_property(v, "x"@, PlyProperty::Float(f)) == (TexturedVertex {
            position: Vec3Bits { x: f, y: v.position.y, z: v.position.z },
            normal: v.normal,
            texture_coords: v.texture_coords,
        }),
        vertex_with_property(v, "y"@, PlyProperty::Float(f)) == (TexturedVertex {
            position: Vec3Bits { x: v.position.x, y: f, z: v.position.z },
            normal: v.normal,
            texture_coords: v.texture_coords,
        }),
        vertex_with_property(v, "z"@, PlyProperty::Float(f)) == (TexturedVertex {
            position: Vec3Bits { x: v.position.x, y: v.position.y, z: f },
            normal: v.normal,
            texture_coords: v.texture_coords,
        }),
        vertex_with_property(v, "nx"@, PlyProperty::Float(f)) == (TexturedVertex {
            position: v.position,
            normal: Vec3Bits { x: f, y: v.normal.y, z: v.normal.z },
            texture_coords: v.texture_coords,
        }),
        vertex_with_property(v, "ny"@, PlyProperty::Float(f)) == (TexturedVertex {
            position: v.position,
            normal: Vec3Bits { x: v.normal.x, y: f, z: v.normal.z },
            texture_coords: v.texture_coords,
        }),
        vertex_with_property(v, "nz"@, PlyProperty::Float(f)) == (TexturedVertex {
            position: v.position,
            normal: Vec3Bits { x: v.normal.x, y: v.normal.y, z: f },
            texture_coords: v.texture_coords,
        }),
        vertex_with_property(v, "s"@, PlyProperty::Float(f)) == (TexturedVertex {
            position: v.position,
            normal: v.normal,
            texture_coords: Vec2Bits { x: f, y: v.texture_coords.y },
        }),
        vertex_with_property(v, "t"@, PlyProperty::Float(f)) == (TexturedVertex {
            position: v.position,
            normal: v.normal,
            texture_coords: Vec2Bits { x: v.texture_coords.x, y: f },
        }),
{
    reveal_strlit("x");
    reveal_strlit("y");
    reveal_strlit("z");
    reveal_strlit("nx");
    reveal_strlit("ny");
    reveal_strlit("nz");
    reveal_strlit("s");
    reveal_strlit("t");
    assert("y"@ != "x"@) by { assert("y"@[0] != "x"@[0]); }
    assert("z"@ != "x"@) by { assert("z"@[0] != "x"@[0]); }
    assert("z"@ != "y"@) by { assert("z"@[0] != "y"@[0]); }
    assert("nx"@ != "x"@) by { assert("nx"@.len() != "x"@.len()); }
    assert("nx"@ != "y"@) by { assert("nx"@.len() != "y"@.len()); }
    assert("nx"@ != "z"@) by { assert("nx"@.len() != "z"@.len()); }
    assert("ny"@ != "x"@) by { assert("ny"@.len() != "x"@.len()); }
    assert("ny"@ != "y"@) by { assert("ny"@.len() != "y"@.len()); }
    assert("ny"@ != "z"@) by { assert("ny"@.len() != "z"@.len()); }
    assert("ny"@ != "nx"@) by { assert("ny"@[1] != "nx"@[1]); }
    assert("nz"@ != "x"@) by { assert("nz"@.len() != "x"@.len()); }
    assert("nz"@ != "y"@) by { assert("nz"@.len() != "y"@.len()); }
    assert("nz"@ != "z"@) by { assert("nz"@.len() != "z"@.len()); }
    assert("nz"@ != "nx"@) by { assert("nz"@[1] != "nx"@[1]); }
    assert("nz"@ != "ny"@) by { assert("nz"@[1] != "ny"@[1]); }
    assert("s"@ != "x"@) by { assert("s"@[0] != "x"@[0]); }
    assert("s"@ != "y"@) by { assert("s"@[0] != "y"@[0]); }
    assert("s"@ != "z"@) by { assert("s"@[0] != "z"@[0]); }
    assert("s"@ != "nx"@) by { assert("s"@.len() != "nx"@.len()); }
    assert("s"@ != "ny"@) by { assert("s"@.len() != "ny"@.len()); }
    assert("s"@ != "nz"@) by { assert("s"@.len() != "nz"@.len()); }
    assert("t"@ != "x"@) by { assert("t"@[0] != "x"@[0]); }
    assert("t"@ != "y"@) by { assert("t"@[0] != "y"@[0]); }
    assert("t"@ != "z"@) by { assert("t"@[0] != "z"@[0]); }
    assert("t"@ != "nx"@) by { assert("t"@.len() != "nx"@.len()); }
    assert("t"@ != "ny"@) by { assert("t"@.len() != "ny"@.len()); }
    assert("t"@ != "nz"@) by { assert("t"@.len() != "nz"@.len()); }
    assert("t"@ != "s"@) by { assert("t"@[0] != "s"@[0]); }
}

/// Whether two strings are the same.
fn same_text(a: &str, b: &str) -> (r: bool)
    ensures
        r == (a@ == b@),
{
    a.to_owned() == b.to_owned()
}

impl TexturedVertex {
    /// A vertex whose every component is `0.0`.
    pub fn new() -> (r: Self)
        ensures
            r == (TexturedVertex {
                position: Vec3Bits { x: 0, y: 0, z: 0 },
                normal: Vec3Bits { x: 0, y: 0, z: 0 },
                texture_coords: Vec2Bits { x: 0, y: 0 },
            }),
    {
        TexturedVertex {
            position: Vec3Bits { x: 0, y: 0, z: 0 },
            normal: Vec3Bits { x: 0, y: 0, z: 0 },
            texture_coords: Vec2Bits { x: 0, y: 0 },
        }
    }

    /// Reads one property of a PLY vertex element into the vertex.
    pub fn set_property(&mut self, key: &str, property: PlyProperty)
        ensures
            *final(self) == vertex_with_property(*old(self), key@, property),
    {
        match property {
            PlyProperty::Float(f) => {
                if same_text(key, "x") {
                    self.position.x = f;
                } else if same_text(key, "y") {
                    self.position.y = f;
                } else if same_text(key, "z") {
                    self.position.z = f;
                } else if same_text(key, "nx") {
                    self.normal.x = f;
                } else if same_text(key, "ny") {
                    self.normal.y = f;
                } else if same_text(key, "nz") {
                    self.normal.z = f;
                } else if same_text(key, "s") {
                    self.texture_coords.x = f;
                } else if same_text(key, "t") {
                    self.texture_coords.y = f;
                }
            },
            _ => {},
        }
    }
}

impl Vertex for TexturedVertex {
    /// One binding of whole vertices; position, normal and texture coordinates at
    /// locations 0, 1 and 2.
    fn vertex_input_description() -> (r: VertexInputDescription)
        ensures
            r.bindings@ == seq![VertexBinding { binding: 0, stride: TEXTURED_VERTEX_SIZE }],
            r.attributes@ == seq![
                VertexAttribute { location: 0, binding: 0, format: FORMAT_R32G32B32_SFLOAT, offset: 0 },
                VertexAttribute {
                    location: 1,
                    binding: 0,
                    format: FORMAT_R32G32B32_SFLOAT,
                    offset: TEXTURED_VERTEX_NORMAL_OFFSET,
                },
                VertexAttribute {
                    location: 2,
                    binding: 0,
                    format: FORMAT_R32G32_SFLOAT,
                    offset: TEXTURED_VERTEX_TEXTURE_COORDS_OFFSET,
                },
            ],
    {
        VertexInputDescription {
            bindings: vec![VertexBinding { binding: 0, stride: TEXTURED_VERTEX_SIZE }],
            attributes: vec![
                VertexAttribute { location: 0, binding: 0, format: FORMAT_R32G32B32_SFLOAT, offset: 0 },
                VertexAttribute {
                    location: 1,
                    binding: 0,
                    format: FORMAT_R32G32B32_SFLOAT,
                    offset: TEXTURED_VERTEX_NORMAL_OFFSET,
                },
                VertexAttribute {
                    location: 2,
                    binding: 0,
                    format: FORMAT_R32G32_SFLOAT,
                    offset: TEXTURED_VERTEX_TEXTURE_COORDS_OFFSET,
                },
            ],
        }
    }
}

/// A face of a PLY mesh: the indices of its vertices.
#[derive(Debug, Clone, PartialEq, Eq)]
pub struct Face {
    pub indices: Vec<u32>,
}

impl Face {
    /// A face with no vertex.
    pub fn new() -> (r: Self)
        ensures
            r.indices@ == Seq::<u32>::empty(),
    {
        Face { indices: Vec::new() }
    }

    /// Reads one property of a PLY face element: a list of unsigned integers named
    /// `vertex_indices` becomes the face's indices; anything else is ignored.
    pub fn set_property(&mut self, key: &str, property: PlyProperty)
        ensures
            (key@ == "vertex_indices"@ && property is ListUInt) ==> final(self).indices
                == property->ListUInt_0,
            !(key@ == "vertex_indices"@ && property is ListUInt) ==> *final(self) == *old(self),
    {
        match property {
            PlyProperty::ListUInt(v) => {
                if same_text(key, "vertex_indices") {
                    self.indices = v;
                }
            },
            _ => {},
        }
    }
}

/// The vertex made of the `i`-th position, normal and texture coordinates of flat
/// float arrays (three, three and two floats per vertex).
pub open spec fn obj_vertex(
    positions: Seq<u32>,
    normals: Seq<u32>,
    texcoords: Seq<u32>,
    i: int,
) -> TexturedVertex {
    TexturedVertex {
        position: Vec3Bits { x: positions[3 * i], y: positions[3 * i + 1], z: positions[3 * i + 2] },
        normal: Vec3Bits { x: normals[3 * i], y: normals[3 * i + 1], z: normals[3 * i + 2] },
        texture_coords: Vec2Bits { x: texcoords[2 * i], y: texcoords[2 * i + 1] },
    }
}

/// Builds the vertices of a loaded OBJ mesh from its flat position, normal and
/// texture coordinate arrays: one vertex per whole position, each taking the
/// normal and texture coordinates of the same rank. Every position needs them.
pub fn assemble_obj_vertices(positions: &Vec<u32>, normals: &Vec<u32>, texcoords: &Vec<u32>) -> (r:
    Vec<TexturedVertex>)
    requires
        normals@.len() / 3 >= positions@.len() / 3,
        texcoords@.len() / 2 >= positions@.len() / 3,
    ensures
        r@.len() == positions@.len() / 3,
        forall|i: int|
            0 <= i < r@.len() ==> #[trigger] r@[i] == obj_vertex(positions@, normals@, texcoords@, i),
{
    let count = positions.len() / 3;
    let mut vertices: Vec<TexturedVertex> = Vec::new();
    let mut i: usize = 0;
    while i < count
        invariant
            count == positions@.len() / 3,
            normals@.len() / 3 >= count,
            texcoords@.len() / 2 >= count,
            i <= count,
            vertices@.len() == i,
            forall|j: int|
                0 <= j < i ==> #[trigger] vertices@[j] == obj_vertex(
                    positions@,
                    normals@,
                    texcoords@,
                    j,
                ),
        decreases count - i,
    {
        proof {
            assert(3 * i + 2 < positions.len() && 3 * i + 2 < normals.len() && 2 * i + 1
                < texcoords.len()) by (nonlinear_arith)
                requires
                    i < count,
                    count == positions.len() / 3,
                    normals.len() / 3 >= count,
                    texcoords.len() / 2 >= count,
            ;
        }
        let v = TexturedVertex {
            position: Vec3Bits { x: positions[3 * i], y: positions[3 * i + 1], z: positions[3 * i + 2] },
            normal: Vec3Bits { x: normals[3 * i], y: normals[3 * i + 1], z: normals[3 * i + 2] },
            texture_coords: Vec2Bits { x: texcoords[2 * i], y: texcoords[2 * i + 1] },
        };
        vertices.push(v);
        i = i + 1;
    }
    vertices
}


/// The flat arrays of one model of an OBJ file, each float as its bit pattern.
pub struct ObjMesh {
    pub positions: Vec<u32>,
    pub normals: Vec<u32>,
    pub texcoords: Vec<u32>,
    pub indices: Vec<u32>,
}

/// The positions, normals, texture coordinates and indices of a model.
pub open spec fn obj_mesh_arrays(m: ObjMesh) -> (Seq<u32>, Seq<u32>, Seq<u32>, Seq<u32>) {
    (m.positions@, m.normals@, m.texcoords@, m.indices@)
}

/// Why the models of an OBJ file gave no textured mesh.
#[derive(Clone, Copy, Debug, PartialEq, Eq, Structural)]
pub enum ObjModelError {
    /// The file holds no model.
    NoModel,
    /// The first model lacks normals or texture coordinates for some positions.
    IncompleteModel,
}

/// Whether a model has a normal and texture coordinates for every whole position.
pub open spec fn obj_complete(m: (Seq<u32>, Seq<u32>, Seq<u32>, Seq<u32>)) -> bool {
    m.1.len() / 3 >= m.0.len() / 3 && m.2.len() / 2 >= m.0.len() / 3
}

/// The textured vertices and indices of the first of the models an OBJ file was
/// parsed into, in the file's order.
pub fn obj_model_from_meshes(meshes: Vec<ObjMesh>) -> (r: Result<
    (Vec<TexturedVertex>, Vec<u32>),
    ObjModelError,
>)
    ensures
        ({
            let ms = meshes@.map_values(|m: ObjMesh| obj_mesh_arrays(m));
            if ms.len() == 0 {
                r == Err::<(Vec<TexturedVertex>, Vec<u32>), ObjModelError>(ObjModelError::NoModel)
            } else if !obj_complete(ms[0]) {
                r == Err::<(Vec<TexturedVertex>, Vec<u32>), ObjModelError>(
                    ObjModelError::IncompleteModel,
                )
            } else {
                r matches Ok(t) && t.0@.len() == ms[0].0.len() / 3 && t.1@ == ms[0].3 && (forall|
                    i: int,
                | 0 <= i < t.0@.len() ==> #[trigger] t.0@[i] == obj_vertex(
                    ms[0].0,
                    ms[0].1,
                    ms[0].2,
                    i,
                ))
            }
        }),
{
    let mut meshes = meshes;
    if meshes.len() == 0 {
        return Err(ObjModelError::NoModel);
    }
    let ghost ms = meshes@.map_values(|m: ObjMesh| obj_mesh_arrays(m));
    let model = meshes.remove(0);
    assert(obj_mesh_arrays(model) == ms[0]);
    if model.normals.len() / 3 < model.positions.len() / 3 || model.texcoords.len() / 2
        < model.positions.len() / 3 {
        return Err(ObjModelError::IncompleteModel);
    }
    let vertices = assemble_obj_vertices(&model.positions, &model.normals, &model.texcoords);
    Ok((vertices, model.indices))
}

} // verus!

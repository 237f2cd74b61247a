use vstd::prelude::*;

verus! {

/// Which texture maps a material has, as the shader reads it: 1 for present,
/// 0 for absent, followed by a padding word of 0.
#[derive(Debug, Clone, Copy, PartialEq, Eq, Structural)]
pub struct MapPresenceInfo {
    has_base_color_map: u32,
    has_normal_map: u32,
    has_metal_roughness_map: u32,
    _padding: u32,
}

impl MapPresenceInfo {
    pub closed spec fn spec_fields(&self) -> (u32, u32, u32, u32) {
        (self.has_base_color_map, self.has_normal_map, self.has_metal_roughness_map, self._padding)
    }

    pub fn new(has_base_color_map: bool, has_normal_map: bool, has_metal_roughness_map: bool) -> (r:
        Self)
        ensures
            r.spec_fields() == (
                if has_base_color_map {
                    1u32
                } else {
                    0u32
                },
                if has_normal_map {
                    1u32
                } else {
                    0u32
                },
                if has_metal_roughness_map {
                    1u32
                } else {
                    0u32
                },
                0u32,
            ),
    {
        MapPresenceInfo {
            has_base_color_map: if has_base_color_map {
                1
            } else {
                0
            },
            has_normal_map: if has_normal_map {
                1
            } else {
                0
            },
            has_metal_roughness_map: if has_metal_roughness_map {
                1
            } else {
                0
            },
            _padding: 0,
        }
    }

    /// The four words in the order the shader reads them.
    pub fn fields(&self) -> (r: (u32, u32, u32, u32))
        ensures
            r == self.spec_fields(),
    {
        (self.has_base_color_map, self.has_normal_map, self.has_metal_roughness_map, self._padding)
    }
}

/// The texture a material slot binds: an image of the file, by index, or the
/// default texture.
#[derive(Debug, Clone, Copy, PartialEq, Eq, Structural)]
pub enum TextureChoice {
    Image(usize),
    Default,
}

/// The texture a slot binds for a map the material may lack.
pub open spec fn texture_for(map: Option<usize>) -> TextureChoice {
    match map {
        Some(i) => TextureChoice::Image(i),
        None => TextureChoice::Default,
    }
}

/// The textures of a PBR material, by the slot they are bound to (3, 4 and 5),
/// and the presence flags the shader reads from slot 2.
#[derive(Debug, Clone, Copy, PartialEq, Eq, Structural)]
pub struct MaterialTextures {
    pub base_color: TextureChoice,
    pub normal: TextureChoice,
    pub metal_roughness: TextureChoice,
    pub presence: MapPresenceInfo,
}

/// The texture slots of a material whose base colour, normal and metal-roughness
/// maps are the given images of the file, if it has them.
pub fn material_textures(
    base_color_map: Option<usize>,
    normal_map: Option<usize>,
    metal_roughness_map: Option<usize>,
) -> (r: MaterialTextures)
    ensures
        r.base_color == texture_for(base_color_map),
        r.normal == texture_for(normal_map),
        r.metal_roughness == texture_for(metal_roughness_map),
        r.presence.spec_fields() == (
            if base_color_map is Some {
                1u32
            } else {
                0u32
            },
            if normal_map is Some {
                1u32
            } else {
                0u32
            },
            if metal_roughness_map is Some {
                1u32
            } else {
                0u32
            },
            0u32,
        ),
{
    let base_color = match base_color_map {
        Some(i) => TextureChoice::Image(i),
        None => TextureChoice::Default,
    };
    let normal = match normal_map {
        Some(i) => TextureChoice::Image(i),
        None => TextureChoice::Default,
    };
    let metal_roughness = match metal_roughness_map {
        Some(i) => TextureChoice::Image(i),
        None => TextureChoice::Default,
    };
    let presence = MapPresenceInfo::new(
        base_color_map.is_some(),
        normal_map.is_some(),
        metal_roughness_map.is_some(),
    );
    MaterialTextures { base_color, normal, metal_roughness, presence }
}

/// A map is flagged present to the shader exactly when its slot binds an image of
/// the file rather than the default texture.
pub proof fn lemma_presence_matches_slots(
    base_color_map: Option<usize>,
    normal_map: Option<usize>,
    metal_roughness_map: Option<usize>,
    r: MaterialTextures,
)
    requires
        r.base_color == texture_for(base_color_map),
        r.normal == texture_for(normal_map),
        r.metal_roughness == texture_for(metal_roughness_map),
        r.presence.spec_fields() == (
            if base_color_map is Some {
                1u32
            } else {
                0u32
            },
            if normal_map is Some {
                1u32
            } else {
                0u32
            },
            if metal_roughness_map is Some {
                1u32
            } else {
                0u32
            },
            0u32,
        ),
    ensures
        (r.presence.spec_fields().0 == 1) == (r.base_color is Image),
        (r.presence.spec_fields().1 == 1) == (r.normal is Image),
        (r.presence.spec_fields().2 == 1) == (r.metal_roughness is Image),
{
}

/// The material a primitive is drawn with: the file's material of that index, or
/// the default material when it names none.
#[derive(Debug, Clone, Copy, PartialEq, Eq, Structural)]
pub enum MaterialChoice {
    Material(usize),
    Default,
}

pub fn primitive_material(material_index: Option<usize>) -> (r: MaterialChoice)
    ensures
        r == match material_index {
            Some(i) => MaterialChoice::Material(i),
            None => MaterialChoice::Default,
        },
{
    match material_index {
        Some(i) => MaterialChoice::Material(i),
        None => MaterialChoice::Default,
    }
}

/// The scene a file is loaded from: its default scene, or else its first scene;
/// none when the file has no scene at all.
pub fn scene_to_load(default_scene: Option<usize>, scene_count: usize) -> (r: Option<usize>)
    ensures
        r == match default_scene {
            Some(s) => Some(s),
            None => if scene_count > 0 {
                Some(0usize)
            } else {
                None
            },
        },
{
    match default_scene {
        Some(s) => Some(s),
        None => if scene_count > 0 {
            Some(0)
        } else {
            None
        },
    }
}

} // verus!

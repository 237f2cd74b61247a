use vstd::prelude::*;

use crate::descriptors::{
    merge_layout_bindings, first_unsupported, merged_layout_bindings, BindingData,
    ImageDimension, LayoutBinding, ShaderDescriptorType, UnsupportedDescriptorTypeError,
    SHADER_STAGE_COMPUTE, SHADER_STAGE_FRAGMENT, SHADER_STAGE_VERTEX,
};
use spirv_reflect::types::{ReflectDescriptorType, ReflectDimension};

verus! {

#[verifier::external_type_specification]
#[verifier::external_body]
pub struct ExIoError(std::io::Error);

// Reflection's two enums are read variant by variant, so Verus is shown them whole.
#[verifier::external_type_specification]
pub struct ExReflectDescriptorType(ReflectDescriptorType);

#[verifier::external_type_specification]
pub struct ExReflectDimension(ReflectDimension);

/// The first word of every SPIR-V module.
pub const SPIRV_MAGIC_NUMBER: u32 = 0x0723_0203;

/// Word `i` of `bytes`, read least significant byte first.
pub open spec fn le_word(bytes: Seq<u8>, i: int) -> u32 {
    (bytes[4 * i] as int + bytes[4 * i + 1] as int * 0x100 + bytes[4 * i + 2] as int * 0x1_0000
        + bytes[4 * i + 3] as int * 0x100_0000) as u32
}

/// Word `i` of `bytes`, read most significant byte first.
pub open spec fn be_word(bytes: Seq<u8>, i: int) -> u32 {
    (bytes[4 * i + 3] as int + bytes[4 * i + 2] as int * 0x100 + bytes[4 * i + 1] as int
        * 0x1_0000 + bytes[4 * i] as int * 0x100_0000) as u32
}

/// Bytes that hold a SPIR-V module: whole words, and a first word that is the
/// magic number in one byte order or the other.
pub open spec fn spirv_framed(bytes: Seq<u8>) -> bool {
    &&& bytes.len() % 4 == 0
    &&& bytes.len() >= 4
    &&& (le_word(bytes, 0) == SPIRV_MAGIC_NUMBER || be_word(bytes, 0) == SPIRV_MAGIC_NUMBER)
}

/// The words of a SPIR-V module, in the byte order in which its first word reads
/// as the magic number.
pub open spec fn spirv_words(bytes: Seq<u8>) -> Seq<u32> {
    Seq::new(
        (bytes.len() / 4) as nat,
        |i: int|
            if le_word(bytes, 0) == SPIRV_MAGIC_NUMBER {
                le_word(bytes, i)
            } else {
                be_word(bytes, i)
            },
    )
}

/// `ash::util::read_spv`, run on a cursor over `bytes`. Its source measures the
/// input, refuses a length that is not a multiple of four, reads the words, swaps
/// their bytes when the first word is the byte-swapped magic number, and refuses a
/// result whose first word is not the magic number; on a cursor neither the seek
/// nor the read can fail. So it succeeds exactly on framed SPIR-V and returns its
/// words in the right byte order.
#[verifier::external_body]
fn read_spv_words(bytes: &[u8]) -> (r: Result<Vec<u32>, std::io::Error>)
    ensures
        r is Ok <==> spirv_framed(bytes@),
        r matches Ok(words) ==> words@ == spirv_words(bytes@),
{
    ash::util::read_spv(&mut std::io::Cursor::new(bytes))
}

/// The engine's name for a reflected descriptor type: the variant of the same name.
pub open spec fn descriptor_type_of(t: ReflectDescriptorType) -> ShaderDescriptorType {
    match t {
        ReflectDescriptorType::Undefined => ShaderDescriptorType::Undefined,
        ReflectDescriptorType::Sampler => ShaderDescriptorType::Sampler,
        ReflectDescriptorType::CombinedImageSampler => ShaderDescriptorType::CombinedImageSampler,
        ReflectDescriptorType::SampledImage => ShaderDescriptorType::SampledImage,
        ReflectDescriptorType::StorageImage => ShaderDescriptorType::StorageImage,
        ReflectDescriptorType::UniformTexelBuffer => ShaderDescriptorType::UniformTexelBuffer,
        ReflectDescriptorType::StorageTexelBuffer => ShaderDescriptorType::StorageTexelBuffer,
        ReflectDescriptorType::UniformBuffer => ShaderDescriptorType::UniformBuffer,
        ReflectDescriptorType::StorageBuffer => ShaderDescriptorType::StorageBuffer,
        ReflectDescriptorType::UniformBufferDynamic => ShaderDescriptorType::UniformBufferDynamic,
        ReflectDescriptorType::StorageBufferDynamic => ShaderDescriptorType::StorageBufferDynamic,
        ReflectDescriptorType::InputAttachment => ShaderDescriptorType::InputAttachment,
        ReflectDescriptorType::AccelerationStructureNV => ShaderDescriptorType::AccelerationStructureNV,
    }
}

/// The engine's name for a reflected image dimensionality: the variant of the same name.
pub open spec fn dimension_of(d: ReflectDimension) -> ImageDimension {
    match d {
        ReflectDimension::Undefined => ImageDimension::Undefined,
        ReflectDimension::Type1d => ImageDimension::Type1d,
        ReflectDimension::Type2d => ImageDimension::Type2d,
        ReflectDimension::Type3d => ImageDimension::Type3d,
        ReflectDimension::Cube => ImageDimension::Cube,
        ReflectDimension::Rect => ImageDimension::Rect,
        ReflectDimension::Buffer => ImageDimension::Buffer,
        ReflectDimension::SubPassData => ImageDimension::SubPassData,
    }
}

/// Gives a reflected descriptor type the variant of the same name.
pub fn shader_descriptor_type(t: ReflectDescriptorType) -> (r: ShaderDescriptorType)
    ensures
        r == descriptor_type_of(t),
{
    match t {
        ReflectDescriptorType::Undefined => ShaderDescriptorType::Undefined,
        ReflectDescriptorType::Sampler => ShaderDescriptorType::Sampler,
        ReflectDescriptorType::CombinedImageSampler => ShaderDescriptorType::CombinedImageSampler,
        ReflectDescriptorType::SampledImage => ShaderDescriptorType::SampledImage,
        ReflectDescriptorType::StorageImage => ShaderDescriptorType::StorageImage,
        ReflectDescriptorType::UniformTexelBuffer => ShaderDescriptorType::UniformTexelBuffer,
        ReflectDescriptorType::StorageTexelBuffer => ShaderDescriptorType::StorageTexelBuffer,
        ReflectDescriptorType::UniformBuffer => ShaderDescriptorType::UniformBuffer,
        ReflectDescriptorType::StorageBuffer => ShaderDescriptorType::StorageBuffer,
        ReflectDescriptorType::UniformBufferDynamic => ShaderDescriptorType::UniformBufferDynamic,
        ReflectDescriptorType::StorageBufferDynamic => ShaderDescriptorType::StorageBufferDynamic,
        ReflectDescriptorType::InputAttachment => ShaderDescriptorType::InputAttachment,
        ReflectDescriptorType::AccelerationStructureNV => ShaderDescriptorType::AccelerationStructureNV,
    }
}

/// Gives a reflected image dimensionality the variant of the same name.
pub fn image_dimension(d: ReflectDimension) -> (r: ImageDimension)
    ensures
        r == dimension_of(d),
{
    match d {
        ReflectDimension::Undefined => ImageDimension::Undefined,
        ReflectDimension::Type1d => ImageDimension::Type1d,
        ReflectDimension::Type2d => ImageDimension::Type2d,
        ReflectDimension::Type3d => ImageDimension::Type3d,
        ReflectDimension::Cube => ImageDimension::Cube,
        ReflectDimension::Rect => ImageDimension::Rect,
        ReflectDimension::Buffer => ImageDimension::Buffer,
        ReflectDimension::SubPassData => ImageDimension::SubPassData,
    }
}

/// What reflection reports of one descriptor binding, as the engine reads it.
#[derive(Clone, Copy, Debug)]
pub struct ReflectedBinding {
    pub set: u32,
    pub binding: u32,
    pub descriptor_type: ReflectDescriptorType,
    pub block_size: u32,
    pub dim: ReflectDimension,
}

/// Why the engine could not make a shader out of SPIR-V.
#[derive(Debug)]
pub enum ShaderBuildError {
    /// The bytes of a stage are not SPIR-V.
    SPIRVDecodingFailed { stage: u32, error: std::io::Error },
    /// Reflection could not read a stage.
    ReflectionLoadingFailed { stage: u32, error_msg: &'static str },
    /// Reflection found no (named) entry point in a stage.
    MissingEntryPoint { stage: u32 },
    /// A stage declares a binding of a type the engine cannot serve.
    DSLCreationFailed(UnsupportedDescriptorTypeError),
}

/// The stage an error is about, if it is about one.
pub open spec fn error_stage(e: ShaderBuildError) -> Option<u32> {
    match e {
        ShaderBuildError::SPIRVDecodingFailed { stage, .. } => Some(stage),
        ShaderBuildError::ReflectionLoadingFailed { stage, .. } => Some(stage),
        ShaderBuildError::MissingEntryPoint { stage } => Some(stage),
        ShaderBuildError::DSLCreationFailed(_) => None,
    }
}

/// Decodes the SPIR-V bytes of one stage into words.
pub fn decode_spirv(bytes: &[u8], stage: u32) -> (r: Result<Vec<u32>, ShaderBuildError>)
    ensures
        r is Ok <==> spirv_framed(bytes@),
        r matches Ok(words) ==> words@ == spirv_words(bytes@),
        r matches Err(e) ==> e is SPIRVDecodingFailed && error_stage(e) == Some(stage),
{
    match read_spv_words(bytes) {
        Ok(words) => Ok(words),
        Err(error) => Err(ShaderBuildError::SPIRVDecodingFailed { stage, error }),
    }
}

/// Decodes the SPIR-V bytes of a vertex and a fragment stage, vertex first: the
/// first stage that is not SPIR-V is the one reported.
pub fn decode_shader_stages(vertex: &[u8], fragment: &[u8]) -> (r: Result<
    (Vec<u32>, Vec<u32>),
    ShaderBuildError,
>)
    ensures
        r is Ok <==> spirv_framed(vertex@) && spirv_framed(fragment@),
        r matches Ok(words) ==> words.0@ == spirv_words(vertex@) && words.1@ == spirv_words(
            fragment@,
        ),
        r matches Err(e) ==> e is SPIRVDecodingFailed && error_stage(e) == Some(
            if !spirv_framed(vertex@) {
                SHADER_STAGE_VERTEX
            } else {
                SHADER_STAGE_FRAGMENT
            },
        ),
{
    let vertex_words = decode_spirv(vertex, SHADER_STAGE_VERTEX)?;
    let fragment_words = decode_spirv(fragment, SHADER_STAGE_FRAGMENT)?;
    Ok((vertex_words, fragment_words))
}

/// What the engine keeps of a reflected binding.
pub open spec fn spec_binding_data(b: ReflectedBinding) -> BindingData {
    BindingData {
        set: b.set,
        slot: b.binding,
        descriptor_type: descriptor_type_of(b.descriptor_type),
        size: b.block_size,
        dim: dimension_of(b.dim),
    }
}

/// What the engine keeps of a reflected binding.
pub fn binding_data(b: &ReflectedBinding) -> (r: BindingData)
    ensures
        r == spec_binding_data(*b),
{
    BindingData {
        set: b.set,
        slot: b.binding,
        descriptor_type: shader_descriptor_type(b.descriptor_type),
        size: b.block_size,
        dim: image_dimension(b.dim),
    }
}

/// What reflection tells of one stage: its descriptor bindings and the sizes of
/// its push constant blocks, both for its first entry point.
pub struct StageReflection {
    pub bindings: Vec<BindingData>,
    pub push_constant_sizes: Vec<u32>,
}

/// Makes the reflection of one stage out of what the reflection library reported
/// for it: the name of its first entry point, and the outcome of asking for that
/// entry point's descriptor bindings and push constant blocks. A stage whose
/// first entry point has no name has none; otherwise the first refusal of the
/// library is reported, bindings first.
pub fn reflect_stage(
    entry_point: &str,
    found: Result<Vec<ReflectedBinding>, &'static str>,
    push_constant_sizes: Result<Vec<u32>, &'static str>,
    stage: u32,
) -> (r: Result<StageReflection, ShaderBuildError>)
    ensures
        entry_point@.len() == 0 ==> (r matches Err(ShaderBuildError::MissingEntryPoint { stage: s })
            && s == stage),
        entry_point@.len() > 0 ==> match found {
            Err(m) => r matches Err(ShaderBuildError::ReflectionLoadingFailed { stage: s, error_msg: e })
                && s == stage && e == m,
            Ok(f) => match push_constant_sizes {
                Err(m) => r matches Err(
                    ShaderBuildError::ReflectionLoadingFailed { stage: s, error_msg: e },
                ) && s == stage && e == m,
                Ok(p) => r matches Ok(s) && s.bindings@ == f@.map_values(
                    |b: ReflectedBinding| spec_binding_data(b),
                ) && s.push_constant_sizes@ == p@,
            },
        },
{
    if entry_point.is_empty() {
        return Err(ShaderBuildError::MissingEntryPoint { stage });
    }
    let found = match found {
        Ok(f) => f,
        Err(error_msg) => {
            return Err(ShaderBuildError::ReflectionLoadingFailed { stage, error_msg });
        },
    };
    let push_constant_sizes = match push_constant_sizes {
        Ok(s) => s,
        Err(error_msg) => {
            return Err(ShaderBuildError::ReflectionLoadingFailed { stage, error_msg });
        },
    };
    let mut bindings: Vec<BindingData> = Vec::new();
    let mut i: usize = 0;
    while i < found.len()
        invariant
            i <= found@.len(),
            bindings@.len() == i,
            forall|j: int| 0 <= j < i ==> #[trigger] bindings@[j] == spec_binding_data(found@[j]),
        decreases found@.len() - i,
    {
        bindings.push(binding_data(&found[i]));
        i = i + 1;
    }
    proof {
        assert(bindings@ =~= found@.map_values(|b: ReflectedBinding| spec_binding_data(b)));
    }
    Ok(StageReflection { bindings, push_constant_sizes })
}

/// The bindings of a vertex and a fragment stage, each paired with its stage.
pub open spec fn graphics_entries(vertex: Seq<BindingData>, fragment: Seq<BindingData>) -> Seq<
    (BindingData, u32),
> {
    vertex.map_values(|b: BindingData| (b, SHADER_STAGE_VERTEX)) + fragment.map_values(
        |b: BindingData| (b, SHADER_STAGE_FRAGMENT),
    )
}

fn push_stage_entries(entries: &mut Vec<(BindingData, u32)>, bindings: &Vec<BindingData>, stage: u32)
    ensures
        final(entries)@ == old(entries)@ + bindings@.map_values(|b: BindingData| (b, stage)),
{
    let mut i: usize = 0;
    while i < bindings.len()
        invariant
            i <= bindings@.len(),
            entries@ == old(entries)@ + bindings@.take(i as int).map_values(
                |b: BindingData| (b, stage),
            ),
        decreases bindings@.len() - i,
    {
        entries.push((bindings[i], stage));
        i = i + 1;
        proof {
            assert(bindings@.take(i as int).map_values(|b: BindingData| (b, stage))
                =~= bindings@.take(i - 1 as int).map_values(|b: BindingData| (b, stage)).push(
                (bindings@[i - 1 as int], stage),
            ));
        }
    }
    proof {
        assert(bindings@.take(i as int) =~= bindings@);
    }
}

/// The layouts of descriptor sets 2 and 3 of a graphics shader, merged from what
/// its vertex and fragment stages declare; set 2 is checked first.
pub fn shader_set_layouts(vertex: &Vec<BindingData>, fragment: &Vec<BindingData>) -> (r: Result<
    (Vec<LayoutBinding>, Vec<LayoutBinding>),
    ShaderBuildError,
>)
    ensures
        ({
            let entries = graphics_entries(vertex@, fragment@);
            match (first_unsupported(entries, 2), first_unsupported(entries, 3)) {
                (Some(t), _) => r matches Err(ShaderBuildError::DSLCreationFailed(e)) && e
                    == UnsupportedDescriptorTypeError(t),
                (None, Some(t)) => r matches Err(ShaderBuildError::DSLCreationFailed(e)) && e
                    == UnsupportedDescriptorTypeError(t),
                (None, None) => r matches Ok(layouts) && layouts.0@ == merged_layout_bindings(
                    entries,
                    2,
                ) && layouts.1@ == merged_layout_bindings(entries, 3),
            }
        }),
{
    let mut entries: Vec<(BindingData, u32)> = Vec::new();
    push_stage_entries(&mut entries, vertex, SHADER_STAGE_VERTEX);
    push_stage_entries(&mut entries, fragment, SHADER_STAGE_FRAGMENT);
    proof {
        assert(entries@ =~= graphics_entries(vertex@, fragment@));
    }
    let level_2 = match merge_layout_bindings(2, &entries) {
        Ok(l) => l,
        Err(e) => {
            return Err(ShaderBuildError::DSLCreationFailed(e));
        },
    };
    let level_3 = match merge_layout_bindings(3, &entries) {
        Ok(l) => l,
        Err(e) => {
            return Err(ShaderBuildError::DSLCreationFailed(e));
        },
    };
    Ok((level_2, level_3))
}

/// Everything reflection gives a graphics shader: each stage's bindings and push
/// constant sizes, and the merged layouts of descriptor sets 2 and 3.
pub struct ShaderReflection {
    pub vertex: StageReflection,
    pub fragment: StageReflection,
    pub level_2_bindings: Vec<LayoutBinding>,
    pub level_3_bindings: Vec<LayoutBinding>,
}

/// The reflection of a graphics shader from the reflections of its two stages:
/// they are kept as they are, with the layouts of descriptor sets 2 and 3 merged
/// from their bindings.
pub fn reflect_shader(vertex: StageReflection, fragment: StageReflection) -> (r: Result<
    ShaderReflection,
    ShaderBuildError,
>)
    ensures
        ({
            let entries = graphics_entries(vertex.bindings@, fragment.bindings@);
            match (first_unsupported(entries, 2), first_unsupported(entries, 3)) {
                (Some(t), _) => r matches Err(ShaderBuildError::DSLCreationFailed(e)) && e
                    == UnsupportedDescriptorTypeError(t),
                (None, Some(t)) => r matches Err(ShaderBuildError::DSLCreationFailed(e)) && e
                    == UnsupportedDescriptorTypeError(t),
                (None, None) => r matches Ok(s) && s.vertex.bindings@ == vertex.bindings@
                    && s.vertex.push_constant_sizes@ == vertex.push_constant_sizes@
                    && s.fragment.bindings@ == fragment.bindings@
                    && s.fragment.push_constant_sizes@ == fragment.push_constant_sizes@
                    && s.level_2_bindings@ == merged_layout_bindings(entries, 2)
                    && s.level_3_bindings@ == merged_layout_bindings(entries, 3),
            }
        }),
{
    let (level_2_bindings, level_3_bindings) = shader_set_layouts(
        &vertex.bindings,
        &fragment.bindings,
    )?;
    Ok(ShaderReflection { vertex, fragment, level_2_bindings, level_3_bindings })
}

/// The layout of descriptor set 0 of a compute shader.
pub fn compute_set_layout(bindings: &Vec<BindingData>) -> (r: Result<
    Vec<LayoutBinding>,
    ShaderBuildError,
>)
    ensures
        ({
            let entries = bindings@.map_values(|b: BindingData| (b, SHADER_STAGE_COMPUTE));
            match first_unsupported(entries, 0) {
                Some(t) => r matches Err(ShaderBuildError::DSLCreationFailed(e)) && e
                    == UnsupportedDescriptorTypeError(t),
                None => r matches Ok(layout) && layout@ == merged_layout_bindings(entries, 0),
            }
        }),
{
    let mut entries: Vec<(BindingData, u32)> = Vec::new();
    push_stage_entries(&mut entries, bindings, SHADER_STAGE_COMPUTE);
    proof {
        assert(entries@ =~= bindings@.map_values(|b: BindingData| (b, SHADER_STAGE_COMPUTE)));
    }
    match merge_layout_bindings(0, &entries) {
        Ok(l) => Ok(l),
        Err(e) => Err(ShaderBuildError::DSLCreationFailed(e)),
    }
}

/// The reflection of a compute shader from the reflection of its one stage: the
/// stage is kept as it is, with the layout of its descriptor set 0.
pub fn reflect_compute_shader(stage: StageReflection) -> (r: Result<
    (StageReflection, Vec<LayoutBinding>),
    ShaderBuildError,
>)
    ensures
        ({
            let entries = stage.bindings@.map_values(|b: BindingData| (b, SHADER_STAGE_COMPUTE));
            match first_unsupported(entries, 0) {
                Some(t) => r matches Err(ShaderBuildError::DSLCreationFailed(e)) && e
                    == UnsupportedDescriptorTypeError(t),
                None => r matches Ok(s) && s.0.bindings@ == stage.bindings@
                    && s.0.push_constant_sizes@ == stage.push_constant_sizes@
                    && s.1@ == merged_layout_bindings(entries, 0),
            }
        }),
{
    let layout = compute_set_layout(&stage.bindings)?;
    Ok((stage, layout))
}

} // verus!

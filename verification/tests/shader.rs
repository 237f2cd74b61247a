use morrigu::descriptors::{
    BindingData, DescriptorType, ImageDimension, LayoutBinding, ShaderDescriptorType,
    UnsupportedDescriptorTypeError, SHADER_STAGE_COMPUTE, SHADER_STAGE_FRAGMENT,
    SHADER_STAGE_VERTEX,
};
use morrigu::shader::{
    compute_set_layout, decode_shader_stages, decode_spirv, reflect_compute_shader,
    reflect_shader, reflect_stage, shader_set_layouts, ReflectedBinding, ShaderBuildError,
    StageReflection, SPIRV_MAGIC_NUMBER,
};
use spirv_reflect::types::{ReflectDescriptorType, ReflectDimension};
use spirv_reflect::ShaderModule;

fn le_bytes(words: &[u32]) -> Vec<u8> {
    words.iter().flat_map(|w| w.to_le_bytes()).collect()
}

fn be_bytes(words: &[u32]) -> Vec<u8> {
    words.iter().flat_map(|w| w.to_be_bytes()).collect()
}

/// A compute shader whose entry point `main` does nothing.
fn empty_compute_module() -> Vec<u32> {
    vec![
        SPIRV_MAGIC_NUMBER, 0x0001_0000, 0, 5, 0,
        0x0002_0011, 1,                              // OpCapability Shader
        0x0003_000E, 0, 1,                           // OpMemoryModel Logical GLSL450
        0x0005_000F, 5, 1, 0x6E69_616D, 0,           // OpEntryPoint GLCompute %1 "main"
        0x0006_0010, 1, 17, 1, 1, 1,                 // OpExecutionMode %1 LocalSize 1 1 1
        0x0002_0013, 2,                              // %2 = OpTypeVoid
        0x0003_0021, 3, 2,                           // %3 = OpTypeFunction %2
        0x0005_0036, 2, 1, 0, 3,                     // %1 = OpFunction %2 None %3
        0x0002_00F8, 4,                              // %4 = OpLabel
        0x0001_00FD,                                 // OpReturn
        0x0001_0038,                                 // OpFunctionEnd
    ]
}

#[test]
fn little_endian_spirv_is_decoded() {
    let words = [SPIRV_MAGIC_NUMBER, 0x0001_0000, 7];
    assert_eq!(decode_spirv(&le_bytes(&words), SHADER_STAGE_VERTEX).unwrap(), words.to_vec());
}

#[test]
fn big_endian_spirv_is_byte_swapped() {
    let words = [SPIRV_MAGIC_NUMBER, 0x0001_0000, 0x0102_0304];
    assert_eq!(decode_spirv(&be_bytes(&words), SHADER_STAGE_VERTEX).unwrap(), words.to_vec());
}

#[test]
fn spirv_of_partial_words_is_refused() {
    let mut bytes = le_bytes(&[SPIRV_MAGIC_NUMBER, 1]);
    bytes.pop();
    let err = decode_spirv(&bytes, SHADER_STAGE_FRAGMENT).unwrap_err();
    assert!(matches!(
        err,
        ShaderBuildError::SPIRVDecodingFailed { stage: SHADER_STAGE_FRAGMENT, .. }
    ));
}

#[test]
fn spirv_without_magic_number_is_refused() {
    assert!(decode_spirv(&le_bytes(&[1, 2, 3]), SHADER_STAGE_VERTEX).is_err());
    assert!(decode_spirv(&[], SHADER_STAGE_VERTEX).is_err());
}

#[test]
fn the_first_undecodable_stage_is_reported() {
    let good = le_bytes(&[SPIRV_MAGIC_NUMBER, 5]);
    let bad = vec![1u8, 2, 3];
    assert!(matches!(
        decode_shader_stages(&bad, &bad).unwrap_err(),
        ShaderBuildError::SPIRVDecodingFailed { stage: SHADER_STAGE_VERTEX, .. }
    ));
    assert!(matches!(
        decode_shader_stages(&good, &bad).unwrap_err(),
        ShaderBuildError::SPIRVDecodingFailed { stage: SHADER_STAGE_FRAGMENT, .. }
    ));
    let (v, f) = decode_shader_stages(&good, &good).unwrap();
    assert_eq!(v, vec![SPIRV_MAGIC_NUMBER, 5]);
    assert_eq!(f, v);
}

#[test]
fn a_refused_binding_query_is_reported_for_its_stage() {
    let err = reflect_stage("main", Err("bad bindings"), Ok(vec![]), SHADER_STAGE_VERTEX)
        .err()
        .unwrap();
    assert!(matches!(
        err,
        ShaderBuildError::ReflectionLoadingFailed {
            stage: SHADER_STAGE_VERTEX,
            error_msg: "bad bindings"
        }
    ));
    let err = reflect_stage("main", Ok(vec![]), Err("bad blocks"), SHADER_STAGE_FRAGMENT)
        .err()
        .unwrap();
    assert!(matches!(
        err,
        ShaderBuildError::ReflectionLoadingFailed {
            stage: SHADER_STAGE_FRAGMENT,
            error_msg: "bad blocks"
        }
    ));
}

#[test]
fn a_stage_without_entry_point_name_is_refused() {
    let err = reflect_stage("", Ok(vec![]), Ok(vec![]), SHADER_STAGE_COMPUTE).err().unwrap();
    assert!(matches!(err, ShaderBuildError::MissingEntryPoint { stage: SHADER_STAGE_COMPUTE }));
}

#[test]
fn reflected_bindings_keep_their_fields() {
    let found = vec![
        ReflectedBinding {
            set: 2,
            binding: 1,
            descriptor_type: ReflectDescriptorType::CombinedImageSampler,
            block_size: 0,
            dim: ReflectDimension::Type2d,
        },
        ReflectedBinding {
            set: 3,
            binding: 0,
            descriptor_type: ReflectDescriptorType::UniformBuffer,
            block_size: 64,
            dim: ReflectDimension::Undefined,
        },
    ];
    let stage = reflect_stage("main", Ok(found), Ok(vec![16]), SHADER_STAGE_FRAGMENT)
        .ok()
        .unwrap();
    assert_eq!(
        stage.bindings,
        vec![
            BindingData {
                set: 2,
                slot: 1,
                descriptor_type: ShaderDescriptorType::CombinedImageSampler,
                size: 0,
                dim: ImageDimension::Type2d,
            },
            BindingData {
                set: 3,
                slot: 0,
                descriptor_type: ShaderDescriptorType::UniformBuffer,
                size: 64,
                dim: ImageDimension::Undefined,
            },
        ]
    );
    assert_eq!(stage.push_constant_sizes, vec![16]);
    let vertex = StageReflection { bindings: vec![], push_constant_sizes: vec![] };
    let shader = reflect_shader(vertex, stage).ok().unwrap();
    assert_eq!(shader.level_2_bindings.len(), 1);
    assert_eq!(shader.level_3_bindings.len(), 1);
    assert_eq!(shader.fragment.push_constant_sizes, vec![16]);
}

#[test]
fn a_compute_shader_without_resources_is_reflected() {
    let words = empty_compute_module();
    let module = ShaderModule::load_u32_data(&words).ok().unwrap();
    let name = module.get_entry_point_name();
    assert_eq!(name, "main");
    let found = module.enumerate_descriptor_bindings(Some(&name)).map(|b| {
        assert!(b.is_empty());
        Vec::new()
    });
    let sizes = module
        .enumerate_push_constant_blocks(Some(&name))
        .map(|b| b.iter().map(|b| b.size).collect());
    let stage = reflect_stage(&name, found, sizes, SHADER_STAGE_COMPUTE).ok().unwrap();
    let (stage, layout) = reflect_compute_shader(stage).ok().unwrap();
    assert!(stage.bindings.is_empty());
    assert!(stage.push_constant_sizes.is_empty());
    assert!(layout.is_empty());
}

fn binding(set: u32, slot: u32, descriptor_type: ShaderDescriptorType) -> BindingData {
    BindingData { set, slot, descriptor_type, size: 64, dim: ImageDimension::Undefined }
}

#[test]
fn graphics_layouts_merge_stages() {
    let vertex = vec![
        binding(2, 0, ShaderDescriptorType::UniformBuffer),
        binding(3, 0, ShaderDescriptorType::UniformBuffer),
    ];
    let fragment = vec![
        binding(2, 0, ShaderDescriptorType::UniformBuffer),
        binding(2, 1, ShaderDescriptorType::CombinedImageSampler),
    ];
    let (level_2, level_3) = shader_set_layouts(&vertex, &fragment).ok().unwrap();
    assert_eq!(
        level_2,
        vec![
            LayoutBinding {
                binding: 0,
                descriptor_type: DescriptorType::UniformBuffer,
                descriptor_count: 1,
                stage_flags: SHADER_STAGE_VERTEX | SHADER_STAGE_FRAGMENT,
            },
            LayoutBinding {
                binding: 1,
                descriptor_type: DescriptorType::CombinedImageSampler,
                descriptor_count: 1,
                stage_flags: SHADER_STAGE_FRAGMENT,
            },
        ]
    );
    assert_eq!(
        level_3,
        vec![LayoutBinding {
            binding: 0,
            descriptor_type: DescriptorType::UniformBuffer,
            descriptor_count: 1,
            stage_flags: SHADER_STAGE_VERTEX,
        }]
    );
}

#[test]
fn unsupported_bindings_fail_the_layouts() {
    let vertex = vec![binding(3, 4, ShaderDescriptorType::StorageBuffer)];
    let err = shader_set_layouts(&vertex, &vec![]).err().unwrap();
    assert!(matches!(
        err,
        ShaderBuildError::DSLCreationFailed(UnsupportedDescriptorTypeError(
            ShaderDescriptorType::StorageBuffer
        ))
    ));
    let compute = vec![binding(0, 0, ShaderDescriptorType::Sampler)];
    assert!(matches!(
        compute_set_layout(&compute).err().unwrap(),
        ShaderBuildError::DSLCreationFailed(UnsupportedDescriptorTypeError(
            ShaderDescriptorType::Sampler
        ))
    ));
}

use morrigu::descriptors::{
    binding_type_cast, flatten_stage_bindings, merge_layout_bindings, BindingData, DescriptorType,
    ImageDimension, LayoutBinding, ShaderDescriptorType, UnsupportedDescriptorTypeError,
    SHADER_STAGE_COMPUTE, SHADER_STAGE_FRAGMENT, SHADER_STAGE_VERTEX,
};

fn binding(set: u32, slot: u32, descriptor_type: ShaderDescriptorType) -> BindingData {
    BindingData { set, slot, descriptor_type, size: 64, dim: ImageDimension::Undefined }
}

#[test]
fn supported_types_cast_to_vulkan_types() {
    assert_eq!(binding_type_cast(ShaderDescriptorType::UniformBuffer), Ok(DescriptorType::UniformBuffer));
    assert_eq!(binding_type_cast(ShaderDescriptorType::StorageImage), Ok(DescriptorType::StorageImage));
    assert_eq!(
        binding_type_cast(ShaderDescriptorType::CombinedImageSampler),
        Ok(DescriptorType::CombinedImageSampler)
    );
}

#[test]
fn unsupported_types_are_rejected() {
    for t in [
        ShaderDescriptorType::Undefined,
        ShaderDescriptorType::Sampler,
        ShaderDescriptorType::SampledImage,
        ShaderDescriptorType::StorageBuffer,
        ShaderDescriptorType::InputAttachment,
        ShaderDescriptorType::AccelerationStructureNV,
    ] {
        assert_eq!(binding_type_cast(t), Err(UnsupportedDescriptorTypeError(t)));
    }
}

#[test]
fn flatten_pairs_each_binding_with_its_stage() {
    let vertex = vec![binding(2, 0, ShaderDescriptorType::UniformBuffer)];
    let fragment = vec![
        binding(2, 1, ShaderDescriptorType::CombinedImageSampler),
        binding(3, 0, ShaderDescriptorType::UniformBuffer),
    ];
    let flat = flatten_stage_bindings(&vec![(vertex.clone(), SHADER_STAGE_VERTEX), (fragment.clone(), SHADER_STAGE_FRAGMENT)]);
    assert_eq!(
        flat,
        vec![
            (vertex[0], SHADER_STAGE_VERTEX),
            (fragment[0], SHADER_STAGE_FRAGMENT),
            (fragment[1], SHADER_STAGE_FRAGMENT),
        ]
    );
}

#[test]
fn shared_slot_is_visible_to_both_stages() {
    let entries = flatten_stage_bindings(&vec![
        (
            vec![
                binding(2, 0, ShaderDescriptorType::UniformBuffer),
                binding(2, 1, ShaderDescriptorType::CombinedImageSampler),
            ],
            SHADER_STAGE_VERTEX,
        ),
        (
            vec![
                binding(2, 0, ShaderDescriptorType::UniformBuffer),
                binding(2, 2, ShaderDescriptorType::StorageImage),
                binding(3, 0, ShaderDescriptorType::UniformBuffer),
            ],
            SHADER_STAGE_FRAGMENT,
        ),
    ]);
    let merged = merge_layout_bindings(2, &entries).unwrap();
    assert_eq!(
        merged,
        vec![
            LayoutBinding {
                binding: 0,
                descriptor_type: DescriptorType::UniformBuffer,
                descriptor_count: 1,
                stage_flags: SHADER_STAGE_VERTEX | SHADER_STAGE_FRAGMENT,
            },
            LayoutBinding {
                binding: 2,
                descriptor_type: DescriptorType::StorageImage,
                descriptor_count: 1,
                stage_flags: SHADER_STAGE_FRAGMENT,
            },
            LayoutBinding {
                binding: 1,
                descriptor_type: DescriptorType::CombinedImageSampler,
                descriptor_count: 1,
                stage_flags: SHADER_STAGE_VERTEX,
            },
        ]
    );
}

#[test]
fn other_sets_are_ignored() {
    let entries = flatten_stage_bindings(&vec![(
        vec![binding(3, 0, ShaderDescriptorType::UniformBuffer), binding(1, 4, ShaderDescriptorType::Sampler)],
        SHADER_STAGE_COMPUTE,
    )]);
    assert_eq!(merge_layout_bindings(0, &entries), Ok(vec![]));
    assert_eq!(
        merge_layout_bindings(3, &entries),
        Ok(vec![LayoutBinding {
            binding: 0,
            descriptor_type: DescriptorType::UniformBuffer,
            descriptor_count: 1,
            stage_flags: SHADER_STAGE_COMPUTE,
        }])
    );
}

#[test]
fn first_unsupported_binding_of_the_set_is_reported() {
    let entries = flatten_stage_bindings(&vec![(
        vec![
            binding(2, 0, ShaderDescriptorType::UniformBuffer),
            binding(2, 1, ShaderDescriptorType::StorageBuffer),
            binding(2, 2, ShaderDescriptorType::Sampler),
        ],
        SHADER_STAGE_VERTEX,
    )]);
    assert_eq!(
        merge_layout_bindings(2, &entries),
        Err(UnsupportedDescriptorTypeError(ShaderDescriptorType::StorageBuffer))
    );
    assert!(merge_layout_bindings(3, &entries).is_ok());
}

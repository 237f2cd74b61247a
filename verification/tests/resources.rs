use morrigu::allocated_types::BufferDataUploadError;
use morrigu::descriptors::{BindingData, ImageDimension, ShaderDescriptorType, UnsupportedDescriptorTypeError};
use morrigu::resources::{
    replace_binding, uniform_at, DescriptorPlanError, DescriptorResources, DescriptorWrite,
    ResourceBindingError, UniformUpdateError,
};
use std::collections::HashMap;

type Resources = DescriptorResources<&'static str, &'static str, &'static str, &'static str>;

fn b(set: u32, slot: u32, t: ShaderDescriptorType, dim: ImageDimension) -> BindingData {
    BindingData { set, slot, descriptor_type: t, size: 0, dim }
}

#[test]
fn empty_resources_hold_nothing() {
    let r: Resources = DescriptorResources::empty();
    assert!(r.uniform_buffers.is_empty());
    assert!(r.storage_images.is_empty());
    assert!(r.sampled_images.is_empty());
    assert!(r.cubemap_images.is_empty());
    assert_eq!(r.pool_counts(), [1, 1, 1]);
}

#[test]
fn pool_counts_follow_resource_counts() {
    let mut r: Resources = DescriptorResources::empty();
    r.uniform_buffers.insert(0, "model");
    r.uniform_buffers.insert(4, "options");
    r.uniform_buffers.insert(5, "light");
    r.sampled_images.insert(1, "albedo");
    assert_eq!(r.pool_counts(), [3, 1, 1]);
}

#[test]
fn binding_a_known_slot_returns_previous() {
    let mut map = HashMap::new();
    map.insert(1u32, "old");
    assert_eq!(replace_binding(&mut map, 1, "new", 3), Ok("old"));
    assert_eq!(map.get(&1), Some(&"new"));
}

#[test]
fn binding_an_unknown_slot_is_an_error_and_still_stored() {
    let mut map: HashMap<u32, &str> = HashMap::new();
    map.insert(1, "kept");
    assert_eq!(
        replace_binding(&mut map, 7, "new", 3),
        Err(ResourceBindingError::InvalidBindingSlot { slot: 7, set: 3 })
    );
    assert_eq!(map.get(&7), Some(&"new"));
    assert_eq!(map.get(&1), Some(&"kept"));
}

#[test]
fn uniform_lookup() {
    let mut map = HashMap::new();
    map.insert(0u32, 42u64);
    assert_eq!(uniform_at(&map, 0, 3), Ok(&42));
    assert_eq!(uniform_at(&map, 2, 3), Err(UniformUpdateError::InvalidBindingSlot { slot: 2, set: 3 }));
    let wrapped = UniformUpdateError::UniformUploadFailed(BufferDataUploadError::UseAfterFree);
    assert_ne!(wrapped, UniformUpdateError::InvalidBindingSlot { slot: 0, set: 3 });
}

#[test]
fn plan_writes_each_selected_binding_in_order() {
    let mut r: Resources = DescriptorResources::empty();
    r.uniform_buffers.insert(0, "model");
    r.sampled_images.insert(1, "albedo");
    r.cubemap_images.insert(2, "sky");
    r.storage_images.insert(4, "target");
    let bindings = vec![
        b(2, 5, ShaderDescriptorType::UniformBuffer, ImageDimension::Undefined),
        b(3, 0, ShaderDescriptorType::UniformBuffer, ImageDimension::Undefined),
        b(3, 1, ShaderDescriptorType::CombinedImageSampler, ImageDimension::Type2d),
        b(3, 2, ShaderDescriptorType::CombinedImageSampler, ImageDimension::Cube),
        b(3, 4, ShaderDescriptorType::StorageImage, ImageDimension::Type2d),
    ];
    let plan = r.plan_descriptor_writes(&bindings, Some(&[3])).unwrap();
    assert_eq!(
        plan.writes,
        vec![
            DescriptorWrite::UniformBuffer { slot: 0 },
            DescriptorWrite::SampledTexture { slot: 1 },
            DescriptorWrite::CubemapTexture { slot: 2 },
            DescriptorWrite::StorageImage { slot: 4 },
        ]
    );
    assert_eq!(plan.error, None);
}

#[test]
fn plan_stops_at_missing_resource() {
    let mut r: Resources = DescriptorResources::empty();
    r.uniform_buffers.insert(0, "model");
    let bindings = vec![
        b(3, 0, ShaderDescriptorType::UniformBuffer, ImageDimension::Undefined),
        b(3, 1, ShaderDescriptorType::CombinedImageSampler, ImageDimension::Type2d),
        b(3, 2, ShaderDescriptorType::UniformBuffer, ImageDimension::Undefined),
    ];
    let plan = r.plan_descriptor_writes(&bindings, None).unwrap();
    assert_eq!(plan.writes, vec![DescriptorWrite::UniformBuffer { slot: 0 }]);
    assert_eq!(plan.error, Some(DescriptorPlanError::ResourceNotProvided { set: 3, slot: 1 }));
}

#[test]
fn plan_stops_at_unsupported_type() {
    let r: Resources = DescriptorResources::empty();
    let bindings = vec![b(0, 0, ShaderDescriptorType::StorageBuffer, ImageDimension::Undefined)];
    let plan = r.plan_descriptor_writes(&bindings, None).unwrap();
    assert!(plan.writes.is_empty());
    assert_eq!(
        plan.error,
        Some(DescriptorPlanError::UnsupportedDescriptorType(UnsupportedDescriptorTypeError(
            ShaderDescriptorType::StorageBuffer
        )))
    );
}

#[test]
fn plan_refuses_sampler_of_unimplemented_dimension() {
    let mut r: Resources = DescriptorResources::empty();
    r.sampled_images.insert(0, "volume");
    let bindings = vec![b(0, 0, ShaderDescriptorType::CombinedImageSampler, ImageDimension::Type3d)];
    assert!(r.plan_descriptor_writes(&bindings, None).is_none());
    // outside the selected sets the binding is never looked at
    assert!(r.plan_descriptor_writes(&bindings, Some(&[2])).is_some());
}

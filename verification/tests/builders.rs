use morrigu::allocated_types::{
    AllocatedBufferBuilder, AllocatedImageBuilder, Extent3D, MemoryLocation,
    BUFFER_USAGE_TRANSFER_SRC, BUFFER_USAGE_UNIFORM_BUFFER, FORMAT_D16_UNORM,
    IMAGE_ASPECT_COLOR, IMAGE_ASPECT_DEPTH, IMAGE_CREATE_CUBE_COMPATIBLE, IMAGE_LAYOUT_GENERAL,
    IMAGE_LAYOUT_SHADER_READ_ONLY_OPTIMAL, IMAGE_USAGE_DEPTH_STENCIL_ATTACHMENT,
    IMAGE_USAGE_SAMPLED, IMAGE_USAGE_STORAGE, IMAGE_USAGE_TRANSFER_DST, IMAGE_VIEW_TYPE_2D,
    IMAGE_VIEW_TYPE_CUBE,
};
use morrigu::resources::{
    plan_layout_transitions, BoundImageKind, LayoutTransition,
};
use morrigu::texture::{cubemap_data, flip_horizontal, TextureBuilder, TextureFormat};

const EXTENT: Extent3D = Extent3D { width: 4, height: 2, depth: 1 };

#[test]
fn buffer_defaults() {
    let b = AllocatedBufferBuilder::default(256);
    assert_eq!(b, AllocatedBufferBuilder::uniform_buffer_default(256));
    assert_eq!(b.usage, BUFFER_USAGE_UNIFORM_BUFFER);
    assert_eq!(b.memory_location, MemoryLocation::CpuToGpu);
    let s = AllocatedBufferBuilder::staging_buffer_default(8)
        .with_memory_location(MemoryLocation::GpuOnly)
        .with_usage(BUFFER_USAGE_TRANSFER_SRC | 0x80);
    assert_eq!(s.size, 8);
    assert_eq!(s.usage, 0x81);
    assert_eq!(s.memory_location, MemoryLocation::GpuOnly);
}

#[test]
fn a_new_image_is_general_and_empty() {
    let b = AllocatedImageBuilder::new(EXTENT);
    assert_eq!(b.layout, IMAGE_LAYOUT_GENERAL);
    assert_eq!((b.usage, b.array_layers, b.format), (0, 0, 0));
    assert!(b.data.is_none());
}

#[test]
fn texture_default_is_a_sampled_2d_texture() {
    let b = AllocatedImageBuilder::new(EXTENT).with_usage(0x1).texture_default(43);
    assert_eq!(b.layout, IMAGE_LAYOUT_SHADER_READ_ONLY_OPTIMAL);
    assert_eq!(b.create_usage, 0x1 | IMAGE_USAGE_SAMPLED);
    assert_eq!((b.array_layers, b.view_layer_count, b.mip_levels), (1, 1, 1));
    assert_eq!(b.view_type, IMAGE_VIEW_TYPE_2D);
    assert_eq!(b.aspect_mask, IMAGE_ASPECT_COLOR);
    assert_eq!(b.format, 43);
    assert_eq!(b.final_usage(), 0x1 | IMAGE_USAGE_SAMPLED);
    let b = b.with_data(vec![1, 2, 3]);
    assert_eq!(b.final_usage(), 0x1 | IMAGE_USAGE_SAMPLED | IMAGE_USAGE_TRANSFER_DST);
}

#[test]
fn cubemap_default_has_six_layers() {
    let b = AllocatedImageBuilder::new(EXTENT).cubemap_default(37);
    assert_eq!((b.array_layers, b.view_layer_count), (6, 6));
    assert_eq!(b.flags, IMAGE_CREATE_CUBE_COMPATIBLE);
    assert_eq!(b.view_type, IMAGE_VIEW_TYPE_CUBE);
}

#[test]
fn storage_and_depth_defaults() {
    let s = AllocatedImageBuilder::new(EXTENT).storage_image_default(37);
    assert_eq!(s.create_usage, IMAGE_USAGE_STORAGE);
    assert_eq!(s.layout, IMAGE_LAYOUT_GENERAL);
    let d = AllocatedImageBuilder::new(EXTENT).with_usage(0x4).depth_image_default();
    assert_eq!(d.format, FORMAT_D16_UNORM);
    assert_eq!(d.create_usage, IMAGE_USAGE_DEPTH_STENCIL_ATTACHMENT);
    assert_eq!(d.aspect_mask, IMAGE_ASPECT_DEPTH);
    assert_eq!(d.final_usage(), IMAGE_USAGE_DEPTH_STENCIL_ATTACHMENT | 0x4);
}

#[test]
fn texture_builder_formats() {
    assert_eq!(TextureBuilder::new().format, TextureFormat::RGBA8_SRGB);
    assert_eq!(TextureBuilder::default().with_format(TextureFormat::RGBA8_UNORM).format, TextureFormat::RGBA8_UNORM);
}

#[test]
fn images_are_mirrored_left_to_right() {
    // 3 x 2 texels, texel (x, y) holds bytes [10 * y + x, 1, 2, 3]
    let mut pixels = vec![];
    for y in 0..2u8 {
        for x in 0..3u8 {
            pixels.extend_from_slice(&[10 * y + x, 1, 2, 3]);
        }
    }
    let flipped = flip_horizontal(&pixels, 3, 2);
    let firsts: Vec<u8> = flipped.chunks(4).map(|t| t[0]).collect();
    assert_eq!(firsts, vec![2, 1, 0, 12, 11, 10]);
    assert_eq!(&flipped[0..4], &[2, 1, 2, 3]);
    assert_eq!(flip_horizontal(&flipped, 3, 2), pixels);
}

#[test]
fn cubemap_faces_are_concatenated() {
    let faces = vec![vec![1, 2], vec![3], vec![], vec![4, 5], vec![6], vec![7]];
    assert_eq!(cubemap_data(&faces), vec![1, 2, 3, 4, 5, 6, 7]);
}

#[test]
fn bound_images_change_layout_around_rendering() {
    let images = vec![
        (BoundImageKind::Storage, IMAGE_LAYOUT_SHADER_READ_ONLY_OPTIMAL),
        (BoundImageKind::Storage, IMAGE_LAYOUT_GENERAL),
        (BoundImageKind::Sampled, IMAGE_LAYOUT_GENERAL),
    ];
    let before = plan_layout_transitions(&images, false);
    assert_eq!(
        before,
        vec![
            LayoutTransition { image: 0, from: IMAGE_LAYOUT_SHADER_READ_ONLY_OPTIMAL, to: IMAGE_LAYOUT_GENERAL },
            LayoutTransition { image: 2, from: IMAGE_LAYOUT_GENERAL, to: IMAGE_LAYOUT_SHADER_READ_ONLY_OPTIMAL },
        ]
    );
    let after = plan_layout_transitions(&images, true);
    let undone: Vec<LayoutTransition> = before
        .iter()
        .map(|t| LayoutTransition { image: t.image, from: t.to, to: t.from })
        .collect();
    assert_eq!(after, undone);
}

use morrigu::descriptors::{SHADER_STAGE_COMPUTE, SHADER_STAGE_FRAGMENT, SHADER_STAGE_VERTEX};
use morrigu::pipeline::{
    compute_push_constant_range, graphics_push_constant_range, ComputeShaderBuilder, MaterialBuilder,
    PushConstantRange,
};

#[test]
fn material_builder_defaults_and_setters() {
    let m = MaterialBuilder::new();
    assert!(m.z_test && m.z_write);
    let m = MaterialBuilder::default().z_test(false);
    assert!(!m.z_test && m.z_write);
    let m = m.z_write(false).z_test(true);
    assert!(m.z_test && !m.z_write);
}

#[test]
fn compute_shader_entry_point_is_main() {
    assert_eq!(ComputeShaderBuilder::new().entry_point, "main");
    assert_eq!(ComputeShaderBuilder::default().entry_point, "main");
}

#[test]
fn no_push_constants_no_range() {
    assert_eq!(graphics_push_constant_range(&[], &[]), None);
    assert_eq!(compute_push_constant_range(&[]), None);
}

#[test]
fn vertex_only_push_constants() {
    assert_eq!(
        graphics_push_constant_range(&[80], &[]),
        Some(PushConstantRange { stage_flags: SHADER_STAGE_VERTEX, offset: 0, size: 80 })
    );
}

#[test]
fn fragment_block_sizes_a_shared_range() {
    assert_eq!(
        graphics_push_constant_range(&[80, 4], &[16]),
        Some(PushConstantRange {
            stage_flags: SHADER_STAGE_VERTEX | SHADER_STAGE_FRAGMENT,
            offset: 0,
            size: 16
        })
    );
    assert_eq!(
        graphics_push_constant_range(&[], &[16]),
        Some(PushConstantRange { stage_flags: SHADER_STAGE_FRAGMENT, offset: 0, size: 16 })
    );
}

#[test]
fn compute_range_uses_first_block() {
    assert_eq!(
        compute_push_constant_range(&[12, 40]),
        Some(PushConstantRange { stage_flags: SHADER_STAGE_COMPUTE, offset: 0, size: 12 })
    );
}

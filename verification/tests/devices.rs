use morrigu::config::{engine_version, instance_api_version, required_api_version};
use morrigu::devices::{
    debug_message_level, device_type_to_str, select_physical_device, vendor_id_to_str,
    DeviceCandidate, LogLevel, PhysicalDeviceKind, QueueFamilySupport,
};

fn q(graphics: bool, compute: bool, presents_to_surface: bool) -> QueueFamilySupport {
    QueueFamilySupport { graphics, compute, presents_to_surface }
}

fn device(kind: PhysicalDeviceKind, api_version: u32, queue_families: Vec<QueueFamilySupport>) -> DeviceCandidate {
    DeviceCandidate { api_version, kind, queue_families }
}

const V1_1: u32 = (1 << 22) | (1 << 12);
const V1_3: u32 = (1 << 22) | (3 << 12);

#[test]
fn discrete_gpu_is_preferred() {
    let devices = vec![
        device(PhysicalDeviceKind::IntegratedGpu, V1_3, vec![q(true, true, true)]),
        device(PhysicalDeviceKind::DiscreteGpu, V1_3, vec![q(false, true, false), q(true, true, true)]),
    ];
    assert_eq!(select_physical_device(&devices, V1_1), Some((1, 1)));
}

#[test]
fn unusable_discrete_gpu_is_passed_over() {
    let devices = vec![
        device(PhysicalDeviceKind::DiscreteGpu, V1_3, vec![q(true, true, false)]),
        device(PhysicalDeviceKind::Cpu, V1_3, vec![q(true, false, true), q(true, true, true)]),
    ];
    assert_eq!(select_physical_device(&devices, V1_1), Some((1, 1)));
}

#[test]
fn too_old_devices_are_not_used() {
    let devices = vec![device(PhysicalDeviceKind::DiscreteGpu, 1 << 22, vec![q(true, true, true)])];
    assert_eq!(select_physical_device(&devices, V1_1), None);
    assert_eq!(select_physical_device(&vec![], V1_1), None);
}

#[test]
fn first_usable_of_equal_rank_wins() {
    let devices = vec![
        device(PhysicalDeviceKind::VirtualGpu, V1_3, vec![q(true, true, true)]),
        device(PhysicalDeviceKind::IntegratedGpu, V1_3, vec![q(true, true, true)]),
    ];
    assert_eq!(select_physical_device(&devices, V1_1), Some((0, 0)));
}

#[test]
fn vendor_names() {
    assert_eq!(vendor_id_to_str(0x1002), "AMD");
    assert_eq!(vendor_id_to_str(0x1010), "ImgTec");
    assert_eq!(vendor_id_to_str(0x10DE), "NVIDIA");
    assert_eq!(vendor_id_to_str(0x13B5), "ARM");
    assert_eq!(vendor_id_to_str(0x5143), "Qualcomm");
    assert_eq!(vendor_id_to_str(0x8086), "Intel");
    assert_eq!(vendor_id_to_str(0x1234), "unknown");
}

#[test]
fn device_kind_names() {
    assert_eq!(device_type_to_str(PhysicalDeviceKind::IntegratedGpu), "integrated GPU");
    assert_eq!(device_type_to_str(PhysicalDeviceKind::DiscreteGpu), "discrete GPU");
    assert_eq!(device_type_to_str(PhysicalDeviceKind::VirtualGpu), "virtual GPU");
    assert_eq!(device_type_to_str(PhysicalDeviceKind::Cpu), "CPU");
    assert_eq!(device_type_to_str(PhysicalDeviceKind::Other), "other");
}

#[test]
fn api_versions_are_packed_the_vulkan_way() {
    assert_eq!(required_api_version(), V1_1);
    assert_eq!(engine_version(), 1 << 22);
    assert_eq!(instance_api_version(), (1 << 22) | (2 << 12));
}

#[test]
fn validation_message_levels() {
    assert_eq!(debug_message_level(0x1), LogLevel::Debug);
    assert_eq!(debug_message_level(0x10), LogLevel::Info);
    assert_eq!(debug_message_level(0x100), LogLevel::Warn);
    assert_eq!(debug_message_level(0x1000), LogLevel::Error);
    assert_eq!(debug_message_level(0x110), LogLevel::Error);
}

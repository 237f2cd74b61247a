use vstd::prelude::*;

verus! {

/// The kind of a physical device, as Vulkan classifies it.
#[derive(Clone, Copy, Debug, PartialEq, Eq, Structural)]
pub enum PhysicalDeviceKind {
    Other,
    IntegratedGpu,
    DiscreteGpu,
    VirtualGpu,
    Cpu,
}

/// What one queue family of a device can do.
#[derive(Clone, Copy, Debug, PartialEq, Eq, Structural)]
pub struct QueueFamilySupport {
    pub graphics: bool,
    pub compute: bool,
    pub presents_to_surface: bool,
}

/// What the engine needs to know of a physical device to choose one.
pub struct DeviceCandidate {
    pub api_version: u32,
    pub kind: PhysicalDeviceKind,
    pub queue_families: Vec<QueueFamilySupport>,
}

/// A queue family the renderer can use for everything: graphics, compute and
/// presentation to the window's surface.
pub open spec fn queue_suitable(q: QueueFamilySupport) -> bool {
    q.graphics && q.compute && q.presents_to_surface
}

/// The first suitable queue family of a list.
pub open spec fn first_suitable_queue(families: Seq<QueueFamilySupport>) -> Option<int>
    decreases families.len(),
{
    if families.len() == 0 {
        None
    } else {
        match first_suitable_queue(families.drop_last()) {
            Some(i) => Some(i),
            None => if queue_suitable(families.last()) {
                Some(families.len() - 1)
            } else {
                None
            },
        }
    }
}

/// The queue family the renderer would use on a device: none when the device does
/// not support the required API version.
pub open spec fn device_queue(c: DeviceCandidate, required_version: u32) -> Option<int> {
    if c.api_version >= required_version {
        first_suitable_queue(c.queue_families@)
    } else {
        None
    }
}

/// The first usable device (and its queue family) among those that are discrete
/// GPUs, or among those that are not, by listing order.
pub open spec fn select_among(
    candidates: Seq<DeviceCandidate>,
    required_version: u32,
    discrete: bool,
) -> Option<(int, int)>
    decreases candidates.len(),
{
    if candidates.len() == 0 {
        None
    } else {
        match select_among(candidates.drop_last(), required_version, discrete) {
            Some(r) => Some(r),
            None => {
                let c = candidates.last();
                if (c.kind == PhysicalDeviceKind::DiscreteGpu) == discrete && device_queue(
                    c,
                    required_version,
                ) is Some {
                    Some((candidates.len() - 1, device_queue(c, required_version)->Some_0))
                } else {
                    None
                }
            },
        }
    }
}

/// The device the renderer runs on: devices are ranked discrete GPUs first, the
/// rest after, each group in listing order, and the first usable one is taken.
pub open spec fn spec_select_physical_device(
    candidates: Seq<DeviceCandidate>,
    required_version: u32,
) -> Option<(int, int)> {
    match select_among(candidates, required_version, true) {
        Some(r) => Some(r),
        None => select_among(candidates, required_version, false),
    }
}

fn first_suitable_queue_exec(families: &Vec<QueueFamilySupport>) -> (r: Option<usize>)
    ensures
        match first_suitable_queue(families@) {
            Some(i) => r == Some(i as usize),
            None => r is None,
        },
{
    let mut i: usize = 0;
    while i < families.len()
        invariant
            i <= families@.len(),
            first_suitable_queue(families@.take(i as int)) is None,
        decreases families@.len() - i,
    {
        proof {
            assert(families@.take(i + 1 as int).drop_last() =~= families@.take(i as int));
        }
        let q = families[i];
        if q.graphics && q.compute && q.presents_to_surface {
            proof {
                lemma_first_suitable_prefix(families@, i + 1);
            }
            return Some(i);
        }
        i = i + 1;
    }
    proof {
        assert(families@.take(i as int) =~= families@);
    }
    None
}

proof fn lemma_first_suitable_prefix(families: Seq<QueueFamilySupport>, n: int)
    requires
        0 <= n <= families.len(),
        first_suitable_queue(families.take(n)) is Some,
    ensures
        first_suitable_queue(families) == first_suitable_queue(families.take(n)),
    decreases families.len() - n,
{
    if n < families.len() {
        assert(families.take(n + 1).drop_last() =~= families.take(n));
        lemma_first_suitable_prefix(families, n + 1);
    } else {
        assert(families.take(n) =~= families);
    }
}

proof fn lemma_select_among_prefix(
    candidates: Seq<DeviceCandidate>,
    required_version: u32,
    discrete: bool,
    n: int,
)
    requires
        0 <= n <= candidates.len(),
        select_among(candidates.take(n), required_version, discrete) is Some,
    ensures
        select_among(candidates, required_version, discrete) == select_among(
            candidates.take(n),
            required_version,
            discrete,
        ),
    decreases candidates.len() - n,
{
    if n < candidates.len() {
        assert(candidates.take(n + 1).drop_last() =~= candidates.take(n));
        lemma_select_among_prefix(candidates, required_version, discrete, n + 1);
    } else {
        assert(candidates.take(n) =~= candidates);
    }
}

fn select_among_exec(candidates: &Vec<DeviceCandidate>, required_version: u32, discrete: bool) -> (r:
    Option<(usize, u32)>)
    requires
        forall|i: int|
            0 <= i < candidates@.len() ==> #[trigger] candidates@[i].queue_families@.len()
                <= u32::MAX,
    ensures
        match select_among(candidates@, required_version, discrete) {
            Some((d, q)) => r == Some((d as usize, q as u32)),
            None => r is None,
        },
{
    let mut i: usize = 0;
    while i < candidates.len()
        invariant
            i <= candidates@.len(),
            select_among(candidates@.take(i as int), required_version, discrete) is None,
            forall|k: int|
                0 <= k < candidates@.len() ==> #[trigger] candidates@[k].queue_families@.len()
                    <= u32::MAX,
        decreases candidates@.len() - i,
    {
        proof {
            assert(candidates@.take(i + 1 as int).drop_last() =~= candidates@.take(i as int));
        }
        let c = &candidates[i];
        let is_discrete = match c.kind {
            PhysicalDeviceKind::DiscreteGpu => true,
            _ => false,
        };
        if is_discrete == discrete && c.api_version >= required_version {
            match first_suitable_queue_exec(&c.queue_families) {
                Some(q) => {
                    proof {
                        lemma_select_among_prefix(candidates@, required_version, discrete, i + 1);
                        lemma_first_suitable_range(c.queue_families@);
                    }
                    return Some((i, q as u32));
                },
                None => {},
            }
        }
        i = i + 1;
    }
    proof {
        assert(candidates@.take(i as int) =~= candidates@);
    }
    None
}

proof fn lemma_first_suitable_range(families: Seq<QueueFamilySupport>)
    ensures
        first_suitable_queue(families) matches Some(i) ==> 0 <= i < families.len()
            && queue_suitable(families[i]),
        first_suitable_queue(families) is None ==> forall|i: int|
            0 <= i < families.len() ==> !queue_suitable(#[trigger] families[i]),
    decreases families.len(),
{
    if families.len() > 0 {
        lemma_first_suitable_range(families.drop_last());
        assert forall|i: int| 0 <= i < families.len() - 1 implies families.drop_last()[i]
            == families[i] by {}
    }
}

/// Usable: the device supports the required API version and has a queue family
/// fit for graphics, compute and presentation.
pub open spec fn device_usable(c: DeviceCandidate, required_version: u32) -> bool {
    c.api_version >= required_version && exists|q: int|
        0 <= q < c.queue_families@.len() && queue_suitable(#[trigger] c.queue_families@[q])
}

proof fn lemma_device_queue_usable(c: DeviceCandidate, required_version: u32)
    ensures
        device_queue(c, required_version) is Some <==> device_usable(c, required_version),
        device_queue(c, required_version) matches Some(q) ==> 0 <= q < c.queue_families@.len()
            && queue_suitable(c.queue_families@[q]),
{
    lemma_first_suitable_range(c.queue_families@);
}

proof fn lemma_select_among_sound(
    candidates: Seq<DeviceCandidate>,
    required_version: u32,
    discrete: bool,
)
    ensures
        select_among(candidates, required_version, discrete) matches Some((d, q)) ==> {
            &&& 0 <= d < candidates.len()
            &&& (candidates[d].kind == PhysicalDeviceKind::DiscreteGpu) == discrete
            &&& device_usable(candidates[d], required_version)
            &&& device_queue(candidates[d], required_version) == Some(q)
        },
        select_among(candidates, required_version, discrete) is None ==> forall|d: int|
            0 <= d < candidates.len() && ((#[trigger] candidates[d]).kind
                == PhysicalDeviceKind::DiscreteGpu) == discrete ==> !device_usable(
                candidates[d],
                required_version,
            ),
    decreases candidates.len(),
{
    if candidates.len() > 0 {
        lemma_select_among_sound(candidates.drop_last(), required_version, discrete);
        lemma_device_queue_usable(candidates.last(), required_version);
        assert forall|d: int| 0 <= d < candidates.len() - 1 implies candidates.drop_last()[d]
            == candidates[d] by {}
        if select_among(candidates.drop_last(), required_version, discrete) is None {
            assert forall|d: int|
                0 <= d < candidates.len() && ((#[trigger] candidates[d]).kind
                    == PhysicalDeviceKind::DiscreteGpu) == discrete && select_among(
                    candidates,
                    required_version,
                    discrete,
                ) is None implies !device_usable(candidates[d], required_version) by {
                if d < candidates.len() - 1 {
                    assert(candidates.drop_last()[d] == candidates[d]);
                }
            }
        }
    }
}

/// Chooses the physical device and queue family the renderer runs on: the first
/// usable discrete GPU, else the first usable device of another kind. `None`
/// when no device is usable.
pub fn select_physical_device(candidates: &Vec<DeviceCandidate>, required_version: u32) -> (r:
    Option<(usize, u32)>)
    requires
        forall|i: int|
            0 <= i < candidates@.len() ==> #[trigger] candidates@[i].queue_families@.len()
                <= u32::MAX,
    ensures
        match spec_select_physical_device(candidates@, required_version) {
            Some((d, q)) => r == Some((d as usize, q as u32)),
            None => r is None,
        },
        r matches Some((d, q)) ==> {
            &&& d < candidates@.len()
            &&& device_usable(candidates@[d as int], required_version)
            &&& q < candidates@[d as int].queue_families@.len()
            &&& queue_suitable(candidates@[d as int].queue_families@[q as int])
        },
        r is None <==> forall|d: int|
            0 <= d < candidates@.len() ==> !device_usable(
                #[trigger] candidates@[d],
                required_version,
            ),
        (exists|d: int|
            0 <= d < candidates@.len() && (#[trigger] candidates@[d]).kind
                == PhysicalDeviceKind::DiscreteGpu && device_usable(
                candidates@[d],
                required_version,
            )) ==> (r matches Some((d, _)) && candidates@[d as int].kind
            == PhysicalDeviceKind::DiscreteGpu),
{
    proof {
        lemma_select_among_sound(candidates@, required_version, true);
        lemma_select_among_sound(candidates@, required_version, false);
    }
    let r = match select_among_exec(candidates, required_version, true) {
        Some(found) => Some(found),
        None => select_among_exec(candidates, required_version, false),
    };
    let count = candidates.len();
    proof {
        match spec_select_physical_device(candidates@, required_version) {
            Some((d, q)) => {
                lemma_device_queue_usable(candidates@[d], required_version);
                assert(0 <= d < candidates@.len());
                assert(0 <= q < candidates@[d].queue_families@.len());
                assert((d as usize) as int == d);
                assert((q as u32) as int == q);
            },
            None => {},
        }
        if exists|d: int|
            0 <= d < candidates@.len() && (#[trigger] candidates@[d]).kind
                == PhysicalDeviceKind::DiscreteGpu && device_usable(
                candidates@[d],
                required_version,
            ) {
            let d0 = choose|d: int|
                0 <= d < candidates@.len() && (#[trigger] candidates@[d]).kind
                    == PhysicalDeviceKind::DiscreteGpu && device_usable(
                    candidates@[d],
                    required_version,
                );
            assert(select_among(candidates@, required_version, true) is Some);
        }
        if r is None {
            assert forall|d: int| 0 <= d < candidates@.len() implies !device_usable(
                #[trigger] candidates@[d],
                required_version,
            ) by {
                if candidates@[d].kind == PhysicalDeviceKind::DiscreteGpu {
                } else {
                }
            }
        }
    }
    r
}

/// The name of the company behind a PCI vendor id, for the vendors Vulkan drivers
/// commonly report.
pub open spec fn vendor_name(vendor_id: u32) -> Seq<char> {
    if vendor_id == 0x1002 {
        "AMD"@
    } else if vendor_id == 0x1010 {
        "ImgTec"@
    } else if vendor_id == 0x10DE {
        "NVIDIA"@
    } else if vendor_id == 0x13B5 {
        "ARM"@
    } else if vendor_id == 0x5143 {
        "Qualcomm"@
    } else if vendor_id == 0x8086 {
        "Intel"@
    } else {
        "unknown"@
    }
}

pub fn vendor_id_to_str(vendor_id: u32) -> (r: &'static str)
    ensures
        r@ == vendor_name(vendor_id),
{
    match vendor_id {
        0x1002 => "AMD",
        0x1010 => "ImgTec",
        0x10DE => "NVIDIA",
        0x13B5 => "ARM",
        0x5143 => "Qualcomm",
        0x8086 => "Intel",
        _ => "unknown",
    }
}

pub open spec fn device_kind_name(kind: PhysicalDeviceKind) -> Seq<char> {
    match kind {
        PhysicalDeviceKind::IntegratedGpu => "integrated GPU"@,
        PhysicalDeviceKind::DiscreteGpu => "discrete GPU"@,
        PhysicalDeviceKind::VirtualGpu => "virtual GPU"@,
        PhysicalDeviceKind::Cpu => "CPU"@,
        PhysicalDeviceKind::Other => "other"@,
    }
}

pub fn device_type_to_str(kind: PhysicalDeviceKind) -> (r: &'static str)
    ensures
        r@ == device_kind_name(kind),
{
    match kind {
        PhysicalDeviceKind::IntegratedGpu => "integrated GPU",
        PhysicalDeviceKind::DiscreteGpu => "discrete GPU",
        PhysicalDeviceKind::VirtualGpu => "virtual GPU",
        PhysicalDeviceKind::Cpu => "CPU",
        PhysicalDeviceKind::Other => "other",
    }
}


/// How loudly a validation message is logged.
#[derive(Clone, Copy, Debug, PartialEq, Eq, Structural)]
pub enum LogLevel {
    Debug,
    Info,
    Warn,
    Error,
}

/// `VkDebugUtilsMessageSeverityFlagBitsEXT::VERBOSE`.
pub const SEVERITY_VERBOSE: u32 = 0x1;

/// `VkDebugUtilsMessageSeverityFlagBitsEXT::INFO`.
pub const SEVERITY_INFO: u32 = 0x10;

/// `VkDebugUtilsMessageSeverityFlagBitsEXT::WARNING`.
pub const SEVERITY_WARNING: u32 = 0x100;

/// Verbose messages are logged as debug, informational ones as info, warnings as
/// warnings, and anything else (errors, or several severities at once) as errors.
pub open spec fn spec_debug_message_level(severity: u32) -> LogLevel {
    if severity == SEVERITY_VERBOSE {
        LogLevel::Debug
    } else if severity == SEVERITY_INFO {
        LogLevel::Info
    } else if severity == SEVERITY_WARNING {
        LogLevel::Warn
    } else {
        LogLevel::Error
    }
}

pub fn debug_message_level(severity: u32) -> (r: LogLevel)
    ensures
        r == spec_debug_message_level(severity),
{
    if severity == SEVERITY_VERBOSE {
        LogLevel::Debug
    } else if severity == SEVERITY_INFO {
        LogLevel::Info
    } else if severity == SEVERITY_WARNING {
        LogLevel::Warn
    } else {
        LogLevel::Error
    }
}

/// The device extensions the renderer enables: the swapchain, and for ray
/// tracing the acceleration structure and ray tracing pipeline extensions with the
/// deferred host operations the latter needs.
pub open spec fn spec_device_extensions(rt_requested: bool) -> Seq<Seq<char>> {
    if rt_requested {
        seq![
            "VK_KHR_swapchain"@,
            "VK_KHR_acceleration_structure"@,
            "VK_KHR_ray_tracing_pipeline"@,
            "VK_KHR_deferred_host_operations"@,
        ]
    } else {
        seq!["VK_KHR_swapchain"@]
    }
}

pub fn device_extension_names(rt_requested: bool) -> (r: Vec<&'static str>)
    ensures
        r@.map_values(|s: &'static str| s@) == spec_device_extensions(rt_requested),
{
    let mut names: Vec<&'static str> = vec!["VK_KHR_swapchain"];
    if rt_requested {
        names.push("VK_KHR_acceleration_structure");
        names.push("VK_KHR_ray_tracing_pipeline");
        names.push("VK_KHR_deferred_host_operations");
    }
    proof {
        assert(names@.map_values(|s: &'static str| s@) =~= spec_device_extensions(rt_requested));
    }
    names
}

/// What the instance enables on top of what the window system needs: with
/// validation, the Khronos validation layer and the debug utilities extension that
/// reports its messages; nothing otherwise.
pub open spec fn spec_validation_layers(validation: bool) -> Seq<Seq<char>> {
    if validation {
        seq!["VK_LAYER_KHRONOS_validation"@]
    } else {
        Seq::empty()
    }
}

pub open spec fn spec_validation_extensions(validation: bool) -> Seq<Seq<char>> {
    if validation {
        seq!["VK_EXT_debug_utils"@]
    } else {
        Seq::empty()
    }
}

pub fn instance_layer_names(validation: bool) -> (r: Vec<&'static str>)
    ensures
        r@.map_values(|s: &'static str| s@) == spec_validation_layers(validation),
{
    let mut names: Vec<&'static str> = Vec::new();
    if validation {
        names.push("VK_LAYER_KHRONOS_validation");
    }
    proof {
        assert(names@.map_values(|s: &'static str| s@) =~= spec_validation_layers(validation));
    }
    names
}

pub fn instance_extension_names(validation: bool) -> (r: Vec<&'static str>)
    ensures
        r@.map_values(|s: &'static str| s@) == spec_validation_extensions(validation),
{
    let mut names: Vec<&'static str> = Vec::new();
    if validation {
        names.push("VK_EXT_debug_utils");
    }
    proof {
        assert(names@.map_values(|s: &'static str| s@) =~= spec_validation_extensions(
            validation,
        ));
    }
    names
}

} // verus!

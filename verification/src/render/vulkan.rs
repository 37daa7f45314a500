use ash::vk;
use vstd::prelude::*;

verus! {

/// `VK_QUEUE_GRAPHICS_BIT`.
pub const QUEUE_GRAPHICS: u32 = 0b1;
/// `VK_QUEUE_COMPUTE_BIT`.
pub const QUEUE_COMPUTE: u32 = 0b10;
/// `VK_QUEUE_TRANSFER_BIT`.
pub const QUEUE_TRANSFER: u32 = 0b100;
/// `VK_QUEUE_SPARSE_BINDING_BIT`.
pub const QUEUE_SPARSE_BINDING: u32 = 0b1000;

/// Whether the flag set `flags` holds every flag of `wanted`.
pub open spec fn flags_contain(flags: u32, wanted: u32) -> bool {
    flags & wanted == wanted
}

/// Calls ash's `vk::QueueFlags::contains`, which the crate's source defines as
/// `self & other == other`; the contract states exactly that on the raw bits.
#[verifier::external_body]
fn queue_flags_contain(flags: u32, wanted: u32) -> (r: bool)
    ensures
        r == flags_contain(flags, wanted),
{
    vk::QueueFlags::from_raw(flags).contains(vk::QueueFlags::from_raw(wanted))
}

/// Calls ash's `vk::version_major`, defined in the crate's source as `version >> 22`.
#[allow(deprecated)]
#[verifier::external_body]
fn version_major(version: u32) -> (r: u32)
    ensures
        r == version >> 22,
{
    vk::version_major(version)
}

/// Calls ash's `vk::version_minor`, defined in the crate's source as `(version >> 12) & 0x3ff`.
#[allow(deprecated)]
#[verifier::external_body]
fn version_minor(version: u32) -> (r: u32)
    ensures
        r == (version >> 12) & 0x3ff,
{
    vk::version_minor(version)
}

/// Calls ash's `vk::version_patch`, defined in the crate's source as `version & 0xfff`.
#[allow(deprecated)]
#[verifier::external_body]
fn version_patch(version: u32) -> (r: u32)
    ensures
        r == version & 0xfff,
{
    vk::version_patch(version)
}

/// One queue family of a physical device, as the driver reports it.
#[derive(Clone, Copy)]
pub struct QueueFamily {
    pub queue_count: u32,
    /// The raw bits of the family's `VkQueueFlags`.
    pub queue_flags: u32,
}

/// A family that can take graphics work: it has queues and the graphics flag.
pub open spec fn is_graphics_family(f: QueueFamily) -> bool {
    f.queue_count > 0 && flags_contain(f.queue_flags, QUEUE_GRAPHICS)
}

/// The queue families that the renderer needs, by index.
pub struct QueueFamilyIndices {
    pub graphics_family: Option<u32>,
}

impl QueueFamilyIndices {
    /// Whether every needed family was found.
    pub fn is_complete(&self) -> (r: bool)
        ensures
            r == self.graphics_family.is_some(),
    {
        self.graphics_family.is_some()
    }
}

/// Finds the first queue family that can take graphics work.
pub fn find_queue_family(queue_families: &[QueueFamily]) -> (indices: QueueFamilyIndices)
    requires
        queue_families@.len() <= u32::MAX,
    ensures
        match indices.graphics_family {
            Some(i) => {
                &&& i < queue_families@.len()
                &&& is_graphics_family(queue_families@[i as int])
                &&& forall|j: int| 0 <= j < i ==> !is_graphics_family(#[trigger] queue_families@[j])
            },
            None => forall|j: int|
                0 <= j < queue_families@.len() ==> !is_graphics_family(#[trigger] queue_families@[j]),
        },
{
    let mut queue_family_indices = QueueFamilyIndices { graphics_family: None };
    let n: usize = queue_families.len();
    let mut pos: usize = 0;
    let mut index: u32 = 0;
    while pos < n
        invariant_except_break
            queue_family_indices.graphics_family is None,
        invariant
            n == queue_families@.len(),
            n <= u32::MAX,
            pos <= n,
            index == pos,
            forall|j: int| 0 <= j < pos ==> !is_graphics_family(#[trigger] queue_families@[j]),
        ensures
            match queue_family_indices.graphics_family {
                Some(i) => {
                    &&& i < n
                    &&& is_graphics_family(queue_families@[i as int])
                    &&& forall|j: int| 0 <= j < i ==> !is_graphics_family(#[trigger] queue_families@[j])
                },
                None => forall|j: int| 0 <= j < n ==> !is_graphics_family(#[trigger] queue_families@[j]),
            },
        decreases n - pos,
    {
        let queue_family = queue_families[pos];
        if queue_family.queue_count > 0 && queue_flags_contain(queue_family.queue_flags, QUEUE_GRAPHICS) {
            queue_family_indices.graphics_family = Some(index);
        }
        if queue_family_indices.is_complete() {
            break;
        }
        pos = pos + 1;
        index = index + 1;
    }
    queue_family_indices
}

/// Whether a device with these queue families can be used: one of them can take graphics
/// work. Nothing else of the device counts.
pub open spec fn device_suitable(queue_families: Seq<QueueFamily>) -> bool {
    exists|j: int| 0 <= j < queue_families.len() && is_graphics_family(#[trigger] queue_families[j])
}

/// A device is suitable when one of its queue families can take graphics work.
pub fn is_physical_device_suitable(queue_families: &[QueueFamily]) -> (r: bool)
    requires
        queue_families@.len() <= u32::MAX,
    ensures
        r == device_suitable(queue_families@),
{
    let indices = find_queue_family(queue_families);
    indices.is_complete()
}

/// Picks the first suitable device, by its position among the devices found.
pub fn pick_physical_device(suitable: &[bool]) -> (r: Option<usize>)
    ensures
        match r {
            Some(i) => i < suitable@.len() && suitable@[i as int] && forall|j: int|
                0 <= j < i ==> !suitable@[j],
            None => forall|j: int| 0 <= j < suitable@.len() ==> !suitable@[j],
        },
{
    let mut result: Option<usize> = None;
    let n: usize = suitable.len();
    let mut i: usize = 0;
    while i < n
        invariant
            n == suitable@.len(),
            i <= n,
            match result {
                Some(k) => k < i && suitable@[k as int] && forall|j: int| 0 <= j < k ==> !suitable@[j],
                None => forall|j: int| 0 <= j < i ==> !suitable@[j],
            },
        decreases n - i,
    {
        if suitable[i] {
            if result.is_none() {
                result = Some(i);
            }
        }
        i = i + 1;
    }
    result
}

/// A Vulkan version number split into its parts.
#[derive(Clone, Copy)]
pub struct ApiVersion {
    pub major: u32,
    pub minor: u32,
    pub patch: u32,
}

impl ApiVersion {
    /// Splits a packed `VK_MAKE_VERSION` number.
    pub fn from_packed(version: u32) -> (v: ApiVersion)
        ensures
            v.major == version >> 22,
            v.minor == (version >> 12) & 0x3ff,
            v.patch == version & 0xfff,
    {
        ApiVersion {
            major: version_major(version),
            minor: version_minor(version),
            patch: version_patch(version),
        }
    }
}

/// What one queue family offers, as shown in the device report.
#[derive(Clone, Copy)]
pub struct QueueFamilySupport {
    pub queue_count: u32,
    pub graphics: bool,
    pub compute: bool,
    pub transfer: bool,
    pub sparse_binding: bool,
}

/// The capabilities of a queue family, read from its flags.
pub fn queue_family_support(f: QueueFamily) -> (s: QueueFamilySupport)
    ensures
        s.queue_count == f.queue_count,
        s.graphics == flags_contain(f.queue_flags, QUEUE_GRAPHICS),
        s.compute == flags_contain(f.queue_flags, QUEUE_COMPUTE),
        s.transfer == flags_contain(f.queue_flags, QUEUE_TRANSFER),
        s.sparse_binding == flags_contain(f.queue_flags, QUEUE_SPARSE_BINDING),
{
    QueueFamilySupport {
        queue_count: f.queue_count,
        graphics: queue_flags_contain(f.queue_flags, QUEUE_GRAPHICS),
        compute: queue_flags_contain(f.queue_flags, QUEUE_COMPUTE),
        transfer: queue_flags_contain(f.queue_flags, QUEUE_TRANSFER),
        sparse_binding: queue_flags_contain(f.queue_flags, QUEUE_SPARSE_BINDING),
    }
}

/// The word shown for one capability of a queue family.
pub fn support_word(supported: bool) -> (w: &'static str)
    ensures
        w@ == (if supported { "support"@ } else { "unsupport"@ }),
{
    if supported {
        "support"
    } else {
        "unsupport"
    }
}

/// The word shown for geometry shader support, from the device's `VkBool32` feature.
pub fn geometry_shader_word(geometry_shader: u32) -> (w: &'static str)
    ensures
        w@ == (if geometry_shader == 1 { "Support"@ } else { "Unsupport"@ }),
{
    if geometry_shader == 1 {
        "Support"
    } else {
        "Unsupport"
    }
}

/// The name shown for a raw `VkPhysicalDeviceType`; `None` for a value outside the five
/// types that Vulkan defines.
pub open spec fn device_type_name_spec(device_type: i32) -> Option<Seq<char>> {
    if device_type == 4 {
        Some("Cpu"@)
    } else if device_type == 1 {
        Some("Integrated GPU"@)
    } else if device_type == 2 {
        Some("Discrete GPU"@)
    } else if device_type == 3 {
        Some("Virtual GPU"@)
    } else if device_type == 0 {
        Some("Unknown"@)
    } else {
        None
    }
}

/// The name shown for a raw `VkPhysicalDeviceType` (0 other, 1 integrated, 2 discrete,
/// 3 virtual, 4 CPU); `None` for any other value.
pub fn device_type_name(device_type: i32) -> (r: Option<&'static str>)
    ensures
        match r {
            Some(name) => device_type_name_spec(device_type) == Some(name@),
            None => device_type_name_spec(device_type) is None,
        },
{
    if device_type == 4 {
        Some("Cpu")
    } else if device_type == 1 {
        Some("Integrated GPU")
    } else if device_type == 2 {
        Some("Discrete GPU")
    } else if device_type == 3 {
        Some("Virtual GPU")
    } else if device_type == 0 {
        Some("Unknown")
    } else {
        None
    }
}

/// Everything that is shown about a physical device, and whether it can be used.
pub struct DeviceReport {
    pub device_type: &'static str,
    pub api_version: ApiVersion,
    pub queue_families: Vec<QueueFamilySupport>,
    pub geometry_shader: &'static str,
    pub suitable: bool,
}

/// Describes a physical device from what the driver reports of it: its raw device type,
/// its packed API version, its queue families and its geometry shader feature. `None` when
/// the device type is not one that Vulkan defines.
pub fn describe_physical_device(
    device_type: i32,
    api_version: u32,
    queue_families: &[QueueFamily],
    geometry_shader: u32,
) -> (r: Option<DeviceReport>)
    requires
        queue_families@.len() <= u32::MAX,
    ensures
        r is None <==> device_type_name_spec(device_type) is None,
        r matches Some(report) ==> {
            &&& device_type_name_spec(device_type) == Some(report.device_type@)
            &&& report.api_version.major == api_version >> 22
            &&& report.api_version.minor == (api_version >> 12) & 0x3ff
            &&& report.api_version.patch == api_version & 0xfff
            &&& report.queue_families@.len() == queue_families@.len()
            &&& forall|j: int|
                0 <= j < queue_families@.len() ==> {
                    let f = #[trigger] queue_families@[j];
                    let s = report.queue_families@[j];
                    &&& s.queue_count == f.queue_count
                    &&& s.graphics == flags_contain(f.queue_flags, QUEUE_GRAPHICS)
                    &&& s.compute == flags_contain(f.queue_flags, QUEUE_COMPUTE)
                    &&& s.transfer == flags_contain(f.queue_flags, QUEUE_TRANSFER)
                    &&& s.sparse_binding == flags_contain(f.queue_flags, QUEUE_SPARSE_BINDING)
                }
            &&& report.geometry_shader@ == (if geometry_shader == 1 {
                "Support"@
            } else {
                "Unsupport"@
            })
            &&& report.suitable == device_suitable(queue_families@)
        },
{
    let name = match device_type_name(device_type) {
        Some(name) => name,
        None => {
            return None;
        },
    };
    let n: usize = queue_families.len();
    let mut families: Vec<QueueFamilySupport> = Vec::new();
    let mut i: usize = 0;
    while i < n
        invariant
            n == queue_families@.len(),
            i <= n,
            families@.len() == i,
            forall|j: int|
                0 <= j < i ==> {
                    let f = #[trigger] queue_families@[j];
                    let s = families@[j];
                    &&& s.queue_count == f.queue_count
                    &&& s.graphics == flags_contain(f.queue_flags, QUEUE_GRAPHICS)
                    &&& s.compute == flags_contain(f.queue_flags, QUEUE_COMPUTE)
                    &&& s.transfer == flags_contain(f.queue_flags, QUEUE_TRANSFER)
                    &&& s.sparse_binding == flags_contain(f.queue_flags, QUEUE_SPARSE_BINDING)
                },
        decreases n - i,
    {
        families.push(queue_family_support(queue_families[i]));
        i = i + 1;
    }
    Some(
        DeviceReport {
            device_type: name,
            api_version: ApiVersion::from_packed(api_version),
            queue_families: families,
            geometry_shader: geometry_shader_word(geometry_shader),
            suitable: is_physical_device_suitable(queue_families),
        },
    )
}

/// Whether validation layers are turned on, and which layers are then required.
pub struct ValidationInfo {
    pub is_enable: bool,
    pub required_validation_layers: Vec<String>,
}

impl ValidationInfo {
    /// The settings the renderer runs with: validation on, with the Khronos validation layer.
    pub fn standard() -> (v: ValidationInfo)
        ensures
            v.is_enable,
            v.required_validation_layers@.len() == 1,
            v.required_validation_layers@[0]@ == "VK_LAYER_KHRONOS_validation"@,
    {
        let layer = "VK_LAYER_KHRONOS_validation".to_owned();
        let mut layers: Vec<String> = Vec::new();
        layers.push(layer);
        ValidationInfo { is_enable: true, required_validation_layers: layers }
    }

    /// The layers to enable when creating an instance or a device: the required ones when
    /// validation is on, none when it is off.
    pub fn enabled_layer_names(&self) -> (names: Vec<String>)
        ensures
            names@.len() == (if self.is_enable {
                self.required_validation_layers@.len()
            } else {
                0
            }),
            forall|i: int|
                0 <= i < names@.len() ==> #[trigger] names@[i]@
                    == self.required_validation_layers@[i]@,
    {
        let mut names: Vec<String> = Vec::new();
        if self.is_enable {
            let n: usize = self.required_validation_layers.len();
            let mut i: usize = 0;
            while i < n
                invariant
                    n == self.required_validation_layers@.len(),
                    i <= n,
                    names@.len() == i,
                    forall|k: int|
                        0 <= k < i ==> #[trigger] names@[k]@
                            == self.required_validation_layers@[k]@,
                decreases n - i,
            {
                names.push(self.required_validation_layers[i].clone());
                i = i + 1;
            }
        }
        names
    }
}

/// Whether some entry of `available` is the layer `name`.
pub open spec fn layer_available(available: Seq<String>, name: Seq<char>) -> bool {
    exists|j: int| 0 <= j < available.len() && (#[trigger] available[j])@ == name
}

/// Whether the instance offers every required layer. With no layers on offer at all the
/// answer is `false`, whatever is required.
pub fn check_validation_layer_support(required: &[String], available: &[String]) -> (r: bool)
    ensures
        r == (available@.len() > 0 && forall|i: int|
            0 <= i < required@.len() ==> layer_available(available@, (#[trigger] required@[i])@)),
{
    if available.len() == 0 {
        return false;
    }
    let n: usize = required.len();
    let m: usize = available.len();
    let mut i: usize = 0;
    while i < n
        invariant
            n == required@.len(),
            m == available@.len(),
            m > 0,
            i <= n,
            forall|k: int| 0 <= k < i ==> layer_available(available@, (#[trigger] required@[k])@),
        decreases n - i,
    {
        let mut is_layer_found = false;
        let mut j: usize = 0;
        while j < m
            invariant_except_break
                !is_layer_found,
            invariant
                n == required@.len(),
                m == available@.len(),
                i < n,
                j <= m,
                forall|k: int| 0 <= k < j ==> (#[trigger] available@[k])@ != required@[i as int]@,
            ensures
                is_layer_found == layer_available(available@, required@[i as int]@),
            decreases m - j,
        {
            if required[i] == available[j] {
                is_layer_found = true;
                break;
            }
            j = j + 1;
        }
        if !is_layer_found {
            return false;
        }
        i = i + 1;
    }
    true
}

/// `VK_DEBUG_UTILS_MESSAGE_SEVERITY_VERBOSE_BIT_EXT`.
pub const SEVERITY_VERBOSE: u32 = 0b1;
/// `VK_DEBUG_UTILS_MESSAGE_SEVERITY_INFO_BIT_EXT`.
pub const SEVERITY_INFO: u32 = 0b1_0000;
/// `VK_DEBUG_UTILS_MESSAGE_SEVERITY_WARNING_BIT_EXT`.
pub const SEVERITY_WARNING: u32 = 0b1_0000_0000;
/// `VK_DEBUG_UTILS_MESSAGE_SEVERITY_ERROR_BIT_EXT`.
pub const SEVERITY_ERROR: u32 = 0b1_0000_0000_0000;
/// `VK_DEBUG_UTILS_MESSAGE_TYPE_GENERAL_BIT_EXT`.
pub const MESSAGE_GENERAL: u32 = 0b1;
/// `VK_DEBUG_UTILS_MESSAGE_TYPE_VALIDATION_BIT_EXT`.
pub const MESSAGE_VALIDATION: u32 = 0b10;
/// `VK_DEBUG_UTILS_MESSAGE_TYPE_PERFORMANCE_BIT_EXT`.
pub const MESSAGE_PERFORMANCE: u32 = 0b100;

/// The label of a debug message's severity; a set of several bits, or an unknown one, is
/// labelled unknown.
pub fn severity_label(severity: u32) -> (w: &'static str)
    ensures
        w@ == (if severity == SEVERITY_VERBOSE {
            "[Verbose]"@
        } else if severity == SEVERITY_WARNING {
            "[Warning]"@
        } else if severity == SEVERITY_ERROR {
            "[Error]"@
        } else if severity == SEVERITY_INFO {
            "[Info]"@
        } else {
            "[Unknown]"@
        }),
{
    if severity == SEVERITY_VERBOSE {
        "[Verbose]"
    } else if severity == SEVERITY_WARNING {
        "[Warning]"
    } else if severity == SEVERITY_ERROR {
        "[Error]"
    } else if severity == SEVERITY_INFO {
        "[Info]"
    } else {
        "[Unknown]"
    }
}

/// The label of a debug message's type; a set of several bits, or an unknown one, is
/// labelled unknown.
pub fn message_type_label(message_type: u32) -> (w: &'static str)
    ensures
        w@ == (if message_type == MESSAGE_GENERAL {
            "[General]"@
        } else if message_type == MESSAGE_PERFORMANCE {
            "[Performance]"@
        } else if message_type == MESSAGE_VALIDATION {
            "[Validation]"@
        } else {
            "[Unknown]"@
        }),
{
    if message_type == MESSAGE_GENERAL {
        "[General]"
    } else if message_type == MESSAGE_PERFORMANCE {
        "[Performance]"
    } else if message_type == MESSAGE_VALIDATION {
        "[Validation]"
    } else {
        "[Unknown]"
    }
}

} // verus!

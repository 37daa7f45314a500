use edu::render::vulkan::{
    check_validation_layer_support, describe_physical_device, device_type_name,
    find_queue_family, geometry_shader_word, is_physical_device_suitable,
    message_type_label, pick_physical_device, queue_family_support, severity_label,
    support_word, ApiVersion, QueueFamily, QueueFamilyIndices, ValidationInfo,
};

fn family(queue_count: u32, queue_flags: u32) -> QueueFamily {
    QueueFamily { queue_count, queue_flags }
}

#[test]
fn first_graphics_family_is_chosen() {
    let families = [family(1, 0b100), family(0, 0b1), family(4, 0b11), family(2, 0b1)];
    assert_eq!(find_queue_family(&families).graphics_family, Some(2));
}

#[test]
fn no_graphics_family_means_incomplete() {
    let families = [family(1, 0b110), family(0, 0b1)];
    let indices = find_queue_family(&families);
    assert_eq!(indices.graphics_family, None);
    assert!(!indices.is_complete());
    assert!(!is_physical_device_suitable(&families));
    assert_eq!(find_queue_family(&[]).graphics_family, None);
}

#[test]
fn is_complete_follows_graphics_family() {
    assert!(QueueFamilyIndices { graphics_family: Some(0) }.is_complete());
    assert!(!QueueFamilyIndices { graphics_family: None }.is_complete());
    assert!(is_physical_device_suitable(&[family(1, 0b1111)]));
}

#[test]
fn first_suitable_device_is_picked() {
    assert_eq!(pick_physical_device(&[false, true, true]), Some(1));
    assert_eq!(pick_physical_device(&[false, false]), None);
    assert_eq!(pick_physical_device(&[]), None);
}

#[test]
fn api_version_is_split() {
    let packed: u32 = (1 << 22) | (2 << 12) | 131;
    let v = ApiVersion::from_packed(packed);
    assert_eq!((v.major, v.minor, v.patch), (1, 2, 131));
    let v = ApiVersion::from_packed(0);
    assert_eq!((v.major, v.minor, v.patch), (0, 0, 0));
}

#[test]
fn queue_family_capabilities() {
    let s = queue_family_support(family(16, 0b1011));
    assert_eq!(s.queue_count, 16);
    assert!(s.graphics);
    assert!(s.compute);
    assert!(!s.transfer);
    assert!(s.sparse_binding);
    assert_eq!(support_word(true), "support");
    assert_eq!(support_word(false), "unsupport");
    assert_eq!(geometry_shader_word(1), "Support");
    assert_eq!(geometry_shader_word(0), "Unsupport");
}

#[test]
fn device_type_names() {
    assert_eq!(device_type_name(0), Some("Unknown"));
    assert_eq!(device_type_name(1), Some("Integrated GPU"));
    assert_eq!(device_type_name(2), Some("Discrete GPU"));
    assert_eq!(device_type_name(3), Some("Virtual GPU"));
    assert_eq!(device_type_name(4), Some("Cpu"));
    assert_eq!(device_type_name(5), None);
    assert_eq!(device_type_name(-1), None);
}

#[test]
fn device_report() {
    let families = [family(1, 0b110), family(2, 0b1)];
    let report = describe_physical_device(2, (1 << 22) | (1 << 12), &families, 1).unwrap();
    assert_eq!(report.device_type, "Discrete GPU");
    assert_eq!(report.api_version.major, 1);
    assert_eq!(report.api_version.minor, 1);
    assert_eq!(report.api_version.patch, 0);
    assert_eq!(report.queue_families.len(), 2);
    assert!(!report.queue_families[0].graphics);
    assert!(report.queue_families[0].transfer);
    assert!(report.queue_families[1].graphics);
    assert_eq!(report.geometry_shader, "Support");
    assert!(report.suitable);
    assert!(describe_physical_device(9, 0, &families, 0).is_none());
}

fn names(list: &[&str]) -> Vec<String> {
    list.iter().map(|s| s.to_string()).collect()
}

#[test]
fn layer_support_needs_every_required_layer() {
    let required = names(&["VK_LAYER_KHRONOS_validation"]);
    let available = names(&["VK_LAYER_MESA_overlay", "VK_LAYER_KHRONOS_validation"]);
    assert!(check_validation_layer_support(&required, &available));
    let missing = names(&["VK_LAYER_MESA_overlay"]);
    assert!(!check_validation_layer_support(&required, &missing));
    let two = names(&["VK_LAYER_KHRONOS_validation", "VK_LAYER_LUNARG_api_dump"]);
    assert!(!check_validation_layer_support(&two, &available));
}

#[test]
fn no_layers_on_offer_means_no_support() {
    assert!(!check_validation_layer_support(&names(&["VK_LAYER_KHRONOS_validation"]), &[]));
    assert!(!check_validation_layer_support(&[], &[]));
    assert!(check_validation_layer_support(&[], &names(&["VK_LAYER_MESA_overlay"])));
}

#[test]
fn enabled_layers_follow_the_switch() {
    let standard = ValidationInfo::standard();
    assert!(standard.is_enable);
    assert_eq!(standard.enabled_layer_names(), names(&["VK_LAYER_KHRONOS_validation"]));
    let off = ValidationInfo { is_enable: false, required_validation_layers: names(&["A"]) };
    assert!(off.enabled_layer_names().is_empty());
}

#[test]
fn debug_labels() {
    assert_eq!(severity_label(0b1), "[Verbose]");
    assert_eq!(severity_label(0b1_0000), "[Info]");
    assert_eq!(severity_label(0b1_0000_0000), "[Warning]");
    assert_eq!(severity_label(0b1_0000_0000_0000), "[Error]");
    assert_eq!(severity_label(0b1_0000_0001), "[Unknown]");
    assert_eq!(message_type_label(0b1), "[General]");
    assert_eq!(message_type_label(0b10), "[Validation]");
    assert_eq!(message_type_label(0b100), "[Performance]");
    assert_eq!(message_type_label(0b11), "[Unknown]");
}

#[test]
fn suitability_depends_on_queue_families_alone() {
    let families = [family(0, 0b1), family(3, 0b1)];
    let a = describe_physical_device(1, 0, &families, 0).unwrap();
    let b = describe_physical_device(4, (1 << 22) | 7, &families, 1).unwrap();
    assert_eq!(a.suitable, b.suitable);
    assert_eq!(a.suitable, is_physical_device_suitable(&families));
}

use libredfish::model::{BootOption, Chassis};
use libredfish::supermicro::{
    fixed_boot_order_diff, is_mgx_c2_processor_module, is_supported_uefi_http_boot_option,
    standard_boot_order_diff, usable_standard_boot_order, MELLANOX_UEFI_HTTP_IPV4, NETWORK,
    NVIDIA_UEFI_HTTP_IPV4,
};

fn boot_option(reference: &str, display_name: &str) -> BootOption {
    BootOption {
        odata: Default::default(),
        alias: None,
        description: None,
        boot_option_enabled: Some(true),
        boot_option_reference: reference.to_string(),
        display_name: display_name.to_string(),
        id: reference.to_string(),
        name: display_name.to_string(),
        uefi_device_path: None,
    }
}

#[test]
fn standard_boot_verification_uses_system_boot_order_not_collection_order() {
    let target = format!("{NVIDIA_UEFI_HTTP_IPV4} - B8:E9:24:17:6D:72 (MAC:B8E924176D72)");
    let disk = "UEFI Hard Disk";
    let options = vec![
        boot_option("Boot0001", &target),
        boot_option("Boot0002", disk),
    ];

    let diff = standard_boot_order_diff(
        &["Boot0002".to_string(), "Boot0001".to_string()],
        &options,
        "b8:e9:24:17:6d:72",
    )
    .expect("disk is first");

    assert_eq!(diff.expected, target);
    assert_eq!(diff.actual, disk);
}

#[test]
fn supported_uefi_http_boot_options_include_mellanox_and_nvidia_names() {
    for display_name in [MELLANOX_UEFI_HTTP_IPV4, NVIDIA_UEFI_HTTP_IPV4] {
        assert!(is_supported_uefi_http_boot_option(display_name));
    }
    assert!(!is_supported_uefi_http_boot_option(
        "UEFI HTTP IPv4 Intel Network Adapter"
    ));
}

#[test]
fn standard_boot_verification_resolves_decorated_boot_order_reference() {
    let target = format!("{MELLANOX_UEFI_HTTP_IPV4} - B8:E9:24:17:6D:72 (MAC:B8E924176D72)");
    let options = vec![
        boot_option("Boot0002", "UEFI Hard Disk"),
        boot_option("Boot0001", &target),
    ];

    let diff = standard_boot_order_diff(
        &["Boot0001: Selected network adapter".to_string()],
        &options,
        "B8:E9:24:17:6D:72",
    );

    assert!(diff.is_none());
}

#[test]
fn standard_boot_verification_compares_references_not_display_names() {
    let target = format!("{MELLANOX_UEFI_HTTP_IPV4} - B8:E9:24:17:6D:72 (MAC:B8E924176D72)");
    let options = vec![
        boot_option("Boot0001", &target),
        boot_option("Boot0002", &target),
    ];

    let diff = standard_boot_order_diff(
        &["Boot0002".to_string(), "Boot0001".to_string()],
        &options,
        "B8:E9:24:17:6D:72",
    );

    assert!(diff.is_some());
}

#[test]
fn fixed_boot_verification_resolves_network_category_and_prefixed_entry() {
    let target = format!("{NVIDIA_UEFI_HTTP_IPV4} - B8:E9:24:17:6D:72 (MAC:B8E924176D72)");
    let uefi_network = vec![target.clone()];

    for fixed_order in [
        vec![NETWORK.to_string()],
        vec![format!("{NETWORK}:{target}")],
    ] {
        let diff = fixed_boot_order_diff(&fixed_order, &uefi_network, "b8:e9:24:17:6d:72");
        assert!(diff.is_none(), "unexpected diff for {fixed_order:?}");
    }
}

#[test]
fn empty_standard_boot_order_is_not_usable() {
    assert!(usable_standard_boot_order(Vec::new()).is_none());
}

#[test]
fn fixed_boot_verification_uses_selected_network_device_not_category_suffix() {
    let target = format!("{NVIDIA_UEFI_HTTP_IPV4} - B8:E9:24:17:6D:72 (MAC:B8E924176D72)");
    let other = format!("{NVIDIA_UEFI_HTTP_IPV4} - B8:E9:24:17:6D:73 (MAC:B8E924176D73)");

    let diff = fixed_boot_order_diff(
        &[format!("{NETWORK}:{other}")],
        &[target.clone(), other.clone()],
        "b8:e9:24:17:6d:72",
    );
    assert!(diff.is_none());

    let diff = fixed_boot_order_diff(
        &[format!("{NETWORK}:{target}")],
        &[other.clone(), target],
        "b8:e9:24:17:6d:72",
    )
    .expect("a different network device is selected");
    assert_eq!(diff.actual, other);
}

#[test]
fn identifies_mgx_c2_processor_modules() {
    let cases = [
        ("PG535 model", Some("NVIDIA"), Some("PG535-B02"), None, true),
        (
            "2G535 part number",
            Some("Nvidia"),
            None,
            Some("699-2G535-0200-310"),
            true,
        ),
        (
            "unrelated NVIDIA module",
            Some("NVIDIA"),
            Some("B4240"),
            Some("900-9D3B4-00CC-EA0"),
            false,
        ),
        (
            "non-NVIDIA PG535",
            Some("Supermicro"),
            Some("PG535-B02"),
            Some("699-2G535-0200-310"),
            false,
        ),
    ];

    for (case, manufacturer, model, part_number, expected) in cases {
        let chassis = Chassis {
            manufacturer: manufacturer.map(str::to_string),
            model: model.map(str::to_string),
            part_number: part_number.map(str::to_string),
            ..Default::default()
        };
        assert_eq!(is_mgx_c2_processor_module(&chassis), expected, "{case}");
    }
}

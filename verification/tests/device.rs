use openlogi::device::{
    BatteryInfo, BatteryLevel, BatteryStatus, Capabilities, DeviceInventory, DeviceKind,
    DeviceModelInfo, DeviceTransports, PairedDevice, ReceiverInfo,
};

fn inventory(slot: u8, wpid: Option<u16>, battery_percentage: u8) -> DeviceInventory {
    DeviceInventory {
        receiver: ReceiverInfo {
            name: "Logi Bolt Receiver".to_string(),
            vendor_id: 0x046d,
            product_id: 0xc548,
            unique_id: Some("receiver-1".to_string()),
        },
        paired: vec![PairedDevice {
            slot,
            codename: Some("MX Test".to_string()),
            wpid,
            kind: DeviceKind::Mouse,
            online: true,
            battery: Some(BatteryInfo {
                percentage: battery_percentage,
                level: BatteryLevel::Good,
                status: BatteryStatus::Discharging,
            }),
            model_info: Some(DeviceModelInfo {
                entity_count: 1,
                serial_number: Some("serial-1".to_string()),
                unit_id: [1, 2, 3, 4],
                transports: DeviceTransports {
                    usb: true,
                    equad: true,
                    btle: false,
                    bluetooth: false,
                },
                model_ids: [0xb023, 0, 0],
                extended_model_id: 0x02,
            }),
            capabilities: Some(Capabilities {
                buttons: true,
                pointer: true,
                lighting: false,
                scroll_inversion: false,
                hires_wheel: false,
            }),
        }],
    }
}

#[test]
fn device_inventory_equality_includes_nested_device_fields() {
    let base = inventory(1, Some(0xb023), 86);
    assert_eq!(base, base.clone());

    assert_ne!(
        base,
        inventory(2, Some(0xb023), 86),
        "slot changes must affect inventory equality"
    );
    assert_ne!(
        base,
        inventory(1, Some(0xb024), 86),
        "wireless product id changes must affect inventory equality"
    );
    assert_ne!(
        base,
        inventory(1, Some(0xb023), 87),
        "nested battery changes must affect inventory equality"
    );
}

#[test]
fn registry_type_is_case_folded() {
    assert_eq!(DeviceKind::from_registry_type("mouse"), DeviceKind::Mouse);
    assert_eq!(DeviceKind::from_registry_type("MOUSE"), DeviceKind::Mouse);
    assert_eq!(
        DeviceKind::from_registry_type("  Keyboard "),
        DeviceKind::Keyboard
    );
}

#[test]
fn unknown_registry_type_defers_to_the_caller() {
    assert_eq!(
        DeviceKind::from_registry_type("webcam"),
        DeviceKind::Unknown
    );
    assert_eq!(DeviceKind::from_registry_type(""), DeviceKind::Unknown);
}

#[test]
fn capabilities_track_the_driving_feature_ids() {
    // A typical MX mouse: buttons and pointer speed, no lighting.
    let mouse = Capabilities::from_feature_ids(&[0x0003, 0x1b04, 0x2121, 0x2202, 0x2110]);
    assert_eq!(
        mouse,
        Capabilities {
            buttons: true,
            pointer: true,
            lighting: false,
            scroll_inversion: false,
            hires_wheel: true,
        }
    );
    // A wired G-series keyboard: lighting only.
    let keyboard = Capabilities::from_feature_ids(&[0x0001, 0x8080]);
    assert_eq!(
        keyboard,
        Capabilities {
            buttons: false,
            pointer: false,
            lighting: true,
            scroll_inversion: false,
            hires_wheel: false,
        }
    );
    // No driving features: nothing offered.
    assert_eq!(
        Capabilities::from_feature_ids(&[0x0000, 0x0003]),
        Capabilities::default()
    );
}

#[test]
fn presumed_capabilities_keep_an_unprobed_mouse_configurable() {
    let mouse = Capabilities::presumed_from_kind(DeviceKind::Mouse);
    assert!(mouse.buttons && mouse.pointer && !mouse.lighting);
    assert!(Capabilities::presumed_from_kind(DeviceKind::Keyboard).lighting);
    // An unidentified device presumes nothing: it must be measured.
    assert_eq!(
        Capabilities::presumed_from_kind(DeviceKind::Unknown),
        Capabilities::default()
    );
}

#[test]
fn feature_order_does_not_matter() {
    assert_eq!(
        Capabilities::from_feature_ids(&[0x1b04, 0x8080]),
        Capabilities::from_feature_ids(&[0x8080, 0x1b04])
    );
}

#[test]
fn more_features_never_take_a_capability_away() {
    let few = Capabilities::from_feature_ids(&[0x1b04]);
    let more = Capabilities::from_feature_ids(&[0x1b04, 0x0001, 0x2201]);
    assert!(few.buttons && more.buttons);
    assert!(!few.pointer && more.pointer);
}

#[test]
fn model_keys_join_the_extended_model_and_the_product() {
    let model = DeviceModelInfo {
        entity_count: 1,
        serial_number: None,
        unit_id: [1, 2, 3, 4],
        transports: DeviceTransports::default(),
        model_ids: [0xb042, 0, 0],
        extended_model_id: 2,
    };
    assert_eq!(model.config_key(), "2b042");
    assert!(model.matches(&model.clone()));
}

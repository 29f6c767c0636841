use openlogi::camera::Camera;
use openlogi::codename::prettify_codename;
use openlogi::config::{Config, DeviceConfig, DeviceIdentity};
use openlogi::device::{
    Capabilities, DeviceInventory, DeviceKind, DeviceModelInfo, DeviceTransports, PairedDevice,
    ReceiverInfo,
};
use openlogi::device_order::{
    DeviceRoute, DeviceStableId, PhysicalDeviceKey, DIRECT_DEVICE_INDEX,
};
use openlogi::devices::{
    adopt_transient_record, append_offline_known, build_device_list, camera_record,
    direct_key_prefix, effective_kind, model_info_from_legacy_model_key, offline_record, pick_initial_device, receiver_uid_of,
    sort_device_list, AssetEntry, AssetResolver, DeviceRecord, ResolvedAsset,
};
use openlogi::table::TextSet;

fn paired_device_no_model_info(slot: u8, wpid: Option<u16>) -> PairedDevice {
    PairedDevice {
        slot,
        codename: None,
        wpid,
        kind: DeviceKind::Keyboard,
        online: true,
        battery: None,
        model_info: None,
        capabilities: None,
    }
}

fn inventory_with(devices: Vec<PairedDevice>) -> DeviceInventory {
    DeviceInventory {
        receiver: ReceiverInfo {
            name: "Unifying Receiver".to_string(),
            vendor_id: 0x046d,
            product_id: 0xc52b,
            unique_id: Some("DA2699E1".to_string()),
        },
        paired: devices,
    }
}

fn direct_inventory(model_info: DeviceModelInfo) -> DeviceInventory {
    DeviceInventory {
        receiver: ReceiverInfo {
            name: "MX Master 3S".to_string(),
            vendor_id: 0x046d,
            product_id: 0xb023,
            unique_id: None,
        },
        paired: vec![PairedDevice {
            slot: DIRECT_DEVICE_INDEX,
            codename: Some("MX Master 3S".to_string()),
            wpid: None,
            kind: DeviceKind::Mouse,
            online: true,
            battery: None,
            model_info: Some(model_info),
            capabilities: Some(Capabilities::presumed_from_kind(DeviceKind::Mouse)),
        }],
    }
}

fn online_record(key: &str) -> DeviceRecord {
    DeviceRecord {
        config_key: key.to_string(),
        persistent: true,
        model_key: key.to_string(),
        display_name: format!("live {key}"),
        asset: None,
        model_info: None,
        codename: None,
        serial_number: None,
        unit_id: [1; 4],
        route: None,
        kind: DeviceKind::Mouse,
        capabilities: Some(Capabilities::presumed_from_kind(DeviceKind::Mouse)),
        slot: 1,
        online: true,
        battery: None,
    }
}

fn mouse_identity(name: &str) -> DeviceIdentity {
    DeviceIdentity {
        display_name: name.to_string(),
        kind: DeviceKind::Mouse,
        capabilities: Capabilities {
            buttons: true,
            pointer: true,
            lighting: false,
            scroll_inversion: false,
            hires_wheel: false,
        },
        model_info: None,
        codename: None,
    }
}

fn model_info(ext: u8, pid: u16) -> DeviceModelInfo {
    DeviceModelInfo {
        entity_count: 0,
        serial_number: None,
        unit_id: [0; 4],
        transports: DeviceTransports::default(),
        model_ids: [pid, 0, 0],
        extended_model_id: ext,
    }
}

fn streamcam() -> Camera {
    Camera {
        name: "Logitech StreamCam".to_string(),
        unique_id: "0x1123000046d0893".to_string(),
        vendor_id: 0x046d,
        product_id: 0x0893,
        max_resolution: Some((1920, 1080)),
        max_fps: Some(60),
    }
}

#[test]
fn no_model_info_uses_receiver_slot_as_config_key() {
    let inv = inventory_with(vec![paired_device_no_model_info(1, Some(0x4076))]);
    let cache = AssetResolver::new();
    let list = build_device_list(&[inv], &cache, &Config::default(), &[]);
    assert_eq!(list.len(), 1);
    assert_eq!(list[0].config_key, "receiver:da2699e1:slot:1");
    assert_eq!(list[0].model_key, "wpid4076");
    assert!(list[0].serial_number.is_none());
    assert_eq!(list[0].unit_id, [0u8; 4]);
}

#[test]
fn no_model_info_falls_back_to_slot_when_no_wpid() {
    let inv = inventory_with(vec![paired_device_no_model_info(3, None)]);
    let cache = AssetResolver::new();
    let list = build_device_list(&[inv], &cache, &Config::default(), &[]);
    assert_eq!(list.len(), 1);
    assert_eq!(list[0].config_key, "receiver:da2699e1:slot:3");
    assert_eq!(list[0].model_key, "slot3");
}

#[test]
fn no_model_info_display_name_falls_back_to_slot() {
    let inv = inventory_with(vec![paired_device_no_model_info(2, Some(0x4051))]);
    let cache = AssetResolver::new();
    let list = build_device_list(&[inv], &cache, &Config::default(), &[]);
    assert_eq!(list[0].display_name, "Slot 2");
}

#[test]
fn offline_record_is_present_but_inert() {
    let id = mouse_identity("MX Master 3S");
    let cache = AssetResolver::new();
    let rec = offline_record("2b034", &id, &cache);
    assert_eq!(rec.config_key, "2b034");
    assert_eq!(rec.display_name, "MX Master 3S");
    assert!(!rec.online);
    assert!(rec.route.is_none());
    assert_eq!(rec.capabilities, Some(id.capabilities));
}

#[test]
fn known_devices_are_appended_only_when_absent_from_live() {
    // "A" is live and "B" is known but asleep.
    let mut list = vec![online_record("A")];
    let a = mouse_identity("live A overwritten?");
    let b = mouse_identity("asleep B");
    let cache = AssetResolver::new();
    append_offline_known(
        &mut list,
        &vec![("A".to_string(), a), ("B".to_string(), b)],
        &cache,
        &TextSet::new(),
    );

    assert_eq!(list.len(), 2);
    assert!(
        list.iter().any(|r| r.config_key == "A" && r.online),
        "the live record for A must win over its identity"
    );
    assert!(
        list.iter().any(|r| r.config_key == "B" && !r.online),
        "B is added back as a persisted offline placeholder"
    );
}

#[test]
fn zero_unit_direct_inventory_is_transient() {
    let cache = AssetResolver::new();
    let list = build_device_list(
        &[direct_inventory(model_info(2, 0xb034))],
        &cache,
        &Config::default(),
        &[],
    );

    assert_eq!(list.len(), 1);
    assert_eq!(list[0].config_key, "direct:046d:b023:unit:00000000");
    assert!(!list[0].is_persistent());
    assert!(list[0].persistent_config_key().is_none());
}

#[test]
fn historical_zero_unit_identity_does_not_create_offline_card() {
    let id = mouse_identity("MX Master 3S");
    let cache = AssetResolver::new();
    let mut list = Vec::new();

    append_offline_known(
        &mut list,
        &vec![("direct:046d:b023:unit:00000000".to_string(), id)],
        &cache,
        &TextSet::new(),
    );

    assert!(list.is_empty());
}

#[test]
fn same_model_physical_bluetooth_devices_remain_distinct() {
    let mut id_a = mouse_identity("MX Master 3S");
    id_a.model_info = Some(model_info(2, 0xb034));
    let id_b = id_a.clone();
    let cache = AssetResolver::new();
    let mut list = Vec::new();

    append_offline_known(
        &mut list,
        &vec![
            ("direct:046d:b023:unit:01020304".to_string(), id_a),
            ("direct:046d:b023:unit:05060708".to_string(), id_b),
        ],
        &cache,
        &TextSet::new(),
    );

    assert_eq!(list.len(), 2);
}

#[test]
fn persisted_selection_does_not_target_transient_identity() {
    let stable = online_record("receiver:aabb:slot:1");
    let mut transient = online_record("direct:046d:b023:unit:00000000");
    transient.persistent = false;
    let list = vec![stable, transient];

    assert_eq!(
        pick_initial_device(&list, Some("direct:046d:b023:unit:00000000")),
        0
    );
}

#[test]
fn placeholders_for_absent_receivers_are_hidden() {
    let cache = AssetResolver::new();
    let mut list = Vec::new();
    append_offline_known(
        &mut list,
        &vec![(
            "receiver:aabb:slot:1".to_string(),
            mouse_identity("MX Master 3S"),
        )],
        &cache,
        &TextSet::new(),
    );
    assert!(list.is_empty());
    let mut present = TextSet::new();
    present.insert("aabb".to_string());
    append_offline_known(
        &mut list,
        &vec![(
            "receiver:aabb:slot:1".to_string(),
            mouse_identity("MX Master 3S"),
        )],
        &cache,
        &present,
    );
    assert_eq!(list.len(), 1);
}

#[test]
fn same_model_placeholder_is_blocked_by_a_live_unit() {
    let mut live = online_record("receiver:aabb:slot:2");
    live.model_key = "2b034".to_string();
    live.model_info = Some(model_info(2, 0xb034));
    let mut list = vec![live];
    let id = mouse_identity("MX Master 3S");
    let cache = AssetResolver::new();
    append_offline_known(
        &mut list,
        &vec![("0b034".to_string(), id)],
        &cache,
        &TextSet::new(),
    );
    assert_eq!(list.len(), 1);
}

#[test]
fn legacy_same_model_placeholders_collapse_to_one_card() {
    let id_a = mouse_identity("MX Master 3S");
    let id_b = mouse_identity("MX Master 3S");
    let cache = AssetResolver::new();
    let mut list = Vec::new();
    append_offline_known(
        &mut list,
        &vec![("0b034".to_string(), id_a), ("2b034".to_string(), id_b)],
        &cache,
        &TextSet::new(),
    );
    assert_eq!(list.len(), 1);
}

#[test]
fn direct_key_prefix_names_the_wire_product() {
    assert_eq!(
        direct_key_prefix("direct:046d:c09d:unit:46002e00").as_deref(),
        Some("direct:046d:c09d")
    );
    assert_eq!(
        direct_key_prefix("direct:046d:c09d:serial:abc123").as_deref(),
        Some("direct:046d:c09d")
    );
    assert_eq!(
        direct_key_prefix("direct:046d:c09d:unit:00000000").as_deref(),
        Some("direct:046d:c09d"),
        "transient keys share the prefix of their physical siblings"
    );
}

#[test]
fn non_direct_keys_have_no_wire_prefix() {
    assert_eq!(direct_key_prefix("receiver:da2699e1:slot:1"), None);
    assert_eq!(direct_key_prefix("unknown:slot:0:unit:00000000"), None);
    assert_eq!(direct_key_prefix("2b034"), None);
    assert_eq!(direct_key_prefix("direct:046d:c09d:"), None);
    assert_eq!(direct_key_prefix("direct:046d"), None);
}

#[test]
fn asset_kind_overrides_a_misreporting_hid_kind() {
    assert_eq!(
        effective_kind(DeviceKind::Keyboard, Some(DeviceKind::Mouse)),
        DeviceKind::Mouse
    );
}

#[test]
fn hid_kind_is_used_without_a_modelled_asset() {
    assert_eq!(effective_kind(DeviceKind::Mouse, None), DeviceKind::Mouse);
    assert_eq!(
        effective_kind(DeviceKind::Mouse, Some(DeviceKind::Unknown)),
        DeviceKind::Mouse
    );
}

#[test]
fn webcams_are_appended_as_camera_records() {
    let cache = AssetResolver::new();
    let list = build_device_list(&[], &cache, &Config::default(), &[streamcam()]);

    assert_eq!(list.len(), 1);
    assert_eq!(list[0].kind, DeviceKind::Camera);
    assert_eq!(list[0].config_key, "camera-0x1123000046d0893");
    assert_eq!(list[0].display_name, "Logitech StreamCam");
    assert!(list[0].route.is_none());
    assert!(list[0].capabilities.is_none());
    assert!(list[0].online);
}

#[test]
fn an_asset_gives_a_device_its_name_and_kind() {
    let mut cache = AssetResolver::new();
    cache.entries.push(AssetEntry {
        model: model_info(2, 0xb034),
        codename: Some("MX MASTER".to_string()),
        asset: ResolvedAsset {
            display_name: "MX Master 3S".to_string(),
            kind: DeviceKind::Mouse,
        },
    });
    let mut live = direct_inventory(model_info(2, 0xb034));
    live.paired[0].kind = DeviceKind::Keyboard;
    live.paired[0].codename = Some("MX MASTER".to_string());
    let list = build_device_list(&[live], &cache, &Config::default(), &[]);
    assert_eq!(list[0].display_name, "MX Master 3S");
    assert_eq!(list[0].kind, DeviceKind::Mouse);
}

#[test]
fn live_devices_come_in_the_same_order_whatever_order_they_were_found_in() {
    let cache = AssetResolver::new();
    let one = inventory_with(vec![
        paired_device_no_model_info(1, Some(0x4076)),
        paired_device_no_model_info(2, Some(0x4051)),
    ]);
    let two = inventory_with(vec![
        paired_device_no_model_info(2, Some(0x4051)),
        paired_device_no_model_info(1, Some(0x4076)),
    ]);
    let a = build_device_list(&[one], &cache, &Config::default(), &[]);
    let b = build_device_list(&[two], &cache, &Config::default(), &[]);
    let keys = |list: &[DeviceRecord]| -> Vec<String> {
        list.iter().map(|r| r.config_key.clone()).collect()
    };
    assert_eq!(keys(&a), keys(&b));
    assert_eq!(
        keys(&a),
        ["receiver:da2699e1:slot:1", "receiver:da2699e1:slot:2"]
    );
}

#[test]
fn sorting_keeps_every_record() {
    let mut list = vec![online_record("b"), online_record("a"), online_record("c")];
    list[0].display_name = "Zowie".to_string();
    sort_device_list(&mut list);
    assert_eq!(list.len(), 3);
    for key in ["a", "b", "c"] {
        assert!(list.iter().any(|r| r.config_key == key));
    }
}

#[test]
fn the_saved_device_is_selected_again() {
    let list = vec![online_record("A"), online_record("B")];
    assert_eq!(pick_initial_device(&list, Some("B")), 1);
    assert_eq!(pick_initial_device(&list, Some("gone")), 0);
    assert_eq!(pick_initial_device(&list, None), 0);
}

#[test]
fn stable_keys_follow_the_route() {
    let route = DeviceRoute::Bolt {
        receiver_uid: "AABB".to_string(),
        slot: 2,
    };
    let id = DeviceStableId::from_parts(Some(&route), 2, None, [0; 4]);
    assert_eq!(id.runtime_key(), "receiver:aabb:slot:2");
    assert!(id.physical_key().is_some());
    let direct = DeviceRoute::Direct {
        vendor_id: 0x046d,
        product_id: 0xc09d,
    };
    let unit = DeviceStableId::from_parts(Some(&direct), 255, None, [0x46, 0, 0x2e, 0]);
    assert_eq!(unit.runtime_key(), "direct:046d:c09d:unit:46002e00");
    let blank = DeviceStableId::from_parts(Some(&direct), 255, None, [0; 4]);
    assert!(blank.physical_key().is_none());
    assert!(PhysicalDeviceKey::is_transient("direct:046d:c09d:unit:00000000"));
    assert!(PhysicalDeviceKey::parse("direct:046d:c09d:unit:46002e00").is_some());
    assert!(PhysicalDeviceKey::parse("2b034").is_none());
}

#[test]
fn receivers_are_read_back_from_their_keys() {
    assert_eq!(
        receiver_uid_of("receiver:aabb:slot:1").as_deref(),
        Some("aabb")
    );
    assert_eq!(receiver_uid_of("2b034"), None);
}

#[test]
fn a_waking_device_takes_over_its_known_identity() {
    let known = online_record("direct:046d:b023:unit:01020304");
    let mut live = online_record("direct:046d:b023:unit:00000000");
    live.persistent = false;
    let adopted = adopt_transient_record(&known, live);
    assert_eq!(adopted.config_key, "direct:046d:b023:unit:01020304");
    assert!(adopted.persistent);
}

#[test]
fn shouted_codenames_are_title_cased() {
    assert_eq!(
        prettify_codename("G513 RGB MECHANICAL GAMING KEYBOARD"),
        "G513 RGB Mechanical Gaming Keyboard"
    );
    assert_eq!(prettify_codename("MX Master 3S"), "MX Master 3S");
    assert_eq!(prettify_codename("G915  TKL\tLIGHTSPEED"), "G915 TKL Lightspeed");
    assert_eq!(prettify_codename("\u{c9}LAN"), "\u{c9}lan");
    assert_eq!(prettify_codename(""), "");
}

#[test]
fn camera_records_carry_the_camera_id_as_serial() {
    let record = camera_record(&streamcam(), &AssetResolver::new());
    assert_eq!(record.serial_number.as_deref(), Some("0x1123000046d0893"));
    assert!(record.persistent);
}

#[test]
fn model_keys_are_read_back() {
    let model = model_info(2, 0xb034);
    let read = model_info_from_legacy_model_key(&model.config_key()).expect("model");
    assert_eq!(read.model_ids[0], 0xb034);
    assert_eq!(read.extended_model_id, 2);
    assert!(model_info_from_legacy_model_key("b034").is_none());
    assert!(model_info_from_legacy_model_key("slot3").is_none());
    assert_ne!(model.config_key(), model_info(0, 0xb034).config_key());
}

#[test]
fn remembered_devices_stay_in_the_list() {
    let mut config = Config::default();
    config.devices.insert(
        "direct:046d:b023:unit:01020304".to_string(),
        DeviceConfig {
            identity: Some(mouse_identity("MX Master 3S")),
            ..DeviceConfig::default()
        },
    );
    assert_eq!(config.known_identities().len(), 1);
    let list = build_device_list(&[], &AssetResolver::new(), &config, &[]);
    assert_eq!(list.len(), 1);
    assert!(!list[0].online && list[0].route.is_none());
    let mut live = direct_inventory(model_info(2, 0xb034));
    if let Some(model) = &mut live.paired[0].model_info {
        model.unit_id = [1, 2, 3, 4];
    }
    let list = build_device_list(&[live], &AssetResolver::new(), &config, &[]);
    assert_eq!(list.len(), 1);
    assert!(list[0].online, "the live device takes its place");
}

#[test]
fn different_devices_have_different_keys() {
    let direct = DeviceRoute::Direct {
        vendor_id: 0x046d,
        product_id: 0xc09d,
    };
    let key = |serial: Option<&str>, unit| {
        DeviceStableId::from_parts(Some(&direct), 255, serial, unit).runtime_key()
    };
    assert_ne!(key(None, [1, 0, 0, 0]), key(None, [0, 1, 0, 0]));
    assert_ne!(key(Some("a"), [0; 4]), key(Some("b"), [0; 4]));
}

fn remembered() -> Vec<(String, DeviceIdentity)> {
    let mut measured = mouse_identity("MX Master 3S");
    measured.model_info = Some(model_info(2, 0xb034));
    vec![
        ("wpid4076".to_string(), mouse_identity("K400")),
        ("2b034".to_string(), mouse_identity("legacy")),
        ("direct:046d:b023:unit:05060708".to_string(), measured.clone()),
        ("direct:046d:b023:unit:01020304".to_string(), measured),
        ("receiver:aabb:slot:2".to_string(), mouse_identity("away")),
    ]
}

#[test]
fn appending_twice_changes_nothing() {
    let cache = AssetResolver::new();
    let known = remembered();
    let mut list = vec![online_record("A")];
    append_offline_known(&mut list, &known, &cache, &TextSet::new());
    let once: Vec<String> = list.iter().map(|r| r.config_key.clone()).collect();
    assert_eq!(
        once,
        [
            "A",
            "direct:046d:b023:unit:01020304",
            "direct:046d:b023:unit:05060708",
            "wpid4076"
        ]
    );
    append_offline_known(&mut list, &known, &cache, &TextSet::new());
    let twice: Vec<String> = list.iter().map(|r| r.config_key.clone()).collect();
    assert_eq!(once, twice);
}

#[test]
fn placeholders_ignore_enumeration() {
    let cache = AssetResolver::new();
    let mut known = remembered();
    let mut first = vec![online_record("A")];
    append_offline_known(&mut first, &known, &cache, &TextSet::new());
    for _ in 0..known.len() {
        known.rotate_left(1);
        let mut list = vec![online_record("A")];
        append_offline_known(&mut list, &known, &cache, &TextSet::new());
        assert_eq!(format!("{list:?}"), format!("{first:?}"));
    }
    known.reverse();
    let mut list = vec![online_record("A")];
    append_offline_known(&mut list, &known, &cache, &TextSet::new());
    assert_eq!(format!("{list:?}"), format!("{first:?}"));
}

use hidpp::feature::smartshift::v0::WheelMode as WireWheelMode;
use openlogi::device_order::DeviceRoute;
use openlogi::lighting::{
    after_effects, effect_reports, per_key_reports, resolve_lighting, set_keyboard_color,
    set_keyboard_color_with, LightingMethod, LightingStep, Rgb, COLOR_LED_EFFECTS_FEATURE,
};
use openlogi::smartshift::{
    get_smartshift_status, is_missing_enhanced, legacy_status, open_smartshift, set_smartshift,
    set_smartshift_sensitivity, smartshift_to_wheel, status_write, toggle_smartshift,
    wheel_mode_to_smartshift, SmartShift, SmartShiftMode, SmartShiftStatus, SmartShiftWrite,
    WheelMode,
};
use openlogi::write::{
    classify_dpi_error, classify_hidpp_error, dump_features, entries_to_read, get_dpi, get_dpi_info,
    hidpp_feature_error_kind, open_feature, set_dpi, with_route, DpiCapabilities, FeatureEntry,
    HidppError, HidppFeatureErrorKind, HidppOperation, ReadBack, SharedChannel, WriteError,
};

#[test]
fn capabilities_sort_and_deduplicate_values() -> Result<(), WriteError> {
    let caps = DpiCapabilities::new(vec![1600, 400, 800, 800])?;

    assert_eq!(caps.values(), [400, 800, 1600]);
    assert_eq!(caps.min(), 400);
    assert_eq!(caps.max(), 1600);
    Ok(())
}

#[test]
fn capabilities_reject_empty_list() {
    assert!(matches!(
        DpiCapabilities::new(Vec::new()),
        Err(WriteError::EmptyDpiList)
    ));
}

#[test]
fn nearest_returns_closest_supported_value() -> Result<(), WriteError> {
    let caps = DpiCapabilities::new(vec![400, 800, 1600])?;

    assert_eq!(caps.nearest(390), 400);
    assert_eq!(caps.nearest(1000), 800);
    assert_eq!(caps.nearest(2000), 1600);
    Ok(())
}

#[test]
fn step_hint_returns_smallest_positive_gap() -> Result<(), WriteError> {
    let caps = DpiCapabilities::new(vec![400, 800, 1200, 2000])?;

    assert_eq!(caps.step_hint(), 400);
    Ok(())
}

#[test]
fn adjacent_test_target_prefers_next_then_previous_value() -> Result<(), WriteError> {
    let caps = DpiCapabilities::new(vec![400, 800, 1600])?;

    assert_eq!(caps.adjacent_test_target(400), Some(800));
    assert_eq!(caps.adjacent_test_target(800), Some(1600));
    assert_eq!(caps.adjacent_test_target(1600), Some(800));
    Ok(())
}

#[test]
fn adjacent_test_target_handles_current_outside_list() -> Result<(), WriteError> {
    let caps = DpiCapabilities::new(vec![400, 800, 1600])?;

    assert_eq!(caps.adjacent_test_target(1000), Some(1600));
    assert_eq!(caps.adjacent_test_target(2000), Some(1600));
    Ok(())
}

#[test]
fn smartshift_and_wheel_mode_byte_encodings_match() {
    // Both features share one wire encoding: free spin is 1 and ratchet is 2.
    assert_eq!(
        SmartShiftMode::Free.code(),
        u8::from(WireWheelMode::Freespin)
    );
    assert_eq!(
        SmartShiftMode::Ratchet.code(),
        u8::from(WireWheelMode::Ratchet)
    );
}

#[test]
fn wheel_mode_maps_to_smartshift_mode() {
    assert_eq!(
        wheel_mode_to_smartshift(WheelMode::Freespin),
        SmartShiftMode::Free
    );
    assert_eq!(
        wheel_mode_to_smartshift(WheelMode::Ratchet),
        SmartShiftMode::Ratchet
    );
}

#[test]
fn smartshift_to_wheel_round_trips() {
    for mode in [SmartShiftMode::Free, SmartShiftMode::Ratchet] {
        assert_eq!(wheel_mode_to_smartshift(smartshift_to_wheel(mode)), mode);
    }
}

#[test]
fn missing_enhanced_triggers_fallback() {
    assert!(is_missing_enhanced(&WriteError::FeatureUnsupported {
        feature_hex: 0x2111,
    }));
}

#[test]
fn missing_legacy_does_not_trigger_fallback() {
    assert!(!is_missing_enhanced(&WriteError::FeatureUnsupported {
        feature_hex: 0x2110,
    }));
}

#[test]
fn transport_errors_do_not_trigger_fallback() {
    assert!(!is_missing_enhanced(&WriteError::DeviceUnreachable {
        index: 0xff,
    }));
    assert!(!is_missing_enhanced(&WriteError::Hidpp("boom".to_string())));
}

#[test]
fn supported_values_snap_to_themselves() -> Result<(), WriteError> {
    let caps = DpiCapabilities::new(vec![400, 800, 1600])?;
    assert_eq!(caps.snap(800), 800);
    assert_eq!(caps.snap(1300), 1600);
    assert_eq!(caps.snap(600), 400);
    assert!(caps.contains(1600));
    assert!(!caps.contains(1500));
    assert_eq!(caps.adjacent_test_target(400), Some(800));
    Ok(())
}

#[test]
fn one_value_has_no_neighbour() -> Result<(), WriteError> {
    let caps = DpiCapabilities::new(vec![1000])?;
    assert_eq!(caps.adjacent_test_target(1000), None);
    assert_eq!(caps.step_hint(), 1);
    Ok(())
}

#[test]
fn feature_errors_keep_their_kind() {
    assert_eq!(hidpp_feature_error_kind(0), HidppFeatureErrorKind::NoError);
    assert_eq!(
        hidpp_feature_error_kind(2),
        HidppFeatureErrorKind::InvalidArgument
    );
    assert_eq!(hidpp_feature_error_kind(8), HidppFeatureErrorKind::Busy);
    assert_eq!(
        hidpp_feature_error_kind(200),
        HidppFeatureErrorKind::Unrecognized
    );
    let error = classify_hidpp_error(HidppError::Feature(8), HidppOperation::WriteDpi, 0x2201);
    assert_eq!(
        error.message(),
        "HID++ feature error during WriteDpi for feature 0x2201: Busy"
    );
    let reply = classify_hidpp_error(
        HidppError::UnsupportedResponse,
        HidppOperation::ReadDpi,
        0x2201,
    );
    assert_eq!(
        reply.message(),
        "HID++ unsupported response during ReadDpi for feature 0x2201"
    );
    assert!(matches!(
        classify_dpi_error(HidppError::Other("closed".to_string())),
        WriteError::Hidpp(_)
    ));
}

#[test]
fn write_errors_have_messages() {
    assert_eq!(
        WriteError::Hid("gone".to_string()).message(),
        "HID transport error: gone"
    );
    assert_eq!(
        WriteError::DeviceNotFound.message(),
        "no connected device matched the route"
    );
    assert_eq!(
        WriteError::DeviceUnreachable { index: 3 }.message(),
        "device at index 0x03 did not respond to HID++"
    );
    assert_eq!(
        WriteError::FeatureUnsupported {
            feature_hex: 0x2111
        }
        .message(),
        "device does not expose HID++ feature 0x2111"
    );
    assert_eq!(
        WriteError::FeatureUnsupported { feature_hex: 1 }.message(),
        "device does not expose HID++ feature 0x0001"
    );
    assert_eq!(
        WriteError::EmptyDpiList.message(),
        "device returned no supported DPI values"
    );
    assert_eq!(
        WriteError::RequestTimedOut {
            operation: HidppOperation::Lighting
        }
        .message(),
        "HID++ request timed out during Lighting"
    );
    assert_eq!(
        WriteError::RuntimeInit {
            message: "no threads".to_string()
        }
        .message(),
        "tokio runtime init failed: no threads"
    );
    assert_eq!(
        WriteError::AgentUnavailable.message(),
        "background agent is unavailable"
    );
}

#[test]
fn routes_must_lead_somewhere() {
    assert!(with_route(Ok(true), true, 1).is_ok());
    assert!(matches!(
        with_route(Ok(false), true, 1),
        Err(WriteError::DeviceNotFound)
    ));
    assert!(matches!(
        with_route(Ok(true), false, 7),
        Err(WriteError::DeviceUnreachable { index: 7 })
    ));
    assert!(matches!(
        with_route(Err(WriteError::AgentUnavailable), true, 1),
        Err(WriteError::AgentUnavailable)
    ));
}

#[test]
fn features_are_opened_by_their_index() {
    assert!(matches!(
        open_feature(Ok(()), Ok(Some(9)), HidppOperation::ReadDpi, 0x2201),
        Ok(9)
    ));
    assert!(matches!(
        open_feature(Ok(()), Ok(None), HidppOperation::ReadDpi, 0x2201),
        Err(WriteError::FeatureUnsupported {
            feature_hex: 0x2201
        })
    ));
}

#[test]
fn dumping_stops_at_the_first_failure() {
    let root = FeatureEntry { id: 0, version: 1 };
    let dump = dump_features(Ok(()), Ok(0), vec![Ok(root)]);
    assert!(matches!(&dump, Ok(list) if list.len() == 1 && list[0] == root));
    let failed = dump_features(
        Ok(()),
        Ok(1),
        vec![Ok(root), Err(HidppError::UnsupportedResponse)],
    );
    assert!(matches!(failed, Err(WriteError::UnsupportedResponse { .. })));
}

#[test]
fn dpi_is_read_and_written() {
    assert!(matches!(get_dpi(Ok(()), Ok(1600)), Ok(1600)));
    assert!(matches!(
        get_dpi(Err(WriteError::DeviceNotFound), Ok(1600)),
        Err(WriteError::DeviceNotFound)
    ));
    let info = get_dpi_info(Ok(()), Ok(1), Ok(800), Ok(vec![800, 400]));
    assert!(
        matches!(&info, Ok(i) if i.current == 800 && i.capabilities.values() == [400, 800])
    );
    assert!(matches!(
        get_dpi_info(Ok(()), Ok(1), Ok(800), Ok(Vec::new())),
        Err(WriteError::EmptyDpiList)
    ));
    assert!(matches!(
        set_dpi(Ok(()), Ok(()), 800, Some(800)),
        Ok(ReadBack::Verified)
    ));
    assert!(matches!(
        set_dpi(Ok(()), Ok(()), 800, Some(1600)),
        Ok(ReadBack::Different(1600))
    ));
    assert!(matches!(
        set_dpi(Ok(()), Ok(()), 800, None),
        Ok(ReadBack::Skipped)
    ));
    assert!(set_dpi(Ok(()), Err(HidppError::Feature(3)), 800, None).is_err());
}

#[test]
fn a_shared_channel_serves_its_own_route() {
    let route = DeviceRoute::Bolt {
        receiver_uid: "aabb".to_string(),
        slot: 2,
    };
    let channel = SharedChannel {
        route: route.clone(),
    };
    assert!(channel.matches(&route));
    assert!(channel.clone().matches(&route));
    assert_eq!(channel.device_index(), 2);
    assert!(!channel.matches(&DeviceRoute::Direct {
        vendor_id: 1,
        product_id: 2
    }));
}

#[test]
fn smartshift_falls_back_to_the_legacy_feature() {
    let missing = || WriteError::FeatureUnsupported {
        feature_hex: 0x2111,
    };
    assert!(matches!(
        open_smartshift(Ok(4), Err(WriteError::DeviceNotFound)),
        Ok(SmartShift::Enhanced)
    ));
    assert!(matches!(
        open_smartshift(Err(missing()), Ok(5)),
        Ok(SmartShift::Legacy)
    ));
    assert!(matches!(
        open_smartshift(Err(WriteError::DeviceNotFound), Ok(5)),
        Err(WriteError::DeviceNotFound)
    ));
}

#[test]
fn toggling_keeps_the_thresholds() {
    let status = SmartShiftStatus {
        mode: SmartShiftMode::Free,
        auto_disengage: 10,
        tunable_torque: 30,
    };
    let (mode, write) = toggle_smartshift(SmartShift::Enhanced, status);
    assert_eq!(mode, SmartShiftMode::Ratchet);
    assert_eq!(
        write,
        SmartShiftWrite::Enhanced {
            mode: SmartShiftMode::Ratchet,
            auto_disengage: 10,
            tunable_torque: 30,
        }
    );
    assert_eq!(mode.flipped(), SmartShiftMode::Free);
}

#[test]
fn lighting_prefers_the_effect_engine() {
    assert!(matches!(
        set_keyboard_color_with(LightingMethod::Auto),
        LightingStep::TryEffects
    ));
    assert!(matches!(
        set_keyboard_color_with(LightingMethod::PerKey),
        LightingStep::TryPerKey
    ));
    let missing = WriteError::FeatureUnsupported {
        feature_hex: COLOR_LED_EFFECTS_FEATURE,
    };
    assert!(matches!(
        after_effects(LightingMethod::Auto, Err(missing)),
        LightingStep::TryPerKey
    ));
    let missing = WriteError::FeatureUnsupported {
        feature_hex: COLOR_LED_EFFECTS_FEATURE,
    };
    assert!(matches!(
        after_effects(LightingMethod::Effects, Err(missing)),
        LightingStep::Done(Err(_))
    ));
    assert!(matches!(
        after_effects(LightingMethod::Auto, Ok(())),
        LightingStep::Done(Ok(()))
    ));
    assert!(matches!(
        resolve_lighting(Ok(()), Ok(Some(6)), 0x8070, Ok(true)),
        Ok(6)
    ));
    assert!(matches!(
        resolve_lighting(Ok(()), Ok(Some(6)), 0x8070, Ok(false)),
        Err(WriteError::DeviceNotFound)
    ));
}

#[test]
fn automatic_colour_falls_back_only_without_an_engine() {
    let missing = |feature_hex| Err(WriteError::FeatureUnsupported { feature_hex });
    let gone = || Err(WriteError::DeviceNotFound);
    assert!(set_keyboard_color(Ok(()), gone()).is_ok());
    assert!(set_keyboard_color(missing(0x8070), Ok(())).is_ok());
    assert!(matches!(
        set_keyboard_color(missing(0x8070), missing(0x8080)),
        Err(WriteError::FeatureUnsupported {
            feature_hex: 0x8080
        })
    ));
    assert!(matches!(
        set_keyboard_color(gone(), Ok(())),
        Err(WriteError::DeviceNotFound)
    ));
    assert!(matches!(
        set_keyboard_color(missing(0x8080), Ok(())),
        Err(WriteError::FeatureUnsupported {
            feature_hex: 0x8080
        })
    ));
}

#[test]
fn effect_reports_set_every_zone() {
    let reports = effect_reports(1, 6, Rgb { r: 1, g: 2, b: 3 });
    assert_eq!(reports.len(), 4);
    assert_eq!(
        reports[2],
        [0x11, 1, 6, 0x3a, 2, 0x01, 1, 2, 3, 0, 0, 0, 0, 0, 0, 0, 0, 0, 0, 0]
    );
}

#[test]
fn per_key_reports_light_every_key_once() {
    let reports = per_key_reports(0xff, 9, Rgb { r: 7, g: 8, b: 9 });
    assert_eq!(reports.len(), 18);
    assert!(reports[..17].iter().all(|r| r.len() == 64 && r[0] == 0x12));
    assert_eq!(reports[0][..12], [0x12, 0xff, 9, 0x3a, 0, 1, 0, 0x0e, 0, 7, 8, 9]);
    let mut keys: Vec<u8> = Vec::new();
    for (frame, report) in reports[..17].iter().enumerate() {
        let entries = if frame == 16 { 9 } else { 14 };
        for entry in report[8..].chunks(4).take(entries) {
            assert_eq!(entry[1..], [7, 8, 9]);
            keys.push(entry[0]);
        }
    }
    assert_eq!(keys, (0..=0xe8).collect::<Vec<u8>>());
    assert_eq!(reports[17].len(), 20);
    assert_eq!(reports[17][..4], [0x11, 0xff, 9, 0x5a]);
}

#[test]
fn the_legacy_wheel_has_no_torque() {
    let status = legacy_status(WheelMode::Ratchet, 12);
    assert_eq!(
        status,
        SmartShiftStatus {
            mode: SmartShiftMode::Ratchet,
            auto_disengage: 12,
            tunable_torque: 0,
        }
    );
    assert_eq!(
        status_write(SmartShift::Legacy, status),
        SmartShiftWrite::Legacy {
            wheel: WheelMode::Ratchet,
            auto_disengage: 12,
        }
    );
    assert!(matches!(
        get_smartshift_status(Ok(SmartShift::Legacy), Ok(status)),
        Ok(s) if s == status
    ));
    assert!(get_smartshift_status(
        Ok(SmartShift::Legacy),
        Err(HidppError::UnsupportedResponse)
    )
    .is_err());
}

#[test]
fn sensitivity_keeps_the_mode() {
    let status = SmartShiftStatus {
        mode: SmartShiftMode::Free,
        auto_disengage: 10,
        tunable_torque: 30,
    };
    assert_eq!(
        set_smartshift_sensitivity(SmartShift::Enhanced, status, 55),
        SmartShiftWrite::Enhanced {
            mode: SmartShiftMode::Free,
            auto_disengage: 55,
            tunable_torque: 30,
        }
    );
    assert!(set_smartshift(Ok(SmartShift::Enhanced), Ok(())).is_ok());
    assert!(matches!(
        set_smartshift(Ok(SmartShift::Enhanced), Err(HidppError::Feature(8))),
        Err(WriteError::HidppFeature {
            kind: HidppFeatureErrorKind::Busy,
            ..
        })
    ));
    assert!(matches!(
        set_smartshift(Err(WriteError::DeviceNotFound), Ok(())),
        Err(WriteError::DeviceNotFound)
    ));
}

#[test]
fn the_root_feature_is_read_besides_the_counted_ones() {
    assert_eq!(entries_to_read(0), 1);
    assert_eq!(entries_to_read(255), 256);
}

#[test]
fn unknown_wheel_modes_are_ratchets() {
    assert_eq!(
        wheel_mode_to_smartshift(WheelMode::Other),
        SmartShiftMode::Ratchet
    );
    assert_eq!(
        legacy_status(WheelMode::Other, 3).mode,
        SmartShiftMode::Ratchet
    );
}

#[test]
fn resolutions_are_copied_whole() {
    let info = get_dpi_info(Ok(()), Ok(1), Ok(800), Ok(vec![1600, 800])).expect("info");
    assert_eq!(info.clone(), info);
    let other = get_dpi_info(Ok(()), Ok(1), Ok(800), Ok(vec![800])).expect("info");
    assert_ne!(info, other);
}

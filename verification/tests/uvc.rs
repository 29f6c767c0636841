use openlogi::controls::{
    batch_outcome, settings_batch, AutoState, AutoToggle, CameraControl, ControlError,
    ControlRange, SettingWrite,
};
use openlogi::uvc::{
    apply_settings, control_range, control_ranges, decode, encode, location_hint,
    read_camera_state, scan_descriptors, set_auto, set_control, total_length, try_open,
    video_control_topology, AutoReplies, ControlRequest, DeviceSearch, Offer, RangeReplies,
    ServiceFacts, StateReplies, VcTopology, RT_GET, RT_SET, UVC_GET_CUR, UVC_SET_CUR,
};
use openlogi::uvc_windows::{
    auto_write, control_write, enumerate, find_source, has_auto, Prop, PropRange, PropReport,
    VideoSource, FLAG_AUTO, FLAG_MANUAL,
};

#[test]
fn unpadded_location_parses() {
    assert_eq!(location_hint("0x1123000046d0893"), Some(0x0112_3000));
}

#[test]
fn padded_location_parses() {
    assert_eq!(location_hint("0x14110000046d082d"), Some(0x1411_0000));
}

#[test]
fn too_short_ids_yield_no_hint() {
    assert_eq!(location_hint("0x46d0893"), None);
    assert_eq!(location_hint("46d0893"), None);
    assert_eq!(location_hint(""), None);
}

/// A video control interface with a camera terminal and a processing unit.
fn descriptors() -> Vec<u8> {
    let mut blob = vec![9, 2, 0, 0, 1, 1, 0, 0x80, 50];
    blob.extend([9, 4, 3, 0, 1, 0x0e, 1, 0, 0]);
    blob.extend([8, 0x24, 2, 7, 0x01, 0x02, 0, 0]);
    blob.extend([4, 0x24, 5, 5]);
    let n = blob.len() as u8;
    blob[2] = n;
    blob
}

fn topology() -> VcTopology {
    VcTopology {
        vc_interface: 3,
        processing_unit: 5,
        camera_terminal: Some(7),
    }
}

#[test]
fn descriptors_name_the_units() {
    assert_eq!(scan_descriptors(&descriptors()), Some(topology()));
    assert_eq!(scan_descriptors(&[]), None);
    assert_eq!(scan_descriptors(&[0, 0, 0]), None);
    // Without a processing unit there is nothing to control.
    let blob = descriptors();
    assert_eq!(scan_descriptors(&blob[..blob.len() - 4]), None);
    assert_eq!(
        video_control_topology(&[vec![9, 2, 9, 0, 0, 0, 0, 0, 0], descriptors()]),
        Some(topology())
    );
    assert_eq!(total_length([9, 2, 0x34, 0x12]), 0x1234);
}

#[test]
fn devices_open_only_for_their_vendor() {
    let facts = ServiceFacts {
        vendor_id: 0x046d,
        location: Some(4),
        opened: true,
        configurations: vec![descriptors()],
    };
    assert_eq!(try_open(&facts, 0x046d), Some((topology(), Some(4))));
    assert_eq!(try_open(&facts, 0x1234), None);
}

#[test]
fn the_camera_at_the_location_is_chosen() {
    let mut search = DeviceSearch::new("0x14110000046d082d");
    assert_eq!(search.offer(Some(Some(1))), Offer::Close);
    assert_eq!(search.offer(None), Offer::Close);
    assert_eq!(search.offer(Some(Some(0x1411_0000))), Offer::KeepAndStop);
    assert_eq!(search.finish(), Ok(2));
    let mut missing = DeviceSearch::new("0x14110000046d082d");
    missing.offer(Some(Some(1)));
    assert_eq!(missing.finish(), Err(ControlError::NotFound));
}

#[test]
fn cameras_that_cannot_be_told_apart_are_refused() {
    let mut one = DeviceSearch::new("");
    assert_eq!(one.offer(Some(None)), Offer::Keep);
    assert_eq!(one.finish(), Ok(0));
    let mut two = DeviceSearch::new("");
    assert_eq!(two.offer(Some(None)), Offer::Keep);
    assert_eq!(two.offer(Some(Some(9))), Offer::Close);
    assert_eq!(two.finish(), Err(ControlError::Ambiguous));
}

#[test]
fn requests_address_the_unit_of_the_control() {
    let get = topology().get_request(CameraControl::Zoom, UVC_GET_CUR);
    assert_eq!(
        get,
        Ok(ControlRequest {
            request_type: RT_GET,
            request: UVC_GET_CUR,
            value: 0x0b00,
            index: 0x0703,
            data: vec![0, 0],
        })
    );
    let set = topology().set_request(CameraControl::Brightness, -2);
    assert_eq!(
        set,
        Ok(ControlRequest {
            request_type: RT_SET,
            request: UVC_SET_CUR,
            value: 0x0200,
            index: 0x0503,
            data: vec![0xfe, 0xff],
        })
    );
    let lensless = VcTopology {
        camera_terminal: None,
        ..topology()
    };
    assert_eq!(
        lensless.get_request(CameraControl::Focus, UVC_GET_CUR),
        Err(ControlError::Unsupported)
    );
}

#[test]
fn automatic_modes_are_read_as_one_byte() {
    assert_eq!(
        topology().get_auto_request(AutoToggle::WhiteBalance, UVC_GET_CUR),
        Ok(ControlRequest {
            request_type: RT_GET,
            request: UVC_GET_CUR,
            value: 0x0b00,
            index: 0x0503,
            data: vec![0],
        })
    );
}

#[test]
fn windows_properties_tell_controls_apart() {
    for (i, a) in CameraControl::ALL.iter().enumerate() {
        for b in &CameraControl::ALL[i + 1..] {
            assert_ne!(a.prop(), b.prop());
        }
    }
}

#[test]
fn auto_exposure_tries_the_most_automatic_mode_first() {
    let modes = |toggle, on| -> Vec<u8> {
        match topology().set_auto_requests(toggle, on) {
            Ok(requests) => requests.iter().map(|r| r.data[0]).collect(),
            Err(_) => Vec::new(),
        }
    };
    assert_eq!(modes(AutoToggle::Exposure, true), [0x02, 0x08, 0x04]);
    assert_eq!(modes(AutoToggle::Exposure, false), [0x01]);
    assert_eq!(modes(AutoToggle::Focus, true), [1]);
    assert_eq!(modes(AutoToggle::WhiteBalance, false), [0]);
}

#[test]
fn values_are_read_back_as_they_were_written() {
    for (control, value) in [
        (CameraControl::Brightness, -7),
        (CameraControl::Contrast, 40000),
        (CameraControl::Exposure, 70000),
    ] {
        let data = encode(control, value);
        let mut bytes = [0; 4];
        bytes[..data.len()].copy_from_slice(&data);
        assert_eq!(decode(control, bytes), value);
    }
    assert_eq!(decode(CameraControl::Exposure, [0xff; 4]), i32::MAX);
}

fn replies(min: i16, max: i16, default: i16, current: Option<i16>) -> RangeReplies {
    let wire = |v: i16| {
        let b = v.to_le_bytes();
        [b[0], b[1], 0, 0]
    };
    RangeReplies {
        min: Some(wire(min)),
        max: Some(wire(max)),
        default: Some(wire(default)),
        current: current.map(wire),
    }
}

fn silence() -> RangeReplies {
    RangeReplies {
        min: None,
        max: None,
        default: None,
        current: None,
    }
}

#[test]
fn ranges_fall_back_to_the_factory_value() {
    assert_eq!(
        control_range(
            Ok(topology()),
            CameraControl::Brightness,
            &replies(-10, 10, 1, None)
        ),
        Ok(ControlRange {
            min: -10,
            max: 10,
            default: 1,
            current: 1,
        })
    );
    assert_eq!(
        control_range(Ok(topology()), CameraControl::Brightness, &silence()),
        Err(ControlError::Unsupported)
    );
    assert_eq!(
        control_range(
            Err(ControlError::NotFound),
            CameraControl::Brightness,
            &silence()
        ),
        Err(ControlError::NotFound)
    );
}

#[test]
fn refused_controls_are_left_out() {
    let all = || StateReplies {
        controls: (0..9)
            .map(|i| {
                if i == 3 {
                    replies(-10, 10, 0, Some(4))
                } else {
                    silence()
                }
            })
            .collect(),
        autos: (0..3)
            .map(|i| AutoReplies {
                current: if i == 1 { Some(1) } else { None },
                default: Some(2),
            })
            .collect(),
    };
    let state = read_camera_state(Ok(topology()), &all());
    assert!(matches!(&state, Ok(s) if s.controls.len() == 1
        && s.controls[0].0 == CameraControl::Brightness
        && s.controls[0].1.current == 4
        && s.autos == [(AutoToggle::Exposure, AutoState { current: false, default: true })]));
    let ranges = control_ranges(Ok(topology()), &all());
    assert!(matches!(&ranges, Ok(r) if r.len() == 1));
}

#[test]
fn writes_report_the_camera_answer() {
    assert_eq!(set_control(Ok(topology()), CameraControl::Zoom, true), Ok(()));
    assert_eq!(
        set_control(Ok(topology()), CameraControl::Zoom, false),
        Err(ControlError::Unsupported)
    );
    assert_eq!(
        set_auto(Ok(topology()), AutoToggle::Exposure, &[false, true]),
        Ok(())
    );
    assert_eq!(
        set_auto(Ok(topology()), AutoToggle::Exposure, &[false, false, false]),
        Err(ControlError::Unsupported)
    );
}

#[test]
fn a_batch_attempts_everything_and_reports_the_first_failure() {
    assert_eq!(
        settings_batch(
            &[(AutoToggle::Focus, false)],
            &[(CameraControl::Focus, 30)]
        ),
        [
            SettingWrite::Auto(AutoToggle::Focus, false),
            SettingWrite::Value(CameraControl::Focus, 30)
        ]
    );
    assert_eq!(batch_outcome(&[Ok(()), Ok(())]), Ok(()));
    let outcomes = [
        Ok(()),
        Err(ControlError::Io("first".to_string())),
        Err(ControlError::Unsupported),
    ];
    assert_eq!(
        apply_settings(Ok(topology()), &outcomes),
        Err(ControlError::Io("first".to_string()))
    );
    assert_eq!(
        apply_settings(Err(ControlError::NotFound), &[]),
        Err(ControlError::NotFound)
    );
}

#[test]
fn windows_cameras_are_known_by_their_path() {
    let sources = [
        VideoSource {
            device_path: Some("\\\\?\\usb#vid_046d&pid_0893#x".to_string()),
            friendly_name: Some("StreamCam".to_string()),
        },
        VideoSource {
            device_path: None,
            friendly_name: Some("Virtual".to_string()),
        },
    ];
    let cameras = enumerate(&sources);
    assert_eq!(cameras.len(), 1);
    assert_eq!(cameras[0].product_id, 0x0893);
    let paths = [None, Some("here".to_string())];
    assert_eq!(find_source(Ok(&paths), "here"), Ok(1));
    assert_eq!(find_source(Ok(&paths), "there"), Err(ControlError::NotFound));
    assert_eq!(
        find_source(Err("com".to_string()), "there"),
        Err(ControlError::Io("com".to_string()))
    );
}

#[test]
fn windows_writes_switch_to_manual() {
    let write = control_write(CameraControl::Zoom, 5);
    assert_eq!(write.value, 5);
    assert_eq!(write.flags, FLAG_MANUAL);
    assert!(matches!(write.prop, Prop::CameraControl(_)));
    assert_eq!(auto_write(AutoToggle::Focus, true, Some(9)).flags, FLAG_AUTO);
    assert!(has_auto(FLAG_AUTO | FLAG_MANUAL));
    assert!(!has_auto(FLAG_MANUAL));
    let report = PropReport {
        range: Some(PropRange {
            min: 0,
            max: 9,
            default: 3,
            caps: FLAG_MANUAL,
        }),
        present: Some((4, FLAG_MANUAL)),
    };
    assert_eq!(
        openlogi::uvc_windows::control_range(Ok(report)),
        Ok(ControlRange {
            min: 0,
            max: 9,
            default: 3,
            current: 4,
        })
    );
}

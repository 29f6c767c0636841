use openlogi::camera::{
    enumerate_all, enumerate_cameras, parse_device_path_ids, parse_vid_pid, Camera, RawCamera,
    LOGITECH_VID,
};
use openlogi::camera_preview::{
    active_camera_uid, build_image, swap_red_and_blue, CameraPreview, Picture, PreviewContent,
};
use openlogi::capture::{
    camera_access_granted, camera_authorization, capture_frame, decimated_frame, ensure_access,
    must_ask, open_session, request_access, target_width, CameraAuthorization, CameraStream, Capture,
    CaptureError, Frame, SessionStep,
};
use openlogi::capture_windows::{
    access_or_setup, activate_source, best_frame_size, find_link, negotiated, open_reader,
    reader_turn, sample_frame, start_stream, ReaderStep, SampleRead, SetupReport, StrideHint,
    E_ACCESSDENIED,
};
use openlogi::device::DeviceKind;
use openlogi::devices::{camera_record, AssetResolver};

#[test]
fn parses_logitech_streamcam_model_id() {
    assert_eq!(
        parse_vid_pid("UVC Camera VendorID_1133 ProductID_2195"),
        Some((0x046d, 0x0893))
    );
}

#[test]
fn rejects_model_id_without_usb_ids() {
    assert_eq!(parse_vid_pid("FaceTime HD Camera"), None);
    assert_eq!(parse_vid_pid("VendorID_1133 only"), None);
}

#[test]
fn from_raw_keeps_usb_cameras_and_drops_the_rest() {
    assert_eq!(
        Camera::from_raw(
            "Logitech StreamCam",
            "0x1123000046d0893",
            "UVC Camera VendorID_1133 ProductID_2195",
        ),
        Some(Camera {
            name: "Logitech StreamCam".to_string(),
            unique_id: "0x1123000046d0893".to_string(),
            vendor_id: LOGITECH_VID,
            product_id: 0x0893,
            max_resolution: None,
            max_fps: None,
        })
    );
    assert_eq!(
        Camera::from_raw("FaceTime HD Camera", "uuid", "FaceTime HD Camera"),
        None
    );
}

fn raw(name: &str, unique_id: &str, model_id: &str) -> RawCamera {
    RawCamera {
        name: name.to_string(),
        unique_id: unique_id.to_string(),
        model_id: model_id.to_string(),
        max_width: 1920,
        max_height: 1080,
        max_fps: 60,
    }
}

#[test]
fn only_logitech_cameras_are_enumerated() {
    let raws = [
        raw("StreamCam", "a", "UVC Camera VendorID_1133 ProductID_2195"),
        raw("Other", "b", "UVC Camera VendorID_1234 ProductID_1"),
        raw("FaceTime", "c", "FaceTime HD Camera"),
    ];
    assert_eq!(enumerate_all(&raws).len(), 2);
    let cameras = enumerate_cameras(&raws);
    assert_eq!(cameras.len(), 1);
    assert_eq!(cameras[0].unique_id, "a");
}

#[test]
fn device_paths_carry_usb_ids() {
    assert_eq!(
        parse_device_path_ids("\\\\?\\usb#vid_046d&pid_0893&mi_00#7&1#{65e8773d}\\global"),
        Some((0x046d, 0x0893))
    );
    assert_eq!(parse_device_path_ids("\\\\?\\root#virtual"), None);
}

#[test]
fn access_follows_the_authorization() {
    assert_eq!(camera_authorization(3), CameraAuthorization::Granted);
    assert_eq!(camera_authorization(0), CameraAuthorization::Undetermined);
    assert_eq!(camera_authorization(2), CameraAuthorization::Denied);
    assert!(camera_access_granted(3));
    assert!(must_ask(0));
    assert_eq!(request_access(Some(true), false), Some(true));
    assert_eq!(request_access(None, false), None);
    assert_eq!(request_access(None, true), Some(false));
    assert_eq!(ensure_access(0, true), Ok(()));
    assert_eq!(ensure_access(0, false), Err(CaptureError::AccessDenied));
    assert_eq!(ensure_access(2, true), Err(CaptureError::AccessDenied));
}

#[test]
fn sessions_open_step_by_step() {
    assert_eq!(
        open_session(SessionStep::Access, true, false),
        Ok(SessionStep::Device)
    );
    assert_eq!(
        open_session(SessionStep::AddInput, true, true),
        Ok(SessionStep::Preset)
    );
    assert_eq!(
        open_session(SessionStep::AddInput, true, false),
        Ok(SessionStep::Delegate)
    );
    assert_eq!(
        open_session(SessionStep::Device, false, false),
        Err(CaptureError::NotFound)
    );
    assert_eq!(
        open_session(SessionStep::AddOutput, false, true),
        Err(CaptureError::Setup("session rejected output".to_string()))
    );
    assert!(target_width(true) > 0);
    assert_eq!(target_width(false), 0);
}

#[test]
fn capture_errors_have_messages() {
    assert_eq!(
        CaptureError::Unsupported.message(),
        "camera capture is only implemented on macOS"
    );
    assert_eq!(
        CaptureError::Setup("x".to_string()).message(),
        "camera setup failed: x"
    );
    for e in [
        CaptureError::AccessDenied,
        CaptureError::NotFound,
        CaptureError::Timeout,
    ] {
        assert!(!e.message().is_empty());
    }
}

#[test]
fn rows_are_copied_without_their_padding() {
    // Two pixels per row, with four bytes of padding behind each row.
    let pixels = [
        1, 2, 3, 4, 5, 6, 7, 8, 0, 0, 0, 0, 9, 10, 11, 12, 13, 14, 15, 16, 0, 0, 0, 0,
    ];
    let frame = decimated_frame(&pixels, 12, 2, 2, 0);
    assert_eq!(
        frame,
        Some(Frame {
            width: 2,
            height: 2,
            bgra: (1..=16).collect(),
        })
    );
}

#[test]
fn wide_frames_are_decimated() {
    let pixels: Vec<u8> = (0..64).collect();
    // Four by four pixels, cut down to two by two.
    let frame = decimated_frame(&pixels, 16, 4, 4, 2);
    assert_eq!(
        frame,
        Some(Frame {
            width: 2,
            height: 2,
            bgra: vec![0, 1, 2, 3, 8, 9, 10, 11, 32, 33, 34, 35, 40, 41, 42, 43],
        })
    );
    assert_eq!(decimated_frame(&[], 0, 0, 0, 2), None);
}

#[test]
fn streams_keep_the_newest_frame() {
    let mut stream = CameraStream::new();
    assert!(stream.latest_frame().is_none());
    assert_eq!(stream.frame_generation(), 0);
    let frame = Frame {
        width: 1,
        height: 1,
        bgra: vec![1, 2, 3, 4],
    };
    stream.store(frame.clone());
    assert_eq!(stream.latest_frame(), Some(&frame));
    assert_eq!(stream.frame_generation(), 1);
    assert_eq!(stream.take_frame(), Some(frame));
    assert!(stream.latest_frame().is_none());
    stream.reset();
    assert_eq!(stream.frame_generation(), 1);
}

#[test]
fn polling_ends_with_a_frame_or_a_timeout() {
    let frame = || Frame {
        width: 1,
        height: 1,
        bgra: vec![0; 4],
    };
    assert!(matches!(
        capture_frame(Ok(()), Some(frame()), true),
        Capture::Done(Ok(_))
    ));
    assert!(matches!(
        capture_frame(Ok(()), None, false),
        Capture::Wait
    ));
    assert!(matches!(
        capture_frame(Ok(()), None, true),
        Capture::Done(Err(CaptureError::Timeout))
    ));
    assert!(matches!(
        capture_frame(Err(CaptureError::NotFound), Some(frame()), false),
        Capture::Done(Err(CaptureError::NotFound))
    ));
}

fn size(width: u64, height: u64) -> u64 {
    (width << 32) | height
}

#[test]
fn the_size_closest_to_the_preview_is_taken() {
    let sizes = [
        Some(size(640, 480)),
        None,
        Some(size(1920, 1080)),
        Some(size(1280, 720)),
    ];
    assert_eq!(best_frame_size(&sizes), Some(size(1280, 720)));
    assert_eq!(best_frame_size(&[None]), None);
    let hint = negotiated(size(640, 480), Some(0xffff_f600));
    assert_eq!(hint.stride, -2560);
    assert_eq!(negotiated(size(640, 480), None).stride, 2560);
}

#[test]
fn bottom_up_samples_are_turned_over() {
    let data: Vec<u8> = (0..8).collect();
    let down = StrideHint {
        width: 1,
        height: 2,
        stride: 4,
    };
    let up = StrideHint {
        width: 1,
        height: 2,
        stride: -4,
    };
    assert_eq!(
        sample_frame(&data, down).map(|f| f.bgra),
        Some(vec![0, 1, 2, 3, 4, 5, 6, 7])
    );
    assert_eq!(
        sample_frame(&data, up).map(|f| f.bgra),
        Some(vec![4, 5, 6, 7, 0, 1, 2, 3])
    );
    assert_eq!(sample_frame(&data[..7], down), None);
}

#[test]
fn windows_sessions_report_their_setup() {
    assert_eq!(
        find_link(&[None, Some("b".to_string())], "b"),
        Ok(1)
    );
    assert_eq!(find_link(&[None], "b"), Err(CaptureError::NotFound));
    assert_eq!(
        access_or_setup(E_ACCESSDENIED, "x".to_string()),
        CaptureError::AccessDenied
    );
    assert_eq!(
        access_or_setup(1, "x".to_string()),
        CaptureError::Setup("x".to_string())
    );
    assert_eq!(start_stream(SetupReport::Ready), Ok(()));
    assert_eq!(
        start_stream(SetupReport::Failed(CaptureError::NotFound)),
        Err(CaptureError::NotFound)
    );
    assert!(start_stream(SetupReport::Silent).is_err());
}

#[test]
fn the_preview_finds_its_camera() {
    let camera = Camera {
        name: "Logitech StreamCam".to_string(),
        unique_id: "0x1123000046d0893".to_string(),
        vendor_id: 0x046d,
        product_id: 0x0893,
        max_resolution: None,
        max_fps: None,
    };
    let mut record = camera_record(&camera, &AssetResolver::new());
    assert_eq!(
        active_camera_uid(Some(&record)).as_deref(),
        Some("0x1123000046d0893")
    );
    let mut preview = CameraPreview::new();
    assert_eq!(preview.content(false), PreviewContent::NoAccess);
    assert_eq!(
        preview.content(false).note(),
        Some("Enable Camera access in Settings to preview.")
    );
    assert_eq!(
        preview.sync_stream(Some(&record), true).as_deref(),
        Some("0x1123000046d0893")
    );
    preview.stream_started(true);
    assert_eq!(preview.sync_stream(Some(&record), true), None);
    assert!(preview.streaming);
    let picture = || Picture {
        width: 1,
        height: 1,
        bgra: vec![1, 2, 3, 4],
    };
    assert_eq!(preview.content(true), PreviewContent::Starting);
    assert!(preview.refresh(1, Some(picture())).is_none());
    assert_eq!(preview.content(true), PreviewContent::Picture);
    // The same frame again changes nothing; a newer one takes its place.
    assert!(preview.refresh(1, Some(picture())).is_none());
    assert!(preview.refresh(2, Some(picture())).is_some());
    record.kind = DeviceKind::Mouse;
    assert_eq!(preview.sync_stream(Some(&record), true), None);
    assert!(!preview.streaming);
    assert!(preview.refresh(3, None).is_some());
    assert_eq!(preview.content(true), PreviewContent::Starting);
}

#[test]
fn pictures_have_blue_first() {
    let picture = build_image(2, 1, &[1, 2, 3, 4, 5, 6, 7, 8]);
    assert!(matches!(&picture, Some(p) if p.bgra == [3, 2, 1, 4, 7, 6, 5, 8]));
    assert!(build_image(2, 1, &[0; 7]).is_none());
    let bytes = [9, 8, 7, 6, 5, 4];
    assert_eq!(swap_red_and_blue(&bytes), [7, 8, 9, 6, 5, 4]);
    assert_eq!(swap_red_and_blue(&swap_red_and_blue(&bytes)), bytes);
}

#[test]
fn readers_are_set_up_step_by_step() {
    let links = [Some("\\\\?\\USB#VID_046D".to_string())];
    assert_eq!(activate_source(&links, "\\\\?\\usb#vid_046d", Ok(())), Ok(0));
    assert_eq!(
        activate_source(&links, "other", Err((1, "x".to_string()))),
        Err(CaptureError::NotFound)
    );
    assert_eq!(
        open_reader(ReaderStep::Subtype, Ok(()), true),
        Ok(ReaderStep::FrameSize)
    );
    assert_eq!(
        open_reader(ReaderStep::Subtype, Ok(()), false),
        Ok(ReaderStep::SetType)
    );
    let refused = || Err((E_ACCESSDENIED, "no".to_string()));
    assert_eq!(
        open_reader(ReaderStep::Reader, refused(), false),
        Err(CaptureError::AccessDenied)
    );
    assert_eq!(
        open_reader(ReaderStep::SetType, refused(), false),
        Err(CaptureError::Setup("no".to_string()))
    );
}

#[test]
fn samples_become_frames_until_the_device_is_gone() {
    let hint = StrideHint {
        width: 1,
        height: 1,
        stride: 4,
    };
    let mut stream = CameraStream::new();
    let sample = SampleRead::Bytes(vec![1, 2, 3, 4]);
    assert!(reader_turn(&mut stream, &SampleRead::Nothing, hint, false));
    assert!(stream.latest_frame().is_none());
    assert!(reader_turn(&mut stream, &sample, hint, false));
    assert_eq!(stream.frame_generation(), 1);
    assert!(!reader_turn(&mut stream, &sample, hint, true));
    assert_eq!(stream.frame_generation(), 1);
    assert!(!reader_turn(&mut stream, &SampleRead::Failed, hint, false));
}

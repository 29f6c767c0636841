//! The panel of a device that is no pointer.

use vstd::prelude::*;

use crate::device::DeviceKind;
use crate::devices::DeviceRecord;

verus! {

/// What the panel of a device holds.
#[derive(Debug)]
pub struct DeviceView {
    /// The name of the device.
    pub title: String,
    /// What it is, or whether it is there.
    pub subtitle: &'static str,
    /// Whether the camera preview is shown.
    pub preview: bool,
    /// A note in place of a preview.
    pub note: Option<&'static str>,
}

/// The words under a device's name as characters.
pub open spec fn subtitle_text(record: DeviceRecord) -> Seq<char> {
    if record.kind == DeviceKind::Camera {
        "Logitech webcam · USB Video Class"@
    } else if record.online {
        "Connected"@
    } else {
        "Offline"@
    }
}

/// The words under a device's name.
pub fn subtitle(record: &DeviceRecord) -> (text: &'static str)
    ensures
        text@ == subtitle_text(*record),
{
    if record.kind == DeviceKind::Camera {
        "Logitech webcam · USB Video Class"
    } else if record.online {
        "Connected"
    } else {
        "Offline"
    }
}

/// The panel of a device: a camera has its preview, anything else an honest note.
pub fn device_view(record: &DeviceRecord) -> (view: DeviceView)
    ensures
        view.title == record.display_name,
        view.subtitle@ == subtitle_text(*record),
        view.preview == (record.kind == DeviceKind::Camera),
        match view.note {
            Some(note) => !view.preview && note@
                == "This device is detected, but configuration for it isn't available yet."@,
            None => view.preview,
        },
{
    let is_camera: bool = record.kind == DeviceKind::Camera;
    DeviceView {
        title: record.display_name.clone(),
        subtitle: subtitle(record),
        preview: is_camera,
        note: if is_camera {
            None
        } else {
            Some("This device is detected, but configuration for it isn't available yet.")
        },
    }
}

} // verus!

//! Camera controls over DirectShow.
//!
//! The platform exposes a camera's controls under two interfaces, one for the
//! image and one for the lens, each with a number per property and flags that say
//! whether the property runs automatically. This module maps the controls to
//! those numbers, picks the camera by its device path, and reads the replies.

use vstd::prelude::*;

use crate::camera::{path_ids, Camera};
use crate::controls::{
    all_controls, all_toggles, batch_outcome, first_failure, AutoState, AutoToggle, CameraControl,
    CameraState, ControlError, ControlRange,
};
use crate::text::{borrow_optional, optional_text, same_optional_text};

verus! {

/// The property runs automatically.
pub const FLAG_AUTO: i32 = 0x1;

/// The property is set by hand.
pub const FLAG_MANUAL: i32 = 0x2;

/// Which interface carries a control, with its property number.
#[derive(Debug, Clone, Copy, PartialEq, Eq, Structural)]
pub enum Prop {
    /// The image interface.
    VideoProcAmp(i32),
    /// The lens interface.
    CameraControl(i32),
}

impl CameraControl {
    /// The property that carries the control.
    pub open spec fn prop_of(self) -> Prop {
        match self {
            CameraControl::Zoom => Prop::CameraControl(3),
            CameraControl::Focus => Prop::CameraControl(6),
            CameraControl::Exposure => Prop::CameraControl(4),
            CameraControl::Brightness => Prop::VideoProcAmp(0),
            CameraControl::Contrast => Prop::VideoProcAmp(1),
            CameraControl::Saturation => Prop::VideoProcAmp(3),
            CameraControl::Sharpness => Prop::VideoProcAmp(4),
            CameraControl::WhiteBalance => Prop::VideoProcAmp(6),
            CameraControl::Tint => Prop::VideoProcAmp(2),
        }
    }

    /// The property that carries the control.
    pub fn prop(self) -> (prop: Prop)
        ensures
            prop == self.prop_of(),
    {
        match self {
            CameraControl::Zoom => Prop::CameraControl(3),
            CameraControl::Focus => Prop::CameraControl(6),
            CameraControl::Exposure => Prop::CameraControl(4),
            CameraControl::Brightness => Prop::VideoProcAmp(0),
            CameraControl::Contrast => Prop::VideoProcAmp(1),
            CameraControl::Saturation => Prop::VideoProcAmp(3),
            CameraControl::Sharpness => Prop::VideoProcAmp(4),
            CameraControl::WhiteBalance => Prop::VideoProcAmp(6),
            CameraControl::Tint => Prop::VideoProcAmp(2),
        }
    }
}

impl AutoToggle {
    /// The property whose flag backs the mode.
    pub open spec fn prop_of(self) -> Prop {
        match self {
            AutoToggle::Focus => CameraControl::Focus.prop_of(),
            AutoToggle::Exposure => CameraControl::Exposure.prop_of(),
            AutoToggle::WhiteBalance => CameraControl::WhiteBalance.prop_of(),
        }
    }

    /// The property whose flag backs the mode.
    pub fn prop(self) -> (prop: Prop)
        ensures
            prop == self.prop_of(),
    {
        match self {
            AutoToggle::Focus => CameraControl::Focus.prop(),
            AutoToggle::Exposure => CameraControl::Exposure.prop(),
            AutoToggle::WhiteBalance => CameraControl::WhiteBalance.prop(),
        }
    }
}

/// No two controls are carried by one property.
pub proof fn properties_tell_controls_apart(a: CameraControl, b: CameraControl)
    requires
        a.prop_of() == b.prop_of(),
    ensures
        a == b,
{
}

// ── Enumeration ─────────────────────────────────────────────────────────────

/// What the platform reports of one video source.
#[derive(Debug)]
pub struct VideoSource {
    /// The device path, when it has one.
    pub device_path: Option<String>,
    /// The friendly name, when it has one.
    pub friendly_name: Option<String>,
}

impl VideoSource {
    /// The source is a USB camera.
    pub open spec fn is_usb(self) -> bool {
        self.device_path matches Some(path) && path_ids(path@) is Some
    }

    /// `camera` is this source.
    pub open spec fn gives(self, camera: Camera) -> bool {
        self.device_path matches Some(path) && path_ids(path@) matches Some(ids) && camera.is_plain(
            match self.friendly_name {
                Some(name) => name@,
                None => "Camera"@,
            },
            path@,
            ids,
        )
    }
}

/// The USB cameras among the sources, in order. Virtual cameras carry no USB ids
/// and are dropped.
pub fn enumerate(sources: &[VideoSource]) -> (cameras: Vec<Camera>)
    ensures
        ({
            let usb = sources@.filter(|s: VideoSource| s.is_usb());
            &&& cameras@.len() == usb.len()
            &&& forall|i: int| 0 <= i < usb.len() ==> usb[i].gives(#[trigger] cameras@[i])
        }),
{
    let mut cameras: Vec<Camera> = Vec::new();
    let n: usize = sources.len();
    let mut i: usize = 0;
    proof {
        reveal(Seq::filter);
    }
    while i < n
        invariant
            i <= n,
            n == sources@.len(),
            ({
                let usb = sources@.take(i as int).filter(|s: VideoSource| s.is_usb());
                &&& cameras@.len() == usb.len()
                &&& forall|k: int| 0 <= k < usb.len() ==> usb[k].gives(#[trigger] cameras@[k])
            }),
        decreases n - i,
    {
        proof {
            reveal(Seq::filter);
            assert(sources@.take(i as int + 1).drop_last() =~= sources@.take(i as int));
        }
        let source: &VideoSource = &sources[i];
        match &source.device_path {
            Some(path) => match Camera::from_device_path(
                path.as_str(),
                borrow_optional(&source.friendly_name),
            ) {
                Some(camera) => {
                    cameras.push(camera);
                },
                None => {},
            },
            None => {},
        }
        i = i + 1;
    }
    assert(sources@.take(n as int) =~= sources@);
    cameras
}

/// The first source with this device path.
pub open spec fn source_at(paths: Seq<Option<String>>, unique_id: Seq<char>) -> Option<int>
    decreases paths.len(),
{
    if paths.len() == 0 {
        None
    } else {
        match source_at(paths.drop_last(), unique_id) {
            Some(i) => Some(i),
            None => if optional_text(paths.last()) == Some(unique_id) {
                Some(paths.len() - 1)
            } else {
                None
            },
        }
    }
}

/// The position of the source whose device path is `unique_id`. Only an exact
/// match counts: guessing could adjust the wrong hardware.
pub fn find_source(paths: Result<&[Option<String>], String>, unique_id: &str) -> (out: Result<
    usize,
    ControlError,
>)
    ensures
        match paths {
            Ok(p) => match source_at(p@, unique_id@) {
                Some(i) => out matches Ok(k) && k == i,
                None => out == Err::<usize, ControlError>(ControlError::NotFound),
            },
            Err(e) => out == Err::<usize, ControlError>(ControlError::Io(e)),
        },
{
    let list: &[Option<String>] = match paths {
        Ok(p) => p,
        Err(e) => {
            return Err(ControlError::Io(e));
        },
    };
    let n: usize = list.len();
    let mut i: usize = 0;
    while i < n
        invariant
            i <= n,
            n == list@.len(),
            paths == Ok::<&[Option<String>], String>(list),
            source_at(list@.take(i as int), unique_id@) is None,
        decreases n - i,
    {
        assert(list@.take(i as int + 1).drop_last() =~= list@.take(i as int));
        if same_optional_text(borrow_optional(&list[i]), Some(unique_id)) {
            proof {
                lemma_source_stays(list@, i as int + 1, unique_id@);
            }
            return Ok(i);
        }
        i = i + 1;
    }
    assert(list@.take(n as int) =~= list@);
    Err(ControlError::NotFound)
}

proof fn lemma_source_stays(paths: Seq<Option<String>>, n: int, unique_id: Seq<char>)
    requires
        0 <= n <= paths.len(),
        source_at(paths.take(n), unique_id) is Some,
    ensures
        source_at(paths, unique_id) == source_at(paths.take(n), unique_id),
    decreases paths.len(),
{
    if n < paths.len() {
        assert(paths.drop_last().take(n) =~= paths.take(n));
        lemma_source_stays(paths.drop_last(), n, unique_id);
    } else {
        assert(paths.take(n) =~= paths);
    }
}

// ── Reading ─────────────────────────────────────────────────────────────────

/// The bounds that a property reports.
#[derive(Debug, Clone, Copy, PartialEq, Eq, Structural)]
pub struct PropRange {
    /// Smallest value.
    pub min: i32,
    /// Largest value.
    pub max: i32,
    /// Factory value.
    pub default: i32,
    /// Flags that say how the property can run.
    pub caps: i32,
}

/// What reading a property gave; `None` where the camera lacks the property or
/// refused.
#[derive(Debug, Clone, Copy, PartialEq, Eq)]
pub struct PropReport {
    /// The bounds.
    pub range: Option<PropRange>,
    /// The present value, and flags that say how the property runs.
    pub present: Option<(i32, i32)>,
}

/// The lowest bit of the flags, which names the automatic mode, is set.
pub open spec fn automatic(flags: i32) -> bool {
    flags as int % 2 == 1
}

/// The range that a report gives. Without a present value the factory value
/// stands in.
pub open spec fn range_of(report: PropReport) -> Option<ControlRange> {
    match report.range {
        Some(r) => Some(
            ControlRange {
                min: r.min,
                max: r.max,
                default: r.default,
                current: match report.present {
                    Some(p) => p.0,
                    None => r.default,
                },
            },
        ),
        None => None,
    }
}

/// The state of an automatic mode that a report gives: none unless the property
/// can run automatically and tells whether it does. The platform reports no
/// factory mode; such properties leave the factory in automatic mode.
pub open spec fn auto_of(report: PropReport) -> Option<AutoState> {
    match (report.range, report.present) {
        (Some(r), Some(p)) => if automatic(r.caps) {
            Some(AutoState { current: automatic(p.1), default: true })
        } else {
            None
        },
        _ => None,
    }
}

fn read_range(report: &PropReport) -> (out: Option<ControlRange>)
    ensures
        out == range_of(*report),
{
    match report.range {
        Some(r) => Some(
            ControlRange {
                min: r.min,
                max: r.max,
                default: r.default,
                current: match report.present {
                    Some(p) => p.0,
                    None => r.default,
                },
            },
        ),
        None => None,
    }
}

fn read_auto(report: &PropReport) -> (out: Option<AutoState>)
    ensures
        out == auto_of(*report),
{
    match (report.range, report.present) {
        (Some(r), Some(p)) => if has_auto(r.caps) {
            Some(AutoState { current: has_auto(p.1), default: true })
        } else {
            None
        },
        _ => None,
    }
}

/// Whether flags name the automatic mode.
pub fn has_auto(flags: i32) -> (yes: bool)
    ensures
        yes == automatic(flags),
{
    let f: i64 = flags as i64;
    if f >= 0 {
        f % 2 == 1
    } else {
        (f + 0x1_0000_0000) % 2 == 1
    }
}

/// The range of one control.
pub fn control_range(opened: Result<PropReport, ControlError>) -> (out: Result<
    ControlRange,
    ControlError,
>)
    ensures
        match opened {
            Ok(report) => match range_of(report) {
                Some(range) => out == Ok::<ControlRange, ControlError>(range),
                None => out == Err::<ControlRange, ControlError>(ControlError::Unsupported),
            },
            Err(e) => out == Err::<ControlRange, ControlError>(e),
        },
{
    match opened {
        Ok(report) => match read_range(&report) {
            Some(range) => Ok(range),
            None => Err(ControlError::Unsupported),
        },
        Err(e) => Err(e),
    }
}

/// The reports of all controls and of all automatic modes, in their order.
#[derive(Debug)]
pub struct StateReports {
    /// Per control.
    pub controls: Vec<PropReport>,
    /// Per automatic mode.
    pub autos: Vec<PropReport>,
}

/// The supported ones among the first `n` controls.
pub open spec fn supported_controls(reports: Seq<PropReport>, n: int) -> Seq<
    (CameraControl, ControlRange),
>
    decreases n,
{
    if n <= 0 {
        Seq::empty()
    } else {
        let before = supported_controls(reports, n - 1);
        match range_of(reports[n - 1]) {
            Some(range) => before.push((all_controls()[n - 1], range)),
            None => before,
        }
    }
}

/// The supported ones among the first `n` automatic modes.
pub open spec fn supported_autos(reports: Seq<PropReport>, n: int) -> Seq<(AutoToggle, AutoState)>
    decreases n,
{
    if n <= 0 {
        Seq::empty()
    } else {
        let before = supported_autos(reports, n - 1);
        match auto_of(reports[n - 1]) {
            Some(state) => before.push((all_toggles()[n - 1], state)),
            None => before,
        }
    }
}

/// Every supported control and automatic mode of a camera.
pub fn read_camera_state(opened: Result<&StateReports, ControlError>) -> (out: Result<
    CameraState,
    ControlError,
>)
    requires
        opened matches Ok(reports) ==> reports.controls@.len() == 9 && reports.autos@.len() == 3,
    ensures
        match opened {
            Ok(reports) => out matches Ok(state) && state.controls@ == supported_controls(
                reports.controls@,
                9,
            ) && state.autos@ == supported_autos(reports.autos@, 3),
            Err(e) => out == Err::<CameraState, ControlError>(e),
        },
{
    let reports: &StateReports = match opened {
        Ok(reports) => reports,
        Err(e) => {
            return Err(e);
        },
    };
    let mut state: CameraState = CameraState::default();
    let controls: [CameraControl; 9] = CameraControl::ALL;
    assert(controls@ =~= all_controls());
    let mut i: usize = 0;
    while i < 9
        invariant
            i <= 9,
            reports.controls@.len() == 9,
            controls@ == all_controls(),
            state.autos@.len() == 0,
            state.controls@ == supported_controls(reports.controls@, i as int),
        decreases 9 - i,
    {
        match read_range(&reports.controls[i]) {
            Some(range) => {
                state.controls.push((controls[i], range));
            },
            None => {},
        }
        i = i + 1;
    }
    let toggles: [AutoToggle; 3] = AutoToggle::ALL;
    assert(toggles@ =~= all_toggles());
    let mut k: usize = 0;
    while k < 3
        invariant
            k <= 3,
            reports.autos@.len() == 3,
            toggles@ == all_toggles(),
            state.controls@ == supported_controls(reports.controls@, 9),
            state.autos@ == supported_autos(reports.autos@, k as int),
        decreases 3 - k,
    {
        match read_auto(&reports.autos[k]) {
            Some(auto_state) => {
                state.autos.push((toggles[k], auto_state));
            },
            None => {},
        }
        k = k + 1;
    }
    Ok(state)
}

/// Every supported control of a camera.
pub fn control_ranges(opened: Result<&StateReports, ControlError>) -> (out: Result<
    Vec<(CameraControl, ControlRange)>,
    ControlError,
>)
    requires
        opened matches Ok(reports) ==> reports.controls@.len() == 9 && reports.autos@.len() == 3,
    ensures
        match opened {
            Ok(reports) => out matches Ok(controls) && controls@ == supported_controls(
                reports.controls@,
                9,
            ),
            Err(e) => out == Err::<Vec<(CameraControl, ControlRange)>, ControlError>(e),
        },
{
    match read_camera_state(opened) {
        Ok(state) => Ok(state.controls),
        Err(e) => Err(e),
    }
}

// ── Writing ─────────────────────────────────────────────────────────────────

/// A write to a property.
#[derive(Debug, Clone, Copy, PartialEq, Eq, Structural)]
pub struct PropWrite {
    /// The property.
    pub prop: Prop,
    /// The value.
    pub value: i32,
    /// Automatic or manual.
    pub flags: i32,
}

/// The write that sets a control, which switches the property to manual.
pub fn control_write(control: CameraControl, value: i32) -> (out: PropWrite)
    ensures
        out == (PropWrite { prop: control.prop_of(), value, flags: FLAG_MANUAL }),
{
    PropWrite { prop: control.prop(), value, flags: FLAG_MANUAL }
}

/// The write that engages or releases an automatic mode, keeping the present
/// value in place; zero when it cannot be read.
pub fn auto_write(toggle: AutoToggle, on: bool, present: Option<i32>) -> (out: PropWrite)
    ensures
        out == (PropWrite {
            prop: toggle.prop_of(),
            value: match present {
                Some(v) => v,
                None => 0,
            },
            flags: if on {
                FLAG_AUTO
            } else {
                FLAG_MANUAL
            },
        }),
{
    PropWrite {
        prop: toggle.prop(),
        value: match present {
            Some(v) => v,
            None => 0,
        },
        flags: if on {
            FLAG_AUTO
        } else {
            FLAG_MANUAL
        },
    }
}

/// The outcome of a write: the error of opening the camera, or whether the camera
/// has the interface and took the write.
pub open spec fn write_outcome(opened: Result<bool, ControlError>) -> Result<(), ControlError> {
    match opened {
        Ok(true) => Ok(()),
        Ok(false) => Err(ControlError::Unsupported),
        Err(e) => Err(e),
    }
}

/// The outcome of writing a control.
pub fn set_control(opened: Result<bool, ControlError>) -> (out: Result<(), ControlError>)
    ensures
        out == write_outcome(opened),
{
    match opened {
        Ok(accepted) => if accepted {
            Ok(())
        } else {
            Err(ControlError::Unsupported)
        },
        Err(e) => Err(e),
    }
}

/// The outcome of switching an automatic mode.
pub fn set_auto(opened: Result<bool, ControlError>) -> (out: Result<(), ControlError>)
    ensures
        out == write_outcome(opened),
{
    set_control(opened)
}

/// The outcome of a batch of writes: the error of opening the camera, or the
/// first failure among the writes, all of which were attempted.
pub fn apply_settings(opened: Result<&[Result<(), ControlError>], ControlError>) -> (out: Result<
    (),
    ControlError,
>)
    ensures
        match opened {
            Ok(outcomes) => out == first_failure(outcomes@),
            Err(e) => out == Err::<(), ControlError>(e),
        },
{
    match opened {
        Ok(outcomes) => batch_outcome(outcomes),
        Err(e) => Err(e),
    }
}

} // verus!

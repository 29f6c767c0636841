//! Laws of writing to a device: which errors are told, which resolution is chosen, and what
//! the wheel and the lights are sent.

use vstd::prelude::*;

use crate::device_order::DeviceRoute;
use crate::lighting::{
    after_effects, effect_reports, key_at, key_frame, per_key_reports, resolve_lighting,
    set_keyboard_color, set_keyboard_color_with, LightingMethod, LightingStep, Rgb,
};
use crate::smartshift::{
    after_enhanced, get_smartshift_status, legacy_status, open_smartshift, set_smartshift,
    set_smartshift_sensitivity, smartshift_to_wheel, status_write, toggle_smartshift,
    wheel_mode_to_smartshift, AfterEnhanced, SmartShift, SmartShiftMode, SmartShiftStatus,
    SmartShiftWrite, WheelMode,
};
use crate::write::{
    classify_dpi_error, classify_hidpp_error, dump_features, entries_to_read, get_dpi, get_dpi_info,
    hidpp_feature_error_kind, listed_features, open_feature, set_dpi, with_route, DpiCapabilities,
    DpiInfo, FeatureEntry, HidppError, HidppFeatureErrorKind, HidppOperation, ReadBack,
    SharedChannel, WriteError,
};

verus! {

// ── Errors ──────────────────────────────────────────────────────────────────

/// The numbers of the protocol stand for the errors that it defines.
pub proof fn error_numbers_are_those_of_the_protocol(code: u8, kind: HidppFeatureErrorKind)
    requires
        call_ensures(hidpp_feature_error_kind, (code,), kind),
    ensures
        kind == HidppFeatureErrorKind::NoError <==> code == 0,
        kind == HidppFeatureErrorKind::Unknown <==> code == 1,
        kind == HidppFeatureErrorKind::InvalidArgument <==> code == 2,
        kind == HidppFeatureErrorKind::OutOfRange <==> code == 3,
        kind == HidppFeatureErrorKind::HwError <==> code == 4,
        kind == HidppFeatureErrorKind::LogitechInternal <==> code == 5,
        kind == HidppFeatureErrorKind::InvalidFeatureIndex <==> code == 6,
        kind == HidppFeatureErrorKind::InvalidFunctionId <==> code == 7,
        kind == HidppFeatureErrorKind::Busy <==> code == 8,
        kind == HidppFeatureErrorKind::Unsupported <==> code == 9,
        kind == HidppFeatureErrorKind::Unrecognized <==> code > 9,
{
}

/// An error of the protocol is told with the operation and the feature that it struck.
pub proof fn errors_tell_what_they_struck(
    error: HidppError,
    operation: HidppOperation,
    feature: u16,
    kind: HidppFeatureErrorKind,
    told: WriteError,
)
    requires
        call_ensures(classify_hidpp_error, (error, operation, feature), told),
        error matches HidppError::Feature(code) ==> call_ensures(
            hidpp_feature_error_kind,
            (code,),
            kind,
        ),
    ensures
        error is Feature ==> told == (WriteError::HidppFeature {
            operation,
            feature_hex: feature,
            kind,
        }),
        error is UnsupportedResponse ==> told == (WriteError::UnsupportedResponse {
            operation,
            feature_hex: feature,
        }),
        error matches HidppError::Other(text) ==> told == WriteError::Hidpp(text),
{
}

/// A device whose firmware has the resolution feature but not its list is told to lack the
/// feature; every other error is told as one of reading the list.
pub proof fn devices_without_the_list_lack_the_feature(
    error: HidppError,
    told: WriteError,
    plain: WriteError,
)
    requires
        call_ensures(classify_dpi_error, (error,), told),
        call_ensures(
            classify_hidpp_error,
            (error, HidppOperation::ReadDpiCapabilities, 0x2201u16),
            plain,
        ),
    ensures
        error is UnsupportedResponse || error == HidppError::Feature(7) || error
            == HidppError::Feature(9) <==> told == (WriteError::FeatureUnsupported {
            feature_hex: 0x2201,
        }),
        error is Feature && error != HidppError::Feature(7) && error != HidppError::Feature(9)
            || error is Other ==> told == plain,
{
}

/// Every error reads as what it is.
pub proof fn write_errors_can_be_read(e: WriteError, text: String)
    requires
        call_ensures(WriteError::message, (&e,), text),
    ensures
        e matches WriteError::Hid(why) ==> text@ == "HID transport error: "@ + why@,
        e is DeviceNotFound ==> text@ == "no connected device matched the route"@,
        e is EmptyDpiList ==> text@ == "device returned no supported DPI values"@,
        e matches WriteError::Hidpp(why) ==> text@ == "HID++ protocol error: "@ + why@,
        e matches WriteError::DeviceUnreachable { index } ==> text@ == "device at index 0x"@
            + crate::text::zero_padded(crate::text::hex(index as nat), 2)
            + " did not respond to HID++"@,
        e matches WriteError::FeatureUnsupported { feature_hex } ==> text@
            == "device does not expose HID++ feature 0x"@ + crate::text::hex4(feature_hex as nat),
        e matches WriteError::RuntimeInit { message } ==> text@ == "tokio runtime init failed: "@
            + message@,
        e is AgentUnavailable ==> text@ == "background agent is unavailable"@,
        e matches WriteError::RequestTimedOut { operation } ==> text@
            == "HID++ request timed out during "@ + operation.name_text(),
        e matches WriteError::UnsupportedResponse { operation, feature_hex } ==> text@
            == "HID++ unsupported response during "@ + operation.name_text() + " for feature 0x"@
            + crate::text::hex4(feature_hex as nat),
        e matches WriteError::HidppFeature { operation, feature_hex, kind } ==> text@
            == "HID++ feature error during "@ + operation.name_text() + " for feature 0x"@
            + crate::text::hex4(feature_hex as nat) + ": "@ + kind.name_text(),
{
}

/// Operations and errors are named in messages as they are named in the protocol.
pub proof fn operations_and_errors_have_names(
    operation: HidppOperation,
    kind: HidppFeatureErrorKind,
    named: &'static str,
    called: &'static str,
)
    requires
        call_ensures(HidppOperation::name, (operation,), named),
        call_ensures(HidppFeatureErrorKind::name, (kind,), called),
    ensures
        operation == HidppOperation::ResolveFeature ==> named@ == "ResolveFeature"@,
        operation == HidppOperation::DumpFeatures ==> named@ == "DumpFeatures"@,
        operation == HidppOperation::ReadDpi ==> named@ == "ReadDpi"@,
        operation == HidppOperation::ReadDpiCapabilities ==> named@ == "ReadDpiCapabilities"@,
        operation == HidppOperation::WriteDpi ==> named@ == "WriteDpi"@,
        operation == HidppOperation::ReadSmartShift ==> named@ == "ReadSmartShift"@,
        operation == HidppOperation::WriteSmartShift ==> named@ == "WriteSmartShift"@,
        operation == HidppOperation::Lighting ==> named@ == "Lighting"@,
        kind == HidppFeatureErrorKind::NoError ==> called@ == "NoError"@,
        kind == HidppFeatureErrorKind::Unknown ==> called@ == "Unknown"@,
        kind == HidppFeatureErrorKind::InvalidArgument ==> called@ == "InvalidArgument"@,
        kind == HidppFeatureErrorKind::OutOfRange ==> called@ == "OutOfRange"@,
        kind == HidppFeatureErrorKind::HwError ==> called@ == "HwError"@,
        kind == HidppFeatureErrorKind::LogitechInternal ==> called@ == "LogitechInternal"@,
        kind == HidppFeatureErrorKind::InvalidFeatureIndex ==> called@ == "InvalidFeatureIndex"@,
        kind == HidppFeatureErrorKind::InvalidFunctionId ==> called@ == "InvalidFunctionId"@,
        kind == HidppFeatureErrorKind::Busy ==> called@ == "Busy"@,
        kind == HidppFeatureErrorKind::Unsupported ==> called@ == "Unsupported"@,
        kind == HidppFeatureErrorKind::Unrecognized ==> called@ == "Unrecognized"@,
{
}

// ── Reaching a feature ──────────────────────────────────────────────────────

/// A device is reached exactly when a channel leads to it and it answers. A channel that
/// fails gives its own error, a missing one that no device is there, silence that the device
/// at this index is unreachable.
pub proof fn devices_are_reached_when_they_answer(
    channel: Result<bool, WriteError>,
    answers: bool,
    index: u8,
    out: Result<(), WriteError>,
)
    requires
        call_ensures(with_route, (channel, answers, index), out),
    ensures
        out is Ok <==> channel == Ok::<bool, WriteError>(true) && answers,
        channel matches Err(e) ==> out == Err::<(), WriteError>(e),
        channel == Ok::<bool, WriteError>(false) ==> out == Err::<(), WriteError>(
            WriteError::DeviceNotFound,
        ),
        channel == Ok::<bool, WriteError>(true) && !answers ==> out == Err::<(), WriteError>(
            WriteError::DeviceUnreachable { index },
        ),
{
}

/// A feature opens at the index that the device gives it. A device without it is told to
/// lack that very feature, and an unreachable device is asked nothing.
pub proof fn features_open_where_the_device_says(
    reached: Result<(), WriteError>,
    lookup: Result<Option<u8>, HidppError>,
    operation: HidppOperation,
    feature: u16,
    out: Result<u8, WriteError>,
)
    requires
        call_ensures(open_feature, (reached, lookup, operation, feature), out),
    ensures
        reached matches Err(e) ==> out == Err::<u8, WriteError>(e),
        reached is Ok ==> (lookup matches Ok(Some(index)) ==> out == Ok::<u8, WriteError>(index)),
        reached is Ok && lookup == Ok::<Option<u8>, HidppError>(None) ==> out == Err::<
            u8,
            WriteError,
        >(WriteError::FeatureUnsupported { feature_hex: feature }),
        reached is Ok ==> (lookup matches Err(HidppError::UnsupportedResponse) ==> out == Err::<
            u8,
            WriteError,
        >(WriteError::UnsupportedResponse { operation, feature_hex: feature })),
        reached is Ok ==> (lookup matches Err(HidppError::Other(text)) ==> out == Err::<
            u8,
            WriteError,
        >(WriteError::Hidpp(text))),
        reached is Ok ==> (lookup matches Err(HidppError::Feature(_)) ==> (out matches Err(
            WriteError::HidppFeature { operation: struck, feature_hex, .. },
        ) && struck == operation && feature_hex == feature)),
        out is Ok ==> reached is Ok && (lookup matches Ok(found) && found is Some),
{
}

/// Every table of features has the root feature before those it counts.
pub proof fn the_root_feature_is_read_too(count: u8, n: usize)
    requires
        call_ensures(entries_to_read, (count,), n),
    ensures
        n == count + 1,
{
}

proof fn lemma_listed_all(entries: Seq<Result<FeatureEntry, HidppError>>)
    ensures
        listed_features(entries) is Ok <==> forall|i: int|
            0 <= i < entries.len() ==> #[trigger] entries[i] is Ok,
        listed_features(entries) matches Ok(list) ==> list.len() == entries.len() && forall|i: int|
            0 <= i < entries.len() ==> #[trigger] entries[i] == Ok::<FeatureEntry, HidppError>(
                list[i],
            ),
    decreases entries.len(),
{
    if entries.len() > 0 {
        let front = entries.drop_last();
        lemma_listed_all(front);
        assert(forall|i: int| 0 <= i < front.len() ==> front[i] == #[trigger] entries[i]);
        if listed_features(front) is Ok && entries.last() is Ok {
            assert(listed_features(entries) is Ok);
            assert forall|i: int| 0 <= i < entries.len() implies #[trigger] entries[i] is Ok by {
                if i < front.len() {
                    assert(front[i] is Ok);
                }
            }
        } else if listed_features(front) is Err {
            let i = choose|i: int| 0 <= i < front.len() && !(#[trigger] front[i] is Ok);
            assert(!(entries[i] is Ok));
        } else {
            assert(!(entries[entries.len() - 1] is Ok));
        }
    }
}

/// A listing of features holds every entry that was read, in order, or fails as a whole.
pub proof fn listings_are_complete(
    count: u8,
    entries: Vec<Result<FeatureEntry, HidppError>>,
    out: Result<Vec<FeatureEntry>, WriteError>,
)
    requires
        call_ensures(dump_features, (Ok(()), Ok(count), entries), out),
    ensures
        out is Ok <==> forall|i: int|
            0 <= i < entries@.len() ==> #[trigger] entries@[i] is Ok,
        out matches Ok(list) ==> list@.len() == entries@.len() && forall|i: int|
            0 <= i < entries@.len() ==> #[trigger] entries@[i] == Ok::<FeatureEntry, HidppError>(
                list@[i],
            ),
{
    lemma_listed_all(entries@);
}

/// What fails before the entries are read is what the listing reports.
pub proof fn listings_report_what_came_first(
    opened: Result<(), WriteError>,
    count: Result<u8, HidppError>,
    entries: Vec<Result<FeatureEntry, HidppError>>,
    out: Result<Vec<FeatureEntry>, WriteError>,
)
    requires
        call_ensures(dump_features, (opened, count, entries), out),
    ensures
        opened matches Err(e) ==> out == Err::<Vec<FeatureEntry>, WriteError>(e),
        opened is Ok ==> (count matches Err(HidppError::UnsupportedResponse) ==> out == Err::<
            Vec<FeatureEntry>,
            WriteError,
        >(
            WriteError::UnsupportedResponse {
                operation: HidppOperation::DumpFeatures,
                feature_hex: 0x0001,
            },
        )),
        opened is Ok ==> (count matches Err(HidppError::Other(text)) ==> out == Err::<
            Vec<FeatureEntry>,
            WriteError,
        >(WriteError::Hidpp(text))),
{
}

// ── Pointer resolution ──────────────────────────────────────────────────────

/// The resolutions of a device are those that it reported, in order, each once.
pub proof fn resolutions_are_those_reported(
    reported: Vec<u16>,
    capabilities: DpiCapabilities,
    values: &[u16],
    least: u16,
    greatest: u16,
    asked: u16,
    has: bool,
)
    requires
        call_ensures(
            DpiCapabilities::new,
            (reported,),
            Ok::<DpiCapabilities, WriteError>(capabilities),
        ),
        call_ensures(DpiCapabilities::values, (&capabilities,), values),
        call_ensures(DpiCapabilities::min, (&capabilities,), least),
        call_ensures(DpiCapabilities::max, (&capabilities,), greatest),
        call_ensures(DpiCapabilities::contains, (&capabilities, asked), has),
    ensures
        forall|i: int, j: int| 0 <= i < j < values@.len() ==> values@[i] < values@[j],
        forall|v: u16| values@.contains(v) <==> #[trigger] reported@.contains(v),
        has <==> reported@.contains(asked),
        reported@.contains(least),
        reported@.contains(greatest),
        reported@.contains(asked) ==> least <= asked <= greatest,
        least == values@[0],
        greatest == values@[values@.len() - 1],
{
    assert(capabilities.supported() == values@);
    assert(values@.contains(values@[0]));
    assert(values@.contains(values@[values@.len() - 1]));
    let i = choose|i: int| 0 <= i < values@.len() && values@[i] == least;
    let j = choose|j: int| 0 <= j < values@.len() && values@[j] == greatest;
    assert(reported@.contains(values@[0]));
    assert(capabilities.supported().contains(least));
    assert(least <= capabilities.supported()[0]);
    assert(capabilities.supported()[values@.len() - 1] <= greatest);
    if reported@.contains(asked) {
        let k = choose|k: int| 0 <= k < values@.len() && values@[k] == asked;
        assert(capabilities.supported()[k] == asked);
    }
}

/// Only an empty report is refused.
pub proof fn only_empty_reports_are_refused(
    reported: Vec<u16>,
    out: Result<DpiCapabilities, WriteError>,
)
    requires
        call_ensures(DpiCapabilities::new, (reported,), out),
    ensures
        out is Err <==> reported@.len() == 0,
        out matches Err(e) ==> e == WriteError::EmptyDpiList,
{
}

/// The chosen resolution is supported, and none that is supported lies nearer to the wish;
/// of two that lie equally near it is the lower one.
pub proof fn the_nearest_resolution_is_chosen(
    capabilities: DpiCapabilities,
    wish: u32,
    chosen: u16,
    snapped: u32,
    other: u16,
)
    requires
        call_ensures(DpiCapabilities::nearest, (&capabilities, wish), chosen),
        call_ensures(DpiCapabilities::snap, (&capabilities, wish), snapped),
        capabilities.supported().contains(other),
    ensures
        capabilities.supported().contains(chosen),
        snapped == chosen,
        wish <= chosen && wish <= other ==> chosen <= other,
        wish >= chosen && wish >= other ==> other <= chosen,
        chosen < wish < other ==> wish - chosen <= other - wish,
        other < wish < chosen ==> chosen - wish < wish - other,
{
    let i = choose|i: int|
        0 <= i < capabilities.supported().len() && capabilities.supported()[i] == other;
    assert(capabilities.supported()[i] == other);
    crate::write::nearest_is_unique(capabilities, wish, chosen, snapped as u16);
}

/// The step of a slider is the least distance between two neighbouring resolutions.
pub proof fn steps_are_the_least_distance(
    reported: Vec<u16>,
    capabilities: DpiCapabilities,
    step: u16,
    a: u16,
    b: u16,
)
    requires
        call_ensures(
            DpiCapabilities::new,
            (reported,),
            Ok::<DpiCapabilities, WriteError>(capabilities),
        ),
        call_ensures(DpiCapabilities::step_hint, (&capabilities,), step),
        reported@.contains(a),
        reported@.contains(b),
        a < b,
    ensures
        0 < step <= b - a,
        exists|x: u16, y: u16| #[trigger]
            reported@.contains(x) && #[trigger] reported@.contains(y) && y - x == step,
{
    let s = capabilities.supported();
    assert(s.contains(a) && s.contains(b));
    let i = choose|i: int| 0 <= i < s.len() && s[i] == a;
    let j = choose|j: int| 0 <= j < s.len() && s[j] == b;
    assert(i < j);
    assert(step <= capabilities.gap(i));
    assert(s[i + 1] <= s[j]);
    let k = choose|k: int| 0 <= k < s.len() - 1 && step == #[trigger] capabilities.gap(k);
    assert(s.contains(s[k]) && s.contains(s[k + 1]));
    assert(reported@.contains(s[k]) && reported@.contains(s[k + 1]));
}

/// A device with a single resolution moves by one.
pub proof fn single_resolutions_step_by_one(capabilities: DpiCapabilities, step: u16)
    requires
        call_ensures(DpiCapabilities::step_hint, (&capabilities,), step),
        capabilities.supported().len() < 2,
    ensures
        step == 1,
{
}

/// A trial write goes to the resolution next above the current one, or below it where there
/// is none above; a device with a single resolution gets none.
pub proof fn trials_go_to_a_neighbour(
    capabilities: DpiCapabilities,
    current: u16,
    target: Option<u16>,
    other: u16,
)
    requires
        call_ensures(DpiCapabilities::adjacent_test_target, (&capabilities, current), target),
        capabilities.supported().contains(other),
    ensures
        target is None <==> capabilities.supported().len() < 2,
        target matches Some(t) ==> {
            &&& capabilities.supported().contains(t)
            &&& t != current
            &&& other > current ==> current < t <= other
            &&& t < current ==> other <= current && (other < current ==> other <= t)
        },
{
    let i = choose|i: int|
        0 <= i < capabilities.supported().len() && capabilities.supported()[i] == other;
    assert(capabilities.supported()[i] == other);
}

/// Reading the resolution gives what the device said, or names the operation that failed.
pub proof fn resolutions_are_read_as_they_are(
    opened: Result<(), WriteError>,
    reading: Result<u16, HidppError>,
    out: Result<u16, WriteError>,
)
    requires
        call_ensures(get_dpi, (opened, reading), out),
    ensures
        opened matches Err(e) ==> out == Err::<u16, WriteError>(e),
        opened is Ok ==> (reading matches Ok(dpi) ==> out == Ok::<u16, WriteError>(dpi)),
        opened is Ok ==> (reading matches Err(HidppError::UnsupportedResponse) ==> out == Err::<
            u16,
            WriteError,
        >(
            WriteError::UnsupportedResponse {
                operation: HidppOperation::ReadDpi,
                feature_hex: 0x2201,
            },
        )),
        out is Ok ==> opened is Ok && reading is Ok,
{
}

/// What a device tells of its resolution is shown as it is: the current one and the list.
/// A device without a sensor lacks the feature.
pub proof fn resolution_reports_are_shown_as_they_are(
    sensors: u8,
    current: u16,
    values: Vec<u16>,
    out: Result<DpiInfo, WriteError>,
)
    requires
        call_ensures(get_dpi_info, (Ok(()), Ok(sensors), Ok(current), Ok(values)), out),
    ensures
        sensors == 0 ==> out == Err::<DpiInfo, WriteError>(
            WriteError::FeatureUnsupported { feature_hex: 0x2201 },
        ),
        sensors > 0 && values@.len() == 0 ==> out == Err::<DpiInfo, WriteError>(
            WriteError::EmptyDpiList,
        ),
        sensors > 0 && values@.len() > 0 ==> out is Ok,
        out matches Ok(info) ==> info.current == current && forall|v: u16|
            info.capabilities.supported().contains(v) <==> #[trigger] values@.contains(v),
{
}

/// Of several failures of reading the resolutions the first is told, in the order of the
/// reads.
pub proof fn resolution_reports_fail_in_order(
    opened: Result<(), WriteError>,
    sensors: Result<u8, HidppError>,
    current: Result<u16, HidppError>,
    values: Result<Vec<u16>, HidppError>,
    out: Result<DpiInfo, WriteError>,
)
    requires
        call_ensures(get_dpi_info, (opened, sensors, current, values), out),
    ensures
        opened matches Err(e) ==> out == Err::<DpiInfo, WriteError>(e),
        opened is Ok ==> (sensors matches Err(HidppError::Other(text)) ==> out == Err::<
            DpiInfo,
            WriteError,
        >(WriteError::Hidpp(text))),
        opened is Ok && (sensors matches Ok(n) && n > 0) ==> (current matches Err(
            HidppError::Other(text),
        ) ==> out == Err::<DpiInfo, WriteError>(WriteError::Hidpp(text))),
        opened is Ok && (sensors matches Ok(n) && n > 0) && current is Ok ==> (values matches Err(
            HidppError::Other(text),
        ) ==> out == Err::<DpiInfo, WriteError>(WriteError::Hidpp(text))),
        out is Ok ==> opened is Ok && sensors is Ok && current is Ok && values is Ok,
{
}

/// A written resolution is held against what the device then reports.
pub proof fn writes_are_checked(
    written: Result<(), HidppError>,
    dpi: u16,
    actual: Option<u16>,
    out: Result<ReadBack, WriteError>,
)
    requires
        call_ensures(set_dpi, (Ok(()), written, dpi, actual), out),
    ensures
        written is Ok <==> out is Ok,
        out == Ok::<ReadBack, WriteError>(ReadBack::Verified) <==> written is Ok && actual == Some(
            dpi,
        ),
        out == Ok::<ReadBack, WriteError>(ReadBack::Skipped) <==> written is Ok && actual is None,
        written is Ok && actual is Some && actual != Some(dpi) ==> out == Ok::<
            ReadBack,
            WriteError,
        >(ReadBack::Different(actual->0)),
        written matches Err(HidppError::UnsupportedResponse) ==> out == Err::<
            ReadBack,
            WriteError,
        >(
            WriteError::UnsupportedResponse {
                operation: HidppOperation::WriteDpi,
                feature_hex: 0x2201,
            },
        ),
{
}

/// A channel serves the routes that lead where its own leads, at that route's index.
pub proof fn channels_serve_their_route(
    channel: SharedChannel,
    route: DeviceRoute,
    yes: bool,
    index: u8,
    same: bool,
)
    requires
        call_ensures(SharedChannel::matches, (&channel, &route), yes),
        call_ensures(DeviceRoute::same_as, (&channel.route, &route), same),
        call_ensures(SharedChannel::device_index, (&channel,), index),
    ensures
        yes == same,
        channel.route == route ==> yes,
        channel.route matches DeviceRoute::Bolt { slot, .. } ==> index == slot,
        channel.route is Direct ==> index == 0xff,
{
}

// ── The wheel ───────────────────────────────────────────────────────────────

/// Flipping the wheel leads to the other mode, and twice back.
pub proof fn flips_go_both_ways(
    mode: SmartShiftMode,
    once: SmartShiftMode,
    twice: SmartShiftMode,
    code: u8,
)
    requires
        call_ensures(SmartShiftMode::flipped, (mode,), once),
        call_ensures(SmartShiftMode::flipped, (once,), twice),
        call_ensures(SmartShiftMode::code, (mode,), code),
    ensures
        once != mode,
        twice == mode,
        code == 1 <==> mode == SmartShiftMode::Free,
        code == 2 <==> mode == SmartShiftMode::Ratchet,
{
}

/// A wheel that is set to a mode is read in that mode; an unknown reading counts as the
/// ratchet.
pub proof fn wheels_are_read_as_they_were_set(
    mode: SmartShiftMode,
    wheel: WheelMode,
    read: SmartShiftMode,
    unknown: SmartShiftMode,
)
    requires
        call_ensures(smartshift_to_wheel, (mode,), wheel),
        call_ensures(wheel_mode_to_smartshift, (wheel,), read),
        call_ensures(wheel_mode_to_smartshift, (WheelMode::Other,), unknown),
    ensures
        read == mode,
        wheel == WheelMode::Freespin <==> mode == SmartShiftMode::Free,
        wheel == WheelMode::Ratchet <==> mode == SmartShiftMode::Ratchet,
        unknown == SmartShiftMode::Ratchet,
{
}

/// The newer wheel feature is preferred. The older one is tried exactly where the device is
/// told to lack the newer one; any other failure stands.
pub proof fn older_wheels_are_tried_second(
    enhanced: Result<u8, WriteError>,
    legacy: Result<u8, WriteError>,
    after: AfterEnhanced,
    out: Result<SmartShift, WriteError>,
    newer: u16,
    older: u16,
)
    requires
        call_ensures(after_enhanced, (enhanced,), after),
        call_ensures(open_smartshift, (enhanced, legacy), out),
        call_ensures(SmartShift::feature, (SmartShift::Enhanced,), newer),
        call_ensures(SmartShift::feature, (SmartShift::Legacy,), older),
    ensures
        newer == 0x2111,
        older == 0x2110,
        enhanced is Ok ==> after == AfterEnhanced::Use && out == Ok::<SmartShift, WriteError>(
            SmartShift::Enhanced,
        ),
        after == AfterEnhanced::TryLegacy <==> enhanced == Err::<u8, WriteError>(
            WriteError::FeatureUnsupported { feature_hex: 0x2111 },
        ),
        after == AfterEnhanced::TryLegacy ==> {
            &&& out is Ok <==> legacy is Ok
            &&& legacy is Ok ==> out == Ok::<SmartShift, WriteError>(SmartShift::Legacy)
            &&& legacy matches Err(e) ==> out == Err::<SmartShift, WriteError>(e)
        },
        enhanced is Err && after != AfterEnhanced::TryLegacy ==> {
            &&& after == AfterEnhanced::Fail(enhanced->Err_0)
            &&& out == Err::<SmartShift, WriteError>(enhanced->Err_0)
        },
{
}

/// What the wheel reports is shown as it is; the older feature knows no torque.
pub proof fn wheel_reports_are_shown_as_they_are(
    feature: SmartShift,
    status: SmartShiftStatus,
    out: Result<SmartShiftStatus, WriteError>,
    wheel: WheelMode,
    threshold: u8,
    older: SmartShiftStatus,
)
    requires
        call_ensures(get_smartshift_status, (Ok(feature), Ok(status)), out),
        call_ensures(legacy_status, (wheel, threshold), older),
    ensures
        out == Ok::<SmartShiftStatus, WriteError>(status),
        older.auto_disengage == threshold,
        older.tunable_torque == 0,
        older.mode == SmartShiftMode::Free <==> wheel == WheelMode::Freespin,
{
}

/// A failed read or write of the wheel names the feature that was in use.
pub proof fn wheel_failures_name_their_feature(
    feature: SmartShift,
    read: Result<SmartShiftStatus, WriteError>,
    written: Result<(), WriteError>,
    refused: WriteError,
    unread: Result<SmartShiftStatus, WriteError>,
    unwritten: Result<(), WriteError>,
    status: Result<SmartShiftStatus, HidppError>,
    outcome: Result<(), HidppError>,
)
    requires
        call_ensures(
            get_smartshift_status,
            (Ok(feature), Err(HidppError::UnsupportedResponse)),
            read,
        ),
        call_ensures(set_smartshift, (Ok(feature), Err(HidppError::UnsupportedResponse)), written),
        call_ensures(get_smartshift_status, (Err(refused), status), unread),
        call_ensures(set_smartshift, (Err(refused), outcome), unwritten),
    ensures
        feature == SmartShift::Enhanced ==> read == Err::<SmartShiftStatus, WriteError>(
            WriteError::UnsupportedResponse {
                operation: HidppOperation::ReadSmartShift,
                feature_hex: 0x2111,
            },
        ),
        feature == SmartShift::Legacy ==> read == Err::<SmartShiftStatus, WriteError>(
            WriteError::UnsupportedResponse {
                operation: HidppOperation::ReadSmartShift,
                feature_hex: 0x2110,
            },
        ),
        feature == SmartShift::Enhanced ==> written == Err::<(), WriteError>(
            WriteError::UnsupportedResponse {
                operation: HidppOperation::WriteSmartShift,
                feature_hex: 0x2111,
            },
        ),
        feature == SmartShift::Legacy ==> written == Err::<(), WriteError>(
            WriteError::UnsupportedResponse {
                operation: HidppOperation::WriteSmartShift,
                feature_hex: 0x2110,
            },
        ),
        unread == Err::<SmartShiftStatus, WriteError>(refused),
        unwritten == Err::<(), WriteError>(refused),
{
}

/// What a write sets: the mode, the threshold and, on newer wheels, the torque.
pub open spec fn sets(
    write: SmartShiftWrite,
    feature: SmartShift,
    mode: SmartShiftMode,
    threshold: u8,
    torque: u8,
) -> bool {
    match write {
        SmartShiftWrite::Enhanced { mode: m, auto_disengage, tunable_torque } => {
            &&& feature == SmartShift::Enhanced
            &&& m == mode
            &&& auto_disengage == threshold
            &&& tunable_torque == torque
        },
        SmartShiftWrite::Legacy { wheel, auto_disengage } => {
            &&& feature == SmartShift::Legacy
            &&& wheel == WheelMode::Freespin <==> mode == SmartShiftMode::Free
            &&& wheel == WheelMode::Ratchet <==> mode == SmartShiftMode::Ratchet
            &&& auto_disengage == threshold
        },
    }
}

/// Writing the status of a wheel sets all of it; flipping the mode keeps the threshold and
/// the torque, and setting the threshold keeps the mode and the torque.
pub proof fn wheel_writes_change_one_thing(
    feature: SmartShift,
    status: SmartShiftStatus,
    whole: SmartShiftWrite,
    flipped: (SmartShiftMode, SmartShiftWrite),
    value: u8,
    tuned: SmartShiftWrite,
)
    requires
        call_ensures(status_write, (feature, status), whole),
        call_ensures(toggle_smartshift, (feature, status), flipped),
        call_ensures(set_smartshift_sensitivity, (feature, status, value), tuned),
    ensures
        sets(whole, feature, status.mode, status.auto_disengage, status.tunable_torque),
        flipped.0 != status.mode,
        sets(flipped.1, feature, flipped.0, status.auto_disengage, status.tunable_torque),
        sets(tuned, feature, status.mode, value, status.tunable_torque),
{
}

// ── Lights ──────────────────────────────────────────────────────────────────

/// A keyboard is lit by effects where it has them, and key by key only where it is told to
/// lack them. Any other outcome of the effects stands.
pub proof fn keys_are_lit_where_effects_are_missing(
    effects: Result<(), WriteError>,
    per_key: Result<(), WriteError>,
    out: Result<(), WriteError>,
)
    requires
        call_ensures(set_keyboard_color, (effects, per_key), out),
    ensures
        effects == Err::<(), WriteError>(WriteError::FeatureUnsupported { feature_hex: 0x8070 })
            ==> out == per_key,
        effects != Err::<(), WriteError>(WriteError::FeatureUnsupported { feature_hex: 0x8070 })
            ==> out == effects,
{
}

/// A method that was asked for is the only one that is tried; left to itself, the library
/// tries effects and then, where the keyboard lacks them, each key.
pub proof fn lighting_methods_are_kept_to(
    method: LightingMethod,
    first: LightingStep,
    outcome: Result<(), WriteError>,
    then: LightingStep,
)
    requires
        call_ensures(set_keyboard_color_with, (method,), first),
        call_ensures(after_effects, (method, outcome), then),
    ensures
        first == LightingStep::TryPerKey <==> method == LightingMethod::PerKey,
        first == LightingStep::TryEffects <==> method != LightingMethod::PerKey,
        then == LightingStep::TryPerKey <==> method == LightingMethod::Auto && outcome == Err::<
            (),
            WriteError,
        >(WriteError::FeatureUnsupported { feature_hex: 0x8070 }),
        then != LightingStep::TryPerKey ==> then == LightingStep::Done(outcome),
{
}

/// Lights are written at the index of the feature, once there is a way to write to it.
pub proof fn lights_need_a_feature_and_a_writer(
    reached: Result<(), WriteError>,
    lookup: Result<Option<u8>, HidppError>,
    feature: u16,
    writer: Result<bool, WriteError>,
    out: Result<u8, WriteError>,
)
    requires
        call_ensures(resolve_lighting, (reached, lookup, feature, writer), out),
    ensures
        reached matches Err(e) ==> out == Err::<u8, WriteError>(e),
        reached is Ok && lookup == Ok::<Option<u8>, HidppError>(None) ==> out == Err::<
            u8,
            WriteError,
        >(WriteError::FeatureUnsupported { feature_hex: feature }),
        reached is Ok ==> (lookup matches Ok(Some(index)) ==> match writer {
            Ok(true) => out == Ok::<u8, WriteError>(index),
            Ok(false) => out == Err::<u8, WriteError>(WriteError::DeviceNotFound),
            Err(e) => out == Err::<u8, WriteError>(e),
        }),
        reached is Ok ==> (lookup matches Err(HidppError::UnsupportedResponse) ==> out == Err::<
            u8,
            WriteError,
        >(
            WriteError::UnsupportedResponse {
                operation: HidppOperation::ResolveFeature,
                feature_hex: feature,
            },
        )),
{
}

/// The effect reports set the same fixed colour in each of the four zones: long reports of
/// twenty bytes to the device and the feature, the rest of which is zero.
pub proof fn every_zone_gets_the_colour(
    device: u8,
    feature: u8,
    colour: Rgb,
    reports: Vec<Vec<u8>>,
    zone: int,
)
    requires
        call_ensures(effect_reports, (device, feature, colour), reports),
        0 <= zone < 4,
    ensures
        reports@.len() == 4,
        ({
            let report = reports@[zone]@;
            &&& report.len() == 20
            &&& report[0] == 0x11
            &&& report[1] == device
            &&& report[2] == feature
            &&& report[3] == 0x3a
            &&& report[4] == zone
            &&& report[5] == 1
            &&& report[6] == colour.r
            &&& report[7] == colour.g
            &&& report[8] == colour.b
            &&& forall|i: int| 9 <= i < 20 ==> report[i] == 0
        }),
{
}

/// Key by key, seventeen very long reports light fourteen keys each, and one more puts the
/// colours into force. Every key up to the last gets the colour, and nothing beyond it.
pub proof fn every_key_gets_the_colour(
    device: u8,
    feature: u8,
    colour: Rgb,
    reports: Vec<Vec<u8>>,
    frame: int,
    slot: int,
)
    requires
        call_ensures(per_key_reports, (device, feature, colour), reports),
        0 <= frame < 17,
        0 <= slot < 14,
    ensures
        reports@.len() == 18,
        ({
            let report = reports@[frame]@;
            let at = 8 + 4 * slot;
            let key = 14 * frame + slot;
            &&& report.len() == 64
            &&& report[0] == 0x12
            &&& report[1] == device
            &&& report[2] == feature
            &&& report[3] == 0x3a
            &&& report[4] == 0
            &&& report[5] == 1
            &&& report[6] == 0
            &&& report[7] == 14
            &&& key <= 0xe8 ==> report[at] == key && report[at + 1] == colour.r && report[at + 2]
                == colour.g && report[at + 3] == colour.b
            &&& key > 0xe8 ==> report[at] == 0 && report[at + 1] == 0 && report[at + 2] == 0
                && report[at + 3] == 0
        }),
        ({
            let last = reports@[17]@;
            &&& last.len() == 20
            &&& last[0] == 0x11
            &&& last[1] == device
            &&& last[2] == feature
            &&& last[3] == 0x5a
            &&& forall|i: int| 4 <= i < 20 ==> last[i] == 0
        }),
{
    let at = 8 + 4 * slot;
    assert(reports@[frame]@ == key_frame(device, feature, colour, frame));
    assert((at - 8) / 4 == slot && (at - 8) % 4 == 0);
    assert((at + 1 - 8) / 4 == slot && (at + 1 - 8) % 4 == 1);
    assert((at + 2 - 8) / 4 == slot && (at + 2 - 8) % 4 == 2);
    assert((at + 3 - 8) / 4 == slot && (at + 3 - 8) % 4 == 3);
    assert(key_at(frame, slot) == 14 * frame + slot);
}

/// What could not be opened is not written to, and says why.
pub proof fn unopened_features_are_not_written(
    refused: WriteError,
    written: Result<(), HidppError>,
    dpi: u16,
    actual: Option<u16>,
    out: Result<ReadBack, WriteError>,
    code: u8,
    failed: Result<ReadBack, WriteError>,
    kind: HidppFeatureErrorKind,
)
    requires
        call_ensures(set_dpi, (Err(refused), written, dpi, actual), out),
        call_ensures(set_dpi, (Ok(()), Err(HidppError::Feature(code)), dpi, actual), failed),
        call_ensures(hidpp_feature_error_kind, (code,), kind),
    ensures
        out == Err::<ReadBack, WriteError>(refused),
        failed == Err::<ReadBack, WriteError>(
            WriteError::HidppFeature {
                operation: HidppOperation::WriteDpi,
                feature_hex: 0x2201,
                kind,
            },
        ),
{
}

/// A wheel that answers with an error is told with its operation, its feature and the error.
pub proof fn wheel_errors_are_told_in_full(
    feature: SmartShift,
    code: u8,
    kind: HidppFeatureErrorKind,
    number: u16,
    read: Result<SmartShiftStatus, WriteError>,
    written: Result<(), WriteError>,
    done: Result<(), WriteError>,
)
    requires
        call_ensures(hidpp_feature_error_kind, (code,), kind),
        call_ensures(SmartShift::feature, (feature,), number),
        call_ensures(get_smartshift_status, (Ok(feature), Err(HidppError::Feature(code))), read),
        call_ensures(set_smartshift, (Ok(feature), Err(HidppError::Feature(code))), written),
        call_ensures(set_smartshift, (Ok(feature), Ok(())), done),
    ensures
        read == Err::<SmartShiftStatus, WriteError>(
            WriteError::HidppFeature {
                operation: HidppOperation::ReadSmartShift,
                feature_hex: number,
                kind,
            },
        ),
        written == Err::<(), WriteError>(
            WriteError::HidppFeature {
                operation: HidppOperation::WriteSmartShift,
                feature_hex: number,
                kind,
            },
        ),
        done == Ok::<(), WriteError>(()),
{
}

} // verus!

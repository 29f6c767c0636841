//! HID++ reads and writes: pointer resolution, SmartShift and keyboard lighting.
//!
//! Talking to a device is left to the caller. This module decides what to send
//! next, builds the reports, and says what the replies amount to.

use vstd::prelude::*;
use vstd::string::*;

use crate::device_order::DeviceRoute;
use crate::text::{hex, hex4, padded_hex_text, zero_padded};

verus! {

// ── Errors ──────────────────────────────────────────────────────────────────

/// The operation during which a device failed.
#[derive(Debug, Clone, Copy, PartialEq, Eq, Structural)]
pub enum HidppOperation {
    /// Looking up a feature.
    ResolveFeature,
    /// Listing features.
    DumpFeatures,
    /// Reading the pointer resolution.
    ReadDpi,
    /// Reading the supported pointer resolutions.
    ReadDpiCapabilities,
    /// Writing the pointer resolution.
    WriteDpi,
    /// Reading SmartShift.
    ReadSmartShift,
    /// Writing SmartShift.
    WriteSmartShift,
    /// Writing lighting.
    Lighting,
}

impl HidppOperation {
    /// The name as characters.
    pub open spec fn name_text(self) -> Seq<char> {
        match self {
            HidppOperation::ResolveFeature => "ResolveFeature"@,
            HidppOperation::DumpFeatures => "DumpFeatures"@,
            HidppOperation::ReadDpi => "ReadDpi"@,
            HidppOperation::ReadDpiCapabilities => "ReadDpiCapabilities"@,
            HidppOperation::WriteDpi => "WriteDpi"@,
            HidppOperation::ReadSmartShift => "ReadSmartShift"@,
            HidppOperation::WriteSmartShift => "WriteSmartShift"@,
            HidppOperation::Lighting => "Lighting"@,
        }
    }

    /// The name of the operation.
    pub fn name(self) -> (name: &'static str)
        ensures
            name@ == self.name_text(),
    {
        match self {
            HidppOperation::ResolveFeature => "ResolveFeature",
            HidppOperation::DumpFeatures => "DumpFeatures",
            HidppOperation::ReadDpi => "ReadDpi",
            HidppOperation::ReadDpiCapabilities => "ReadDpiCapabilities",
            HidppOperation::WriteDpi => "WriteDpi",
            HidppOperation::ReadSmartShift => "ReadSmartShift",
            HidppOperation::WriteSmartShift => "WriteSmartShift",
            HidppOperation::Lighting => "Lighting",
        }
    }
}

/// The error that a feature function returned.
#[derive(Debug, Clone, Copy, PartialEq, Eq, Structural)]
pub enum HidppFeatureErrorKind {
    /// No error.
    NoError,
    /// An unknown error.
    Unknown,
    /// An invalid argument.
    InvalidArgument,
    /// A value out of range.
    OutOfRange,
    /// A hardware error.
    HwError,
    /// An internal error.
    LogitechInternal,
    /// An invalid feature index.
    InvalidFeatureIndex,
    /// An invalid function.
    InvalidFunctionId,
    /// The device is busy.
    Busy,
    /// The request is unsupported.
    Unsupported,
    /// An error that is not modelled.
    Unrecognized,
}

impl HidppFeatureErrorKind {
    /// The name as characters.
    pub open spec fn name_text(self) -> Seq<char> {
        match self {
            HidppFeatureErrorKind::NoError => "NoError"@,
            HidppFeatureErrorKind::Unknown => "Unknown"@,
            HidppFeatureErrorKind::InvalidArgument => "InvalidArgument"@,
            HidppFeatureErrorKind::OutOfRange => "OutOfRange"@,
            HidppFeatureErrorKind::HwError => "HwError"@,
            HidppFeatureErrorKind::LogitechInternal => "LogitechInternal"@,
            HidppFeatureErrorKind::InvalidFeatureIndex => "InvalidFeatureIndex"@,
            HidppFeatureErrorKind::InvalidFunctionId => "InvalidFunctionId"@,
            HidppFeatureErrorKind::Busy => "Busy"@,
            HidppFeatureErrorKind::Unsupported => "Unsupported"@,
            HidppFeatureErrorKind::Unrecognized => "Unrecognized"@,
        }
    }

    /// The name of the error.
    pub fn name(self) -> (name: &'static str)
        ensures
            name@ == self.name_text(),
    {
        match self {
            HidppFeatureErrorKind::NoError => "NoError",
            HidppFeatureErrorKind::Unknown => "Unknown",
            HidppFeatureErrorKind::InvalidArgument => "InvalidArgument",
            HidppFeatureErrorKind::OutOfRange => "OutOfRange",
            HidppFeatureErrorKind::HwError => "HwError",
            HidppFeatureErrorKind::LogitechInternal => "LogitechInternal",
            HidppFeatureErrorKind::InvalidFeatureIndex => "InvalidFeatureIndex",
            HidppFeatureErrorKind::InvalidFunctionId => "InvalidFunctionId",
            HidppFeatureErrorKind::Busy => "Busy",
            HidppFeatureErrorKind::Unsupported => "Unsupported",
            HidppFeatureErrorKind::Unrecognized => "Unrecognized",
        }
    }
}

/// The error that a protocol error code stands for.
pub open spec fn error_kind_of(code: u8) -> HidppFeatureErrorKind {
    match code {
        0 => HidppFeatureErrorKind::NoError,
        1 => HidppFeatureErrorKind::Unknown,
        2 => HidppFeatureErrorKind::InvalidArgument,
        3 => HidppFeatureErrorKind::OutOfRange,
        4 => HidppFeatureErrorKind::HwError,
        5 => HidppFeatureErrorKind::LogitechInternal,
        6 => HidppFeatureErrorKind::InvalidFeatureIndex,
        7 => HidppFeatureErrorKind::InvalidFunctionId,
        8 => HidppFeatureErrorKind::Busy,
        9 => HidppFeatureErrorKind::Unsupported,
        _ => HidppFeatureErrorKind::Unrecognized,
    }
}

/// The error that a protocol error code stands for.
pub fn hidpp_feature_error_kind(code: u8) -> (kind: HidppFeatureErrorKind)
    ensures
        kind == error_kind_of(code),
{
    match code {
        0 => HidppFeatureErrorKind::NoError,
        1 => HidppFeatureErrorKind::Unknown,
        2 => HidppFeatureErrorKind::InvalidArgument,
        3 => HidppFeatureErrorKind::OutOfRange,
        4 => HidppFeatureErrorKind::HwError,
        5 => HidppFeatureErrorKind::LogitechInternal,
        6 => HidppFeatureErrorKind::InvalidFeatureIndex,
        7 => HidppFeatureErrorKind::InvalidFunctionId,
        8 => HidppFeatureErrorKind::Busy,
        9 => HidppFeatureErrorKind::Unsupported,
        _ => HidppFeatureErrorKind::Unrecognized,
    }
}

/// What a HID++ request failed with.
#[derive(Debug)]
pub enum HidppError {
    /// The feature function returned this error code.
    Feature(u8),
    /// The reply has a shape that is not supported.
    UnsupportedResponse,
    /// The channel or anything else failed, as this text tells.
    Other(String),
}

/// Why a read from or a write to a device failed.
#[derive(Debug)]
pub enum WriteError {
    /// The transport failed.
    Hid(String),
    /// No connected device matches the route.
    DeviceNotFound,
    /// The device does not answer.
    DeviceUnreachable {
        /// The device index that was addressed.
        index: u8,
    },
    /// The device lacks a feature.
    FeatureUnsupported {
        /// The feature.
        feature_hex: u16,
    },
    /// The device supports no pointer resolution at all.
    EmptyDpiList,
    /// The protocol failed.
    Hidpp(String),
    /// A feature function returned an error.
    HidppFeature {
        /// What was being done.
        operation: HidppOperation,
        /// The feature.
        feature_hex: u16,
        /// The error.
        kind: HidppFeatureErrorKind,
    },
    /// A reply has a shape that is not supported.
    UnsupportedResponse {
        /// What was being done.
        operation: HidppOperation,
        /// The feature.
        feature_hex: u16,
    },
    /// No reply came in time.
    RequestTimedOut {
        /// What was being done.
        operation: HidppOperation,
    },
    /// The runtime could not be started.
    RuntimeInit {
        /// The runtime's text.
        message: String,
    },
    /// The background agent cannot be reached.
    AgentUnavailable,
}

impl Clone for WriteError {
    fn clone(&self) -> (out: Self)
        ensures
            out == *self,
    {
        match self {
            WriteError::Hid(s) => WriteError::Hid(s.clone()),
            WriteError::DeviceNotFound => WriteError::DeviceNotFound,
            WriteError::DeviceUnreachable { index } => WriteError::DeviceUnreachable {
                index: *index,
            },
            WriteError::FeatureUnsupported { feature_hex } => WriteError::FeatureUnsupported {
                feature_hex: *feature_hex,
            },
            WriteError::EmptyDpiList => WriteError::EmptyDpiList,
            WriteError::Hidpp(s) => WriteError::Hidpp(s.clone()),
            WriteError::HidppFeature { operation, feature_hex, kind } => WriteError::HidppFeature {
                operation: *operation,
                feature_hex: *feature_hex,
                kind: *kind,
            },
            WriteError::UnsupportedResponse { operation, feature_hex } =>
                WriteError::UnsupportedResponse {
                operation: *operation,
                feature_hex: *feature_hex,
            },
            WriteError::RequestTimedOut { operation } => WriteError::RequestTimedOut {
                operation: *operation,
            },
            WriteError::RuntimeInit { message } => WriteError::RuntimeInit {
                message: message.clone(),
            },
            WriteError::AgentUnavailable => WriteError::AgentUnavailable,
        }
    }
}

impl WriteError {
    /// The message as characters.
    pub open spec fn message_text(self) -> Seq<char> {
        match self {
            WriteError::Hid(s) => "HID transport error: "@ + s@,
            WriteError::DeviceNotFound => "no connected device matched the route"@,
            WriteError::DeviceUnreachable { index } => "device at index 0x"@ + zero_padded(
                hex(index as nat),
                2,
            ) + " did not respond to HID++"@,
            WriteError::FeatureUnsupported { feature_hex } =>
                "device does not expose HID++ feature 0x"@ + hex4(feature_hex as nat),
            WriteError::EmptyDpiList => "device returned no supported DPI values"@,
            WriteError::Hidpp(s) => "HID++ protocol error: "@ + s@,
            WriteError::HidppFeature { operation, feature_hex, kind } =>
                "HID++ feature error during "@ + operation.name_text() + " for feature 0x"@ + hex4(
                feature_hex as nat,
            ) + ": "@ + kind.name_text(),
            WriteError::UnsupportedResponse { operation, feature_hex } =>
                "HID++ unsupported response during "@ + operation.name_text() + " for feature 0x"@
                + hex4(feature_hex as nat),
            WriteError::RequestTimedOut { operation } => "HID++ request timed out during "@
                + operation.name_text(),
            WriteError::RuntimeInit { message } => "tokio runtime init failed: "@ + message@,
            WriteError::AgentUnavailable => "background agent is unavailable"@,
        }
    }

    /// The message for the user.
    pub fn message(&self) -> (out: String)
        ensures
            out@ == self.message_text(),
    {
        let mut out: String = String::new();
        match self {
            WriteError::Hid(s) => {
                out.append("HID transport error: ");
                out.append(s.as_str());
            },
            WriteError::DeviceNotFound => {
                out.append("no connected device matched the route");
            },
            WriteError::DeviceUnreachable { index } => {
                out.append("device at index 0x");
                let n: String = padded_hex_text(*index as u64, 2);
                out.append(n.as_str());
                out.append(" did not respond to HID++");
            },
            WriteError::FeatureUnsupported { feature_hex } => {
                out.append("device does not expose HID++ feature 0x");
                let n: String = padded_hex_text(*feature_hex as u64, 4);
                out.append(n.as_str());
            },
            WriteError::EmptyDpiList => {
                out.append("device returned no supported DPI values");
            },
            WriteError::Hidpp(s) => {
                out.append("HID++ protocol error: ");
                out.append(s.as_str());
            },
            WriteError::HidppFeature { operation, feature_hex, kind } => {
                out.append("HID++ feature error during ");
                out.append(operation.name());
                out.append(" for feature 0x");
                let n: String = padded_hex_text(*feature_hex as u64, 4);
                out.append(n.as_str());
                out.append(": ");
                out.append(kind.name());
            },
            WriteError::UnsupportedResponse { operation, feature_hex } => {
                out.append("HID++ unsupported response during ");
                out.append(operation.name());
                out.append(" for feature 0x");
                let n: String = padded_hex_text(*feature_hex as u64, 4);
                out.append(n.as_str());
            },
            WriteError::RequestTimedOut { operation } => {
                out.append("HID++ request timed out during ");
                out.append(operation.name());
            },
            WriteError::RuntimeInit { message } => {
                out.append("tokio runtime init failed: ");
                out.append(message.as_str());
            },
            WriteError::AgentUnavailable => {
                out.append("background agent is unavailable");
            },
        }
        assert(out@ =~= self.message_text());
        out
    }
}

/// The error of a failed request.
pub open spec fn classified(
    error: HidppError,
    operation: HidppOperation,
    feature_hex: u16,
) -> WriteError {
    match error {
        HidppError::Feature(code) => WriteError::HidppFeature {
            operation,
            feature_hex,
            kind: error_kind_of(code),
        },
        HidppError::UnsupportedResponse => WriteError::UnsupportedResponse {
            operation,
            feature_hex,
        },
        HidppError::Other(text) => WriteError::Hidpp(text),
    }
}

/// The error of a failed request.
pub fn classify_hidpp_error(error: HidppError, operation: HidppOperation, feature_hex: u16) -> (e:
    WriteError)
    ensures
        e == classified(error, operation, feature_hex),
{
    match error {
        HidppError::Feature(code) => WriteError::HidppFeature {
            operation,
            feature_hex,
            kind: hidpp_feature_error_kind(code),
        },
        HidppError::UnsupportedResponse => WriteError::UnsupportedResponse {
            operation,
            feature_hex,
        },
        HidppError::Other(text) => WriteError::Hidpp(text),
    }
}

/// The feature that adjusts the pointer resolution.
pub const ADJUSTABLE_DPI_FEATURE: u16 = 0x2201;

/// The error of a failed pointer-resolution request. A device that announces the
/// feature and then refuses a function or replies in an unsupported shape will
/// keep doing so: that counts as lacking the feature, while everything else may
/// be tried again.
pub open spec fn dpi_classified(error: HidppError) -> WriteError {
    match error {
        HidppError::UnsupportedResponse => WriteError::FeatureUnsupported {
            feature_hex: ADJUSTABLE_DPI_FEATURE,
        },
        HidppError::Feature(code) if error_kind_of(code) == HidppFeatureErrorKind::Unsupported
            || error_kind_of(code) == HidppFeatureErrorKind::InvalidFunctionId =>
            WriteError::FeatureUnsupported { feature_hex: ADJUSTABLE_DPI_FEATURE },
        other => classified(other, HidppOperation::ReadDpiCapabilities, ADJUSTABLE_DPI_FEATURE),
    }
}

/// The error of a failed pointer-resolution request.
pub fn classify_dpi_error(error: HidppError) -> (e: WriteError)
    ensures
        e == dpi_classified(error),
{
    match &error {
        HidppError::UnsupportedResponse => {
            return WriteError::FeatureUnsupported { feature_hex: ADJUSTABLE_DPI_FEATURE };
        },
        HidppError::Feature(code) => {
            let kind: HidppFeatureErrorKind = hidpp_feature_error_kind(*code);
            if kind == HidppFeatureErrorKind::Unsupported || kind
                == HidppFeatureErrorKind::InvalidFunctionId {
                return WriteError::FeatureUnsupported { feature_hex: ADJUSTABLE_DPI_FEATURE };
            }
        },
        HidppError::Other(_) => {},
    }
    classify_hidpp_error(error, HidppOperation::ReadDpiCapabilities, ADJUSTABLE_DPI_FEATURE)
}

// ── Reaching a feature ──────────────────────────────────────────────────────

/// Whether a device is reached: the error of opening a channel, no device when
/// there is none for the route, and an unreachable device when it does not
/// answer at `index`.
pub fn with_route(channel: Result<bool, WriteError>, answers: bool, index: u8) -> (out: Result<
    (),
    WriteError,
>)
    ensures
        out == match channel {
            Err(e) => Err::<(), WriteError>(e),
            Ok(false) => Err(WriteError::DeviceNotFound),
            Ok(true) => if answers {
                Ok(())
            } else {
                Err(WriteError::DeviceUnreachable { index })
            },
        },
{
    match channel {
        Err(e) => Err(e),
        Ok(found) => if !found {
            Err(WriteError::DeviceNotFound)
        } else if answers {
            Ok(())
        } else {
            Err(WriteError::DeviceUnreachable { index })
        },
    }
}

/// The index of a feature on a device that was reached, from the reply to its
/// lookup.
pub open spec fn feature_outcome(
    reached: Result<(), WriteError>,
    lookup: Result<Option<u8>, HidppError>,
    operation: HidppOperation,
    feature_hex: u16,
) -> Result<u8, WriteError> {
    match reached {
        Err(e) => Err(e),
        Ok(_) => match lookup {
            Err(e) => Err(classified(e, operation, feature_hex)),
            Ok(None) => Err(WriteError::FeatureUnsupported { feature_hex }),
            Ok(Some(index)) => Ok(index),
        },
    }
}

/// The index of a feature on a device that was reached, from the reply to its
/// lookup. A device without the feature is told from one that failed.
pub fn open_feature(
    reached: Result<(), WriteError>,
    lookup: Result<Option<u8>, HidppError>,
    operation: HidppOperation,
    feature_hex: u16,
) -> (out: Result<u8, WriteError>)
    ensures
        out == feature_outcome(reached, lookup, operation, feature_hex),
{
    match reached {
        Err(e) => Err(e),
        Ok(_) => match lookup {
            Err(e) => Err(classify_hidpp_error(e, operation, feature_hex)),
            Ok(found) => match found {
                None => Err(WriteError::FeatureUnsupported { feature_hex }),
                Some(index) => Ok(index),
            },
        },
    }
}

/// One feature that a device exposes.
#[derive(Debug, Clone, Copy, PartialEq, Eq, Structural)]
pub struct FeatureEntry {
    /// The feature.
    pub id: u16,
    /// Its version.
    pub version: u8,
}

/// The feature that lists features.
pub const FEATURE_SET_FEATURE: u16 = 0x0001;

/// The entries up to the first that failed, and its error.
pub open spec fn listed_features(entries: Seq<Result<FeatureEntry, HidppError>>) -> Result<
    Seq<FeatureEntry>,
    WriteError,
>
    decreases entries.len(),
{
    if entries.len() == 0 {
        Ok(Seq::empty())
    } else {
        match listed_features(entries.drop_last()) {
            Err(e) => Err(e),
            Ok(list) => match entries.last() {
                Err(e) => Err(classified(e, HidppOperation::DumpFeatures, FEATURE_SET_FEATURE)),
                Ok(entry) => Ok(list.push(entry)),
            },
        }
    }
}

/// How many entries a device with this many features has: the root feature is not
/// counted.
pub fn entries_to_read(count: u8) -> (n: usize)
    ensures
        n == count + 1,
{
    count as usize + 1
}

/// What a device exposes, from the replies to reading its feature table: the
/// error of opening the table or of reading its size, the error of the first
/// entry that failed, or all entries.
pub fn dump_features(
    opened: Result<(), WriteError>,
    count: Result<u8, HidppError>,
    entries: Vec<Result<FeatureEntry, HidppError>>,
) -> (out: Result<Vec<FeatureEntry>, WriteError>)
    ensures
        match opened {
            Err(e) => out == Err::<Vec<FeatureEntry>, WriteError>(e),
            Ok(_) => match count {
                Err(e) => out == Err::<Vec<FeatureEntry>, WriteError>(
                    classified(e, HidppOperation::DumpFeatures, FEATURE_SET_FEATURE),
                ),
                Ok(_) => match listed_features(entries@) {
                    Err(e) => out == Err::<Vec<FeatureEntry>, WriteError>(e),
                    Ok(list) => out matches Ok(found) && found@ == list,
                },
            },
        },
{
    match opened {
        Err(e) => {
            return Err(e);
        },
        Ok(_) => {},
    }
    match count {
        Err(e) => {
            return Err(
                classify_hidpp_error(e, HidppOperation::DumpFeatures, FEATURE_SET_FEATURE),
            );
        },
        Ok(_) => {},
    }
    let ghost all = entries@;
    let n: usize = entries.len();
    let mut rest: Vec<Result<FeatureEntry, HidppError>> = entries;
    let mut found: Vec<FeatureEntry> = Vec::new();
    let mut i: usize = 0;
    while i < n
        invariant
            i <= n,
            n == all.len(),
            rest@ == all.skip(i as int),
            opened is Ok,
            count is Ok,
            all == entries@,
            listed_features(all.take(i as int)) == Ok::<Seq<FeatureEntry>, WriteError>(found@),
        decreases n - i,
    {
        let entry: Result<FeatureEntry, HidppError> = rest.remove(0);
        proof {
            assert(entry == all[i as int]);
            assert(rest@ =~= all.skip(i as int + 1));
            assert(all.take(i as int + 1).drop_last() =~= all.take(i as int));
        }
        match entry {
            Err(e) => {
                let error: WriteError = classify_hidpp_error(
                    e,
                    HidppOperation::DumpFeatures,
                    FEATURE_SET_FEATURE,
                );
                proof {
                    lemma_listing_fails(all, i as int + 1);
                }
                return Err(error);
            },
            Ok(feature) => {
                found.push(feature);
            },
        }
        i = i + 1;
    }
    assert(all.take(n as int) =~= all);
    Ok(found)
}

proof fn lemma_listing_fails(entries: Seq<Result<FeatureEntry, HidppError>>, n: int)
    requires
        0 <= n <= entries.len(),
        listed_features(entries.take(n)) is Err,
    ensures
        listed_features(entries) == listed_features(entries.take(n)),
    decreases entries.len(),
{
    if n < entries.len() {
        assert(entries.drop_last().take(n) =~= entries.take(n));
        lemma_listing_fails(entries.drop_last(), n);
    } else {
        assert(entries.take(n) =~= entries);
    }
}

// ── Pointer resolution ──────────────────────────────────────────────────────

/// `values` ascends strictly.
pub open spec fn strictly_ascending(values: Seq<u16>) -> bool {
    forall|i: int, j: int| 0 <= i < j < values.len() ==> values[i] < values[j]
}

/// The pointer resolutions that a device supports: at least one, in ascending
/// order, none twice.
#[derive(Debug, PartialEq, Eq)]
pub struct DpiCapabilities {
    values: Vec<u16>,
}

/// The distance between two numbers.
pub open spec fn apart(a: int, b: int) -> int {
    if a >= b {
        a - b
    } else {
        b - a
    }
}

impl DpiCapabilities {
    #[verifier::type_invariant]
    spec fn inv(self) -> bool {
        self.values@.len() > 0 && strictly_ascending(self.values@)
    }

    /// The supported values.
    pub closed spec fn supported(self) -> Seq<u16> {
        self.values@
    }

    /// Build capabilities from the values that a device reports, in any order and
    /// with repetitions. A device must report at least one.
    pub fn new(values: Vec<u16>) -> (out: Result<Self, WriteError>)
        ensures
            match out {
                Ok(c) => values@.len() > 0 && strictly_ascending(c.supported()) && forall|v: u16|
                    c.supported().contains(v) == #[trigger] values@.contains(v),
                Err(e) => e == WriteError::EmptyDpiList && values@.len() == 0,
            },
    {
        let n: usize = values.len();
        if n == 0 {
            return Err(WriteError::EmptyDpiList);
        }
        let mut sorted: Vec<u16> = Vec::new();
        let mut i: usize = 0;
        while i < n
            invariant
                i <= n,
                n == values@.len(),
                i > 0 ==> sorted@.len() > 0,
                strictly_ascending(sorted@),
                forall|k: int| 0 <= k < i ==> sorted@.contains(#[trigger] values@[k]),
                forall|k: int| 0 <= k < sorted@.len() ==> values@.contains(#[trigger] sorted@[k]),
            decreases n - i,
        {
            let v: u16 = values[i];
            let ghost before = sorted@;
            insert_sorted(&mut sorted, v);
            proof {
                assert(values@[i as int] == v);
                assert(values@.contains(v));
                assert forall|k: int| 0 <= k < i + 1 implies sorted@.contains(
                    #[trigger] values@[k],
                ) by {
                    if k < i {
                        assert(before.contains(values@[k]));
                    }
                }
                assert forall|k: int| 0 <= k < sorted@.len() implies values@.contains(
                    #[trigger] sorted@[k],
                ) by {
                    assert(sorted@.contains(sorted@[k]));
                    if sorted@[k] != v {
                        assert(before.contains(sorted@[k]));
                        let j = choose|j: int| 0 <= j < before.len() && before[j] == sorted@[k];
                        assert(values@.contains(before[j]));
                    }
                }
                assert(sorted@.contains(v));
            }
            i = i + 1;
        }
        let out = DpiCapabilities { values: sorted };
        proof {
            assert forall|v: u16| out.supported().contains(v) == #[trigger] values@.contains(v) by {
                if values@.contains(v) {
                    let k = choose|k: int| 0 <= k < values@.len() && values@[k] == v;
                    assert(sorted@.contains(values@[k]));
                }
                if sorted@.contains(v) {
                    let k = choose|k: int| 0 <= k < sorted@.len() && sorted@[k] == v;
                    assert(values@.contains(sorted@[k]));
                }
            }
        }
        Ok(out)
    }

    /// All supported values, ascending.
    #[must_use]
    pub fn values(&self) -> (out: &[u16])
        ensures
            out@ == self.supported(),
            out@.len() > 0,
            strictly_ascending(out@),
    {
        proof {
            use_type_invariant(self);
        }
        self.values.as_slice()
    }

    /// The smallest supported value.
    #[must_use]
    pub fn min(&self) -> (out: u16)
        ensures
            self.supported().contains(out),
            forall|i: int| 0 <= i < self.supported().len() ==> out <= #[trigger] self.supported()[i],
    {
        proof {
            use_type_invariant(self);
            assert(self.supported()[0] == self.values@[0]);
        }
        self.values[0]
    }

    /// The largest supported value.
    #[must_use]
    pub fn max(&self) -> (out: u16)
        ensures
            self.supported().contains(out),
            forall|i: int| 0 <= i < self.supported().len() ==> #[trigger] self.supported()[i] <= out,
    {
        proof {
            use_type_invariant(self);
            assert(self.supported()[self.values@.len() - 1] == self.values@[self.values@.len() - 1]);
        }
        self.values[self.values.len() - 1]
    }

    /// Whether `dpi` is exactly supported.
    #[must_use]
    pub fn contains(&self, dpi: u16) -> (yes: bool)
        ensures
            yes == self.supported().contains(dpi),
    {
        let n: usize = self.values.len();
        let mut i: usize = 0;
        while i < n
            invariant
                i <= n,
                n == self.values@.len(),
                forall|k: int| 0 <= k < i ==> #[trigger] self.values@[k] != dpi,
            decreases n - i,
        {
            if self.values[i] == dpi {
                assert(self.values@[i as int] == dpi);
                return true;
            }
            i = i + 1;
        }
        false
    }

    /// `v` is the supported value nearest to `dpi`, the smaller one of two that
    /// are equally near.
    pub open spec fn is_nearest(self, dpi: u32, v: u16) -> bool {
        &&& self.supported().contains(v)
        &&& forall|i: int|
            0 <= i < self.supported().len() ==> apart(v as int, dpi as int) < apart(
                #[trigger] self.supported()[i] as int,
                dpi as int,
            ) || (apart(v as int, dpi as int) == apart(self.supported()[i] as int, dpi as int) && v
                <= self.supported()[i])
    }

    /// The supported value nearest to `dpi`.
    #[must_use]
    pub fn nearest(&self, dpi: u32) -> (out: u16)
        ensures
            self.is_nearest(dpi, out),
    {
        proof {
            use_type_invariant(self);
        }
        let n: usize = self.values.len();
        let mut nearest: u16 = self.values[0];
        let mut best: u32 = difference(nearest as u32, dpi);
        let ghost mut at: int = 0;
        let mut i: usize = 1;
        while i < n
            invariant
                1 <= i <= n,
                n == self.values@.len(),
                strictly_ascending(self.values@),
                0 <= at < i,
                nearest == self.values@[at],
                best == apart(nearest as int, dpi as int),
                forall|k: int|
                    0 <= k < i ==> best < apart(#[trigger] self.values@[k] as int, dpi as int) || (
                    best == apart(self.values@[k] as int, dpi as int) && nearest
                        <= self.values@[k]),
            decreases n - i,
        {
            let candidate: u16 = self.values[i];
            let delta: u32 = difference(candidate as u32, dpi);
            assert(self.values@[at] < self.values@[i as int]);
            if delta < best {
                nearest = candidate;
                best = delta;
                proof {
                    at = i as int;
                }
            }
            i = i + 1;
        }
        assert(self.supported()[at] == nearest);
        nearest
    }

    /// The supported value nearest to `dpi`, widened for arithmetic.
    #[must_use]
    pub fn snap(&self, dpi: u32) -> (out: u32)
        ensures
            out <= u16::MAX,
            self.is_nearest(dpi, out as u16),
    {
        self.nearest(dpi) as u32
    }

    /// The gap after the value at `i`.
    pub open spec fn gap(self, i: int) -> int {
        self.supported()[i + 1] - self.supported()[i]
    }

    /// A step for widgets that need a single increment: the smallest gap between
    /// neighbouring values, or one when there is no gap.
    #[must_use]
    pub fn step_hint(&self) -> (step: u16)
        ensures
            self.supported().len() < 2 ==> step == 1,
            self.supported().len() >= 2 ==> (exists|i: int|
                0 <= i < self.supported().len() - 1 && step == #[trigger] self.gap(i)),
            forall|i: int| 0 <= i < self.supported().len() - 1 ==> step <= #[trigger] self.gap(i),
    {
        proof {
            use_type_invariant(self);
        }
        let n: usize = self.values.len();
        if n < 2 {
            return 1;
        }
        let mut step: u16 = self.values[1] - self.values[0];
        let mut i: usize = 1;
        assert(step == self.gap(0));
        while i < n - 1
            invariant
                1 <= i <= n - 1,
                n == self.values@.len(),
                strictly_ascending(self.values@),
                exists|k: int| 0 <= k < n - 1 && step == #[trigger] self.gap(k),
                forall|k: int| 0 <= k < i ==> step <= #[trigger] self.gap(k),
            decreases n - i,
        {
            let here: u16 = self.values[i + 1] - self.values[i];
            assert(here == self.gap(i as int));
            if here < step {
                step = here;
            }
            i = i + 1;
        }
        step
    }

    /// A supported value different from `current`, for diagnostic writes: the next
    /// larger one, or else the next smaller one. A device with a single value has
    /// none.
    #[must_use]
    pub fn adjacent_test_target(&self, current: u16) -> (target: Option<u16>)
        ensures
            target is Some == (self.supported().len() >= 2),
            target matches Some(t) ==> self.supported().contains(t) && t != current && if exists|
                i: int,
            |
                0 <= i < self.supported().len() && #[trigger] self.supported()[i] > current {
                t > current && forall|i: int|
                    0 <= i < self.supported().len() && #[trigger] self.supported()[i] > current
                        ==> t <= self.supported()[i]
            } else {
                t < current && forall|i: int|
                    0 <= i < self.supported().len() && #[trigger] self.supported()[i] < current
                        ==> self.supported()[i] <= t
            },
    {
        proof {
            use_type_invariant(self);
        }
        let n: usize = self.values.len();
        if n < 2 {
            return None;
        }
        let mut i: usize = 0;
        while i < n
            invariant
                i <= n,
                n == self.values@.len(),
                n >= 2,
                strictly_ascending(self.values@),
                forall|k: int| 0 <= k < i ==> #[trigger] self.values@[k] <= current,
            decreases n - i,
        {
            if self.values[i] > current {
                assert(self.supported()[i as int] > current);
                return Some(self.values[i]);
            }
            i = i + 1;
        }
        if self.values[n - 1] == current {
            assert(self.values@[n - 2] < self.values@[n - 1]);
            assert(self.supported()[n - 2] == self.values@[n - 2]);
            Some(self.values[n - 2])
        } else {
            assert(self.supported()[n - 1] == self.values@[n - 1]);
            Some(self.values[n - 1])
        }
    }
}

impl Clone for DpiCapabilities {
    fn clone(&self) -> (out: Self)
        ensures
            out.supported() == self.supported(),
    {
        proof {
            use_type_invariant(self);
        }
        let mut values: Vec<u16> = Vec::new();
        values.extend_from_slice(self.values.as_slice());
        assert(values@ =~= self.values@);
        DpiCapabilities { values }
    }
}

fn difference(a: u32, b: u32) -> (out: u32)
    ensures
        out == apart(a as int, b as int),
{
    if a >= b {
        a - b
    } else {
        b - a
    }
}

fn insert_sorted(values: &mut Vec<u16>, v: u16)
    requires
        strictly_ascending(old(values)@),
    ensures
        strictly_ascending(final(values)@),
        forall|x: u16|
            #[trigger] final(values)@.contains(x) == (old(values)@.contains(x) || x == v),
{
    let ghost before = values@;
    let n: usize = values.len();
    let mut p: usize = 0;
    while p < n && values[p] < v
        invariant
            p <= n,
            n == values@.len(),
            values@ == before,
            strictly_ascending(before),
            forall|k: int| 0 <= k < p ==> #[trigger] before[k] < v,
        ensures
            p <= n,
            forall|k: int| 0 <= k < p ==> #[trigger] before[k] < v,
            p < n ==> before[p as int] >= v,
        decreases n - p,
    {
        p = p + 1;
    }
    if p < n && values[p] == v {
        assert(before[p as int] == v);
        return;
    }
    values.insert(p, v);
    proof {
        let after = values@;
        assert forall|i: int, j: int| 0 <= i < j < after.len() implies after[i] < after[j] by {
            let x = if i < p {
                i
            } else {
                i - 1
            };
            let y = if j < p {
                j
            } else {
                j - 1
            };
            if i == p {
                assert(after[j] == before[y]);
                assert(before[p as int] <= before[y]);
            } else if j == p {
                assert(after[i] == before[x]);
            } else {
                assert(after[i] == before[x]);
                assert(after[j] == before[y]);
            }
        }
        assert forall|x: u16| #[trigger] after.contains(x) == (before.contains(x) || x == v) by {
            if before.contains(x) {
                let k = choose|k: int| 0 <= k < before.len() && before[k] == x;
                if k < p {
                    assert(after[k] == x);
                } else {
                    assert(after[k + 1] == x);
                }
            }
            if x == v {
                assert(after[p as int] == v);
            }
            if after.contains(x) && x != v {
                let k = choose|k: int| 0 <= k < after.len() && after[k] == x;
                if k < p {
                    assert(before[k] == x);
                } else {
                    assert(before[k - 1] == x);
                }
            }
        }
    }
}

/// There is one nearest value.
pub proof fn nearest_is_unique(c: DpiCapabilities, dpi: u32, a: u16, b: u16)
    requires
        c.is_nearest(dpi, a),
        c.is_nearest(dpi, b),
    ensures
        a == b,
{
    let i = choose|i: int| 0 <= i < c.supported().len() && c.supported()[i] == a;
    let j = choose|j: int| 0 <= j < c.supported().len() && c.supported()[j] == b;
    assert(c.supported()[i] == a);
    assert(c.supported()[j] == b);
}

/// A supported value is nearest to itself: snapping twice changes nothing.
pub proof fn supported_values_snap_to_themselves(c: DpiCapabilities, v: u16, snapped: u16)
    requires
        c.supported().contains(v),
        c.is_nearest(v as u32, snapped),
    ensures
        snapped == v,
{
    let i = choose|i: int| 0 <= i < c.supported().len() && c.supported()[i] == v;
    assert(c.supported()[i] == v);
}

/// The present pointer resolution and the supported ones.
#[derive(Debug, PartialEq, Eq)]
pub struct DpiInfo {
    /// The resolution in force on the first sensor.
    pub current: u16,
    /// The supported resolutions of the first sensor.
    pub capabilities: DpiCapabilities,
}

impl Clone for DpiInfo {
    fn clone(&self) -> (out: Self)
        ensures
            out.current == self.current,
            out.capabilities.supported() == self.capabilities.supported(),
    {
        DpiInfo { current: self.current, capabilities: self.capabilities.clone() }
    }
}

/// The present pointer resolution: the error of reaching the feature, or what
/// reading gave.
pub fn get_dpi(opened: Result<(), WriteError>, reading: Result<u16, HidppError>) -> (out: Result<
    u16,
    WriteError,
>)
    ensures
        out == match opened {
            Err(e) => Err::<u16, WriteError>(e),
            Ok(_) => match reading {
                Ok(dpi) => Ok(dpi),
                Err(e) => Err(classified(e, HidppOperation::ReadDpi, ADJUSTABLE_DPI_FEATURE)),
            },
        },
{
    match opened {
        Err(e) => Err(e),
        Ok(_) => match reading {
            Ok(dpi) => Ok(dpi),
            Err(e) => Err(classify_hidpp_error(e, HidppOperation::ReadDpi, ADJUSTABLE_DPI_FEATURE)),
        },
    }
}

/// `out` is the present resolution with the supported ones, or the first failure:
/// of reaching the feature, of counting the sensors, no sensor at all, of reading
/// the present value, of reading the supported ones, no supported value.
pub open spec fn is_dpi_info(
    opened: Result<(), WriteError>,
    sensors: Result<u8, HidppError>,
    current: Result<u16, HidppError>,
    values: Result<Vec<u16>, HidppError>,
    out: Result<DpiInfo, WriteError>,
) -> bool {
    match (opened, sensors, current, values) {
        (Err(e), _, _, _) => out == Err::<DpiInfo, WriteError>(e),
        (_, Err(e), _, _) => out == Err::<DpiInfo, WriteError>(dpi_classified(e)),
        (_, Ok(0), _, _) => out == Err::<DpiInfo, WriteError>(
            WriteError::FeatureUnsupported { feature_hex: ADJUSTABLE_DPI_FEATURE },
        ),
        (_, _, Err(e), _) => out == Err::<DpiInfo, WriteError>(dpi_classified(e)),
        (_, _, _, Err(e)) => out == Err::<DpiInfo, WriteError>(dpi_classified(e)),
        (_, _, Ok(now), Ok(list)) => if list@.len() == 0 {
            out == Err::<DpiInfo, WriteError>(WriteError::EmptyDpiList)
        } else {
            out matches Ok(info) && info.current == now && strictly_ascending(
                info.capabilities.supported(),
            ) && forall|v: u16|
                info.capabilities.supported().contains(v) == #[trigger] list@.contains(v)
        },
    }
}

/// The present pointer resolution and the supported ones. A device that claims
/// the feature without a sensor cannot report any, now or later.
pub fn get_dpi_info(
    opened: Result<(), WriteError>,
    sensors: Result<u8, HidppError>,
    current: Result<u16, HidppError>,
    values: Result<Vec<u16>, HidppError>,
) -> (out: Result<DpiInfo, WriteError>)
    ensures
        is_dpi_info(opened, sensors, current, values, out),
{
    match opened {
        Err(e) => {
            return Err(e);
        },
        Ok(_) => {},
    }
    match sensors {
        Err(e) => {
            return Err(classify_dpi_error(e));
        },
        Ok(n) => {
            if n == 0 {
                return Err(WriteError::FeatureUnsupported { feature_hex: ADJUSTABLE_DPI_FEATURE });
            }
        },
    }
    let now: u16 = match current {
        Err(e) => {
            return Err(classify_dpi_error(e));
        },
        Ok(dpi) => dpi,
    };
    match values {
        Err(e) => Err(classify_dpi_error(e)),
        Ok(list) => match DpiCapabilities::new(list) {
            Ok(capabilities) => Ok(DpiInfo { current: now, capabilities }),
            Err(e) => Err(e),
        },
    }
}

/// What reading a value back after writing it showed.
#[derive(Debug, Clone, Copy, PartialEq, Eq, Structural)]
pub enum ReadBack {
    /// The device has the value.
    Verified,
    /// The device took the write and has another value: out of its range, most
    /// likely.
    Different(u16),
    /// The value could not be read back.
    Skipped,
}

/// The outcome of writing the pointer resolution: the error of reaching the
/// feature or of the write. A write that was taken succeeds whatever the
/// read-back shows; the caller may warn of a difference.
pub fn set_dpi(
    opened: Result<(), WriteError>,
    written: Result<(), HidppError>,
    dpi: u16,
    actual: Option<u16>,
) -> (out: Result<ReadBack, WriteError>)
    ensures
        out == match opened {
            Err(e) => Err::<ReadBack, WriteError>(e),
            Ok(_) => match written {
                Err(e) => Err(classified(e, HidppOperation::WriteDpi, ADJUSTABLE_DPI_FEATURE)),
                Ok(_) => Ok(
                    match actual {
                        Some(a) => if a == dpi {
                            ReadBack::Verified
                        } else {
                            ReadBack::Different(a)
                        },
                        None => ReadBack::Skipped,
                    },
                ),
            },
        },
{
    match opened {
        Err(e) => Err(e),
        Ok(_) => match written {
            Err(e) => Err(
                classify_hidpp_error(e, HidppOperation::WriteDpi, ADJUSTABLE_DPI_FEATURE),
            ),
            Ok(_) => Ok(
                match actual {
                    Some(a) => if a == dpi {
                        ReadBack::Verified
                    } else {
                        ReadBack::Different(a)
                    },
                    None => ReadBack::Skipped,
                },
            ),
        },
    }
}

/// The device that an open channel reaches.
#[derive(Debug)]
pub struct SharedChannel {
    /// The route.
    pub route: DeviceRoute,
}

impl Clone for SharedChannel {
    fn clone(&self) -> (out: Self)
        ensures
            out == *self,
    {
        SharedChannel { route: self.route.clone() }
    }
}

impl SharedChannel {
    /// Whether the channel reaches `route`, so that it is reused only for the
    /// device that it points at.
    #[must_use]
    pub fn matches(&self, route: &DeviceRoute) -> (yes: bool)
        ensures
            yes == self.route.same_place(*route),
    {
        self.route.same_as(route)
    }

    /// The device index that requests over the channel address.
    pub fn device_index(&self) -> (index: u8)
        ensures
            index == self.route.index(),
    {
        self.route.device_index()
    }
}

} // verus!

//! SmartShift: the wheel that switches between ratchet and free spin.

use vstd::prelude::*;

use crate::write::{classified, classify_hidpp_error, HidppError, HidppOperation, WriteError};

verus! {

/// The enhanced SmartShift feature.
pub const ENHANCED_FEATURE: u16 = 0x2111;

/// The original SmartShift feature.
pub const LEGACY_FEATURE: u16 = 0x2110;

/// How the wheel turns.
#[derive(Debug, Clone, Copy, PartialEq, Eq, Structural)]
pub enum SmartShiftMode {
    /// Free spin.
    Free,
    /// Ratchet.
    Ratchet,
}

/// How the wheel turns, in the vocabulary of the original feature.
#[derive(Debug, Clone, Copy, PartialEq, Eq, Structural)]
pub enum WheelMode {
    /// Free spin.
    Freespin,
    /// Ratchet.
    Ratchet,
    /// One that is not known.
    Other,
}

impl SmartShiftMode {
    /// The other mode.
    pub open spec fn other(self) -> SmartShiftMode {
        match self {
            SmartShiftMode::Free => SmartShiftMode::Ratchet,
            SmartShiftMode::Ratchet => SmartShiftMode::Free,
        }
    }

    /// The other mode.
    pub fn flipped(self) -> (out: SmartShiftMode)
        ensures
            out == self.other(),
    {
        match self {
            SmartShiftMode::Free => SmartShiftMode::Ratchet,
            SmartShiftMode::Ratchet => SmartShiftMode::Free,
        }
    }

    /// The number of the mode on the wire.
    pub open spec fn code_of(self) -> u8 {
        match self {
            SmartShiftMode::Free => 1,
            SmartShiftMode::Ratchet => 2,
        }
    }

    /// The number of the mode on the wire, which both features share.
    pub fn code(self) -> (code: u8)
        ensures
            code == self.code_of(),
    {
        match self {
            SmartShiftMode::Free => 1,
            SmartShiftMode::Ratchet => 2,
        }
    }
}

/// The mode that a wheel mode stands for.
pub open spec fn mode_of(wheel: WheelMode) -> SmartShiftMode {
    match wheel {
        WheelMode::Freespin => SmartShiftMode::Free,
        WheelMode::Ratchet | WheelMode::Other => SmartShiftMode::Ratchet,
    }
}

/// The mode that a wheel mode stands for. Ratchet is the safe default.
pub fn wheel_mode_to_smartshift(wheel: WheelMode) -> (mode: SmartShiftMode)
    ensures
        mode == mode_of(wheel),
{
    match wheel {
        WheelMode::Freespin => SmartShiftMode::Free,
        _ => SmartShiftMode::Ratchet,
    }
}

/// The wheel mode that a mode stands for.
pub open spec fn wheel_of(mode: SmartShiftMode) -> WheelMode {
    match mode {
        SmartShiftMode::Free => WheelMode::Freespin,
        SmartShiftMode::Ratchet => WheelMode::Ratchet,
    }
}

/// The wheel mode that a mode stands for.
pub fn smartshift_to_wheel(mode: SmartShiftMode) -> (wheel: WheelMode)
    ensures
        wheel == wheel_of(mode),
{
    match mode {
        SmartShiftMode::Free => WheelMode::Freespin,
        SmartShiftMode::Ratchet => WheelMode::Ratchet,
    }
}

/// The two vocabularies say the same of every known mode, and flipping twice changes
/// nothing.
pub proof fn modes_go_both_ways(mode: SmartShiftMode, wheel: WheelMode)
    ensures
        mode_of(wheel_of(mode)) == mode,
        wheel != WheelMode::Other ==> wheel_of(mode_of(wheel)) == wheel,
        mode.other().other() == mode,
        mode.other() != mode,
{
}

/// A SmartShift configuration.
#[derive(Debug, Clone, Copy, PartialEq, Eq, Structural)]
pub struct SmartShiftStatus {
    /// How the wheel turns.
    pub mode: SmartShiftMode,
    /// The speed at which the ratchet lets go; the largest value never does.
    pub auto_disengage: u8,
    /// The ratchet's torque; zero where it cannot be tuned.
    pub tunable_torque: u8,
}

/// Which SmartShift feature a device has.
#[derive(Debug, Clone, Copy, PartialEq, Eq, Structural)]
pub enum SmartShift {
    /// The enhanced feature.
    Enhanced,
    /// The original feature, without torque.
    Legacy,
}

impl SmartShift {
    /// The feature's number.
    pub open spec fn feature_of(self) -> u16 {
        match self {
            SmartShift::Enhanced => ENHANCED_FEATURE,
            SmartShift::Legacy => LEGACY_FEATURE,
        }
    }

    /// The feature's number.
    pub fn feature(self) -> (feature: u16)
        ensures
            feature == self.feature_of(),
    {
        match self {
            SmartShift::Enhanced => ENHANCED_FEATURE,
            SmartShift::Legacy => LEGACY_FEATURE,
        }
    }
}

/// The error says that the enhanced feature is missing.
pub open spec fn misses_enhanced(err: WriteError) -> bool {
    err matches WriteError::FeatureUnsupported { feature_hex } && feature_hex == ENHANCED_FEATURE
}

/// Whether a failure to open the enhanced feature calls for the original one.
/// Only a missing feature does: a real failure is never masked by a second
/// attempt.
pub fn is_missing_enhanced(err: &WriteError) -> (yes: bool)
    ensures
        yes == misses_enhanced(*err),
{
    match err {
        WriteError::FeatureUnsupported { feature_hex } => *feature_hex == ENHANCED_FEATURE,
        _ => false,
    }
}

/// What follows the attempt to open the enhanced feature.
#[derive(Debug)]
pub enum AfterEnhanced {
    /// Use it.
    Use,
    /// Try the original feature.
    TryLegacy,
    /// Give up.
    Fail(WriteError),
}

/// What follows the attempt to open the enhanced feature.
pub open spec fn after_enhanced_of(opened: Result<u8, WriteError>) -> AfterEnhanced {
    match opened {
        Ok(_) => AfterEnhanced::Use,
        Err(e) => if misses_enhanced(e) {
            AfterEnhanced::TryLegacy
        } else {
            AfterEnhanced::Fail(e)
        },
    }
}

/// What follows the attempt to open the enhanced feature.
pub fn after_enhanced(opened: Result<u8, WriteError>) -> (out: AfterEnhanced)
    ensures
        out == after_enhanced_of(opened),
{
    match opened {
        Ok(_) => AfterEnhanced::Use,
        Err(e) => if is_missing_enhanced(&e) {
            AfterEnhanced::TryLegacy
        } else {
            AfterEnhanced::Fail(e)
        },
    }
}

/// Which feature is open: the enhanced one or, where it is missing, the original
/// one.
pub fn open_smartshift(
    enhanced: Result<u8, WriteError>,
    legacy: Result<u8, WriteError>,
) -> (out: Result<SmartShift, WriteError>)
    ensures
        out == match after_enhanced_of(enhanced) {
            AfterEnhanced::Use => Ok::<SmartShift, WriteError>(SmartShift::Enhanced),
            AfterEnhanced::Fail(e) => Err(e),
            AfterEnhanced::TryLegacy => match legacy {
                Ok(_) => Ok(SmartShift::Legacy),
                Err(e) => Err(e),
            },
        },
{
    match after_enhanced(enhanced) {
        AfterEnhanced::Use => Ok(SmartShift::Enhanced),
        AfterEnhanced::Fail(e) => Err(e),
        AfterEnhanced::TryLegacy => match legacy {
            Ok(_) => Ok(SmartShift::Legacy),
            Err(e) => Err(e),
        },
    }
}

/// The status that the original feature reports: it has no torque.
pub fn legacy_status(wheel: WheelMode, auto_disengage: u8) -> (status: SmartShiftStatus)
    ensures
        status == (SmartShiftStatus { mode: mode_of(wheel), auto_disengage, tunable_torque: 0 }),
{
    SmartShiftStatus { mode: wheel_mode_to_smartshift(wheel), auto_disengage, tunable_torque: 0 }
}

/// What reading SmartShift gave.
pub open spec fn status_outcome(
    opened: Result<SmartShift, WriteError>,
    reading: Result<SmartShiftStatus, HidppError>,
) -> Result<SmartShiftStatus, WriteError> {
    match opened {
        Err(e) => Err(e),
        Ok(feature) => match reading {
            Ok(status) => Ok(status),
            Err(e) => Err(classified(e, HidppOperation::ReadSmartShift, feature.feature_of())),
        },
    }
}

/// The present configuration: the error of opening a feature or of the reading.
pub fn get_smartshift_status(
    opened: Result<SmartShift, WriteError>,
    reading: Result<SmartShiftStatus, HidppError>,
) -> (out: Result<SmartShiftStatus, WriteError>)
    ensures
        out == status_outcome(opened, reading),
{
    match opened {
        Err(e) => Err(e),
        Ok(feature) => match reading {
            Ok(status) => Ok(status),
            Err(e) => Err(
                classify_hidpp_error(e, HidppOperation::ReadSmartShift, feature.feature()),
            ),
        },
    }
}

/// A write of a configuration.
#[derive(Debug, Clone, Copy, PartialEq, Eq, Structural)]
pub enum SmartShiftWrite {
    /// To the enhanced feature: all three fields.
    Enhanced {
        /// How the wheel turns.
        mode: SmartShiftMode,
        /// The threshold.
        auto_disengage: u8,
        /// The torque.
        tunable_torque: u8,
    },
    /// To the original feature, which has no torque. Both fields are written
    /// explicitly, never left to what the device may take for unchanged.
    Legacy {
        /// How the wheel turns.
        wheel: WheelMode,
        /// The threshold.
        auto_disengage: u8,
    },
}

/// The write that puts `status` into force.
pub open spec fn write_of(feature: SmartShift, status: SmartShiftStatus) -> SmartShiftWrite {
    match feature {
        SmartShift::Enhanced => SmartShiftWrite::Enhanced {
            mode: status.mode,
            auto_disengage: status.auto_disengage,
            tunable_torque: status.tunable_torque,
        },
        SmartShift::Legacy => SmartShiftWrite::Legacy {
            wheel: wheel_of(status.mode),
            auto_disengage: status.auto_disengage,
        },
    }
}

/// The write that puts `status` into force.
pub fn status_write(feature: SmartShift, status: SmartShiftStatus) -> (out: SmartShiftWrite)
    ensures
        out == write_of(feature, status),
{
    match feature {
        SmartShift::Enhanced => SmartShiftWrite::Enhanced {
            mode: status.mode,
            auto_disengage: status.auto_disengage,
            tunable_torque: status.tunable_torque,
        },
        SmartShift::Legacy => SmartShiftWrite::Legacy {
            wheel: smartshift_to_wheel(status.mode),
            auto_disengage: status.auto_disengage,
        },
    }
}

/// The write that flips the mode and keeps everything else, with the new mode.
pub fn toggle_smartshift(feature: SmartShift, status: SmartShiftStatus) -> (out: (
    SmartShiftMode,
    SmartShiftWrite,
))
    ensures
        out.0 == status.mode.other(),
        out.1 == write_of(feature, SmartShiftStatus { mode: status.mode.other(), ..status }),
{
    let next: SmartShiftMode = status.mode.flipped();
    let flipped = SmartShiftStatus {
        mode: next,
        auto_disengage: status.auto_disengage,
        tunable_torque: status.tunable_torque,
    };
    (next, status_write(feature, flipped))
}

/// The write that sets the threshold and keeps everything else. Zero would be
/// taken for no change by the device and is no threshold.
pub fn set_smartshift_sensitivity(
    feature: SmartShift,
    status: SmartShiftStatus,
    value: u8,
) -> (out: SmartShiftWrite)
    requires
        value != 0,
    ensures
        out == write_of(feature, SmartShiftStatus { auto_disengage: value, ..status }),
{
    let changed = SmartShiftStatus {
        mode: status.mode,
        auto_disengage: value,
        tunable_torque: status.tunable_torque,
    };
    status_write(feature, changed)
}

/// The outcome of a write.
pub fn set_smartshift(
    opened: Result<SmartShift, WriteError>,
    written: Result<(), HidppError>,
) -> (out: Result<(), WriteError>)
    ensures
        out == match opened {
            Err(e) => Err::<(), WriteError>(e),
            Ok(feature) => match written {
                Ok(_) => Ok(()),
                Err(e) => Err(
                    classified(e, HidppOperation::WriteSmartShift, feature.feature_of()),
                ),
            },
        },
{
    match opened {
        Err(e) => Err(e),
        Ok(feature) => match written {
            Ok(_) => Ok(()),
            Err(e) => Err(
                classify_hidpp_error(e, HidppOperation::WriteSmartShift, feature.feature()),
            ),
        },
    }
}

/// Toggling the wheel twice writes the configuration that was read at first.
pub proof fn toggling_twice_restores(feature: SmartShift, status: SmartShiftStatus)
    ensures
        ({
            let once = SmartShiftStatus { mode: status.mode.other(), ..status };
            let twice = SmartShiftStatus { mode: once.mode.other(), ..once };
            write_of(feature, twice) == write_of(feature, status)
        }),
{
}

} // verus!

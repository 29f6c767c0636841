//! The controls of a camera: what can be set, and what it was found to be.

use vstd::prelude::*;

verus! {

/// A numeric control of a camera.
#[derive(Debug, Clone, Copy, PartialEq, Eq, Structural)]
pub enum CameraControl {
    /// Lens zoom.
    Zoom,
    /// Lens focus.
    Focus,
    /// Exposure time.
    Exposure,
    /// Image brightness.
    Brightness,
    /// Image contrast.
    Contrast,
    /// Colour saturation.
    Saturation,
    /// Edge sharpness.
    Sharpness,
    /// White balance temperature.
    WhiteBalance,
    /// Hue.
    Tint,
}

impl CameraControl {
    /// Every control, in the order in which they are read.
    pub const ALL: [CameraControl; 9] = [
        CameraControl::Zoom,
        CameraControl::Focus,
        CameraControl::Exposure,
        CameraControl::Brightness,
        CameraControl::Contrast,
        CameraControl::Saturation,
        CameraControl::Sharpness,
        CameraControl::WhiteBalance,
        CameraControl::Tint,
    ];
}

/// Every control, in the order in which they are read.
pub open spec fn all_controls() -> Seq<CameraControl> {
    seq![
        CameraControl::Zoom,
        CameraControl::Focus,
        CameraControl::Exposure,
        CameraControl::Brightness,
        CameraControl::Contrast,
        CameraControl::Saturation,
        CameraControl::Sharpness,
        CameraControl::WhiteBalance,
        CameraControl::Tint,
    ]
}

/// An automatic mode of a camera.
#[derive(Debug, Clone, Copy, PartialEq, Eq, Structural)]
pub enum AutoToggle {
    /// Automatic focus.
    Focus,
    /// Automatic exposure.
    Exposure,
    /// Automatic white balance.
    WhiteBalance,
}

impl AutoToggle {
    /// Every automatic mode, in the order in which they are read.
    pub const ALL: [AutoToggle; 3] = [
        AutoToggle::Focus,
        AutoToggle::Exposure,
        AutoToggle::WhiteBalance,
    ];
}

/// Every automatic mode, in the order in which they are read.
pub open spec fn all_toggles() -> Seq<AutoToggle> {
    seq![AutoToggle::Focus, AutoToggle::Exposure, AutoToggle::WhiteBalance]
}

/// The bounds and the value of a control.
#[derive(Debug, Clone, Copy, PartialEq, Eq, Structural)]
pub struct ControlRange {
    /// Smallest value.
    pub min: i32,
    /// Largest value.
    pub max: i32,
    /// Factory value.
    pub default: i32,
    /// Present value.
    pub current: i32,
}

/// The state of an automatic mode.
#[derive(Debug, Clone, Copy, PartialEq, Eq, Structural)]
pub struct AutoState {
    /// Whether it is engaged.
    pub current: bool,
    /// Whether it is engaged from the factory.
    pub default: bool,
}

/// Everything that a camera reported of its controls.
#[derive(Debug)]
pub struct CameraState {
    /// The supported controls.
    pub controls: Vec<(CameraControl, ControlRange)>,
    /// The supported automatic modes.
    pub autos: Vec<(AutoToggle, AutoState)>,
}

impl Default for CameraState {
    fn default() -> (out: Self)
        ensures
            out.controls@.len() == 0,
            out.autos@.len() == 0,
    {
        CameraState { controls: Vec::new(), autos: Vec::new() }
    }
}

/// Why a control could not be read or written.
#[derive(Debug, PartialEq, Eq)]
pub enum ControlError {
    /// No camera matches.
    NotFound,
    /// Several cameras match and cannot be told apart.
    Ambiguous,
    /// The camera does not have the control, or refused the request.
    Unsupported,
    /// The platform failed.
    Io(String),
}

impl Clone for ControlError {
    fn clone(&self) -> (out: Self)
        ensures
            out == *self,
    {
        match self {
            ControlError::NotFound => ControlError::NotFound,
            ControlError::Ambiguous => ControlError::Ambiguous,
            ControlError::Unsupported => ControlError::Unsupported,
            ControlError::Io(s) => ControlError::Io(s.clone()),
        }
    }
}

/// The first failure among the outcomes of a batch.
pub open spec fn first_failure(outcomes: Seq<Result<(), ControlError>>) -> Result<
    (),
    ControlError,
>
    decreases outcomes.len(),
{
    if outcomes.len() == 0 {
        Ok(())
    } else if outcomes[0] is Err {
        outcomes[0]
    } else {
        first_failure(outcomes.skip(1))
    }
}

/// The outcome of a batch in which every write was attempted: the first failure,
/// so that nobody takes a batch for done that the hardware did not take.
pub fn batch_outcome(outcomes: &[Result<(), ControlError>]) -> (out: Result<(), ControlError>)
    ensures
        out == first_failure(outcomes@),
{
    let n: usize = outcomes.len();
    let mut i: usize = 0;
    assert(outcomes@.skip(0) =~= outcomes@);
    while i < n
        invariant
            i <= n,
            n == outcomes@.len(),
            first_failure(outcomes@) == first_failure(outcomes@.skip(i as int)),
        decreases n - i,
    {
        match &outcomes[i] {
            Err(e) => {
                return Err(e.clone());
            },
            Ok(_) => {},
        }
        assert(outcomes@.skip(i as int).skip(1) =~= outcomes@.skip(i as int + 1));
        i = i + 1;
    }
    Ok(())
}

/// A batch succeeds exactly when every write did.
pub proof fn batch_succeeds_when_all_do(outcomes: Seq<Result<(), ControlError>>)
    ensures
        first_failure(outcomes) is Ok == (forall|i: int|
            0 <= i < outcomes.len() ==> #[trigger] outcomes[i] is Ok),
    decreases outcomes.len(),
{
    if outcomes.len() > 0 && outcomes[0] is Ok {
        batch_succeeds_when_all_do(outcomes.skip(1));
        if first_failure(outcomes) is Ok {
            assert forall|i: int| 0 <= i < outcomes.len() implies #[trigger] outcomes[i] is Ok by {
                if i > 0 {
                    assert(outcomes.skip(1)[i - 1] is Ok);
                }
            }
        }
    }
}

/// One write of a batch.
#[derive(Debug, Clone, Copy, PartialEq, Eq, Structural)]
pub enum SettingWrite {
    /// Switch an automatic mode.
    Auto(AutoToggle, bool),
    /// Set a control.
    Value(CameraControl, i32),
}

/// The writes of a batch: automatic modes first, so that a manual value is not
/// refused by a mode that is still engaged.
pub open spec fn batch_of(autos: Seq<(AutoToggle, bool)>, values: Seq<(CameraControl, i32)>) -> Seq<
    SettingWrite,
> {
    autos.map_values(|a: (AutoToggle, bool)| SettingWrite::Auto(a.0, a.1)) + values.map_values(
        |v: (CameraControl, i32)| SettingWrite::Value(v.0, v.1),
    )
}

/// The writes of a batch, in order.
pub fn settings_batch(autos: &[(AutoToggle, bool)], values: &[(CameraControl, i32)]) -> (out: Vec<
    SettingWrite,
>)
    ensures
        out@ == batch_of(autos@, values@),
{
    let mut out: Vec<SettingWrite> = Vec::new();
    let ghost first = autos@.map_values(|a: (AutoToggle, bool)| SettingWrite::Auto(a.0, a.1));
    let ghost second = values@.map_values(
        |v: (CameraControl, i32)| SettingWrite::Value(v.0, v.1),
    );
    let n: usize = autos.len();
    let mut i: usize = 0;
    while i < n
        invariant
            i <= n,
            n == autos@.len(),
            first == autos@.map_values(|a: (AutoToggle, bool)| SettingWrite::Auto(a.0, a.1)),
            out@ =~= first.take(i as int),
        decreases n - i,
    {
        out.push(SettingWrite::Auto(autos[i].0, autos[i].1));
        assert(first.take(i as int + 1) =~= first.take(i as int).push(first[i as int]));
        i = i + 1;
    }
    assert(first.take(n as int) =~= first);
    let m: usize = values.len();
    let mut k: usize = 0;
    while k < m
        invariant
            k <= m,
            m == values@.len(),
            second == values@.map_values(
                |v: (CameraControl, i32)| SettingWrite::Value(v.0, v.1),
            ),
            out@ =~= first + second.take(k as int),
        decreases m - k,
    {
        out.push(SettingWrite::Value(values[k].0, values[k].1));
        assert(second.take(k as int + 1) =~= second.take(k as int).push(second[k as int]));
        k = k + 1;
    }
    assert(second.take(m as int) =~= second);
    out
}

} // verus!

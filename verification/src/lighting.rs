//! Keyboard lighting: a solid colour over one of two HID++ features.
//!
//! A fixed effect of the effect engine replaces a running onboard profile, which
//! a per-key write cannot; the engine is therefore preferred where a keyboard has
//! one. Effects are kept in memory only, not in flash.

use vstd::prelude::*;

use crate::write::{feature_outcome, open_feature, HidppError, HidppOperation, WriteError};

verus! {

/// The feature that streams each key's colour.
pub const PER_KEY_LIGHTING_FEATURE: u16 = 0x8080;

/// The feature that runs lighting effects.
pub const COLOR_LED_EFFECTS_FEATURE: u16 = 0x8070;

/// How many zones a fixed effect is written to. A write to a zone that does not
/// exist does nothing.
pub const MAX_LIGHTING_ZONES: u8 = 4;

/// The pause after each effect report: the controller drops reports that follow
/// each other at once.
pub const FRAME_GAP_MILLIS: u64 = 8;

/// The last key usage that is lit.
pub const LAST_KEY: u8 = 0xe8;

/// Which feature drives a solid colour.
#[derive(Debug, Clone, Copy, PartialEq, Eq, Structural)]
pub enum LightingMethod {
    /// The effect engine, or the per-key stream where there is none.
    Auto,
    /// The effect engine.
    Effects,
    /// The per-key stream.
    PerKey,
}

/// What follows an attempt to set the colour.
#[derive(Debug)]
pub enum LightingStep {
    /// Try the effect engine.
    TryEffects,
    /// Try the per-key stream.
    TryPerKey,
    /// It is over.
    Done(Result<(), WriteError>),
}

/// What became of a solid colour in automatic choice: the outcome over the effect
/// engine, or that of the per-key stream where the engine is missing.
pub fn set_keyboard_color(
    effects: Result<(), WriteError>,
    per_key: Result<(), WriteError>,
) -> (out: Result<(), WriteError>)
    ensures
        out == if lacks_effects(effects) {
            per_key
        } else {
            effects
        },
{
    match set_keyboard_color_with(LightingMethod::Auto) {
        LightingStep::TryEffects => match after_effects(LightingMethod::Auto, effects) {
            LightingStep::Done(outcome) => outcome,
            _ => per_key,
        },
        LightingStep::TryPerKey => per_key,
        LightingStep::Done(outcome) => outcome,
    }
}

/// What to try first for a solid colour.
pub fn set_keyboard_color_with(method: LightingMethod) -> (step: LightingStep)
    ensures
        step == match method {
            LightingMethod::PerKey => LightingStep::TryPerKey,
            _ => LightingStep::TryEffects,
        },
{
    match method {
        LightingMethod::PerKey => LightingStep::TryPerKey,
        _ => LightingStep::TryEffects,
    }
}

/// The attempt failed for want of the effect engine.
pub open spec fn lacks_effects(outcome: Result<(), WriteError>) -> bool {
    outcome matches Err(WriteError::FeatureUnsupported { feature_hex }) && feature_hex
        == COLOR_LED_EFFECTS_FEATURE
}

/// What follows the attempt over the effect engine: the per-key stream, only in
/// automatic choice and only where the engine is missing. Every other outcome
/// stands.
pub fn after_effects(method: LightingMethod, outcome: Result<(), WriteError>) -> (step:
    LightingStep)
    ensures
        step == if method == LightingMethod::Auto && lacks_effects(outcome) {
            LightingStep::TryPerKey
        } else {
            LightingStep::Done(outcome)
        },
{
    if method == LightingMethod::Auto {
        match &outcome {
            Err(WriteError::FeatureUnsupported { feature_hex }) => {
                if *feature_hex == COLOR_LED_EFFECTS_FEATURE {
                    return LightingStep::TryPerKey;
                }
            },
            _ => {},
        }
    }
    LightingStep::Done(outcome)
}

/// The index of a lighting feature, and a device to write to: the error of the
/// lookup, a missing feature, the error of opening a writer, or no device.
pub fn resolve_lighting(
    reached: Result<(), WriteError>,
    lookup: Result<Option<u8>, HidppError>,
    feature_hex: u16,
    writer: Result<bool, WriteError>,
) -> (out: Result<u8, WriteError>)
    ensures
        out == match feature_outcome(
            reached,
            lookup,
            HidppOperation::ResolveFeature,
            feature_hex,
        ) {
            Err(e) => Err::<u8, WriteError>(e),
            Ok(index) => match writer {
                Err(e) => Err(e),
                Ok(true) => Ok(index),
                Ok(false) => Err(WriteError::DeviceNotFound),
            },
        },
{
    match open_feature(reached, lookup, HidppOperation::ResolveFeature, feature_hex) {
        Err(e) => Err(e),
        Ok(index) => match writer {
            Err(e) => Err(e),
            Ok(found) => if found {
                Ok(index)
            } else {
                Err(WriteError::DeviceNotFound)
            },
        },
    }
}

/// A colour.
#[derive(Debug, Clone, Copy, PartialEq, Eq, Structural)]
pub struct Rgb {
    /// Red.
    pub r: u8,
    /// Green.
    pub g: u8,
    /// Blue.
    pub b: u8,
}

/// The report that gives a zone a fixed colour, kept in memory only.
pub open spec fn zone_report(device_index: u8, feature_index: u8, zone: u8, colour: Rgb) -> Seq<u8> {
    seq![
        0x11u8,
        device_index,
        feature_index,
        0x3au8,
        zone,
        0x01u8,
        colour.r,
        colour.g,
        colour.b,
        0u8,
        0u8,
        0u8,
        0u8,
        0u8,
        0u8,
        0u8,
        0u8,
        0u8,
        0u8,
        0u8,
    ]
}

fn zeros(n: usize) -> (out: Vec<u8>)
    ensures
        out@ == Seq::new(n as nat, |i: int| 0u8),
{
    let mut out: Vec<u8> = Vec::new();
    let mut i: usize = 0;
    while i < n
        invariant
            i <= n,
            out@ == Seq::new(i as nat, |k: int| 0u8),
        decreases n - i,
    {
        out.push(0);
        assert(out@ =~= Seq::new((i + 1) as nat, |k: int| 0u8));
        i = i + 1;
    }
    out
}

/// The reports that set a solid colour over the effect engine, one per zone.
pub fn effect_reports(device_index: u8, feature_index: u8, colour: Rgb) -> (reports: Vec<Vec<u8>>)
    ensures
        reports@.len() == MAX_LIGHTING_ZONES,
        forall|z: int|
            0 <= z < MAX_LIGHTING_ZONES ==> (#[trigger] reports@[z])@ == zone_report(
                device_index,
                feature_index,
                z as u8,
                colour,
            ),
{
    let mut reports: Vec<Vec<u8>> = Vec::new();
    let mut zone: u8 = 0;
    while zone < MAX_LIGHTING_ZONES
        invariant
            zone <= MAX_LIGHTING_ZONES,
            reports@.len() == zone,
            forall|z: int|
                0 <= z < zone ==> (#[trigger] reports@[z])@ == zone_report(
                    device_index,
                    feature_index,
                    z as u8,
                    colour,
                ),
        decreases MAX_LIGHTING_ZONES - zone,
    {
        let mut rep: Vec<u8> = zeros(20);
        rep.set(0, 0x11);
        rep.set(1, device_index);
        rep.set(2, feature_index);
        rep.set(3, 0x3a);
        rep.set(4, zone);
        rep.set(5, 0x01);
        rep.set(6, colour.r);
        rep.set(7, colour.g);
        rep.set(8, colour.b);
        rep.set(16, 0x00);
        assert(rep@ =~= zone_report(device_index, feature_index, zone, colour));
        reports.push(rep);
        zone = zone + 1;
    }
    reports
}

/// The key in entry `e` of frame `f`.
pub open spec fn key_at(f: int, e: int) -> int {
    14 * f + e
}

/// Byte `i` of the frame `f` of a per-key stream: a header of eight bytes, then
/// fourteen entries of a key and its colour, as far as there are keys.
pub open spec fn key_frame_byte(
    device_index: u8,
    feature_index: u8,
    colour: Rgb,
    f: int,
    i: int,
) -> u8 {
    if i == 0 {
        0x12
    } else if i == 1 {
        device_index
    } else if i == 2 {
        feature_index
    } else if i == 3 {
        0x3a
    } else if i == 5 {
        0x01
    } else if i == 7 {
        0x0e
    } else if i < 8 || key_at(f, (i - 8) / 4) > LAST_KEY {
        0
    } else if (i - 8) % 4 == 0 {
        key_at(f, (i - 8) / 4) as u8
    } else if (i - 8) % 4 == 1 {
        colour.r
    } else if (i - 8) % 4 == 2 {
        colour.g
    } else {
        colour.b
    }
}

/// Frame `f` of a per-key stream.
pub open spec fn key_frame(device_index: u8, feature_index: u8, colour: Rgb, f: int) -> Seq<u8> {
    Seq::new(64, |i: int| key_frame_byte(device_index, feature_index, colour, f, i))
}

/// The report that puts a per-key stream into force.
pub open spec fn commit_report(device_index: u8, feature_index: u8) -> Seq<u8> {
    Seq::new(
        20,
        |i: int|
            if i == 0 {
                0x11u8
            } else if i == 1 {
                device_index
            } else if i == 2 {
                feature_index
            } else if i == 3 {
                0x5au8
            } else {
                0u8
            },
    )
}

/// How many frames hold all keys.
pub const KEY_FRAMES: u8 = 17;

fn frame_of_keys(device_index: u8, feature_index: u8, colour: Rgb, f: u8) -> (rep: Vec<u8>)
    requires
        f < KEY_FRAMES,
    ensures
        rep@ == key_frame(device_index, feature_index, colour, f as int),
{
    let mut rep: Vec<u8> = zeros(64);
    rep.set(0, 0x12);
    rep.set(1, device_index);
    rep.set(2, feature_index);
    rep.set(3, 0x3a);
    rep.set(5, 0x01);
    rep.set(7, 0x0e);
    let ghost want = key_frame(device_index, feature_index, colour, f as int);
    let mut e: usize = 0;
    while e < 14
        invariant
            e <= 14,
            f < KEY_FRAMES,
            rep@.len() == 64,
            want == key_frame(device_index, feature_index, colour, f as int),
            forall|i: int| 0 <= i < 8 + 4 * e ==> #[trigger] rep@[i] == want[i],
            forall|i: int| 8 + 4 * e <= i < 64 ==> #[trigger] rep@[i] == 0,
        decreases 14 - e,
    {
        let key: usize = 14 * f as usize + e;
        let off: usize = 8 + e * 4;
        if key <= LAST_KEY as usize {
            rep.set(off, key as u8);
            rep.set(off + 1, colour.r);
            rep.set(off + 2, colour.g);
            rep.set(off + 3, colour.b);
        }
        proof {
            assert forall|i: int| off <= i < off + 4 implies rep@[i] == want[i] by {
                assert((i - 8) / 4 == e);
            }
        }
        e = e + 1;
    }
    assert(rep@ =~= want);
    rep
}

/// The reports that set a solid colour over the per-key stream: frames with every
/// key, modifiers included, then the commit.
pub fn per_key_reports(device_index: u8, feature_index: u8, colour: Rgb) -> (reports: Vec<Vec<u8>>)
    ensures
        reports@.len() == KEY_FRAMES + 1,
        forall|f: int|
            0 <= f < KEY_FRAMES ==> (#[trigger] reports@[f])@ == key_frame(
                device_index,
                feature_index,
                colour,
                f,
            ),
        reports@[KEY_FRAMES as int]@ == commit_report(device_index, feature_index),
{
    let mut reports: Vec<Vec<u8>> = Vec::new();
    let mut f: u8 = 0;
    while f < KEY_FRAMES
        invariant
            f <= KEY_FRAMES,
            reports@.len() == f,
            forall|k: int|
                0 <= k < f ==> (#[trigger] reports@[k])@ == key_frame(
                    device_index,
                    feature_index,
                    colour,
                    k,
                ),
        decreases KEY_FRAMES - f,
    {
        reports.push(frame_of_keys(device_index, feature_index, colour, f));
        f = f + 1;
    }
    let mut commit: Vec<u8> = zeros(20);
    commit.set(0, 0x11);
    commit.set(1, device_index);
    commit.set(2, feature_index);
    commit.set(3, 0x5a);
    assert(commit@ =~= commit_report(device_index, feature_index));
    reports.push(commit);
    reports
}

/// Every key has its colour in exactly one entry of the stream.
pub proof fn every_key_is_lit_once(
    device_index: u8,
    feature_index: u8,
    colour: Rgb,
    key: u8,
) -> (at: (int, int))
    requires
        key <= LAST_KEY,
    ensures
        0 <= at.0 < KEY_FRAMES,
        0 <= at.1 < 14,
        key_at(at.0, at.1) == key,
        ({
            let frame = key_frame(device_index, feature_index, colour, at.0);
            let off = 8 + 4 * at.1;
            frame[off] == key && frame[off + 1] == colour.r && frame[off + 2] == colour.g && frame[
                off + 3
            ] == colour.b
        }),
        forall|f: int, e: int|
            0 <= f < KEY_FRAMES && 0 <= e < 14 && #[trigger] key_at(f, e) == key ==> f == at.0 && e
                == at.1,
{
    let f = key as int / 14;
    let e = key as int % 14;
    let off = 8 + 4 * e;
    assert((off - 8) / 4 == e && (off - 8) % 4 == 0);
    assert((off + 1 - 8) / 4 == e && (off + 1 - 8) % 4 == 1);
    assert((off + 2 - 8) / 4 == e && (off + 2 - 8) % 4 == 2);
    assert((off + 3 - 8) / 4 == e && (off + 3 - 8) % 4 == 3);
    (f, e)
}

} // verus!

//! Words and signs for devices and their batteries.

use vstd::prelude::*;
use vstd::string::*;

use crate::device::{BatteryInfo, BatteryLevel, BatteryStatus, DeviceKind};
use crate::device_order::DeviceRoute;
use crate::text::{decimal, decimal_text};

verus! {

/// The name of a kind of device as characters.
pub open spec fn kind_text(kind: DeviceKind) -> Seq<char> {
    match kind {
        DeviceKind::Mouse => "Mouse"@,
        DeviceKind::Keyboard => "Keyboard"@,
        DeviceKind::Numpad => "Numpad"@,
        DeviceKind::Presenter => "Presenter"@,
        DeviceKind::Remote => "Remote"@,
        DeviceKind::Trackball => "Trackball"@,
        DeviceKind::Touchpad => "Touchpad"@,
        DeviceKind::Tablet => "Tablet"@,
        DeviceKind::Gamepad => "Gamepad"@,
        DeviceKind::Joystick => "Joystick"@,
        DeviceKind::Headset => "Headset"@,
        DeviceKind::Camera => "Camera"@,
        DeviceKind::Unknown => "Device"@,
    }
}

/// The name of a kind of device.
pub fn kind_label(kind: DeviceKind) -> (label: &'static str)
    ensures
        label@ == kind_text(kind),
{
    match kind {
        DeviceKind::Mouse => "Mouse",
        DeviceKind::Keyboard => "Keyboard",
        DeviceKind::Numpad => "Numpad",
        DeviceKind::Presenter => "Presenter",
        DeviceKind::Remote => "Remote",
        DeviceKind::Trackball => "Trackball",
        DeviceKind::Touchpad => "Touchpad",
        DeviceKind::Tablet => "Tablet",
        DeviceKind::Gamepad => "Gamepad",
        DeviceKind::Joystick => "Joystick",
        DeviceKind::Headset => "Headset",
        DeviceKind::Camera => "Camera",
        DeviceKind::Unknown => "Device",
    }
}

/// The words for the way to a device as characters.
pub open spec fn route_text(route: Option<DeviceRoute>) -> Seq<char> {
    match route {
        Some(DeviceRoute::Bolt { .. }) => "Bolt receiver"@,
        Some(DeviceRoute::Direct { .. }) => "Direct connection"@,
        None => "Unavailable"@,
    }
}

/// The words for the way to a device.
pub fn route_label(route: &Option<DeviceRoute>) -> (label: &'static str)
    ensures
        label@ == route_text(*route),
{
    match route {
        Some(DeviceRoute::Bolt { .. }) => "Bolt receiver",
        Some(DeviceRoute::Direct { .. }) => "Direct connection",
        None => "Unavailable",
    }
}

/// A kind and a receiver slot as characters.
pub open spec fn kind_and_slot(kind: DeviceKind, slot: u8) -> Seq<char> {
    kind_text(kind) + " · slot "@ + decimal(slot as nat)
}

/// A kind and a receiver slot in words.
pub fn kind_and_slot_text(kind: DeviceKind, slot: u8) -> (out: String)
    ensures
        out@ == kind_and_slot(kind, slot),
{
    let mut out: String = kind_label(kind).to_string();
    out.append(" · slot ");
    let number: String = decimal_text(slot as u64);
    out.append(number.as_str());
    out
}

// ── Batteries ───────────────────────────────────────────────────────────────

/// A percentage as characters.
pub open spec fn percent(percentage: u8) -> Seq<char> {
    decimal(percentage as nat) + "%"@
}

/// A percentage in words.
pub fn percent_text(percentage: u8) -> (out: String)
    ensures
        out@ == percent(percentage),
{
    let mut out: String = decimal_text(percentage as u64);
    out.append("%");
    out
}

/// The sign before a percentage as characters.
pub open spec fn battery_sign(status: BatteryStatus) -> Seq<char> {
    match status {
        BatteryStatus::Charging => "⚡ "@,
        BatteryStatus::ChargingSlow => "⚡ "@,
        BatteryStatus::Full => "✓ "@,
        BatteryStatus::Error => "⚠ "@,
        _ => ""@,
    }
}

/// A battery reading in words: a sign for what the battery does and its charge.
pub fn format_battery(b: &BatteryInfo) -> (out: String)
    ensures
        out@ == battery_sign(b.status) + percent(b.percentage),
{
    let sign: &'static str = match b.status {
        BatteryStatus::Charging => "⚡ ",
        BatteryStatus::ChargingSlow => "⚡ ",
        BatteryStatus::Full => "✓ ",
        BatteryStatus::Error => "⚠ ",
        _ => "",
    };
    let mut out: String = sign.to_string();
    let charge: String = percent_text(b.percentage);
    out.append(charge.as_str());
    out
}

/// A battery drawing.
#[derive(Debug, Clone, Copy, PartialEq, Eq, Structural)]
pub enum BatteryGlyph {
    /// No reading of the level.
    Plain,
    /// Being charged.
    Charging,
    /// Full.
    Full,
    /// Half full.
    Medium,
    /// Low.
    Low,
    /// Nearly empty, or failing.
    Warning,
}

/// The drawing that a battery reading calls for: the charge state first, then the
/// level where the battery is merely in use.
pub open spec fn glyph_of(b: BatteryInfo) -> BatteryGlyph {
    match b.status {
        BatteryStatus::Charging => BatteryGlyph::Charging,
        BatteryStatus::ChargingSlow => BatteryGlyph::Charging,
        BatteryStatus::Full => BatteryGlyph::Full,
        BatteryStatus::Error => BatteryGlyph::Warning,
        BatteryStatus::Discharging | BatteryStatus::Unknown => match b.level {
            BatteryLevel::Critical => BatteryGlyph::Warning,
            BatteryLevel::Low => BatteryGlyph::Low,
            BatteryLevel::Good => BatteryGlyph::Medium,
            BatteryLevel::Full => BatteryGlyph::Full,
            BatteryLevel::Unknown => BatteryGlyph::Plain,
        },
    }
}

/// The drawing that a battery reading calls for.
pub fn battery_icon(b: &BatteryInfo) -> (glyph: BatteryGlyph)
    ensures
        glyph == glyph_of(*b),
{
    match b.status {
        BatteryStatus::Charging => BatteryGlyph::Charging,
        BatteryStatus::ChargingSlow => BatteryGlyph::Charging,
        BatteryStatus::Full => BatteryGlyph::Full,
        BatteryStatus::Error => BatteryGlyph::Warning,
        BatteryStatus::Discharging | BatteryStatus::Unknown => match b.level {
            BatteryLevel::Critical => BatteryGlyph::Warning,
            BatteryLevel::Low => BatteryGlyph::Low,
            BatteryLevel::Good => BatteryGlyph::Medium,
            BatteryLevel::Full => BatteryGlyph::Full,
            BatteryLevel::Unknown => BatteryGlyph::Plain,
        },
    }
}

/// What a colour is to say.
#[derive(Debug, Clone, Copy, PartialEq, Eq, Structural)]
pub enum Tone {
    /// All is well.
    Good,
    /// Something is under way, or soon due.
    Waiting,
    /// Something is wrong.
    Bad,
    /// Nothing in particular.
    Muted,
    /// Power is coming in.
    Busy,
}

/// The tone of a charge bar: up to 20 percent bad, up to 50 percent soon due.
pub open spec fn charge_tone(percentage: u8) -> Tone {
    if percentage <= 20 {
        Tone::Bad
    } else if percentage <= 50 {
        Tone::Waiting
    } else {
        Tone::Good
    }
}

/// The tone of a charge bar.
pub fn battery_color(percentage: u8) -> (tone: Tone)
    ensures
        tone == charge_tone(percentage),
{
    if percentage <= 20 {
        Tone::Bad
    } else if percentage <= 50 {
        Tone::Waiting
    } else {
        Tone::Good
    }
}

/// How much of a bar is filled, in hundredths: never nothing and never too much.
pub open spec fn bar_hundredths(value: u8) -> int {
    if value < 1 {
        1
    } else if value > 100 {
        100
    } else {
        value as int
    }
}

/// How much of a bar is filled, in hundredths.
pub fn relative_percent(value: u8) -> (hundredths: u8)
    ensures
        hundredths == bar_hundredths(value),
{
    if value < 1 {
        1
    } else if value > 100 {
        100
    } else {
        value
    }
}

/// The tone of a battery reading: charging wins even on a low cell.
pub open spec fn reading_tone(b: BatteryInfo) -> Tone {
    match b.status {
        BatteryStatus::Charging => Tone::Busy,
        BatteryStatus::ChargingSlow => Tone::Busy,
        BatteryStatus::Error => Tone::Bad,
        BatteryStatus::Full => Tone::Good,
        BatteryStatus::Discharging | BatteryStatus::Unknown => match b.level {
            BatteryLevel::Critical => Tone::Bad,
            BatteryLevel::Low => Tone::Waiting,
            BatteryLevel::Good => Tone::Good,
            BatteryLevel::Full => Tone::Good,
            BatteryLevel::Unknown => Tone::Muted,
        },
    }
}

/// The tone of a battery reading.
pub fn battery_tone(b: &BatteryInfo) -> (tone: Tone)
    ensures
        tone == reading_tone(*b),
{
    match b.status {
        BatteryStatus::Charging => Tone::Busy,
        BatteryStatus::ChargingSlow => Tone::Busy,
        BatteryStatus::Error => Tone::Bad,
        BatteryStatus::Full => Tone::Good,
        BatteryStatus::Discharging | BatteryStatus::Unknown => match b.level {
            BatteryLevel::Critical => Tone::Bad,
            BatteryLevel::Low => Tone::Waiting,
            BatteryLevel::Good => Tone::Good,
            BatteryLevel::Full => Tone::Good,
            BatteryLevel::Unknown => Tone::Muted,
        },
    }
}

} // verus!

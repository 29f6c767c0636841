//! Device model types: what a peripheral is, what it can be configured to do,
//! and how it is identified.

use vstd::prelude::*;
use vstd::string::*;

use crate::text::{
    ascii_lower, chars_of, clone_optional, hex, hex4, hex_text, lowercased, optional_text,
    padded_hex_text, same_chars, same_optional_text, borrow_optional, trim, trimmed,
};

verus! {

/// What a paired peripheral is.
///
/// Several vocabularies of device types feed this one enum and they do not agree
/// on numbers, so each source converts at its own boundary and no raw byte of one
/// source is ever read with the table of another.
#[derive(Debug, Clone, Copy, PartialEq, Eq, Hash, Structural)]
pub enum DeviceKind {
    /// Mice.
    Mouse,
    /// Keyboards, lighting-capable ones among them.
    Keyboard,
    /// Standalone numeric keypads.
    Numpad,
    /// Presentation remotes.
    Presenter,
    /// Remote controls; the registry's `"remotecontrol"` also folds here.
    Remote,
    /// Trackballs, treated like mice for presumed capabilities.
    Trackball,
    /// External touchpads; the registry's `"trackpad"` also folds here.
    Touchpad,
    /// Pen and graphics tablets.
    Tablet,
    /// Game controllers.
    Gamepad,
    /// Joysticks.
    Joystick,
    /// Audio headsets paired through a receiver.
    Headset,
    /// Logitech webcams.
    Camera,
    /// Not classified by any source.
    Unknown,
}

/// The kind that a lower-case registry type word names.
pub open spec fn registry_kind(word: Seq<char>) -> DeviceKind {
    if word == "mouse"@ {
        DeviceKind::Mouse
    } else if word == "keyboard"@ {
        DeviceKind::Keyboard
    } else if word == "numpad"@ {
        DeviceKind::Numpad
    } else if word == "presenter"@ {
        DeviceKind::Presenter
    } else if word == "remote"@ || word == "remotecontrol"@ {
        DeviceKind::Remote
    } else if word == "trackball"@ {
        DeviceKind::Trackball
    } else if word == "touchpad"@ || word == "trackpad"@ {
        DeviceKind::Touchpad
    } else if word == "tablet"@ {
        DeviceKind::Tablet
    } else if word == "gamepad"@ {
        DeviceKind::Gamepad
    } else if word == "joystick"@ {
        DeviceKind::Joystick
    } else if word == "headset"@ {
        DeviceKind::Headset
    } else if word == "camera"@ {
        DeviceKind::Camera
    } else {
        DeviceKind::Unknown
    }
}

fn is_word(word: &Vec<char>, literal: &str) -> (yes: bool)
    ensures
        yes == (word@ == literal@),
{
    let other: Vec<char> = chars_of(literal);
    same_chars(word.as_slice(), other.as_slice())
}

impl DeviceKind {
    /// Parse the asset registry's `type` string.
    ///
    /// The field is free-form and its case varies, so white space around it is
    /// dropped and ASCII capitals are folded before matching. A value that is not
    /// modelled gives [`DeviceKind::Unknown`]: the registry has no opinion.
    pub fn from_registry_type(raw: &str) -> (kind: Self)
        ensures
            kind == registry_kind(ascii_lower(trim(raw@))),
    {
        let chars: Vec<char> = chars_of(raw);
        let word: Vec<char> = lowercased(trimmed(chars.as_slice()));
        if is_word(&word, "mouse") {
            DeviceKind::Mouse
        } else if is_word(&word, "keyboard") {
            DeviceKind::Keyboard
        } else if is_word(&word, "numpad") {
            DeviceKind::Numpad
        } else if is_word(&word, "presenter") {
            DeviceKind::Presenter
        } else if is_word(&word, "remote") || is_word(&word, "remotecontrol") {
            DeviceKind::Remote
        } else if is_word(&word, "trackball") {
            DeviceKind::Trackball
        } else if is_word(&word, "touchpad") || is_word(&word, "trackpad") {
            DeviceKind::Touchpad
        } else if is_word(&word, "tablet") {
            DeviceKind::Tablet
        } else if is_word(&word, "gamepad") {
            DeviceKind::Gamepad
        } else if is_word(&word, "joystick") {
            DeviceKind::Joystick
        } else if is_word(&word, "headset") {
            DeviceKind::Headset
        } else if is_word(&word, "camera") {
            DeviceKind::Camera
        } else {
            DeviceKind::Unknown
        }
    }
}

/// What a device can be configured to do, derived from the HID++ feature table
/// that it reports. A configuration panel shows if and only if the device exposes
/// the feature that drives it.
#[derive(Debug, Clone, Copy, PartialEq, Eq, Structural)]
pub struct Capabilities {
    /// Reprogrammable buttons: features `0x1b00` to `0x1b04`.
    pub buttons: bool,
    /// Adjustable pointer resolution: features `0x2201` and `0x2202`.
    pub pointer: bool,
    /// Solid-colour lighting: features `0x8070` and `0x8080`. Backlight-only
    /// families are not driven and do not count.
    pub lighting: bool,
    /// Native vertical wheel inversion, as the firmware reports it.
    pub scroll_inversion: bool,
    /// High-resolution wheel: feature `0x2121`.
    pub hires_wheel: bool,
}

/// A feature of the button family is in `ids`.
pub open spec fn has_button_feature(ids: Seq<u16>) -> bool {
    exists|i: int| 0 <= i < ids.len() && 0x1b00 <= #[trigger] ids[i] <= 0x1b04
}

/// A feature of the pointer-resolution family is in `ids`.
pub open spec fn has_pointer_feature(ids: Seq<u16>) -> bool {
    exists|i: int| 0 <= i < ids.len() && 0x2201 <= #[trigger] ids[i] <= 0x2202
}

/// A feature that drives a solid colour is in `ids`.
pub open spec fn has_lighting_feature(ids: Seq<u16>) -> bool {
    exists|i: int| 0 <= i < ids.len() && (#[trigger] ids[i] == 0x8080 || ids[i] == 0x8070)
}

/// The capabilities that a set of reported feature ids gives.
pub open spec fn capabilities_of(ids: Seq<u16>) -> Capabilities {
    Capabilities {
        buttons: has_button_feature(ids),
        pointer: has_pointer_feature(ids),
        lighting: has_lighting_feature(ids),
        scroll_inversion: false,
        hires_wheel: ids.contains(0x2121),
    }
}

/// No capability at all.
pub open spec fn no_capabilities() -> Capabilities {
    Capabilities {
        buttons: false,
        pointer: false,
        lighting: false,
        scroll_inversion: false,
        hires_wheel: false,
    }
}

/// The capabilities presumed of a device that could not be probed.
pub open spec fn presumed_capabilities(kind: DeviceKind) -> Capabilities {
    match kind {
        DeviceKind::Mouse | DeviceKind::Trackball => Capabilities {
            buttons: true,
            pointer: true,
            lighting: false,
            scroll_inversion: false,
            hires_wheel: false,
        },
        DeviceKind::Keyboard => Capabilities {
            buttons: false,
            pointer: false,
            lighting: true,
            scroll_inversion: false,
            hires_wheel: false,
        },
        _ => no_capabilities(),
    }
}

impl Default for Capabilities {
    fn default() -> (out: Self)
        ensures
            out == no_capabilities(),
    {
        Capabilities {
            buttons: false,
            pointer: false,
            lighting: false,
            scroll_inversion: false,
            hires_wheel: false,
        }
    }
}

impl Capabilities {
    /// Derive capabilities from the HID++ feature ids that a device reports.
    pub fn from_feature_ids(ids: &[u16]) -> (out: Self)
        ensures
            out == capabilities_of(ids@),
    {
        let mut buttons: bool = false;
        let mut pointer: bool = false;
        let mut lighting: bool = false;
        let mut hires_wheel: bool = false;
        let n: usize = ids.len();
        let mut i: usize = 0;
        while i < n
            invariant
                i <= n,
                n == ids@.len(),
                buttons == (exists|k: int| 0 <= k < i && 0x1b00 <= #[trigger] ids@[k] <= 0x1b04),
                pointer == (exists|k: int| 0 <= k < i && 0x2201 <= #[trigger] ids@[k] <= 0x2202),
                lighting == (exists|k: int|
                    0 <= k < i && (#[trigger] ids@[k] == 0x8080 || ids@[k] == 0x8070)),
                hires_wheel == (exists|k: int| 0 <= k < i && #[trigger] ids@[k] == 0x2121),
            decreases n - i,
        {
            let id: u16 = ids[i];
            assert(ids@[i as int] == id);
            if 0x1b00 <= id && id <= 0x1b04 {
                buttons = true;
            }
            if 0x2201 <= id && id <= 0x2202 {
                pointer = true;
            }
            if id == 0x8080 || id == 0x8070 {
                lighting = true;
            }
            if id == 0x2121 {
                hires_wheel = true;
            }
            i = i + 1;
        }
        Capabilities { buttons, pointer, lighting, scroll_inversion: false, hires_wheel }
    }

    /// Best-effort capabilities for a device that could not be probed, guessed
    /// from its kind. A sleeping mouse keeps its button and pointer panels.
    pub fn presumed_from_kind(kind: DeviceKind) -> (out: Self)
        ensures
            out == presumed_capabilities(kind),
    {
        match kind {
            DeviceKind::Mouse | DeviceKind::Trackball => Capabilities {
                buttons: true,
                pointer: true,
                lighting: false,
                scroll_inversion: false,
                hires_wheel: false,
            },
            DeviceKind::Keyboard => Capabilities {
                buttons: false,
                pointer: false,
                lighting: true,
                scroll_inversion: false,
                hires_wheel: false,
            },
            _ => Capabilities::default(),
        }
    }
}

/// A device that reports more features never loses a capability.
pub proof fn capabilities_grow_with_features(ids: Seq<u16>, more: Seq<u16>)
    requires
        forall|i: int| 0 <= i < ids.len() ==> more.contains(#[trigger] ids[i]),
    ensures
        capabilities_of(ids).buttons ==> capabilities_of(more).buttons,
        capabilities_of(ids).pointer ==> capabilities_of(more).pointer,
        capabilities_of(ids).lighting ==> capabilities_of(more).lighting,
        capabilities_of(ids).hires_wheel ==> capabilities_of(more).hires_wheel,
{
    if has_button_feature(ids) {
        let i = choose|i: int| 0 <= i < ids.len() && 0x1b00 <= #[trigger] ids[i] <= 0x1b04;
        let k = more.index_of(ids[i]);
        assert(more.contains(ids[i]));
        assert(0x1b00 <= more[k] <= 0x1b04);
    }
    if has_pointer_feature(ids) {
        let i = choose|i: int| 0 <= i < ids.len() && 0x2201 <= #[trigger] ids[i] <= 0x2202;
        let k = more.index_of(ids[i]);
        assert(more.contains(ids[i]));
        assert(0x2201 <= more[k] <= 0x2202);
    }
    if has_lighting_feature(ids) {
        let i = choose|i: int|
            0 <= i < ids.len() && (#[trigger] ids[i] == 0x8080 || ids[i] == 0x8070);
        let k = more.index_of(ids[i]);
        assert(more.contains(ids[i]));
        assert(more[k] == 0x8080 || more[k] == 0x8070);
    }
}

/// Capabilities depend on which features are reported, not on their order or
/// their number.
pub proof fn capabilities_ignore_feature_order(a: Seq<u16>, b: Seq<u16>)
    requires
        forall|id: u16| a.contains(id) == b.contains(id),
    ensures
        capabilities_of(a) == capabilities_of(b),
{
    capabilities_grow_with_features(a, b);
    capabilities_grow_with_features(b, a);
}

/// Coarse battery bucket reported by the firmware.
#[derive(Debug, Clone, Copy, PartialEq, Eq, Hash, Structural)]
pub enum BatteryLevel {
    /// Almost depleted.
    Critical,
    /// Running low.
    Low,
    /// Comfortable middle range.
    Good,
    /// At or near full charge.
    Full,
    /// Not reported, or not modelled.
    Unknown,
}

/// Charging state.
#[derive(Debug, Clone, Copy, PartialEq, Eq, Hash, Structural)]
pub enum BatteryStatus {
    /// Running on battery.
    Discharging,
    /// Charging at the normal rate.
    Charging,
    /// Charging at reduced current.
    ChargingSlow,
    /// Charge complete while still connected to power.
    Full,
    /// The device reported a charging fault.
    Error,
    /// A status that is not modelled.
    Unknown,
}

/// Battery snapshot for one paired device.
#[derive(Debug, Clone, Copy, PartialEq, Eq, Structural)]
pub struct BatteryInfo {
    /// Reported charge percentage, 0 to 100.
    pub percentage: u8,
    /// Coarse bucket.
    pub level: BatteryLevel,
    /// Charging state at poll time.
    pub status: BatteryStatus,
}

/// Identity of an enumerated receiver. A directly attached device has a synthetic
/// entry that mirrors its own HID identity.
#[derive(Debug, Clone, PartialEq, Eq)]
pub struct ReceiverInfo {
    /// Product string from the HID enumeration.
    pub name: String,
    /// USB vendor id.
    pub vendor_id: u16,
    /// USB product id.
    pub product_id: u16,
    /// Platform-reported serial, when one is exposed.
    pub unique_id: Option<String>,
}

/// One flag per protocol that the device firmware exposes.
#[derive(Debug, Clone, Copy, PartialEq, Eq, Structural)]
pub struct DeviceTransports {
    /// Wired USB.
    pub usb: bool,
    /// The radio protocol of the receivers.
    pub equad: bool,
    /// Bluetooth Low Energy.
    pub btle: bool,
    /// Classic Bluetooth.
    pub bluetooth: bool,
}

impl Default for DeviceTransports {
    fn default() -> (out: Self)
        ensures
            out == no_transports(),
    {
        DeviceTransports { usb: false, equad: false, btle: false, bluetooth: false }
    }
}

/// No transport at all.
pub open spec fn no_transports() -> DeviceTransports {
    DeviceTransports { usb: false, equad: false, btle: false, bluetooth: false }
}

/// HID++ `DeviceInformation` snapshot used to identify a device.
#[derive(Debug, PartialEq, Eq)]
pub struct DeviceModelInfo {
    /// Number of firmware entities that the device reports.
    pub entity_count: u8,
    /// Serial number, when the device supports the optional function.
    pub serial_number: Option<String>,
    /// Per-unit id bytes, unique to the physical unit.
    pub unit_id: [u8; 4],
    /// Which transports the firmware supports.
    pub transports: DeviceTransports,
    /// Per-transport product ids; slots of disabled transports stay zero.
    pub model_ids: [u16; 3],
    /// Extra model byte put before a product id to form the registry's model id.
    pub extended_model_id: u8,
}

impl Clone for DeviceModelInfo {
    fn clone(&self) -> (out: Self)
        ensures
            out == *self,
    {
        DeviceModelInfo {
            entity_count: self.entity_count,
            serial_number: clone_optional(&self.serial_number),
            unit_id: self.unit_id,
            transports: self.transports,
            model_ids: self.model_ids,
            extended_model_id: self.extended_model_id,
        }
    }
}

/// A copy of an optional model info.
pub fn clone_model_info(info: &Option<DeviceModelInfo>) -> (out: Option<DeviceModelInfo>)
    ensures
        out == *info,
{
    match info {
        Some(m) => Some(m.clone()),
        None => None,
    }
}

/// The model key: the extended model byte in hexadecimal, then the first product
/// id in four hexadecimal digits.
pub open spec fn model_key_text(extended_model_id: u8, product_id: u16) -> Seq<char> {
    hex(extended_model_id as nat) + hex4(product_id as nat)
}

impl DeviceModelInfo {
    /// The model key of this model.
    pub open spec fn key(self) -> Seq<char> {
        model_key_text(self.extended_model_id, self.model_ids@[0])
    }

    /// Two model infos hold the same values.
    pub open spec fn same_values(self, other: DeviceModelInfo) -> bool {
        &&& self.entity_count == other.entity_count
        &&& optional_text(self.serial_number) == optional_text(other.serial_number)
        &&& self.unit_id@ == other.unit_id@
        &&& self.transports == other.transports
        &&& self.model_ids@ == other.model_ids@
        &&& self.extended_model_id == other.extended_model_id
    }

    /// Stable identifier that keys per-device configuration and asset lookups: an
    /// extended model id of `0x02` with the product id `0xb042` gives `"2b042"`.
    pub fn config_key(&self) -> (key: String)
        ensures
            key@ == self.key(),
    {
        let mut key: String = hex_text(self.extended_model_id as u64);
        let pid: String = padded_hex_text(self.model_ids[0] as u64, 4);
        key.append(pid.as_str());
        key
    }

    /// Whether two model infos hold the same values.
    pub fn matches(&self, other: &DeviceModelInfo) -> (same: bool)
        ensures
            same == self.same_values(*other),
    {
        let ids: bool = self.model_ids[0] == other.model_ids[0] && self.model_ids[1]
            == other.model_ids[1] && self.model_ids[2] == other.model_ids[2];
        let units: bool = self.unit_id[0] == other.unit_id[0] && self.unit_id[1]
            == other.unit_id[1] && self.unit_id[2] == other.unit_id[2] && self.unit_id[3]
            == other.unit_id[3];
        assert(ids == (self.model_ids@ =~= other.model_ids@));
        assert(units == (self.unit_id@ =~= other.unit_id@));
        self.entity_count == other.entity_count && same_optional_text(
            borrow_optional(&self.serial_number),
            borrow_optional(&other.serial_number),
        ) && units && self.transports == other.transports && ids && self.extended_model_id
            == other.extended_model_id
    }
}

/// One device in an inventory snapshot: a receiver pairing slot, or a direct
/// attachment under its synthetic [`ReceiverInfo`].
#[derive(Debug, Clone, PartialEq, Eq)]
pub struct PairedDevice {
    /// Receiver-assigned slot.
    pub slot: u8,
    /// Firmware codename, when reported.
    pub codename: Option<String>,
    /// Wireless product id; `None` for unreachable devices.
    pub wpid: Option<u16>,
    /// Best-guess classification. Identity only: panels gate on capabilities.
    pub kind: DeviceKind,
    /// Whether the device was reachable at enumeration time.
    pub online: bool,
    /// Last battery reading.
    pub battery: Option<BatteryInfo>,
    /// HID++ model information, for online devices that expose it.
    pub model_info: Option<DeviceModelInfo>,
    /// Measured capabilities; `None` for devices that could not be probed.
    pub capabilities: Option<Capabilities>,
}

/// One receiver and its paired devices.
#[derive(Debug, Clone, PartialEq, Eq)]
pub struct DeviceInventory {
    /// The receiver's identity.
    pub receiver: ReceiverInfo,
    /// The devices reached through this receiver.
    pub paired: Vec<PairedDevice>,
}

} // verus!

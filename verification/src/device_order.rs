//! How a device is reached, and the stable identity and order that follow from it.

use vstd::prelude::*;
use vstd::string::*;

use crate::device::DeviceInventory;
use crate::order::{push_text_key, text_key};
use crate::text::{
    after_first, ascii_lower, chars_of, decimal, decimal_text, digits_value, following, has_prefix,
    hex, hex4, lemma_digits_clean, lemma_digits_value, lemma_find_separator, lemma_hex2_len,
    lemma_hex4_len, lemma_zero_padded, lowercase_text, optional_view, padded_hex_text, same_chars,
    same_text, starts_with, strip_prefix, without_prefix, zero_padded,
};

verus! {

/// The HID++ device index of a directly attached device, which is also the slot
/// that an inventory gives it.
pub const DIRECT_DEVICE_INDEX: u8 = 0xff;

/// How HID++ traffic reaches a device.
#[derive(Debug, PartialEq, Eq)]
pub enum DeviceRoute {
    /// Through a receiver, at one of its pairing slots.
    Bolt {
        /// The receiver's serial as the platform reports it.
        receiver_uid: String,
        /// The pairing slot.
        slot: u8,
    },
    /// Attached by cable or Bluetooth.
    Direct {
        /// USB vendor id.
        vendor_id: u16,
        /// USB product id.
        product_id: u16,
    },
}

impl Clone for DeviceRoute {
    fn clone(&self) -> (out: Self)
        ensures
            out == *self,
    {
        match self {
            DeviceRoute::Bolt { receiver_uid, slot } => DeviceRoute::Bolt {
                receiver_uid: receiver_uid.clone(),
                slot: *slot,
            },
            DeviceRoute::Direct { vendor_id, product_id } => DeviceRoute::Direct {
                vendor_id: *vendor_id,
                product_id: *product_id,
            },
        }
    }
}

/// A copy of an optional route.
pub fn clone_route(route: &Option<DeviceRoute>) -> (out: Option<DeviceRoute>)
    ensures
        out == *route,
{
    match route {
        Some(r) => Some(r.clone()),
        None => None,
    }
}

/// The route to the device in `slot` of `inv`: direct for the direct index,
/// through the receiver when its serial is known, else none.
pub open spec fn route_for(inv: DeviceInventory, slot: u8) -> Option<DeviceRoute> {
    if slot == DIRECT_DEVICE_INDEX {
        Some(
            DeviceRoute::Direct {
                vendor_id: inv.receiver.vendor_id,
                product_id: inv.receiver.product_id,
            },
        )
    } else {
        match inv.receiver.unique_id {
            Some(uid) => Some(DeviceRoute::Bolt { receiver_uid: uid, slot }),
            None => None,
        }
    }
}

impl DeviceRoute {
    /// The HID++ device index that feature calls address.
    pub open spec fn index(self) -> u8 {
        match self {
            DeviceRoute::Bolt { slot, .. } => slot,
            DeviceRoute::Direct { .. } => DIRECT_DEVICE_INDEX,
        }
    }

    /// Two routes reach the same place.
    pub open spec fn same_place(self, other: DeviceRoute) -> bool {
        match (self, other) {
            (
                DeviceRoute::Bolt { receiver_uid: a, slot: s },
                DeviceRoute::Bolt { receiver_uid: b, slot: t },
            ) => a@ == b@ && s == t,
            (
                DeviceRoute::Direct { vendor_id: v, product_id: p },
                DeviceRoute::Direct { vendor_id: w, product_id: q },
            ) => v == w && p == q,
            _ => false,
        }
    }

    /// The route to the device in `slot` of `inv`.
    pub fn device_route_for(inv: &DeviceInventory, slot: u8) -> (route: Option<DeviceRoute>)
        ensures
            route == route_for(*inv, slot),
    {
        if slot == DIRECT_DEVICE_INDEX {
            Some(
                DeviceRoute::Direct {
                    vendor_id: inv.receiver.vendor_id,
                    product_id: inv.receiver.product_id,
                },
            )
        } else {
            match &inv.receiver.unique_id {
                Some(uid) => Some(DeviceRoute::Bolt { receiver_uid: uid.clone(), slot }),
                None => None,
            }
        }
    }

    /// The HID++ device index that feature calls address.
    pub fn device_index(&self) -> (index: u8)
        ensures
            index == self.index(),
    {
        match self {
            DeviceRoute::Bolt { slot, .. } => *slot,
            DeviceRoute::Direct { .. } => DIRECT_DEVICE_INDEX,
        }
    }

    /// Whether two routes reach the same place.
    pub fn same_as(&self, other: &DeviceRoute) -> (same: bool)
        ensures
            same == self.same_place(*other),
    {
        match (self, other) {
            (
                DeviceRoute::Bolt { receiver_uid: a, slot: s },
                DeviceRoute::Bolt { receiver_uid: b, slot: t },
            ) => same_text(a.as_str(), b.as_str()) && *s == *t,
            (
                DeviceRoute::Direct { vendor_id: v, product_id: p },
                DeviceRoute::Direct { vendor_id: w, product_id: q },
            ) => *v == *w && *p == *q,
            _ => false,
        }
    }
}

/// The identity text of a unit: its serial number in small letters when there is
/// one that is not empty, else its unit id.
pub open spec fn unit_identity_text(serial: Option<Seq<char>>, unit: Seq<u8>) -> Seq<char> {
    match serial {
        Some(s) if s.len() > 0 => "serial:"@ + ascii_lower(s),
        _ => "unit:"@ + unit_text(unit),
    }
}

/// The sort key of a unit.
pub open spec fn unit_identity_order(serial: Option<Seq<char>>, unit: Seq<u8>) -> Seq<u32> {
    match serial {
        Some(s) if s.len() > 0 => seq![0u32] + text_key(ascii_lower(s)),
        _ => seq![1u32, unit[0] as u32, unit[1] as u32, unit[2] as u32, unit[3] as u32],
    }
}

/// A serial number or a unit id tells this unit from others of its product.
pub open spec fn unit_is_named(serial: Option<Seq<char>>, unit: Seq<u8>) -> bool {
    (serial matches Some(s) && s.len() > 0) || !is_zero_unit(unit)
}

/// The key of a device with this route, slot, serial number and unit id.
pub open spec fn stable_key(
    route: Option<DeviceRoute>,
    slot: u8,
    serial: Option<Seq<char>>,
    unit: Seq<u8>,
) -> Seq<char> {
    match route {
        Some(DeviceRoute::Bolt { receiver_uid, slot: s }) => "receiver:"@ + ascii_lower(
            receiver_uid@,
        ) + ":slot:"@ + decimal(s as nat),
        Some(DeviceRoute::Direct { vendor_id, product_id }) => "direct:"@ + hex4(vendor_id as nat)
            + ":"@ + hex4(product_id as nat) + ":"@ + unit_identity_text(serial, unit),
        None => "unknown:slot:"@ + decimal(slot as nat) + ":"@ + unit_identity_text(serial, unit),
    }
}

/// The key of a device with this route, slot, serial number and unit id names one
/// physical device.
pub open spec fn stable_is_physical(
    route: Option<DeviceRoute>,
    serial: Option<Seq<char>>,
    unit: Seq<u8>,
) -> bool {
    route matches Some(DeviceRoute::Bolt { .. }) || unit_is_named(serial, unit)
}

/// The sort key of a device with this route, slot, serial number and unit id:
/// receiver slots first, then direct devices, then devices without a route.
pub open spec fn stable_sort_key(
    route: Option<DeviceRoute>,
    slot: u8,
    serial: Option<Seq<char>>,
    unit: Seq<u8>,
) -> Seq<u32> {
    match route {
        Some(DeviceRoute::Bolt { receiver_uid, slot: s }) => seq![0u32] + text_key(
            ascii_lower(receiver_uid@),
        ) + seq![s as u32],
        Some(DeviceRoute::Direct { vendor_id, product_id }) => seq![
            1u32,
            vendor_id as u32,
            product_id as u32,
        ] + unit_identity_order(serial, unit),
        None => seq![2u32, slot as u32] + unit_identity_order(serial, unit),
    }
}

/// A borrowed optional route as a value.
pub open spec fn route_value(route: Option<&DeviceRoute>) -> Option<DeviceRoute> {
    match route {
        Some(r) => Some(*r),
        None => None,
    }
}

/// What tells one unit of a product from another.
#[derive(Debug)]
pub enum UnitIdentity {
    /// The firmware's serial number, in small letters.
    Serial(String),
    /// The four unit id bytes.
    Unit([u8; 4]),
}

/// Two hexadecimal digits of one byte.
pub open spec fn hex2(b: u8) -> Seq<char> {
    zero_padded(hex(b as nat), 2)
}

/// Four bytes in eight hexadecimal digits.
pub open spec fn unit_text(unit: Seq<u8>) -> Seq<char> {
    hex2(unit[0]) + hex2(unit[1]) + hex2(unit[2]) + hex2(unit[3])
}

/// The unit id of a device that reports none.
pub open spec fn is_zero_unit(unit: Seq<u8>) -> bool {
    unit[0] == 0 && unit[1] == 0 && unit[2] == 0 && unit[3] == 0
}

impl UnitIdentity {
    /// The identity as it stands in a key.
    pub open spec fn text(self) -> Seq<char> {
        match self {
            UnitIdentity::Serial(s) => "serial:"@ + s@,
            UnitIdentity::Unit(u) => "unit:"@ + unit_text(u@),
        }
    }

    /// The identity names one physical unit.
    pub open spec fn names_a_unit(self) -> bool {
        match self {
            UnitIdentity::Serial(_) => true,
            UnitIdentity::Unit(u) => !is_zero_unit(u@),
        }
    }

    /// The identity as a sort key.
    pub open spec fn order(self) -> Seq<u32> {
        match self {
            UnitIdentity::Serial(s) => seq![0u32] + text_key(s@),
            UnitIdentity::Unit(u) => seq![1u32, u@[0] as u32, u@[1] as u32, u@[2] as u32, u@[3] as u32],
        }
    }

    fn from_parts(serial: Option<&str>, unit: [u8; 4]) -> (out: Self)
        ensures
            out.text() == unit_identity_text(optional_view(serial), unit@),
            out.order() == unit_identity_order(optional_view(serial), unit@),
            out.names_a_unit() == unit_is_named(optional_view(serial), unit@),
    {
        match serial {
            Some(s) => {
                if s.is_empty() {
                    UnitIdentity::Unit(unit)
                } else {
                    UnitIdentity::Serial(lowercase_text(s))
                }
            },
            None => UnitIdentity::Unit(unit),
        }
    }

    fn is_unit_name(&self) -> (yes: bool)
        ensures
            yes == self.names_a_unit(),
    {
        match self {
            UnitIdentity::Serial(_) => true,
            UnitIdentity::Unit(u) => !(u[0] == 0 && u[1] == 0 && u[2] == 0 && u[3] == 0),
        }
    }

    fn append_text(&self, key: &mut String)
        ensures
            final(key)@ == old(key)@ + self.text(),
    {
        let ghost start = key@;
        match self {
            UnitIdentity::Serial(s) => {
                key.append("serial:");
                key.append(s.as_str());
                assert(key@ =~= start + self.text());
            },
            UnitIdentity::Unit(u) => {
                key.append("unit:");
                let b0: String = padded_hex_text(u[0] as u64, 2);
                key.append(b0.as_str());
                let b1: String = padded_hex_text(u[1] as u64, 2);
                key.append(b1.as_str());
                let b2: String = padded_hex_text(u[2] as u64, 2);
                key.append(b2.as_str());
                let b3: String = padded_hex_text(u[3] as u64, 2);
                key.append(b3.as_str());
                assert(key@ =~= start + self.text());
            },
        }
    }

    fn push_order(&self, key: &mut Vec<u32>)
        ensures
            final(key)@ == old(key)@ + self.order(),
    {
        let ghost start = key@;
        match self {
            UnitIdentity::Serial(s) => {
                key.push(0);
                push_text_key(key, s.as_str());
                assert(key@ =~= start + self.order());
            },
            UnitIdentity::Unit(u) => {
                key.push(1);
                key.push(u[0] as u32);
                key.push(u[1] as u32);
                key.push(u[2] as u32);
                key.push(u[3] as u32);
                assert(key@ =~= start + self.order());
            },
        }
    }
}

/// The identity of a device that stays the same whatever order the platform
/// enumerates in.
#[derive(Debug)]
pub enum DeviceStableId {
    /// A pairing slot of a receiver.
    Receiver {
        /// The receiver's serial in small letters.
        uid: String,
        /// The pairing slot.
        slot: u8,
    },
    /// A directly attached product.
    Direct {
        /// USB vendor id.
        vendor_id: u16,
        /// USB product id.
        product_id: u16,
        /// Which unit of the product.
        identity: UnitIdentity,
    },
    /// A device without a route.
    Unknown {
        /// The slot that the inventory gave.
        slot: u8,
        /// Which unit.
        identity: UnitIdentity,
    },
}

impl DeviceStableId {
    /// The identity as a configuration key.
    pub open spec fn key(self) -> Seq<char> {
        match self {
            DeviceStableId::Receiver { uid, slot } => "receiver:"@ + uid@ + ":slot:"@ + decimal(
                slot as nat,
            ),
            DeviceStableId::Direct { vendor_id, product_id, identity } => "direct:"@ + hex4(
                vendor_id as nat,
            ) + ":"@ + hex4(product_id as nat) + ":"@ + identity.text(),
            DeviceStableId::Unknown { slot, identity } => "unknown:slot:"@ + decimal(slot as nat)
                + ":"@ + identity.text(),
        }
    }

    /// The identity names one physical device. A receiver slot always does; a
    /// direct or routeless device only with a serial number or a unit id.
    pub open spec fn is_physical(self) -> bool {
        match self {
            DeviceStableId::Receiver { .. } => true,
            DeviceStableId::Direct { identity, .. } => identity.names_a_unit(),
            DeviceStableId::Unknown { identity, .. } => identity.names_a_unit(),
        }
    }

    /// The identity as a sort key: receiver slots first, then direct devices,
    /// then devices without a route.
    pub open spec fn order(self) -> Seq<u32> {
        match self {
            DeviceStableId::Receiver { uid, slot } => seq![0u32] + text_key(uid@) + seq![slot as u32],
            DeviceStableId::Direct { vendor_id, product_id, identity } => seq![
                1u32,
                vendor_id as u32,
                product_id as u32,
            ] + identity.order(),
            DeviceStableId::Unknown { slot, identity } => seq![2u32, slot as u32]
                + identity.order(),
        }
    }

    /// The identity of a device from the parts that describe it.
    pub fn from_parts(
        route: Option<&DeviceRoute>,
        slot: u8,
        serial: Option<&str>,
        unit: [u8; 4],
    ) -> (id: Self)
        ensures
            id.key() == stable_key(route_value(route), slot, optional_view(serial), unit@),
            id.order() == stable_sort_key(route_value(route), slot, optional_view(serial), unit@),
            id.is_physical() == stable_is_physical(
                route_value(route),
                optional_view(serial),
                unit@,
            ),
    {
        match route {
            Some(DeviceRoute::Bolt { receiver_uid, slot: s }) => DeviceStableId::Receiver {
                uid: lowercase_text(receiver_uid.as_str()),
                slot: *s,
            },
            Some(DeviceRoute::Direct { vendor_id, product_id }) => DeviceStableId::Direct {
                vendor_id: *vendor_id,
                product_id: *product_id,
                identity: UnitIdentity::from_parts(serial, unit),
            },
            None => DeviceStableId::Unknown { slot, identity: UnitIdentity::from_parts(serial, unit) },
        }
    }

    /// The key for runtime state: defined for every device.
    pub fn runtime_key(&self) -> (key: String)
        ensures
            key@ == self.key(),
    {
        let mut key: String = String::new();
        match self {
            DeviceStableId::Receiver { uid, slot } => {
                key.append("receiver:");
                key.append(uid.as_str());
                key.append(":slot:");
                let n: String = decimal_text(*slot as u64);
                key.append(n.as_str());
            },
            DeviceStableId::Direct { vendor_id, product_id, identity } => {
                key.append("direct:");
                let v: String = padded_hex_text(*vendor_id as u64, 4);
                key.append(v.as_str());
                key.append(":");
                let p: String = padded_hex_text(*product_id as u64, 4);
                key.append(p.as_str());
                key.append(":");
                identity.append_text(&mut key);
            },
            DeviceStableId::Unknown { slot, identity } => {
                key.append("unknown:slot:");
                let n: String = decimal_text(*slot as u64);
                key.append(n.as_str());
                key.append(":");
                identity.append_text(&mut key);
            },
        }
        assert(key@ =~= self.key());
        key
    }

    /// The key for persisted settings: only for an identity that names one
    /// physical device.
    pub fn physical_key(&self) -> (key: Option<PhysicalDeviceKey>)
        ensures
            key is Some == self.is_physical(),
            key matches Some(k) ==> k@ == self.key(),
    {
        let physical: bool = match self {
            DeviceStableId::Receiver { .. } => true,
            DeviceStableId::Direct { identity, .. } => identity.is_unit_name(),
            DeviceStableId::Unknown { identity, .. } => identity.is_unit_name(),
        };
        if physical {
            Some(PhysicalDeviceKey { text: self.runtime_key() })
        } else {
            None
        }
    }

    /// Append the sort key of this identity to `key`.
    pub fn push_order(&self, key: &mut Vec<u32>)
        ensures
            final(key)@ == old(key)@ + self.order(),
    {
        let ghost start = key@;
        match self {
            DeviceStableId::Receiver { uid, slot } => {
                key.push(0);
                push_text_key(key, uid.as_str());
                key.push(*slot as u32);
            },
            DeviceStableId::Direct { vendor_id, product_id, identity } => {
                key.push(1);
                key.push(*vendor_id as u32);
                key.push(*product_id as u32);
                identity.push_order(key);
            },
            DeviceStableId::Unknown { slot, identity } => {
                key.push(2);
                key.push(*slot as u32);
                identity.push_order(key);
            },
        }
        assert(key@ =~= start + self.order());
    }
}

/// A configuration key that names one physical device.
pub struct PhysicalDeviceKey {
    text: String,
}

impl View for PhysicalDeviceKey {
    type V = Seq<char>;

    closed spec fn view(&self) -> Seq<char> {
        self.text@
    }
}

/// The part of a direct or routeless key that tells units apart.
pub open spec fn identity_part(key: Seq<char>) -> Option<Seq<char>> {
    match strip_prefix(key, "direct:"@) {
        Some(rest) => match after_first(rest, ":"@) {
            Some(rest) => after_first(rest, ":"@),
            None => None,
        },
        None => match strip_prefix(key, "unknown:slot:"@) {
            Some(rest) => after_first(rest, ":"@),
            None => None,
        },
    }
}

/// The key is a direct or routeless one with an all-zero unit id: it never named
/// a physical device.
pub open spec fn is_transient_key(key: Seq<char>) -> bool {
    identity_part(key) == Some("unit:00000000"@)
}

/// The key has the shape of a route-derived key, not of a model key.
pub open spec fn is_route_key(key: Seq<char>) -> bool {
    has_prefix(key, "receiver:"@) || has_prefix(key, "direct:"@) || has_prefix(key, "unknown:"@)
}

/// The key names one physical device.
pub open spec fn is_physical_key(key: Seq<char>) -> bool {
    is_route_key(key) && !is_transient_key(key)
}

impl PhysicalDeviceKey {
    /// The key as text.
    pub fn into_string(self) -> (out: String)
        ensures
            out@ == self@,
    {
        self.text
    }

    /// Whether `key` is a direct or routeless key with an all-zero unit id.
    pub fn is_transient(key: &str) -> (yes: bool)
        ensures
            yes == is_transient_key(key@),
    {
        let chars: Vec<char> = chars_of(key);
        let colon: Vec<char> = chars_of(":");
        let zero: Vec<char> = chars_of("unit:00000000");
        let direct: Vec<char> = chars_of("direct:");
        let unknown: Vec<char> = chars_of("unknown:slot:");
        let identity: Option<&[char]> = match without_prefix(chars.as_slice(), direct.as_slice()) {
            Some(rest) => match following(rest, colon.as_slice()) {
                Some(rest) => following(rest, colon.as_slice()),
                None => None,
            },
            None => match without_prefix(chars.as_slice(), unknown.as_slice()) {
                Some(rest) => following(rest, colon.as_slice()),
                None => None,
            },
        };
        match identity {
            Some(part) => same_chars(part, zero.as_slice()),
            None => false,
        }
    }

    /// Read a key that names one physical device; `None` for model keys and for
    /// transient keys.
    pub fn parse(key: &str) -> (out: Option<PhysicalDeviceKey>)
        ensures
            out is Some == is_physical_key(key@),
            out matches Some(k) ==> k@ == key@,
    {
        let chars: Vec<char> = chars_of(key);
        let receiver: Vec<char> = chars_of("receiver:");
        let direct: Vec<char> = chars_of("direct:");
        let unknown: Vec<char> = chars_of("unknown:");
        let route: bool = starts_with(chars.as_slice(), receiver.as_slice()) || starts_with(
            chars.as_slice(),
            direct.as_slice(),
        ) || starts_with(chars.as_slice(), unknown.as_slice());
        if route && !Self::is_transient(key) {
            Some(PhysicalDeviceKey { text: key.to_string() })
        } else {
            None
        }
    }
}

// ── What keys tell ──────────────────────────────────────────────────────────

proof fn lemma_hex2(b: u8)
    ensures
        hex2(b).len() == 2,
        digits_value(hex2(b), 16) == b,
{
    lemma_hex2_len(b as nat);
    lemma_digits_value(b as nat, 16);
    lemma_zero_padded(hex(b as nat), 2, 16);
}

proof fn lemma_hex4(n: u16)
    ensures
        hex4(n as nat).len() == 4,
        digits_value(hex4(n as nat), 16) == n,
        forall|i: int| 0 <= i < 4 ==> hex4(n as nat)[i] != ':',
{
    lemma_hex4_len(n as nat);
    lemma_digits_value(n as nat, 16);
    lemma_zero_padded(hex(n as nat), 4, 16);
    lemma_digits_clean(hex4(n as nat), 16, ':');
}

proof fn lemma_decimal(n: nat)
    ensures
        digits_value(decimal(n), 10) == n,
        forall|i: int| 0 <= i < decimal(n).len() ==> decimal(n)[i] != ':',
{
    lemma_digits_value(n, 10);
    lemma_digits_clean(decimal(n), 10, ':');
}

/// Different unit ids are written differently.
proof fn lemma_unit_text(u: Seq<u8>, v: Seq<u8>)
    requires
        u.len() == 4,
        v.len() == 4,
    ensures
        unit_text(u).len() == 8,
        unit_text(u) == unit_text(v) ==> u == v,
{
    lemma_hex2(u[0]);
    lemma_hex2(u[1]);
    lemma_hex2(u[2]);
    lemma_hex2(u[3]);
    lemma_hex2(v[0]);
    lemma_hex2(v[1]);
    lemma_hex2(v[2]);
    lemma_hex2(v[3]);
    assert(unit_text(u).subrange(0, 2) =~= hex2(u[0]));
    assert(unit_text(u).subrange(2, 4) =~= hex2(u[1]));
    assert(unit_text(u).subrange(4, 6) =~= hex2(u[2]));
    assert(unit_text(u).subrange(6, 8) =~= hex2(u[3]));
    assert(unit_text(v).subrange(0, 2) =~= hex2(v[0]));
    assert(unit_text(v).subrange(2, 4) =~= hex2(v[1]));
    assert(unit_text(v).subrange(4, 6) =~= hex2(v[2]));
    assert(unit_text(v).subrange(6, 8) =~= hex2(v[3]));
    if unit_text(u) == unit_text(v) {
        assert(u =~= v);
    }
}

proof fn lemma_zero_unit_text(u: Seq<u8>)
    requires
        u.len() == 4,
    ensures
        (unit_text(u) == "00000000"@) == is_zero_unit(u),
{
    let zero = seq![0u8, 0u8, 0u8, 0u8];
    assert(unit_text(zero) == "00000000"@) by {
        reveal_strlit("00000000");
        assert(hex(0) =~= seq!['0']);
        assert(hex2(0) =~= seq!['0', '0']);
        assert(unit_text(zero) =~= "00000000"@);
    }
    lemma_unit_text(u, zero);
    if is_zero_unit(u) {
        assert(u =~= zero);
    }
}

/// The identity text tells whether the identity names a unit.
proof fn lemma_identity_text(id: UnitIdentity)
    ensures
        (id.text() == "unit:00000000"@) == !id.names_a_unit(),
{
    reveal_strlit("unit:00000000");
    reveal_strlit("serial:");
    reveal_strlit("unit:");
    reveal_strlit("00000000");
    match id {
        UnitIdentity::Serial(s) => {
            assert(id.text()[0] == 's');
            assert("unit:00000000"@[0] == 'u');
        },
        UnitIdentity::Unit(u) => {
            lemma_zero_unit_text(u@);
            lemma_unit_text(u@, u@);
            assert("unit:00000000"@ =~= "unit:"@ + "00000000"@);
            assert(id.text().skip(5) =~= unit_text(u@));
            assert(("unit:"@ + "00000000"@).skip(5) =~= "00000000"@);
        },
    }
}

proof fn lemma_strip(prefix: Seq<char>, rest: Seq<char>)
    ensures
        has_prefix(prefix + rest, prefix),
        strip_prefix(prefix + rest, prefix) == Some(rest),
{
    assert((prefix + rest).subrange(0, prefix.len() as int) =~= prefix);
    assert((prefix + rest).skip(prefix.len() as int) =~= rest);
}

proof fn lemma_other_prefix(s: Seq<char>, prefix: Seq<char>)
    requires
        prefix.len() > 0,
        s.len() > 0,
        s[0] != prefix[0],
    ensures
        !has_prefix(s, prefix),
        strip_prefix(s, prefix) is None,
{
    if has_prefix(s, prefix) {
        assert(s.subrange(0, prefix.len() as int)[0] == s[0]);
    }
}

/// The part of a direct or routeless key that tells units apart is the identity
/// that went into it; a receiver key has none.
proof fn lemma_identity_part(id: DeviceStableId)
    ensures
        identity_part(id.key()) == match id {
            DeviceStableId::Receiver { .. } => None::<Seq<char>>,
            DeviceStableId::Direct { identity, .. } => Some(identity.text()),
            DeviceStableId::Unknown { identity, .. } => Some(identity.text()),
        },
        is_route_key(id.key()),
{
    reveal_strlit("receiver:");
    reveal_strlit("direct:");
    reveal_strlit("unknown:slot:");
    reveal_strlit("unknown:");
    reveal_strlit(":slot:");
    reveal_strlit(":");
    assert(":"@ =~= seq![':']);
    let key = id.key();
    match id {
        DeviceStableId::Receiver { uid, slot } => {
            let rest = uid@ + ":slot:"@ + decimal(slot as nat);
            assert(key =~= "receiver:"@ + rest);
            lemma_strip("receiver:"@, rest);
            lemma_other_prefix(key, "direct:"@);
            lemma_other_prefix(key, "unknown:slot:"@);
        },
        DeviceStableId::Direct { vendor_id, product_id, identity } => {
            let tail = hex4(product_id as nat) + seq![':'] + identity.text();
            let rest = hex4(vendor_id as nat) + seq![':'] + tail;
            assert(key =~= "direct:"@ + rest);
            lemma_strip("direct:"@, rest);
            lemma_hex4(vendor_id);
            lemma_hex4(product_id);
            lemma_find_separator(hex4(vendor_id as nat), ':', tail);
            lemma_find_separator(hex4(product_id as nat), ':', identity.text());
        },
        DeviceStableId::Unknown { slot, identity } => {
            let rest = decimal(slot as nat) + seq![':'] + identity.text();
            assert(key =~= "unknown:slot:"@ + rest);
            lemma_strip("unknown:slot:"@, rest);
            assert("unknown:slot:"@ =~= "unknown:"@ + "slot:"@) by {
                reveal_strlit("slot:");
            }
            assert(key =~= "unknown:"@ + ("slot:"@ + rest));
            lemma_strip("unknown:"@, "slot:"@ + rest);
            lemma_other_prefix(key, "direct:"@);
            lemma_decimal(slot as nat);
            lemma_find_separator(decimal(slot as nat), ':', identity.text());
        },
    }
}

/// The key of an identity is read back as a physical key exactly when the
/// identity names one physical device, and is transient exactly when it does not.
pub proof fn physical_keys_parse(id: DeviceStableId)
    ensures
        is_physical_key(id.key()) == id.is_physical(),
        is_transient_key(id.key()) == !id.is_physical(),
{
    lemma_identity_part(id);
    match id {
        DeviceStableId::Receiver { .. } => {},
        DeviceStableId::Direct { identity, .. } => {
            lemma_identity_text(identity);
        },
        DeviceStableId::Unknown { identity, .. } => {
            lemma_identity_text(identity);
        },
    }
}

impl UnitIdentity {
    /// Two identities hold the same values.
    pub open spec fn same_values(self, other: UnitIdentity) -> bool {
        match (self, other) {
            (UnitIdentity::Serial(a), UnitIdentity::Serial(b)) => a@ == b@,
            (UnitIdentity::Unit(a), UnitIdentity::Unit(b)) => a@ == b@,
            _ => false,
        }
    }
}

impl DeviceStableId {
    /// Two identities hold the same values.
    pub open spec fn same_values(self, other: DeviceStableId) -> bool {
        match (self, other) {
            (
                DeviceStableId::Receiver { uid: a, slot: s },
                DeviceStableId::Receiver { uid: b, slot: t },
            ) => a@ == b@ && s == t,
            (
                DeviceStableId::Direct { vendor_id: v, product_id: p, identity: i },
                DeviceStableId::Direct { vendor_id: w, product_id: q, identity: j },
            ) => v == w && p == q && i.same_values(j),
            (
                DeviceStableId::Unknown { slot: s, identity: i },
                DeviceStableId::Unknown { slot: t, identity: j },
            ) => s == t && i.same_values(j),
            _ => false,
        }
    }
}

proof fn lemma_identity_texts_differ(a: UnitIdentity, b: UnitIdentity)
    requires
        a.text() == b.text(),
    ensures
        a.same_values(b),
{
    reveal_strlit("serial:");
    reveal_strlit("unit:");
    match (a, b) {
        (UnitIdentity::Serial(s), UnitIdentity::Serial(t)) => {
            assert(a.text().skip(7) =~= s@);
            assert(b.text().skip(7) =~= t@);
        },
        (UnitIdentity::Unit(u), UnitIdentity::Unit(v)) => {
            assert(a.text().skip(5) =~= unit_text(u@));
            assert(b.text().skip(5) =~= unit_text(v@));
            lemma_unit_text(u@, v@);
        },
        (UnitIdentity::Serial(s), UnitIdentity::Unit(v)) => {
            assert(a.text()[0] == 's');
            assert(b.text()[0] == 'u');
        },
        (UnitIdentity::Unit(u), UnitIdentity::Serial(t)) => {
            assert(a.text()[0] == 'u');
            assert(b.text()[0] == 's');
        },
    }
}

/// Where the last parts of two equal texts hold no colon, the texts divide at the
/// same colon.
proof fn lemma_last_colon(a: Seq<char>, x: Seq<char>, b: Seq<char>, y: Seq<char>)
    requires
        a + seq![':'] + x == b + seq![':'] + y,
        forall|i: int| 0 <= i < x.len() ==> x[i] != ':',
        forall|i: int| 0 <= i < y.len() ==> y[i] != ':',
    ensures
        a == b,
        x == y,
{
    let ac = a + seq![':'];
    let bc = b + seq![':'];
    let s = ac + x;
    let t = bc + y;
    assert(ac.len() == a.len() + 1);
    assert(bc.len() == b.len() + 1);
    assert(s.len() == ac.len() + x.len());
    assert(t.len() == bc.len() + y.len());
    assert(s[a.len() as int] == ac[a.len() as int]);
    assert(t[b.len() as int] == bc[b.len() as int]);
    if a.len() < b.len() {
        assert(s[b.len() as int] == x[b.len() - ac.len()]);
    } else if b.len() < a.len() {
        assert(t[a.len() as int] == y[a.len() - bc.len()]);
    }
    assert(a =~= s.take(a.len() as int));
    assert(b =~= t.take(b.len() as int));
    assert(x =~= s.skip(a.len() as int + 1));
    assert(y =~= t.skip(b.len() as int + 1));
}

proof fn lemma_receiver_keys(u: Seq<char>, s: u8, w: Seq<char>, t: u8)
    requires
        "receiver:"@ + u + ":slot:"@ + decimal(s as nat) == "receiver:"@ + w + ":slot:"@ + decimal(
            t as nat,
        ),
    ensures
        u == w,
        s == t,
{
    reveal_strlit("receiver:");
    reveal_strlit(":slot:");
    reveal_strlit(":slot");
    lemma_decimal(s as nat);
    lemma_decimal(t as nat);
    let p = "receiver:"@ + u + ":slot"@;
    let q = "receiver:"@ + w + ":slot"@;
    assert(":slot:"@ =~= ":slot"@ + seq![':']);
    assert("receiver:"@ + u + ":slot:"@ + decimal(s as nat) =~= p + seq![':'] + decimal(s as nat));
    assert("receiver:"@ + w + ":slot:"@ + decimal(t as nat) =~= q + seq![':'] + decimal(t as nat));
    lemma_last_colon(p, decimal(s as nat), q, decimal(t as nat));
    assert(u =~= p.subrange(9, p.len() - 5));
    assert(w =~= q.subrange(9, q.len() - 5));
}

proof fn lemma_direct_keys(v: u16, p: u16, i: Seq<char>, w: u16, q: u16, j: Seq<char>)
    requires
        "direct:"@ + hex4(v as nat) + ":"@ + hex4(p as nat) + ":"@ + i == "direct:"@ + hex4(
            w as nat,
        ) + ":"@ + hex4(q as nat) + ":"@ + j,
    ensures
        v == w,
        p == q,
        i == j,
{
    reveal_strlit("direct:");
    reveal_strlit(":");
    lemma_hex4(v);
    lemma_hex4(p);
    lemma_hex4(w);
    lemma_hex4(q);
    let a = "direct:"@ + hex4(v as nat) + ":"@ + hex4(p as nat) + ":"@ + i;
    let b = "direct:"@ + hex4(w as nat) + ":"@ + hex4(q as nat) + ":"@ + j;
    assert(a.subrange(7, 11) =~= hex4(v as nat));
    assert(b.subrange(7, 11) =~= hex4(w as nat));
    assert(a.subrange(12, 16) =~= hex4(p as nat));
    assert(b.subrange(12, 16) =~= hex4(q as nat));
    assert(a.skip(17) =~= i);
    assert(b.skip(17) =~= j);
}

proof fn lemma_unknown_keys(s: u8, t: u8, i: Seq<char>)
    requires
        "unknown:slot:"@ + decimal(s as nat) + ":"@ + i == "unknown:slot:"@ + decimal(t as nat)
            + ":"@ + i,
    ensures
        s == t,
{
    reveal_strlit("unknown:slot:");
    reveal_strlit(":");
    let d = decimal(s as nat);
    let e = decimal(t as nat);
    let a = "unknown:slot:"@ + d + ":"@ + i;
    let b = "unknown:slot:"@ + e + ":"@ + i;
    assert(a.len() == 13 + d.len() + 1 + i.len());
    assert(b.len() == 13 + e.len() + 1 + i.len());
    assert(d =~= a.subrange(13, 13 + d.len() as int));
    assert(e =~= b.subrange(13, 13 + e.len() as int));
    lemma_decimal(s as nat);
    lemma_decimal(t as nat);
}

/// Two identities with the same key are the same identity: no two devices share
/// their settings by accident.
pub proof fn keys_tell_identities_apart(a: DeviceStableId, b: DeviceStableId)
    requires
        a.key() == b.key(),
    ensures
        a.same_values(b),
{
    lemma_first_letter(a);
    lemma_first_letter(b);
    match (a, b) {
        (
            DeviceStableId::Receiver { uid: u, slot: s },
            DeviceStableId::Receiver { uid: w, slot: t },
        ) => {
            lemma_receiver_keys(u@, s, w@, t);
        },
        (
            DeviceStableId::Direct { vendor_id: v, product_id: p, identity: i },
            DeviceStableId::Direct { vendor_id: w, product_id: q, identity: j },
        ) => {
            lemma_direct_keys(v, p, i.text(), w, q, j.text());
            lemma_identity_texts_differ(i, j);
        },
        (
            DeviceStableId::Unknown { slot: s, identity: i },
            DeviceStableId::Unknown { slot: t, identity: j },
        ) => {
            lemma_identity_part(a);
            lemma_identity_part(b);
            lemma_identity_texts_differ(i, j);
            lemma_unknown_keys(s, t, i.text());
        },
        _ => {},
    }
}

proof fn lemma_first_letter(id: DeviceStableId)
    ensures
        id.key().len() > 0,
        id.key()[0] == match id {
            DeviceStableId::Receiver { .. } => 'r',
            DeviceStableId::Direct { .. } => 'd',
            DeviceStableId::Unknown { .. } => 'u',
        },
{
    reveal_strlit("receiver:");
    reveal_strlit("direct:");
    reveal_strlit("unknown:slot:");
}

} // verus!

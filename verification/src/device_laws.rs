//! Laws of devices: what kind they are, what they can do, how they are reached, and under
//! which keys they are remembered.

use vstd::prelude::*;
use vstd::string::*;

use crate::address::{file_url, joined, leads, needs_escape, percent_encoded, segments};
use crate::device::{Capabilities, DeviceInventory, DeviceKind, DeviceModelInfo};
use crate::device_order::{DeviceRoute, DeviceStableId, PhysicalDeviceKey};
use crate::text::{ascii_lower, decimal, hex, hex4, trim, zero_padded};

verus! {

// ── Kinds and capabilities ──────────────────────────────────────────────────

/// The registry's word for a kind is understood in any case and with blanks around it; a
/// word that is no kind is unknown.
pub proof fn registry_words_name_kinds(raw: &str, kind: DeviceKind)
    requires
        call_ensures(DeviceKind::from_registry_type, (raw,), kind),
    ensures
        ({
            let word = ascii_lower(trim(raw@));
            &&& kind == DeviceKind::Mouse <==> word == "mouse"@
            &&& kind == DeviceKind::Keyboard <==> word == "keyboard"@
            &&& kind == DeviceKind::Numpad <==> word == "numpad"@
            &&& kind == DeviceKind::Presenter <==> word == "presenter"@
            &&& kind == DeviceKind::Remote <==> word == "remote"@ || word == "remotecontrol"@
            &&& kind == DeviceKind::Trackball <==> word == "trackball"@
            &&& kind == DeviceKind::Touchpad <==> word == "touchpad"@ || word == "trackpad"@
            &&& kind == DeviceKind::Tablet <==> word == "tablet"@
            &&& kind == DeviceKind::Gamepad <==> word == "gamepad"@
            &&& kind == DeviceKind::Joystick <==> word == "joystick"@
            &&& kind == DeviceKind::Headset <==> word == "headset"@
            &&& kind == DeviceKind::Camera <==> word == "camera"@
        }),
{
    reveal_strlit("mouse");
    reveal_strlit("keyboard");
    reveal_strlit("numpad");
    reveal_strlit("presenter");
    reveal_strlit("remote");
    reveal_strlit("remotecontrol");
    reveal_strlit("trackball");
    reveal_strlit("touchpad");
    reveal_strlit("trackpad");
    reveal_strlit("tablet");
    reveal_strlit("gamepad");
    reveal_strlit("joystick");
    reveal_strlit("headset");
    reveal_strlit("camera");
    assert("mouse"@.len() == 5);
    assert("keyboard"@[0] == 'k');
    assert("numpad"@[0] == 'n');
    assert("presenter"@[0] == 'p');
    assert("remote"@[0] == 'r' && "remote"@.len() == 6);
    assert("remotecontrol"@[0] == 'r' && "remotecontrol"@.len() == 13);
    assert("trackball"@[0] == 't' && "trackball"@.len() == 9);
    assert("touchpad"@[0] == 't' && "touchpad"@.len() == 8 && "touchpad"@[1] == 'o');
    assert("trackpad"@[0] == 't' && "trackpad"@.len() == 8 && "trackpad"@[1] == 'r');
    assert("tablet"@[0] == 't' && "tablet"@.len() == 6);
    assert("gamepad"@[0] == 'g');
    assert("joystick"@[0] == 'j');
    assert("headset"@[0] == 'h');
    assert("camera"@[0] == 'c');
    assert("mouse"@[0] == 'm');
}

/// A device can do what one of its features stands for, and nothing else: buttons are remapped
/// by the features from 0x1b00 to 0x1b04, the pointer tuned by 0x2201 and 0x2202, lights set
/// by 0x8070 and 0x8080, the wheel read finely by 0x2121.
pub proof fn features_stand_for_capabilities(ids: &[u16], out: Capabilities)
    requires
        call_ensures(Capabilities::from_feature_ids, (ids,), out),
    ensures
        out.buttons <==> ids@.contains(0x1b00) || ids@.contains(0x1b01) || ids@.contains(0x1b02)
            || ids@.contains(0x1b03) || ids@.contains(0x1b04),
        out.pointer <==> ids@.contains(0x2201) || ids@.contains(0x2202),
        out.lighting <==> ids@.contains(0x8070) || ids@.contains(0x8080),
        out.hires_wheel <==> ids@.contains(0x2121),
        !out.scroll_inversion,
{
    if out.buttons {
        let i = choose|i: int| 0 <= i < ids@.len() && 0x1b00 <= #[trigger] ids@[i] <= 0x1b04;
        assert(ids@.contains(ids@[i]));
    }
    if out.pointer {
        let i = choose|i: int| 0 <= i < ids@.len() && 0x2201 <= #[trigger] ids@[i] <= 0x2202;
        assert(ids@.contains(ids@[i]));
    }
    if out.lighting {
        let i = choose|i: int|
            0 <= i < ids@.len() && (#[trigger] ids@[i] == 0x8080 || ids@[i] == 0x8070);
        assert(ids@.contains(ids@[i]));
    }
}

/// Of an unread device it is presumed that a pointing device has buttons and a pointer, that
/// a keyboard has lights, and nothing of any other.
pub proof fn kinds_presume_capabilities(kind: DeviceKind, out: Capabilities)
    requires
        call_ensures(Capabilities::presumed_from_kind, (kind,), out),
    ensures
        out.buttons <==> kind == DeviceKind::Mouse || kind == DeviceKind::Trackball,
        out.pointer <==> kind == DeviceKind::Mouse || kind == DeviceKind::Trackball,
        out.lighting <==> kind == DeviceKind::Keyboard,
        !out.scroll_inversion,
        !out.hires_wheel,
{
}

/// The key of a model is its extended number in hexadecimal, then the first of its product
/// numbers with four digits.
pub proof fn model_keys_name_the_model(info: DeviceModelInfo, key: String)
    requires
        call_ensures(DeviceModelInfo::config_key, (&info,), key),
    ensures
        key@ == hex(info.extended_model_id as nat) + hex4(info.model_ids@[0] as nat),
{
}

/// Two reports of a model are the same exactly when every part of them is.
pub proof fn models_match_part_by_part(a: DeviceModelInfo, b: DeviceModelInfo, same: bool)
    requires
        call_ensures(DeviceModelInfo::matches, (&a, &b), same),
    ensures
        same <==> {
            &&& a.entity_count == b.entity_count
            &&& a.serial_number is Some == b.serial_number is Some
            &&& a.serial_number is Some ==> a.serial_number->0@ == b.serial_number->0@
            &&& a.unit_id@ == b.unit_id@
            &&& a.transports == b.transports
            &&& a.model_ids@ == b.model_ids@
            &&& a.extended_model_id == b.extended_model_id
        },
{
}

// ── Routes ──────────────────────────────────────────────────────────────────

/// A device is reached through its receiver by the receiver's name and the device's slot, and
/// one that is plugged in by itself, at slot 0xff, by its own numbers. A receiver without a
/// name leads nowhere.
pub proof fn routes_lead_to_the_device(
    inventory: DeviceInventory,
    slot: u8,
    route: Option<DeviceRoute>,
)
    requires
        call_ensures(DeviceRoute::device_route_for, (&inventory, slot), route),
    ensures
        slot == 0xff ==> route == Some(
            DeviceRoute::Direct {
                vendor_id: inventory.receiver.vendor_id,
                product_id: inventory.receiver.product_id,
            },
        ),
        slot != 0xff ==> match inventory.receiver.unique_id {
            Some(uid) => route == Some(DeviceRoute::Bolt { receiver_uid: uid, slot }),
            None => route is None,
        },
{
}

/// A route through a receiver is served at the slot, a direct one at 0xff.
pub proof fn routes_have_an_index(route: DeviceRoute, index: u8)
    requires
        call_ensures(DeviceRoute::device_index, (&route,), index),
    ensures
        route matches DeviceRoute::Bolt { slot, .. } ==> index == slot,
        route is Direct ==> index == 0xff,
{
}

/// Two routes lead to the same place exactly when they go through the same receiver to the
/// same slot, or directly to the same vendor and product.
pub proof fn routes_are_compared_by_their_end(a: DeviceRoute, b: DeviceRoute, same: bool)
    requires
        call_ensures(DeviceRoute::same_as, (&a, &b), same),
    ensures
        a matches DeviceRoute::Bolt { receiver_uid: u, slot: s } ==> (b
            matches DeviceRoute::Bolt { receiver_uid: w, slot: t } ==> (same <==> u@ == w@ && s
            == t)),
        a matches DeviceRoute::Direct { vendor_id: u, product_id: s } ==> (b
            matches DeviceRoute::Direct { vendor_id: w, product_id: t } ==> (same <==> u == w && s
            == t)),
        a is Bolt != b is Bolt ==> !same,
{
}

// ── Keys ────────────────────────────────────────────────────────────────────

/// A byte as two hexadecimal digits.
pub open spec fn two_digits(b: u8) -> Seq<char> {
    zero_padded(hex(b as nat), 2)
}

/// What is behind a route and tells one unit from another: its serial number in small
/// letters, or, without one, the four bytes of its unit number.
pub open spec fn unit_name(serial: Option<&str>, unit: Seq<u8>) -> Seq<char> {
    match serial {
        Some(s) => if s@.len() > 0 {
            "serial:"@ + ascii_lower(s@)
        } else {
            "unit:"@ + (two_digits(unit[0]) + two_digits(unit[1]) + two_digits(unit[2])
                + two_digits(unit[3]))
        },
        None => "unit:"@ + (two_digits(unit[0]) + two_digits(unit[1]) + two_digits(unit[2])
            + two_digits(unit[3])),
    }
}

/// The key of a device names the way to it: the receiver and the slot, or the vendor, the
/// product and the unit, or the slot and the unit where no way is known.
pub proof fn keys_name_the_way(
    route: Option<&DeviceRoute>,
    slot: u8,
    serial: Option<&str>,
    unit: [u8; 4],
    id: DeviceStableId,
    key: String,
)
    requires
        call_ensures(DeviceStableId::from_parts, (route, slot, serial, unit), id),
        call_ensures(DeviceStableId::runtime_key, (&id,), key),
    ensures
        route matches Some(r) ==> (*r matches DeviceRoute::Bolt { receiver_uid, slot: s } ==> key@
            == "receiver:"@ + ascii_lower(receiver_uid@) + ":slot:"@ + decimal(s as nat)),
        route matches Some(r) ==> (*r matches DeviceRoute::Direct { vendor_id, product_id } ==>
            key@ == "direct:"@ + hex4(vendor_id as nat) + ":"@ + hex4(product_id as nat) + ":"@
            + unit_name(serial, unit@)),
        route is None ==> key@ == "unknown:slot:"@ + decimal(slot as nat) + ":"@ + unit_name(
            serial,
            unit@,
        ),
{
}

/// A device can be told from others of its kind when it sits in a receiver's slot, has a
/// serial number, or has a unit number that is not zero. Its key is then the key it is
/// remembered under.
pub proof fn units_that_can_be_told_are_remembered(
    route: Option<&DeviceRoute>,
    slot: u8,
    serial: Option<&str>,
    unit: [u8; 4],
    id: DeviceStableId,
    key: String,
    physical: Option<PhysicalDeviceKey>,
)
    requires
        call_ensures(DeviceStableId::from_parts, (route, slot, serial, unit), id),
        call_ensures(DeviceStableId::runtime_key, (&id,), key),
        call_ensures(DeviceStableId::physical_key, (&id,), physical),
    ensures
        physical is Some <==> (route is Some && *route->0 is Bolt) || (serial is Some
            && serial->0@.len() > 0) || unit@[0] != 0 || unit@[1] != 0 || unit@[2] != 0 || unit@[3]
            != 0,
        physical matches Some(k) ==> k@ == key@,
{
}

/// The key of a device that can be told from others is read again as a key to remember it
/// by; that of any other is transient.
pub proof fn keys_of_units_are_read_again(
    route: Option<&DeviceRoute>,
    slot: u8,
    serial: Option<&str>,
    unit: [u8; 4],
    id: DeviceStableId,
    physical: Option<PhysicalDeviceKey>,
    key: &str,
    transient: bool,
    read: Option<PhysicalDeviceKey>,
    text: String,
)
    requires
        call_ensures(DeviceStableId::from_parts, (route, slot, serial, unit), id),
        call_ensures(DeviceStableId::physical_key, (&id,), physical),
        call_ensures(DeviceStableId::runtime_key, (&id,), text),
        key@ == text@,
        call_ensures(PhysicalDeviceKey::is_transient, (key,), transient),
        call_ensures(PhysicalDeviceKey::parse, (key,), read),
    ensures
        transient <==> physical is None,
        read is Some <==> physical is Some,
        read matches Some(k) ==> k@ == text@,
{
    crate::device_order::physical_keys_parse(id);
}

/// A key that is remembered is read again as it is, and so is nothing that is no key of a
/// single unit.
pub proof fn remembered_keys_are_read(
    key: &str,
    transient: bool,
    out: Option<PhysicalDeviceKey>,
    text: String,
)
    requires
        call_ensures(PhysicalDeviceKey::is_transient, (key,), transient),
        call_ensures(PhysicalDeviceKey::parse, (key,), out),
        out matches Some(k) ==> call_ensures(PhysicalDeviceKey::into_string, (k,), text),
    ensures
        out is Some ==> text@ == key@ && !transient,
        out is Some <==> !transient && (begins(key@, "receiver:"@) || begins(key@, "direct:"@)
            || begins(key@, "unknown:"@)),
{
    lemma_begins(key@, "receiver:"@);
    lemma_begins(key@, "direct:"@);
    lemma_begins(key@, "unknown:"@);
}

/// The first characters of `text` are `start`.
pub open spec fn begins(text: Seq<char>, start: Seq<char>) -> bool {
    text.len() >= start.len() && text.take(start.len() as int) == start
}

proof fn lemma_begins(text: Seq<char>, start: Seq<char>)
    ensures
        begins(text, start) <==> crate::text::has_prefix(text, start),
{
    if text.len() >= start.len() {
        assert(text.take(start.len() as int) =~= text.subrange(0, start.len() as int));
    }
}

// ── Addresses of files ──────────────────────────────────────────────────────

/// Only an absolute path has an address, which begins with the scheme.
pub proof fn absolute_paths_have_addresses(path: &str, url: Option<String>)
    requires
        call_ensures(file_url, (path,), url),
    ensures
        url is Some <==> path@.len() > 0 && path@[0] == '/',
        url matches Some(text) ==> begins(text@, "file:///"@),
{
    if let Some(text) = url {
        reveal_strlit("file://");
        reveal_strlit("file:///");
        let body = joined(segments(path@));
        lemma_joined_begins(segments(path@));
        let rest = if body.len() == 0 {
            seq!['/']
        } else {
            body
        };
        assert(text@ =~= "file://"@ + rest);
        assert(rest[0] == '/');
        assert(text@.take(8) =~= "file:///"@);
    }
}

proof fn lemma_joined_begins(parts: Seq<Seq<char>>)
    ensures
        joined(parts).len() > 0 ==> joined(parts)[0] == '/',
    decreases parts.len(),
{
    if parts.len() > 0 {
        lemma_joined_begins(parts.drop_last());
    }
}

/// A segment of a path without a character that needs escaping stands in the address as it
/// is, behind a slash; empty segments and dots are left out.
pub proof fn plain_segments_stand_as_they_are(
    path: &str,
    longer: &str,
    segment: Seq<char>,
    url: Option<String>,
    more: Option<String>,
)
    requires
        path@.len() > 1,
        path@[0] == '/',
        path@.last() != '/',
        longer@ == path@ + seq!['/'] + segment,
        forall|i: int|
            0 <= i < segment.len() ==> (#[trigger] segment[i] as int) > 32 && (segment[i] as int)
                < 127 && segment[i] != '"' && segment[i] != '#' && segment[i] != '%' && segment[i]
                != '/' && segment[i] != '<' && segment[i] != '>' && segment[i] != '?' && segment[i]
                != '\\' && segment[i] != '`' && segment[i] != '{' && segment[i] != '}',
        call_ensures(file_url, (path,), url),
        call_ensures(file_url, (longer,), more),
        url matches Some(text) ==> text@ != "file:///"@,
    ensures
        url is Some && more is Some,
        segment.len() == 0 || segment == seq!['.'] ==> more->0@ == url->0@,
        segment.len() > 0 && segment != seq!['.'] ==> more->0@ == url->0@ + seq!['/'] + segment,
{
    lemma_segments_more(path@, segment);
    let all = segments(longer@);
    let front = segments(path@);
    lemma_root(path@);
    assert(all =~= front.push(segment));
    assert(all.drop_last() =~= front);
    lemma_plain_stays(segment);
    if leads(segment) {
        assert(joined(all) =~= joined(front).push('/') + segment);
        assert(more->0@ =~= url->0@ + seq!['/'] + segment);
    } else {
        if segment.len() > 0 {
            assert(segment =~= seq!['.']);
        }
    }
}

proof fn lemma_root(path: Seq<char>)
    ensures
        joined(segments(path)).len() == 0 ==> crate::address::address(path) == "file:///"@,
{
    reveal_strlit("file://");
    reveal_strlit("file:///");
    if joined(segments(path)).len() == 0 {
        assert(crate::address::address(path) =~= "file:///"@);
    }
}

/// The digit of a number below sixteen: a figure, or one of the capitals from A to F.
pub open spec fn capital_hex(d: int) -> char {
    if d < 10 {
        (48 + d) as char
    } else {
        (65 + (d - 10)) as char
    }
}

/// A character that cannot stand in an address is written as a percent sign and the two
/// digits of its code.
pub proof fn other_characters_are_escaped(
    path: &str,
    longer: &str,
    c: char,
    url: Option<String>,
    more: Option<String>,
)
    requires
        path@.len() > 1,
        path@[0] == '/',
        path@.last() != '/',
        longer@ == path@ + seq!['/', c],
        (c as int) <= 32 || c as int == 127 || c == '"' || c == '#' || c == '%' || c == '<' || c
            == '>' || c == '?' || c == '\\' || c == '`' || c == '{' || c == '}',
        call_ensures(file_url, (path,), url),
        call_ensures(file_url, (longer,), more),
        url matches Some(text) ==> text@ != "file:///"@,
    ensures
        url is Some && more is Some,
        more->0@ == url->0@ + seq![
            '/',
            '%',
            capital_hex(c as int / 16),
            capital_hex(c as int % 16),
        ],
{
    let segment = seq![c];
    lemma_segments_more(path@, segment);
    assert(longer@ =~= path@ + seq!['/'] + segment);
    let all = segments(longer@);
    let front = segments(path@);
    lemma_root(path@);
    assert(all =~= front.push(segment));
    assert(all.drop_last() =~= front);
    assert(segment.drop_last() =~= Seq::<char>::empty());
    let bytes = crate::address::utf8_bytes(c);
    assert(bytes =~= seq![c as int as u8]);
    assert(bytes.drop_last() =~= Seq::<u8>::empty());
    reveal_with_fuel(crate::address::percent_bytes, 3);
    reveal_with_fuel(percent_encoded, 3);
    let escaped = seq!['%', capital_hex(c as int / 16), capital_hex(c as int % 16)];
    assert(crate::address::percent_bytes(bytes) =~= escaped);
    assert(percent_encoded(segment) =~= escaped);
    assert(joined(all) =~= joined(front).push('/') + escaped);
    assert(more->0@ =~= url->0@ + seq![
        '/',
        '%',
        capital_hex(c as int / 16),
        capital_hex(c as int % 16),
    ]);
}

proof fn lemma_plain_stays(segment: Seq<char>)
    requires
        forall|i: int| 0 <= i < segment.len() ==> !needs_escape(#[trigger] segment[i]),
    ensures
        percent_encoded(segment) == segment,
    decreases segment.len(),
{
    if segment.len() > 0 {
        let front = segment.drop_last();
        assert(forall|i: int| 0 <= i < front.len() ==> front[i] == segment[i]);
        lemma_plain_stays(front);
        assert(!needs_escape(segment[segment.len() - 1]));
        assert(percent_encoded(segment) =~= segment);
    } else {
        assert(percent_encoded(segment) =~= segment);
    }
}

proof fn lemma_segments_more(path: Seq<char>, segment: Seq<char>)
    requires
        forall|i: int| 0 <= i < segment.len() ==> #[trigger] segment[i] != '/',
    ensures
        segments(path + seq!['/'] + segment) == segments(path).push(segment),
    decreases segment.len(),
{
    let whole = path + seq!['/'] + segment;
    if segment.len() == 0 {
        assert(whole.drop_last() =~= path);
        assert(whole.last() == '/');
        assert(segment =~= Seq::<char>::empty());
    } else {
        let less = segment.drop_last();
        assert(forall|i: int| 0 <= i < less.len() ==> less[i] == segment[i]);
        lemma_segments_more(path, less);
        assert(whole.drop_last() =~= path + seq!['/'] + less);
        assert(whole.last() == segment[segment.len() - 1]);
        let front = segments(path + seq!['/'] + less);
        assert(front.drop_last() =~= segments(path));
        assert(front.last() == less);
        assert(less.push(segment.last()) =~= segment);
    }
}

} // verus!

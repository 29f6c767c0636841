//! The window that lists receivers and their devices.

use vstd::prelude::*;
use vstd::string::*;

use crate::device::{BatteryInfo, DeviceInventory, PairedDevice};
use crate::device_carousel::paired_devices;
use crate::labels::{
    battery_sign, battery_tone, format_battery, kind_label, kind_text, percent, reading_tone, Tone,
};
use crate::text::{decimal, decimal_text, hex4, padded_hex_text};

verus! {

/// The title of the window.
pub const TITLE: &'static str = "Options−";

/// What stands in place of the list where there is no receiver.
#[derive(Debug)]
pub struct EmptyState {
    /// What is missing.
    pub heading: &'static str,
    /// What to do about it.
    pub advice: &'static str,
}

/// What stands in place of the list where there is no receiver.
pub fn empty_state() -> (out: EmptyState)
    ensures
        out.heading@ == "No Logitech HID++ receivers found."@,
        out.advice@
            == "Quit Logi Options+ if it is running, replug the receiver, and reopen."@,
{
    EmptyState {
        heading: "No Logitech HID++ receivers found.",
        advice: "Quit Logi Options+ if it is running, replug the receiver, and reopen.",
    }
}

/// The window's content.
#[derive(Debug)]
pub struct DeviceListView {
    /// The receivers.
    pub inventories: Vec<DeviceInventory>,
}

/// How many of the devices are there.
pub open spec fn online_count(devices: Seq<PairedDevice>) -> nat
    decreases devices.len(),
{
    if devices.len() == 0 {
        0
    } else {
        online_count(devices.drop_last()) + if devices.last().online {
            1nat
        } else {
            0nat
        }
    }
}

/// No more devices are there than there are devices.
pub proof fn online_devices_are_devices(devices: Seq<PairedDevice>)
    ensures
        online_count(devices) <= devices.len(),
    decreases devices.len(),
{
    if devices.len() > 0 {
        online_devices_are_devices(devices.drop_last());
    }
}

proof fn lemma_online_joined(a: Seq<PairedDevice>, b: Seq<PairedDevice>)
    ensures
        online_count(a + b) == online_count(a) + online_count(b),
    decreases b.len(),
{
    if b.len() == 0 {
        assert(a + b =~= a);
    } else {
        lemma_online_joined(a, b.drop_last());
        assert((a + b).drop_last() =~= a + b.drop_last());
    }
}

/// The word for this many.
pub open spec fn number_word(count: nat, singular: Seq<char>, plural: Seq<char>) -> Seq<char> {
    if count == 1 {
        singular
    } else {
        plural
    }
}

/// The word for this many.
pub fn pluralize(count: usize, singular: &'static str, plural: &'static str) -> (word:
    &'static str)
    ensures
        word@ == number_word(count as nat, singular@, plural@),
{
    if count == 1 {
        singular
    } else {
        plural
    }
}

/// The words under the title, as characters.
pub open spec fn header_text(receivers: nat, devices: nat, online: nat) -> Seq<char> {
    if receivers == 0 {
        "No receivers detected"@
    } else {
        decimal(online) + "/"@ + decimal(devices) + " "@ + number_word(
            devices,
            "device"@,
            "devices"@,
        ) + " online on "@ + decimal(receivers) + " "@ + number_word(
            receivers,
            "receiver"@,
            "receivers"@,
        )
    }
}

/// The words under the title: how many devices are there, on how many receivers.
pub fn render_header(receivers: usize, devices: usize, online: usize) -> (subtitle: String)
    ensures
        subtitle@ == header_text(receivers as nat, devices as nat, online as nat),
{
    if receivers == 0 {
        return "No receivers detected".to_string();
    }
    let mut out: String = decimal_text(online as u64);
    out.append("/");
    let number: String = decimal_text(devices as u64);
    out.append(number.as_str());
    out.append(" ");
    out.append(pluralize(devices, "device", "devices"));
    out.append(" online on ");
    let count: String = decimal_text(receivers as u64);
    out.append(count.as_str());
    out.append(" ");
    out.append(pluralize(receivers, "receiver", "receivers"));
    out
}

impl DeviceListView {
    /// What stands in place of the list: nothing where there is a receiver.
    pub fn note(&self) -> (note: Option<EmptyState>)
        ensures
            note is Some == (self.inventories@.len() == 0),
            note matches Some(n) ==> n.heading@ == "No Logitech HID++ receivers found."@
                && n.advice@
                == "Quit Logi Options+ if it is running, replug the receiver, and reopen."@,
    {
        if self.inventories.len() == 0 {
            Some(empty_state())
        } else {
            None
        }
    }

    /// The words under the title.
    pub fn header(&self) -> (subtitle: String)
        requires
            paired_devices(self.inventories@).len() <= usize::MAX,
        ensures
            subtitle@ == header_text(
                self.inventories@.len(),
                paired_devices(self.inventories@).len(),
                online_count(paired_devices(self.inventories@)),
            ),
    {
        let n: usize = self.inventories.len();
        let mut devices: usize = 0;
        let mut online: usize = 0;
        let mut i: usize = 0;
        let ghost all = self.inventories@;
        assert(all.take(n as int) =~= all);
        while i < n
            invariant
                i <= n,
                n == all.len(),
                all == self.inventories@,
                all.take(n as int) == all,
                paired_devices(all).len() <= usize::MAX,
                devices == paired_devices(all.take(i as int)).len(),
                online == online_count(paired_devices(all.take(i as int))),
            decreases n - i,
        {
            let here: &Vec<PairedDevice> = &self.inventories[i].paired;
            let ghost before = paired_devices(all.take(i as int));
            proof {
                assert(all.take(i as int + 1).drop_last() =~= all.take(i as int));
                lemma_paired_grow(all, i as int + 1, n as int);
                online_devices_are_devices(before);
            }
            let m: usize = here.len();
            let mut j: usize = 0;
            assert(here@.take(0).len() == 0);
            while j < m
                invariant
                    j <= m,
                    m == here@.len(),
                    before.len() + m <= usize::MAX,
                    online == online_count(before) + online_count(here@.take(j as int)),
                    online_count(before) <= before.len(),
                decreases m - j,
            {
                assert(here@.take(j as int + 1).drop_last() =~= here@.take(j as int));
                proof {
                    online_devices_are_devices(here@.take(j as int));
                }
                if here[j].online {
                    online = online + 1;
                }
                j = j + 1;
            }
            assert(here@.take(m as int) =~= here@);
            proof {
                lemma_online_joined(before, here@);
            }
            devices = devices + m;
            i = i + 1;
        }
        render_header(n, devices, online)
    }
}

proof fn lemma_paired_grow(all: Seq<DeviceInventory>, a: int, b: int)
    requires
        0 <= a <= b <= all.len(),
    ensures
        paired_devices(all.take(a)).len() <= paired_devices(all.take(b)).len(),
    decreases b - a,
{
    if a < b {
        assert(all.take(b).drop_last() =~= all.take(b - 1));
        lemma_paired_grow(all, a, b - 1);
    }
}

/// The words under a receiver's name, as characters.
pub open spec fn receiver_text(inv: DeviceInventory) -> Seq<char> {
    (match inv.receiver.unique_id {
        Some(id) => id@,
        None => "—"@,
    }) + "  ·  vid="@ + hex4(inv.receiver.vendor_id as nat) + "  pid="@ + hex4(
        inv.receiver.product_id as nat,
    )
}

/// The words under a receiver's name.
pub fn render_receiver(inv: &DeviceInventory) -> (meta: String)
    ensures
        meta@ == receiver_text(*inv),
{
    let mut meta: String = match &inv.receiver.unique_id {
        Some(id) => id.clone(),
        None => "—".to_string(),
    };
    meta.append("  ·  vid=");
    let vid: String = padded_hex_text(inv.receiver.vendor_id as u64, 4);
    meta.append(vid.as_str());
    meta.append("  pid=");
    let pid: String = padded_hex_text(inv.receiver.product_id as u64, 4);
    meta.append(pid.as_str());
    meta
}

/// What stands in place of a receiver's devices where it has none.
pub fn receiver_note(inv: &DeviceInventory) -> (note: Option<&'static str>)
    ensures
        match note {
            Some(note) => inv.paired@.len() == 0 && note@
                == "No paired devices currently online."@,
            None => inv.paired@.len() > 0,
        },
{
    if inv.paired.len() == 0 {
        Some("No paired devices currently online.")
    } else {
        None
    }
}

/// A line of the list.
#[derive(Debug)]
pub struct DeviceLine {
    /// The dot: full for a device that is there.
    pub dot: &'static str,
    /// The tone of the dot.
    pub dot_tone: Tone,
    /// The name.
    pub name: String,
    /// The kind, the slot and the wireless product id.
    pub meta: String,
    /// The battery.
    pub battery: String,
    /// The tone of the battery.
    pub battery_tone: Tone,
}

/// The words under a device's name, as characters.
pub open spec fn device_text(d: PairedDevice) -> Seq<char> {
    kind_text(d.kind) + "  ·  slot "@ + decimal(d.slot as nat) + "  ·  "@ + (match d.wpid {
        Some(wpid) => "wpid="@ + hex4(wpid as nat),
        None => "wpid=?"@,
    })
}

/// `line` is the line of `d`.
pub open spec fn is_device_line(line: DeviceLine, d: PairedDevice) -> bool {
    &&& line.dot@ == if d.online {
        "●"@
    } else {
        "○"@
    }
    &&& line.dot_tone == if d.online {
        Tone::Good
    } else {
        Tone::Muted
    }
    &&& line.name@ == match d.codename {
        Some(name) => name@,
        None => "Unknown device"@,
    }
    &&& line.meta@ == device_text(d)
    &&& is_battery_cell((line.battery, line.battery_tone), d.battery)
}

/// `cell` is what the list says of a battery.
pub open spec fn is_battery_cell(cell: (String, Tone), info: Option<BatteryInfo>) -> bool {
    match info {
        Some(b) => cell.0@ == battery_sign(b.status) + percent(b.percentage) && cell.1
            == reading_tone(b),
        None => cell.0@ == "—"@ && cell.1 == Tone::Muted,
    }
}

/// What the list says of a battery.
pub fn render_battery(info: &Option<BatteryInfo>) -> (cell: (String, Tone))
    ensures
        is_battery_cell(cell, *info),
{
    match info {
        Some(b) => (format_battery(b), battery_tone(b)),
        None => ("—".to_string(), Tone::Muted),
    }
}

/// The line of a device.
pub fn render_device(d: &PairedDevice) -> (line: DeviceLine)
    ensures
        is_device_line(line, *d),
{
    let name: String = match &d.codename {
        Some(name) => name.clone(),
        None => "Unknown device".to_string(),
    };
    let mut meta: String = kind_label(d.kind).to_string();
    meta.append("  ·  slot ");
    let slot: String = decimal_text(d.slot as u64);
    meta.append(slot.as_str());
    meta.append("  ·  ");
    let mut wpid: String = "wpid=?".to_string();
    match d.wpid {
        Some(w) => {
            wpid = "wpid=".to_string();
            let number: String = padded_hex_text(w as u64, 4);
            wpid.append(number.as_str());
        },
        None => {},
    }
    meta.append(wpid.as_str());
    let (battery, battery_tone): (String, Tone) = render_battery(&d.battery);
    DeviceLine {
        dot: if d.online {
            "●"
        } else {
            "○"
        },
        dot_tone: if d.online {
            Tone::Good
        } else {
            Tone::Muted
        },
        name,
        meta,
        battery,
        battery_tone,
    }
}

} // verus!

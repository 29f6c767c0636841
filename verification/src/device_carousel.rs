//! The strip of device cards.

use vstd::prelude::*;
use vstd::string::*;

use crate::device::{BatteryInfo, DeviceInventory, DeviceKind, PairedDevice};
use crate::labels::{battery_sign, format_battery, kind_and_slot, kind_and_slot_text, percent, Tone};
use crate::text::{decimal, decimal_text};

verus! {

/// Whether a device is there.
#[derive(Debug, Clone, Copy, PartialEq, Eq, Structural)]
pub enum Status {
    /// It is. Its dot breathes.
    Connected,
    /// It is on its way. Its dot blinks.
    Connecting,
    /// It is not. Its dot stands still.
    Offline,
}

impl Status {
    /// The tone of the dot.
    pub open spec fn tone_of(self) -> Tone {
        match self {
            Status::Connected => Tone::Good,
            Status::Connecting => Tone::Waiting,
            Status::Offline => Tone::Muted,
        }
    }

    /// The tone of the dot.
    pub fn color(self) -> (tone: Tone)
        ensures
            tone == self.tone_of(),
    {
        match self {
            Status::Connected => Tone::Good,
            Status::Connecting => Tone::Waiting,
            Status::Offline => Tone::Muted,
        }
    }
}

/// A card.
#[derive(Debug)]
pub struct CardData {
    /// The name.
    pub name: String,
    /// The kind and the slot.
    pub sub: String,
    /// Whether the device is there.
    pub status: Status,
    /// Its battery.
    pub battery: Option<BatteryInfo>,
}

/// The strip of cards. It always holds at least one.
#[derive(Debug)]
pub struct DeviceCarousel {
    /// The cards.
    pub cards: Vec<CardData>,
}

/// `card` is the card of `device`.
pub open spec fn is_card(card: CardData, device: PairedDevice) -> bool {
    &&& card.name@ == match device.codename {
        Some(name) => name@,
        None => "Slot "@ + decimal(device.slot as nat),
    }
    &&& card.sub@ == kind_and_slot(device.kind, device.slot)
    &&& card.status == if device.online {
        Status::Connected
    } else {
        Status::Offline
    }
    &&& card.battery == device.battery
}

/// `cards` are the cards of `devices`, one for one.
pub open spec fn are_cards(cards: Seq<CardData>, devices: Seq<PairedDevice>) -> bool {
    &&& cards.len() == devices.len()
    &&& forall|i: int| 0 <= i < cards.len() ==> is_card(#[trigger] cards[i], devices[i])
}

/// The devices of all receivers, in order.
pub open spec fn paired_devices(inventories: Seq<DeviceInventory>) -> Seq<PairedDevice>
    decreases inventories.len(),
{
    if inventories.len() == 0 {
        Seq::empty()
    } else {
        paired_devices(inventories.drop_last()) + inventories.last().paired@
    }
}

/// `card` has these words and this status, and no battery.
pub open spec fn is_demo_card(card: CardData, name: Seq<char>, slot: u8, status: Status) -> bool {
    card.name@ == name && card.sub@ == kind_and_slot(DeviceKind::Mouse, slot) && card.status
        == status && card.battery is None
}

/// `cards` are the three placeholders.
pub open spec fn are_demo_cards(cards: Seq<CardData>) -> bool {
    &&& cards.len() == 3
    &&& is_demo_card(cards[0], "MX Master"@, 1, Status::Connected)
    &&& is_demo_card(cards[1], "Lift"@, 2, Status::Connecting)
    &&& is_demo_card(cards[2], "M650"@, 3, Status::Offline)
}

/// The card of a device. A device without a name goes by its slot.
pub fn card_from_paired(device: &PairedDevice) -> (card: CardData)
    ensures
        is_card(card, *device),
{
    let name: String = match &device.codename {
        Some(name) => name.clone(),
        None => {
            let mut name: String = "Slot ".to_string();
            let number: String = decimal_text(device.slot as u64);
            name.append(number.as_str());
            name
        },
    };
    CardData {
        name,
        sub: kind_and_slot_text(device.kind, device.slot),
        status: if device.online {
            Status::Connected
        } else {
            Status::Offline
        },
        battery: device.battery,
    }
}

/// The placeholders that keep the strip visible without a receiver.
pub fn demo_cards() -> (cards: Vec<CardData>)
    ensures
        are_demo_cards(cards@),
{
    let mut cards: Vec<CardData> = Vec::new();
    cards.push(
        CardData {
            name: "MX Master".to_string(),
            sub: kind_and_slot_text(DeviceKind::Mouse, 1),
            status: Status::Connected,
            battery: None,
        },
    );
    cards.push(
        CardData {
            name: "Lift".to_string(),
            sub: kind_and_slot_text(DeviceKind::Mouse, 2),
            status: Status::Connecting,
            battery: None,
        },
    );
    cards.push(
        CardData {
            name: "M650".to_string(),
            sub: kind_and_slot_text(DeviceKind::Mouse, 3),
            status: Status::Offline,
            battery: None,
        },
    );
    cards
}

impl DeviceCarousel {
    /// The strip of all paired devices, or of the placeholders where there are none.
    pub fn new(inventories: &[DeviceInventory]) -> (out: Self)
        ensures
            if paired_devices(inventories@).len() == 0 {
                are_demo_cards(out.cards@)
            } else {
                are_cards(out.cards@, paired_devices(inventories@))
            },
    {
        let n: usize = inventories.len();
        let mut cards: Vec<CardData> = Vec::new();
        let mut i: usize = 0;
        while i < n
            invariant
                i <= n,
                n == inventories@.len(),
                are_cards(cards@, paired_devices(inventories@.take(i as int))),
            decreases n - i,
        {
            let devices: &Vec<PairedDevice> = &inventories[i].paired;
            let m: usize = devices.len();
            let ghost before = paired_devices(inventories@.take(i as int));
            let mut j: usize = 0;
            assert(before + devices@.take(0) =~= before);
            while j < m
                invariant
                    j <= m,
                    m == devices@.len(),
                    are_cards(cards@, before + devices@.take(j as int)),
                decreases m - j,
            {
                cards.push(card_from_paired(&devices[j]));
                assert(before + devices@.take(j as int + 1) =~= (before + devices@.take(
                    j as int,
                )).push(devices@[j as int]));
                j = j + 1;
            }
            assert(devices@.take(m as int) =~= devices@);
            assert(inventories@.take(i as int + 1).drop_last() =~= inventories@.take(i as int));
            i = i + 1;
        }
        assert(inventories@.take(n as int) =~= inventories@);
        if cards.len() == 0 {
            cards = demo_cards();
        }
        DeviceCarousel { cards }
    }

    /// The card that has the ring.
    pub open spec fn selected(self, current: usize) -> int {
        if current < self.cards@.len() {
            current as int
        } else if self.cards@.len() == 0 {
            0
        } else {
            self.cards@.len() - 1
        }
    }

    /// The card that has the ring: that of the selected device, or the last one.
    pub fn selected_card(&self, current: usize) -> (at: usize)
        ensures
            at == self.selected(current),
    {
        let n: usize = self.cards.len();
        if current < n {
            current
        } else if n == 0 {
            0
        } else {
            n - 1
        }
    }
}

/// The words for the battery on a card.
pub fn battery_label(card: &CardData) -> (label: Option<String>)
    ensures
        match (label, card.battery) {
            (Some(text), Some(b)) => text@ == battery_sign(b.status) + percent(b.percentage),
            (None, None) => true,
            _ => false,
        },
{
    match &card.battery {
        Some(b) => Some(format_battery(b)),
        None => None,
    }
}

/// A card as it is drawn.
#[derive(Debug)]
pub struct CardView {
    /// The name.
    pub name: String,
    /// The kind and the slot.
    pub sub: String,
    /// The tone of the dot.
    pub tone: Tone,
    /// The battery.
    pub battery: Option<String>,
    /// Whether the card has the ring.
    pub selected: bool,
}

/// The card at a position as it is drawn. Its click selects the device at that
/// position.
pub fn card_view(idx: usize, card: &CardData, selected: usize) -> (view: CardView)
    ensures
        view.name == card.name,
        view.sub == card.sub,
        view.tone == card.status.tone_of(),
        view.selected == (idx == selected),
        match (view.battery, card.battery) {
            (Some(text), Some(b)) => text@ == battery_sign(b.status) + percent(b.percentage),
            (None, None) => true,
            _ => false,
        },
{
    CardView {
        name: card.name.clone(),
        sub: card.sub.clone(),
        tone: card.status.color(),
        battery: battery_label(card),
        selected: idx == selected,
    }
}

/// There is always a card to have the ring.
pub proof fn a_card_is_always_selected(
    carousel: DeviceCarousel,
    inventories: Seq<DeviceInventory>,
    current: usize,
)
    requires
        if paired_devices(inventories).len() == 0 {
            are_demo_cards(carousel.cards@)
        } else {
            are_cards(carousel.cards@, paired_devices(inventories))
        },
    ensures
        0 <= carousel.selected(current) < carousel.cards@.len(),
{
}

} // verus!

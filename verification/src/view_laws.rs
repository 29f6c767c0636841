//! Laws of what is shown: labels, batteries, cards, the window and the menus.

use vstd::prelude::*;
use vstd::string::*;

use crate::app::{
    accessibility_status, battery_summary, configuration_card, detail_header,
    device_description_list, device_empty_state, device_gallery, device_status_card, footer,
    gallery_card, initial_config, main_window_title, status_badge, AppView, BatterySummary,
    DeviceStatus, EmptyState, GalleryCard, Route, Row, Screen, StatusBadge,
};
use crate::brand::{release_tag_url, DeeplinkCommand};
use crate::cmd::Command;
use crate::config::{Config, ConfigError};
use crate::device::{
    BatteryInfo, BatteryLevel, BatteryStatus, DeviceInventory, DeviceKind, PairedDevice,
};
use crate::device_carousel::{
    battery_label, card_from_paired, card_view, demo_cards, paired_devices, CardData, CardView,
    DeviceCarousel, Status,
};
use crate::device_list_view::{
    online_count, pluralize, receiver_note, render_battery, render_device, render_header,
    render_receiver, DeviceLine, DeviceListView,
};
use crate::device_order::DeviceRoute;
use crate::device_view::{device_view, DeviceView};
use crate::devices::DeviceRecord;
use crate::labels::{
    battery_color, battery_icon, battery_tone, format_battery, kind_and_slot_text, kind_label,
    percent_text, relative_percent, route_label, BatteryGlyph, Tone,
};
use crate::os::{os_version, VersionReply};
use crate::packaging::{bundle_macos, dmg_macos, package_linux, sign_app, Bundle, Step};
use crate::text::{decimal, hex4, trim};
use crate::tray::{gui_is_running, menu, on_click, MenuLine, TrayStep};

verus! {

// ── Labels ──────────────────────────────────────────────────────────────────

/// The word for a kind of device.
pub open spec fn word_for(kind: DeviceKind) -> Seq<char> {
    match kind {
        DeviceKind::Mouse => "Mouse"@,
        DeviceKind::Keyboard => "Keyboard"@,
        DeviceKind::Numpad => "Numpad"@,
        DeviceKind::Presenter => "Presenter"@,
        DeviceKind::Remote => "Remote"@,
        DeviceKind::Trackball => "Trackball"@,
        DeviceKind::Touchpad => "Touchpad"@,
        DeviceKind::Tablet => "Tablet"@,
        DeviceKind::Gamepad => "Gamepad"@,
        DeviceKind::Joystick => "Joystick"@,
        DeviceKind::Headset => "Headset"@,
        DeviceKind::Camera => "Camera"@,
        DeviceKind::Unknown => "Device"@,
    }
}

/// The way to a device in words.
pub open spec fn way_to(route: Option<DeviceRoute>) -> Seq<char> {
    if route is None {
        "Unavailable"@
    } else if route->0 is Bolt {
        "Bolt receiver"@
    } else {
        "Direct connection"@
    }
}

/// Kinds and routes go by their words, and a device in a slot by its kind and the number of
/// the slot.
pub proof fn devices_go_by_their_words(
    kind: DeviceKind,
    slot: u8,
    label: &'static str,
    both: String,
    route: Option<DeviceRoute>,
    way: &'static str,
)
    requires
        call_ensures(kind_label, (kind,), label),
        call_ensures(kind_and_slot_text, (kind, slot), both),
        call_ensures(route_label, (&route,), way),
    ensures
        label@ == word_for(kind),
        both@ == word_for(kind) + " · slot "@ + decimal(slot as nat),
        way@ == way_to(route),
{
}

// ── Batteries ───────────────────────────────────────────────────────────────

/// The sign in front of a charge: a bolt while charging, a check when full, a warning on an
/// error, and none otherwise.
pub open spec fn sign_for(status: BatteryStatus) -> Seq<char> {
    if status == BatteryStatus::Charging || status == BatteryStatus::ChargingSlow {
        "⚡ "@
    } else if status == BatteryStatus::Full {
        "✓ "@
    } else if status == BatteryStatus::Error {
        "⚠ "@
    } else {
        ""@
    }
}

/// A charge is written as its percentage, behind the sign of its status.
pub proof fn charges_are_written_in_percent(b: BatteryInfo, text: String, plain: String)
    requires
        call_ensures(format_battery, (&b,), text),
        call_ensures(percent_text, (b.percentage,), plain),
    ensures
        plain@ == decimal(b.percentage as nat) + "%"@,
        text@ == sign_for(b.status) + plain@,
{
}

/// The battery shows that it charges, is full or failed; otherwise how much is left.
pub proof fn battery_icons_show_the_state(b: BatteryInfo, icon: BatteryGlyph, tone: Tone)
    requires
        call_ensures(battery_icon, (&b,), icon),
        call_ensures(battery_tone, (&b,), tone),
    ensures
        b.status == BatteryStatus::Charging || b.status == BatteryStatus::ChargingSlow <==> icon
            == BatteryGlyph::Charging,
        b.status == BatteryStatus::Charging || b.status == BatteryStatus::ChargingSlow <==> tone
            == Tone::Busy,
        b.status == BatteryStatus::Full ==> icon == BatteryGlyph::Full && tone == Tone::Good,
        b.status == BatteryStatus::Error ==> icon == BatteryGlyph::Warning && tone == Tone::Bad,
        b.status == BatteryStatus::Discharging || b.status == BatteryStatus::Unknown ==> {
            &&& icon == BatteryGlyph::Warning <==> b.level == BatteryLevel::Critical
            &&& icon == BatteryGlyph::Low <==> b.level == BatteryLevel::Low
            &&& icon == BatteryGlyph::Medium <==> b.level == BatteryLevel::Good
            &&& icon == BatteryGlyph::Full <==> b.level == BatteryLevel::Full
            &&& icon == BatteryGlyph::Plain <==> b.level == BatteryLevel::Unknown
            &&& tone == Tone::Bad <==> b.level == BatteryLevel::Critical
            &&& tone == Tone::Waiting <==> b.level == BatteryLevel::Low
            &&& tone == Tone::Good <==> b.level == BatteryLevel::Good || b.level
                == BatteryLevel::Full
            &&& tone == Tone::Muted <==> b.level == BatteryLevel::Unknown
        },
{
}

/// A charge up to twenty is bad, up to fifty doubtful, and above that good; its bar is as
/// long as the charge, but never empty and never longer than full.
pub proof fn charges_are_coloured(percentage: u8, tone: Tone, bar: u8)
    requires
        call_ensures(battery_color, (percentage,), tone),
        call_ensures(relative_percent, (percentage,), bar),
    ensures
        tone == Tone::Bad <==> percentage <= 20,
        tone == Tone::Waiting <==> 20 < percentage <= 50,
        tone == Tone::Good <==> percentage > 50,
        1 <= bar <= 100,
        1 <= percentage <= 100 ==> bar == percentage,
        percentage == 0 ==> bar == 1,
        percentage > 100 ==> bar == 100,
{
}

/// The summary of a battery says its status in words, its charge, and how long and in which
/// tone the bar is.
pub proof fn battery_summaries_say_the_charge(
    b: BatteryInfo,
    summary: BatterySummary,
    tone: Tone,
    bar: u8,
)
    requires
        call_ensures(battery_summary, (&b,), summary),
        call_ensures(battery_color, (b.percentage,), tone),
        call_ensures(relative_percent, (b.percentage,), bar),
    ensures
        summary.charge@ == decimal(b.percentage as nat) + "%"@,
        summary.tone == tone,
        summary.hundredths == bar,
        b.status == BatteryStatus::Charging || b.status == BatteryStatus::ChargingSlow ==>
            summary.status@ == "Charging"@,
        b.status == BatteryStatus::Full ==> summary.status@ == "Full"@,
        b.status == BatteryStatus::Error ==> summary.status@ == "Battery error"@,
        b.status == BatteryStatus::Discharging || b.status == BatteryStatus::Unknown ==>
            summary.status@ == "Battery"@,
{
}

// ── The window ──────────────────────────────────────────────────────────────

/// Who has not granted access is asked for it until the question is put away; then the open
/// device is shown as long as it is the current one, the gallery where there are devices, and
/// otherwise that there are none.
pub proof fn the_window_shows_what_is_there(
    view: &mut AppView,
    granted: bool,
    current: Option<&DeviceRecord>,
    has_device: bool,
    scanning: bool,
    screen: Screen,
)
    requires
        call_ensures(AppView::render, (view, granted, current, has_device, scanning), screen),
    ensures
        screen == Screen::AccessibilityGate <==> !granted && !old(view).accessibility_dismissed,
        screen == Screen::Detail ==> current is Some && (old(view).route
            matches Route::Device { config_key } && config_key@ == current->0.config_key@),
        granted || old(view).accessibility_dismissed ==> {
            &&& old(view).route is Home || current is None ==> screen != Screen::Detail
            &&& old(view).route matches Route::Device { config_key } ==> (current matches Some(r)
                ==> (config_key@ == r.config_key@ ==> screen == Screen::Detail))
            &&& screen != Screen::Detail ==> screen == if has_device {
                Screen::Gallery
            } else {
                Screen::Empty { scanning }
            }
        },
        screen is Gallery || screen is Empty ==> final(view).route is Home,
        screen is AccessibilityGate || screen is Detail ==> final(view).route == old(view).route,
        final(view).accessibility_dismissed == old(view).accessibility_dismissed,
        final(view).device_details_open == old(view).device_details_open,
        final(view).configuration_open == old(view).configuration_open,
{
}

/// Opening a device goes to it and selects the first record with its key; going home leaves
/// it.
pub proof fn opening_a_device_selects_it(
    view: &mut AppView,
    key: String,
    records: &[DeviceRecord],
    select: Option<usize>,
    leaving: &mut AppView,
)
    requires
        call_ensures(AppView::open_device, (view, key, records), select),
        call_ensures(AppView::go_home, (leaving,), ()),
    ensures
        final(view).route == (Route::Device { config_key: key }),
        select matches Some(at) ==> at < records@.len() && records@[at as int].config_key@ == key@,
        select matches Some(at) ==> forall|j: int|
            0 <= j < at ==> (#[trigger] records@[j]).config_key@ != key@,
        select is None ==> forall|j: int|
            0 <= j < records@.len() ==> (#[trigger] records@[j]).config_key@ != key@,
        final(leaving).route is Home,
        final(leaving).configuration_open == old(leaving).configuration_open,
        final(leaving).device_details_open == old(leaving).device_details_open,
{
}

/// Panels fold and unfold one at a time, and a question that was put away stays away. A new
/// window is at home with both panels unfolded and the question open.
pub proof fn panels_fold_one_at_a_time(
    details: &mut AppView,
    configuration: &mut AppView,
    dismissing: &mut AppView,
    fresh: AppView,
)
    requires
        call_ensures(AppView::toggle_device_details, (details,), ()),
        call_ensures(AppView::toggle_configuration, (configuration,), ()),
        call_ensures(AppView::dismiss_accessibility, (dismissing,), ()),
        call_ensures(AppView::new, (), fresh),
    ensures
        final(details).device_details_open != old(details).device_details_open,
        final(details).configuration_open == old(details).configuration_open,
        final(details).route == old(details).route,
        final(configuration).configuration_open != old(configuration).configuration_open,
        final(configuration).device_details_open == old(configuration).device_details_open,
        final(configuration).route == old(configuration).route,
        final(dismissing).accessibility_dismissed,
        final(dismissing).route == old(dismissing).route,
        fresh.route is Home && !fresh.accessibility_dismissed && fresh.device_details_open
            && fresh.configuration_open,
{
}

/// The title names the device whose page is open, and the page is headed by its name.
pub proof fn titles_name_the_open_device(
    screen: Screen,
    current: Option<&DeviceRecord>,
    title: String,
    heading: (String, Option<StatusBadge>),
)
    requires
        call_ensures(main_window_title, (screen, current), title),
        call_ensures(detail_header, (current,), heading),
    ensures
        screen is Detail ==> (current matches Some(r) ==> title@ == "OpenLogi - "@
            + r.display_name@),
        !(screen is Detail) || current is None ==> title@ == "OpenLogi"@,
        current matches Some(r) ==> heading.0@ == r.display_name@ && heading.1 == Some(
            if r.online {
                StatusBadge::Connected
            } else {
                StatusBadge::Offline
            },
        ),
        current is None ==> heading.0@ == "Device"@ && heading.1 is None,
{
}

/// A device that is there is marked as connected, in the good tone; any other as offline.
pub proof fn badges_tell_who_is_there(
    online: bool,
    badge: StatusBadge,
    label: &'static str,
    tone: Tone,
)
    requires
        call_ensures(status_badge, (online,), badge),
        call_ensures(StatusBadge::label, (badge,), label),
        call_ensures(StatusBadge::tone, (badge,), tone),
    ensures
        online ==> label@ == "Connected"@ && tone == Tone::Good && badge
            == StatusBadge::Connected,
        !online ==> label@ == "Offline"@ && tone == Tone::Muted && badge == StatusBadge::Offline,
{
}

/// Without devices the window says whether it still looks for them.
pub proof fn empty_windows_say_so(scanning: bool, state: EmptyState)
    requires
        call_ensures(device_empty_state, (scanning,), state),
    ensures
        scanning ==> state.heading@ == "Scanning for devices…"@,
        !scanning ==> state.heading@ == "No devices connected"@,
        state.button@ == "Add Device"@,
{
}

/// A configuration that could be loaded is the one that the application starts with.
pub proof fn loaded_configurations_are_used(
    loaded: Result<Config, ConfigError>,
    config: Config,
    granted: bool,
    status: (&'static str, bool),
    version: &str,
    text: String,
)
    requires
        call_ensures(initial_config, (loaded,), config),
        call_ensures(accessibility_status, (granted,), status),
        call_ensures(footer, (version,), text),
    ensures
        loaded matches Ok(stored) ==> config == stored,
        loaded is Err ==> config.schema_version == 1 && config.devices.rows().len() == 0,
        granted ==> status.0@ == "Accessibility granted"@ && !status.1,
        !granted ==> status.0@ == "Accessibility not granted · click to grant"@ && status.1,
        text@ == "v"@ + version@,
{
}

/// The glyph of a battery.
pub open spec fn glyph_for(b: BatteryInfo) -> BatteryGlyph {
    if b.status == BatteryStatus::Charging || b.status == BatteryStatus::ChargingSlow {
        BatteryGlyph::Charging
    } else if b.status == BatteryStatus::Full {
        BatteryGlyph::Full
    } else if b.status == BatteryStatus::Error || b.level == BatteryLevel::Critical {
        BatteryGlyph::Warning
    } else if b.level == BatteryLevel::Low {
        BatteryGlyph::Low
    } else if b.level == BatteryLevel::Good {
        BatteryGlyph::Medium
    } else if b.level == BatteryLevel::Full {
        BatteryGlyph::Full
    } else {
        BatteryGlyph::Plain
    }
}

/// `card` shows `record`: its key, name, place, presence and battery, marked where it is the
/// active one.
pub open spec fn shows_record(
    card: GalleryCard,
    record: DeviceRecord,
    active_key: Option<&str>,
) -> bool {
    &&& card.config_key == record.config_key
    &&& card.name == record.display_name
    &&& card.sub@ == word_for(record.kind) + " · slot "@ + decimal(record.slot as nat)
    &&& card.badge == StatusBadge::Connected <==> record.online
    &&& card.active <==> active_key is Some && active_key->0@ == record.config_key@
    &&& card.battery is Some <==> record.battery is Some
    &&& card.battery matches Some(shown) ==> shown.0 == glyph_for(record.battery->0) && shown.1@
        == decimal(record.battery->0.percentage as nat) + "%"@
}

/// The gallery shows every record once, in order, and marks the active one.
pub proof fn the_gallery_shows_every_record(
    records: &[DeviceRecord],
    active_key: Option<&str>,
    cards: Vec<GalleryCard>,
    i: int,
    record: DeviceRecord,
    card: GalleryCard,
)
    requires
        call_ensures(device_gallery, (records, active_key), cards),
        call_ensures(gallery_card, (&record, active_key), card),
        0 <= i < records@.len(),
    ensures
        cards@.len() == records@.len(),
        shows_record(cards@[i], records@[i], active_key),
        shows_record(card, record, active_key),
{
    assert(crate::app::is_gallery_card(
        cards@[i],
        records@[i],
        crate::text::optional_view(active_key),
    ));
}

/// The details of a device say how it is connected, in which slot, under which key it is
/// remembered and, where it is known, its serial number.
pub open spec fn details_of(rows: Seq<Row>, record: DeviceRecord) -> bool {
    &&& rows.len() == if record.serial_number is Some {
        4int
    } else {
        3
    }
    &&& rows[0].label@ == "Connection"@ && rows[0].value@ == way_to(record.route)
    &&& rows[1].label@ == "Slot"@ && rows[1].value@ == decimal(record.slot as nat)
    &&& rows[2].label@ == "Device key"@ && rows[2].value@ == record.config_key@
    &&& record.serial_number matches Some(serial) ==> rows[3].label@ == "Serial"@ && rows[3].value@
        == serial@
}

/// The side panel tells of the current device, and of none without one.
pub proof fn the_panel_tells_of_the_device(
    record: DeviceRecord,
    rows: Vec<Row>,
    current: Option<&DeviceRecord>,
    status: Option<DeviceStatus>,
)
    requires
        call_ensures(device_description_list, (&record,), rows),
        call_ensures(device_status_card, (current,), status),
    ensures
        details_of(rows@, record),
        status is Some <==> current is Some,
        status matches Some(s) ==> {
            let r = *current->0;
            &&& s.name@ == r.display_name@
            &&& s.kind@ == word_for(r.kind)
            &&& s.badge == StatusBadge::Connected <==> r.online
            &&& s.battery is Some <==> r.battery is Some
            &&& s.battery matches Some(shown) ==> shown.charge@ == decimal(
                r.battery->0.percentage as nat,
            ) + "%"@
            &&& details_of(s.details@, r)
        },
{
}

/// The configuration panel counts what is bound, and names the profile in force.
pub proof fn the_panel_counts_what_is_bound(
    bundle: Option<&str>,
    bindings: usize,
    gestures: usize,
    presets: usize,
    rows: Vec<Row>,
)
    requires
        call_ensures(configuration_card, (bundle, bindings, gestures, presets), rows),
    ensures
        rows@.len() == 4,
        rows@[0].label@ == "Active profile"@,
        bundle matches Some(name) ==> rows@[0].value@ == name@,
        bundle is None ==> rows@[0].value@ == "Default profile"@,
        rows@[1].label@ == "Button bindings"@ && rows@[1].value@ == decimal(bindings as nat),
        rows@[2].label@ == "Gesture bindings"@ && rows@[2].value@ == decimal(gestures as nat),
        rows@[3].label@ == "DPI presets"@ && rows@[3].value@ == decimal(presets as nat),
{
}

/// The page of a device is headed by its name; a camera has a preview, and every other
/// device a note that it cannot be configured yet.
pub proof fn pages_fit_their_device(record: DeviceRecord, view: DeviceView)
    requires
        call_ensures(device_view, (&record,), view),
    ensures
        view.title@ == record.display_name@,
        view.preview <==> record.kind == DeviceKind::Camera,
        view.note is None <==> view.preview,
        view.note matches Some(note) ==> note@
            == "This device is detected, but configuration for it isn't available yet."@,
        view.preview ==> view.subtitle@ == "Logitech webcam · USB Video Class"@,
        !view.preview && record.online ==> view.subtitle@ == "Connected"@,
        !view.preview && !record.online ==> view.subtitle@ == "Offline"@,
{
}

// ── The carousel ────────────────────────────────────────────────────────────

/// `card` shows `device`: its name, or its slot where it has none, its kind, whether it is
/// there, and its battery.
pub open spec fn shows_device(card: CardData, device: PairedDevice) -> bool {
    &&& device.codename matches Some(name) ==> card.name@ == name@
    &&& device.codename is None ==> card.name@ == "Slot "@ + decimal(device.slot as nat)
    &&& card.sub@ == word_for(device.kind) + " · slot "@ + decimal(device.slot as nat)
    &&& card.status == Status::Connected <==> device.online
    &&& card.status == Status::Offline <==> !device.online
    &&& card.battery == device.battery
}

/// Where device `k` of inventory `i` stands among all of them.
pub open spec fn place_among(inventories: Seq<DeviceInventory>, i: int, k: int) -> int
    decreases i,
{
    if i <= 0 {
        k
    } else {
        place_among(inventories, i - 1, k) + inventories[i - 1].paired@.len()
    }
}

proof fn lemma_paired(inventories: Seq<DeviceInventory>, i: int, k: int)
    requires
        0 <= i < inventories.len(),
        0 <= k < inventories[i].paired@.len(),
    ensures
        0 <= place_among(inventories, i, k) < paired_devices(inventories).len(),
        paired_devices(inventories)[place_among(inventories, i, k)] == inventories[i].paired@[k],
    decreases inventories.len(),
{
    let front = inventories.drop_last();
    if i < front.len() {
        assert(front[i] == inventories[i]);
        lemma_paired(front, i, k);
        lemma_same_place(front, inventories, i, k);
    } else {
        lemma_first_of(inventories, i, k);
        assert(front =~= inventories.take(i));
    }
}

proof fn lemma_same_place(a: Seq<DeviceInventory>, b: Seq<DeviceInventory>, i: int, k: int)
    requires
        i <= a.len(),
        i <= b.len(),
        forall|n: int| 0 <= n < i ==> a[n] == b[n],
    ensures
        place_among(a, i, k) == place_among(b, i, k),
    decreases i,
{
    if i > 0 {
        lemma_same_place(a, b, i - 1, k);
    }
}

proof fn lemma_first_of(inventories: Seq<DeviceInventory>, i: int, k: int)
    requires
        0 <= i <= inventories.len(),
    ensures
        place_among(inventories, i, k) == paired_devices(inventories.take(i)).len() + k,
    decreases i,
{
    if i > 0 {
        lemma_first_of(inventories, i - 1, k);
        assert(inventories.take(i).drop_last() =~= inventories.take(i - 1));
        assert(inventories.take(i).last() == inventories[i - 1]);
    }
}

/// The carousel has a card for every paired device, receiver by receiver and in the order in
/// which each lists them.
pub proof fn the_carousel_shows_every_device(
    inventories: &[DeviceInventory],
    carousel: DeviceCarousel,
    i: int,
    k: int,
)
    requires
        call_ensures(DeviceCarousel::new, (inventories,), carousel),
        0 <= i < inventories@.len(),
        0 <= k < inventories@[i].paired@.len(),
    ensures
        0 <= place_among(inventories@, i, k) < carousel.cards@.len(),
        shows_device(
            carousel.cards@[place_among(inventories@, i, k)],
            inventories@[i].paired@[k],
        ),
{
    lemma_paired(inventories@, i, k);
    assert(crate::device_carousel::is_card(
        carousel.cards@[place_among(inventories@, i, k)],
        paired_devices(inventories@)[place_among(inventories@, i, k)],
    ));
}

/// Without any device the carousel shows three mice for show: one connected, one connecting,
/// one offline.
pub proof fn empty_carousels_show_a_demo(
    inventories: &[DeviceInventory],
    carousel: DeviceCarousel,
    demo: Vec<CardData>,
)
    requires
        call_ensures(DeviceCarousel::new, (inventories,), carousel),
        call_ensures(demo_cards, (), demo),
        forall|i: int|
            0 <= i < inventories@.len() ==> (#[trigger] inventories@[i]).paired@.len() == 0,
    ensures
        is_demo(carousel.cards@),
        is_demo(demo@),
{
    lemma_none_paired(inventories@);
}

/// The three cards for show.
pub open spec fn is_demo(cards: Seq<CardData>) -> bool {
    &&& cards.len() == 3
    &&& cards[0].name@ == "MX Master"@ && cards[0].status == Status::Connected
    &&& cards[1].name@ == "Lift"@ && cards[1].status == Status::Connecting
    &&& cards[2].name@ == "M650"@ && cards[2].status == Status::Offline
    &&& cards[0].sub@ == "Mouse"@ + " · slot "@ + decimal(1)
    &&& cards[1].sub@ == "Mouse"@ + " · slot "@ + decimal(2)
    &&& cards[2].sub@ == "Mouse"@ + " · slot "@ + decimal(3)
    &&& cards[0].battery is None && cards[1].battery is None && cards[2].battery is None
}

proof fn lemma_none_paired(inventories: Seq<DeviceInventory>)
    requires
        forall|i: int| 0 <= i < inventories.len()
            ==> (#[trigger] inventories[i]).paired@.len() == 0,
    ensures
        paired_devices(inventories).len() == 0,
    decreases inventories.len(),
{
    if inventories.len() > 0 {
        let front = inventories.drop_last();
        assert(forall|i: int| 0 <= i < front.len() ==> front[i] == inventories[i]);
        lemma_none_paired(front);
        assert(inventories[inventories.len() - 1].paired@.len() == 0);
    }
}

/// The selected card is the one that was chosen, or the last where there are fewer.
pub proof fn selection_stays_within_the_cards(
    carousel: DeviceCarousel,
    current: usize,
    at: usize,
)
    requires
        call_ensures(DeviceCarousel::selected_card, (&carousel, current), at),
    ensures
        current < carousel.cards@.len() ==> at == current,
        current >= carousel.cards@.len() && carousel.cards@.len() > 0 ==> at
            == carousel.cards@.len() - 1,
        carousel.cards@.len() == 0 ==> at == 0,
{
}

/// A card is drawn with its own words, in the tone of its status, with its charge, and as
/// selected exactly where the selection is.
pub proof fn cards_are_drawn_as_they_are(
    at: usize,
    card: CardData,
    selected: usize,
    view: CardView,
    device: PairedDevice,
    made: CardData,
    label: Option<String>,
)
    requires
        call_ensures(card_view, (at, &card, selected), view),
        call_ensures(card_from_paired, (&device,), made),
        call_ensures(battery_label, (&card,), label),
    ensures
        shows_device(made, device),
        view.name@ == card.name@,
        view.sub@ == card.sub@,
        view.selected <==> at == selected,
        card.status == Status::Connected <==> view.tone == Tone::Good,
        card.status == Status::Connecting <==> view.tone == Tone::Waiting,
        card.status == Status::Offline <==> view.tone == Tone::Muted,
        view.battery is Some <==> card.battery is Some,
        view.battery matches Some(text) ==> text@ == sign_for(card.battery->0.status) + (decimal(
            card.battery->0.percentage as nat,
        ) + "%"@),
        label is Some <==> card.battery is Some,
        label matches Some(text) ==> text@ == view.battery->0@,
{
}

// ── The list of receivers ───────────────────────────────────────────────────

/// The header counts the devices that are there, all devices and the receivers, one of each
/// in the singular.
pub proof fn the_header_counts(receivers: usize, devices: usize, online: usize, text: String)
    requires
        call_ensures(render_header, (receivers, devices, online), text),
    ensures
        receivers == 0 ==> text@ == "No receivers detected"@,
        receivers > 0 ==> text@ == decimal(online as nat) + "/"@ + decimal(devices as nat) + " "@
            + (if devices == 1 {
            "device"@
        } else {
            "devices"@
        }) + " online on "@ + decimal(receivers as nat) + " "@ + (if receivers == 1 {
            "receiver"@
        } else {
            "receivers"@
        }),
{
}

/// One is singular; none and many are plural.
pub proof fn one_is_singular(
    count: usize,
    singular: &'static str,
    plural: &'static str,
    word: &'static str,
)
    requires
        call_ensures(pluralize, (count, singular, plural), word),
    ensures
        count == 1 ==> word@ == singular@,
        count != 1 ==> word@ == plural@,
{
}

/// One more device adds to those that are there exactly when it is there.
pub proof fn online_devices_are_counted(devices: Seq<PairedDevice>, device: PairedDevice)
    ensures
        online_count(Seq::empty()) == 0,
        device.online ==> online_count(devices.push(device)) == online_count(devices) + 1,
        !device.online ==> online_count(devices.push(device)) == online_count(devices),
{
    assert(devices.push(device).drop_last() =~= devices);
}

/// The header of the list counts over all receivers; without one a note says what to do.
pub proof fn the_list_is_headed_by_its_counts(
    view: DeviceListView,
    text: String,
    note: Option<crate::device_list_view::EmptyState>,
)
    requires
        paired_devices(view.inventories@).len() <= usize::MAX,
        call_ensures(DeviceListView::header, (&view,), text),
        call_ensures(DeviceListView::note, (&view,), note),
    ensures
        note is Some <==> view.inventories@.len() == 0,
        view.inventories@.len() == 0 ==> text@ == "No receivers detected"@,
        view.inventories@.len() > 0 ==> text@ == decimal(
            online_count(paired_devices(view.inventories@)),
        ) + "/"@ + decimal(paired_devices(view.inventories@).len()) + " "@ + (if paired_devices(
            view.inventories@,
        ).len() == 1 {
            "device"@
        } else {
            "devices"@
        }) + " online on "@ + decimal(view.inventories@.len()) + " "@ + (
        if view.inventories@.len() == 1 {
            "receiver"@
        } else {
            "receivers"@
        }),
        note matches Some(n) ==> n.heading@ == "No Logitech HID++ receivers found."@ && n.advice@
            == "Quit Logi Options+ if it is running, replug the receiver, and reopen."@,
{
}

/// A receiver is named by what tells it apart and by its numbers, and says when nothing is
/// paired with it.
pub proof fn receivers_are_named(
    inventory: DeviceInventory,
    text: String,
    note: Option<&'static str>,
)
    requires
        call_ensures(render_receiver, (&inventory,), text),
        call_ensures(receiver_note, (&inventory,), note),
    ensures
        inventory.receiver.unique_id matches Some(id) ==> text@ == id@ + "  ·  vid="@ + hex4(
            inventory.receiver.vendor_id as nat,
        ) + "  pid="@ + hex4(inventory.receiver.product_id as nat),
        inventory.receiver.unique_id is None ==> text@ == "—"@ + "  ·  vid="@ + hex4(
            inventory.receiver.vendor_id as nat,
        ) + "  pid="@ + hex4(inventory.receiver.product_id as nat),
        note is Some <==> inventory.paired@.len() == 0,
        note matches Some(text) ==> text@ == "No paired devices currently online."@,
{
}

/// A line of the list shows whether the device is there, its name, its place and its
/// battery.
pub proof fn lines_show_their_device(
    device: PairedDevice,
    line: DeviceLine,
    cell: (String, Tone),
    tone: Tone,
)
    requires
        call_ensures(render_device, (&device,), line),
        call_ensures(render_battery, (&device.battery,), cell),
        device.battery matches Some(b) ==> call_ensures(battery_tone, (&b,), tone),
    ensures
        device.online ==> line.dot@ == "●"@ && line.dot_tone == Tone::Good,
        !device.online ==> line.dot@ == "○"@ && line.dot_tone == Tone::Muted,
        device.codename matches Some(name) ==> line.name@ == name@,
        device.codename is None ==> line.name@ == "Unknown device"@,
        device.wpid matches Some(wpid) ==> line.meta@ == word_for(device.kind) + "  ·  slot "@
            + decimal(device.slot as nat) + "  ·  "@ + ("wpid="@ + hex4(wpid as nat)),
        device.wpid is None ==> line.meta@ == word_for(device.kind) + "  ·  slot "@ + decimal(
            device.slot as nat,
        ) + "  ·  "@ + "wpid=?"@,
        line.battery@ == cell.0@ && line.battery_tone == cell.1,
        device.battery matches Some(b) ==> cell.0@ == sign_for(b.status) + (decimal(
            b.percentage as nat,
        ) + "%"@) && cell.1 == tone,
        device.battery is None ==> cell.0@ == "—"@ && cell.1 == Tone::Muted,
{
}

// ── The menu and its commands ───────────────────────────────────────────────

/// The line offers this command in these words under this key.
pub open spec fn offers(
    line: MenuLine,
    words: Seq<char>,
    shortcut: Seq<char>,
    action: DeeplinkCommand,
) -> bool {
    line matches MenuLine::Entry { title, key, command } && title@ == words && key@ == shortcut
        && command == action
}

/// The menu offers every command once, the window first and quitting last.
pub proof fn the_menu_offers_every_command(lines: Vec<MenuLine>)
    requires
        call_ensures(menu, (), lines),
    ensures
        lines@.len() == 7,
        offers(lines@[0], "Show Main Window"@, "m"@, DeeplinkCommand::Show),
        lines@[1] is Separator,
        offers(lines@[2], "Settings…"@, ","@, DeeplinkCommand::OpenSettings),
        offers(lines@[3], "About OpenLogi"@, ""@, DeeplinkCommand::OpenAbout),
        offers(lines@[4], "Check for Updates…"@, "u"@, DeeplinkCommand::CheckForUpdates),
        lines@[5] is Separator,
        offers(lines@[6], "Quit OpenLogi"@, "q"@, DeeplinkCommand::Quit),
{
}

/// Every command but quitting opens the window on it. Quitting leaves, after telling a window
/// that is open.
pub proof fn clicks_do_what_they_say(
    command: DeeplinkCommand,
    running: bool,
    steps: Vec<TrayStep>,
    released: usize,
    development: usize,
    there: bool,
)
    requires
        call_ensures(on_click, (command, running), steps),
        call_ensures(gui_is_running, (released, development), there),
    ensures
        command != DeeplinkCommand::Quit ==> steps@ == seq![TrayStep::Open(command)],
        command == DeeplinkCommand::Quit && running ==> steps@ == seq![
            TrayStep::Deliver(DeeplinkCommand::Quit),
            TrayStep::Exit,
        ],
        command == DeeplinkCommand::Quit && !running ==> steps@ == seq![TrayStep::Exit],
        there <==> released > 0 || development > 0,
{
}

/// A command's address is the scheme and its name, and reading either gives the command
/// back.
pub proof fn commands_are_read_by_name_and_address(
    command: DeeplinkCommand,
    name: &'static str,
    url: String,
    named: Option<DeeplinkCommand>,
    address: &str,
    read: Option<DeeplinkCommand>,
)
    requires
        call_ensures(DeeplinkCommand::as_name, (command,), name),
        call_ensures(DeeplinkCommand::to_url, (command,), url),
        call_ensures(DeeplinkCommand::from_name, (name,), named),
        address@ == url@,
        call_ensures(DeeplinkCommand::parse_url, (address,), read),
    ensures
        named == Some(command),
        read == Some(command),
        url@ == "openlogi://"@ + name@,
        command == DeeplinkCommand::Show ==> name@ == "show"@,
        command == DeeplinkCommand::OpenSettings ==> name@ == "open-settings"@,
        command == DeeplinkCommand::OpenAbout ==> name@ == "open-about"@,
        command == DeeplinkCommand::CheckForUpdates ==> name@ == "check-for-updates"@,
        command == DeeplinkCommand::Quit ==> name@ == "quit"@,
{
    crate::brand::addresses_are_read_back(command, Seq::empty());
    reveal_strlit("openlogi");
    reveal_strlit("://");
    reveal_strlit("openlogi://");
    assert(command.url_text() + Seq::<char>::empty() =~= command.url_text());
    assert(url@ =~= "openlogi://"@ + name@);
    reveal_strlit("show");
    reveal_strlit("open-settings");
    reveal_strlit("open-about");
    reveal_strlit("check-for-updates");
    reveal_strlit("quit");
    assert("show"@.len() == 4 && "show"@[0] == 's');
    assert("quit"@.len() == 4 && "quit"@[0] == 'q');
    assert("open-settings"@.len() == 13);
    assert("open-about"@.len() == 10);
    assert("check-for-updates"@.len() == 17);
}

/// An address of another scheme is no command.
pub proof fn other_schemes_are_no_commands(url: &str, command: Option<DeeplinkCommand>)
    requires
        call_ensures(DeeplinkCommand::parse_url, (url,), command),
        command is Some,
    ensures
        url@.len() >= 11,
        url@.take(11) == "openlogi://"@,
{
    reveal_strlit("openlogi");
    reveal_strlit("://");
    reveal_strlit("openlogi://");
    let rest = url@.skip(8);
    assert(url@.subrange(0, 8) == "openlogi"@);
    assert(rest.subrange(0, 3) == "://"@);
    assert(url@.take(11) =~= url@.subrange(0, 8) + rest.subrange(0, 3));
    assert(url@.take(11) =~= "openlogi://"@);
}

/// The page of a release is the one of its tag.
pub proof fn releases_have_a_page(version: &str, url: String)
    requires
        call_ensures(release_tag_url, (version,), url),
    ensures
        url@ == "https://github.com/AprilNEA/OpenLogi/releases/tag/v"@ + version@,
{
    reveal_strlit("https://github.com/AprilNEA/OpenLogi");
    reveal_strlit("/releases/tag/v");
    reveal_strlit("https://github.com/AprilNEA/OpenLogi/releases/tag/v");
    assert("https://github.com/AprilNEA/OpenLogi"@ + "/releases/tag/v"@
        =~= "https://github.com/AprilNEA/OpenLogi/releases/tag/v"@);
}

/// Listing and diagnosing talk to devices and wait for them; the others do not.
pub proof fn device_commands_wait(command: Command, waits: bool)
    requires
        call_ensures(Command::waits, (command,), waits),
    ensures
        waits <==> command is List || command is Diag,
{
}

/// The version of the system is what its tool said, without the blanks around it; a tool
/// that failed or said nothing tells none.
pub proof fn system_versions_are_as_told(
    success: bool,
    text: Option<String>,
    version: Option<String>,
    unasked: Option<String>,
)
    requires
        call_ensures(os_version, (&Some(VersionReply { success, text }),), version),
        call_ensures(os_version, (&None::<VersionReply>,), unasked),
    ensures
        version is Some <==> success && text is Some && trim(text->0@).len() > 0,
        version matches Some(v) ==> v@ == trim(text->0@),
        unasked is None,
{
}

// ── Packages ────────────────────────────────────────────────────────────────

/// What is inside is signed before what holds it, and everything signed is verified after
/// all signing.
pub proof fn signatures_go_from_inside_out(helper: bool, steps: Vec<Step>)
    requires
        call_ensures(sign_app, (helper,), steps),
    ensures
        helper ==> steps@ == seq![
            Step::SignRuntime(Bundle::Helper),
            Step::SignRuntime(Bundle::App),
            Step::Verify(Bundle::App),
            Step::Verify(Bundle::Helper),
        ],
        !helper ==> steps@ == seq![Step::SignRuntime(Bundle::App), Step::Verify(Bundle::App)],
{
}

/// A bundle is made from the icon and the assets, with a bundler that is there by then, and
/// the helper goes into an application that was made.
pub proof fn bundles_are_made_in_order(
    with_assets: bool,
    assets: bool,
    bundler: bool,
    steps: Vec<Step>,
)
    requires
        call_ensures(bundle_macos, (with_assets, assets, bundler), steps),
    ensures
        steps@[0] == Step::Icon,
        with_assets ==> steps@[1] == Step::SyncAssets,
        !with_assets && assets ==> steps@[1] == Step::RemoveAssets && steps@[2]
            == Step::CreateAssets,
        !with_assets && !assets ==> steps@[1] == Step::CreateAssets,
        !bundler ==> steps@[steps@.len() - 4] == Step::InstallBundler,
        steps@[steps@.len() - 3] == Step::Bundle,
        steps@[steps@.len() - 2] == Step::Ensure(Bundle::App),
        steps@[steps@.len() - 1] == Step::EmbedHelper,
        steps@.len() == 4 + (if !with_assets && assets {
            2int
        } else {
            1
        }) + (if bundler {
            0int
        } else {
            1
        }),
{
}

/// A disk image is made of an application that is there, in place of an older image, and
/// signed after it was made.
pub proof fn disk_images_are_made_in_order(older: bool, signed: bool, steps: Vec<Step>)
    requires
        call_ensures(dmg_macos, (older, signed), steps),
    ensures
        steps@[0] == Step::Ensure(Bundle::App),
        steps@[1] == Step::EnsureImager,
        steps@[2] == Step::FetchBackground,
        older ==> steps@[3] == Step::RemoveDmg && steps@[4] == Step::CreateDmg,
        !older ==> steps@[3] == Step::CreateDmg,
        signed ==> steps@[steps@.len() - 2] == Step::Sign(Bundle::Dmg) && steps@[steps@.len() - 1]
            == Step::Verify(Bundle::Dmg),
        steps@.len() == 4 + (if older {
            1int
        } else {
            0
        }) + (if signed {
            2int
        } else {
            0
        }),
{
}

/// Both Linux packages are made of programs that are there, built first unless they are
/// taken as they are.
pub proof fn linux_packages_are_made_in_order(prebuilt: bool, steps: Vec<Step>)
    requires
        call_ensures(package_linux, (prebuilt,), steps),
    ensures
        prebuilt ==> steps@ == seq![
            Step::EnsurePrograms,
            Step::EnsurePackager,
            Step::PackageDeb,
            Step::PackageRpm,
        ],
        !prebuilt ==> steps@ == seq![
            Step::BuildPrograms,
            Step::EnsurePrograms,
            Step::EnsurePackager,
            Step::PackageDeb,
            Step::PackageRpm,
        ],
{
}

/// The question for access says what it is for and how to put it away.
pub proof fn the_question_for_access_is_asked(gate: crate::app::AccessibilityGate)
    requires
        call_ensures(crate::app::accessibility_gate, (), gate),
    ensures
        gate.heading@ == "Accessibility permission required"@,
        gate.grant@ == "Open System Settings to grant access"@,
        gate.hint@ == "Takes effect automatically once granted — no restart needed."@,
        gate.skip@ == "Not now (use DPI and other features only)"@,
{
}

/// A status has its tone, and the line below a device's name its words.
pub proof fn states_have_their_tone(
    status: Status,
    tone: Tone,
    record: DeviceRecord,
    line: &'static str,
    view: DeviceView,
    note: crate::device_list_view::EmptyState,
)
    requires
        call_ensures(Status::color, (status,), tone),
        call_ensures(crate::device_view::subtitle, (&record,), line),
        call_ensures(device_view, (&record,), view),
        call_ensures(crate::device_list_view::empty_state, (), note),
    ensures
        status == Status::Connected <==> tone == Tone::Good,
        status == Status::Connecting <==> tone == Tone::Waiting,
        status == Status::Offline <==> tone == Tone::Muted,
        line@ == view.subtitle@,
        note.heading@ == "No Logitech HID++ receivers found."@,
        note.advice@ == "Quit Logi Options+ if it is running, replug the receiver, and reopen."@,
{
}

/// The addresses and names by which the project is known.
pub proof fn the_project_is_known_by_its_names()
    ensures
        crate::brand::REPO_URL@ == "https://github.com/AprilNEA/OpenLogi"@,
        crate::brand::HELP_URL@ == "https://github.com/AprilNEA/OpenLogi#readme"@,
        crate::brand::RELEASES_URL@ == "https://github.com/AprilNEA/OpenLogi/releases/latest"@,
        DeeplinkCommand::SCHEME@ == "openlogi"@,
        crate::tray::GUI_BUNDLE_ID@ == "org.openlogi.openlogi"@,
        crate::tray::GUI_DEV_BUNDLE_ID@ == "org.openlogi.openlogi.dev"@,
        crate::device_list_view::TITLE@ == "Options−"@,
        crate::pairing::HOLD_SECONDS == 20,
        crate::pairing::RECEIVER_LEASE_TIMEOUT_SECONDS == 5,
        crate::lighting::FRAME_GAP_MILLIS == 8,
        crate::lighting::PER_KEY_LIGHTING_FEATURE == 0x8080,
        crate::lighting::COLOR_LED_EFFECTS_FEATURE == 0x8070,
{
}

/// Nothing but the five names is a command, and an address is one only where its host is such
/// a name: behind the scheme, up to a slash, a question mark or the end.
pub proof fn only_five_names_are_commands(
    name: &str,
    command: Option<DeeplinkCommand>,
    url: &str,
    read: Option<DeeplinkCommand>,
    word: &'static str,
)
    requires
        call_ensures(DeeplinkCommand::from_name, (name,), command),
        call_ensures(DeeplinkCommand::parse_url, (url,), read),
        read matches Some(c) ==> call_ensures(DeeplinkCommand::as_name, (c,), word),
    ensures
        command is Some <==> name@ == "show"@ || name@ == "open-settings"@ || name@
            == "open-about"@ || name@ == "check-for-updates"@ || name@ == "quit"@,
        command == Some(DeeplinkCommand::Show) <==> name@ == "show"@,
        command == Some(DeeplinkCommand::Quit) ==> name@ == "quit"@,
        command == Some(DeeplinkCommand::OpenSettings) ==> name@ == "open-settings"@,
        command == Some(DeeplinkCommand::OpenAbout) ==> name@ == "open-about"@,
        command == Some(DeeplinkCommand::CheckForUpdates) ==> name@ == "check-for-updates"@,
        read is Some ==> {
            let n = 11 + word@.len();
            &&& url@.len() >= n
            &&& url@.take(n as int) == "openlogi://"@ + word@
            &&& url@.len() == n || url@[n as int] == '/' || url@[n as int] == '?'
        },
{
    if read is Some {
        reveal_strlit("openlogi");
        reveal_strlit("://");
        reveal_strlit("openlogi://");
        let rest = url@.skip(8);
        assert(url@.subrange(0, 8) == "openlogi"@);
        assert(rest.subrange(0, 3) == "://"@);
        let host = rest.skip(3);
        lemma_host(host);
        let n = crate::brand::host_len(host) as int;
        assert(host.take(n) == word@);
        assert(url@.take(11 + n) =~= url@.subrange(0, 8) + rest.subrange(0, 3) + host.take(n));
        assert("openlogi"@ + "://"@ =~= "openlogi://"@);
        if n < host.len() {
            assert(url@[11 + n] == host[n]);
        }
    }
}

proof fn lemma_host(s: Seq<char>)
    ensures
        crate::brand::host_len(s) <= s.len(),
        crate::brand::host_len(s) == s.len() || s[crate::brand::host_len(s) as int] == '/' || s[
            crate::brand::host_len(s) as int
        ] == '?',
    decreases s.len(),
{
    if s.len() > 0 && s[0] != '/' && s[0] != '?' {
        lemma_host(s.skip(1));
        let n = crate::brand::host_len(s.skip(1)) as int;
        if n < s.skip(1).len() {
            assert(s.skip(1)[n] == s[n + 1]);
        }
    }
}

} // verus!

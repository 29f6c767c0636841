//! The main window: which screen it shows and what stands on it.

use vstd::prelude::*;
use vstd::string::*;

use crate::config::{Config, ConfigError};
use crate::device::{BatteryInfo, BatteryStatus};
use crate::devices::DeviceRecord;
use crate::labels::{
    bar_hundredths, battery_color, battery_icon, charge_tone, glyph_of, kind_and_slot,
    kind_and_slot_text, kind_label, kind_text, percent, percent_text, relative_percent, route_label,
    route_text, BatteryGlyph, Tone,
};
use crate::text::{decimal, decimal_text, same_optional_text, same_text};

verus! {

/// A place in the window. A device's place is known by the key of the device, not
/// by its position, so that a list that changes cannot put the user before another
/// device's settings.
#[derive(Debug)]
pub enum Route {
    /// The gallery of devices.
    Home,
    /// The settings of one device.
    Device {
        /// The key of the device.
        config_key: String,
    },
}

/// What the window keeps for itself.
#[derive(Debug)]
pub struct AppView {
    /// Where the user is.
    pub route: Route,
    /// Whether the request for access was put off.
    pub accessibility_dismissed: bool,
    /// Whether the details of the device are unfolded.
    pub device_details_open: bool,
    /// Whether the configuration is unfolded.
    pub configuration_open: bool,
}

/// A screen.
#[derive(Debug, Clone, Copy, PartialEq, Eq, Structural)]
pub enum Screen {
    /// The request for access.
    AccessibilityGate,
    /// The settings of the selected device.
    Detail,
    /// The gallery.
    Gallery,
    /// The gallery without devices.
    Empty {
        /// Whether devices are being looked for.
        scanning: bool,
    },
}

/// The key of a record, as characters.
pub open spec fn key_of(record: Option<&DeviceRecord>) -> Option<Seq<char>> {
    match record {
        Some(r) => Some(r.config_key@),
        None => None,
    }
}

/// The record with this key comes first at position `at`.
pub open spec fn first_with_key(records: Seq<DeviceRecord>, key: Seq<char>, at: int) -> bool {
    &&& 0 <= at < records.len()
    &&& records[at].config_key@ == key
    &&& forall|j: int| 0 <= j < at ==> (#[trigger] records[j]).config_key@ != key
}

/// No record has this key.
pub open spec fn lacks_key(records: Seq<DeviceRecord>, key: Seq<char>) -> bool {
    forall|j: int| 0 <= j < records.len() ==> (#[trigger] records[j]).config_key@ != key
}

impl AppView {
    /// The window as it is opened.
    pub fn new() -> (view: Self)
        ensures
            view.route is Home,
            !view.accessibility_dismissed,
            view.device_details_open,
            view.configuration_open,
    {
        AppView {
            route: Route::Home,
            accessibility_dismissed: false,
            device_details_open: true,
            configuration_open: true,
        }
    }

    /// Go to a device's settings. The position of the device that is to be selected
    /// comes back, none where the list no longer holds it.
    pub fn open_device(&mut self, config_key: String, records: &[DeviceRecord]) -> (select: Option<
        usize,
    >)
        ensures
            final(self).route == (Route::Device { config_key }),
            final(self).accessibility_dismissed == old(self).accessibility_dismissed,
            final(self).device_details_open == old(self).device_details_open,
            final(self).configuration_open == old(self).configuration_open,
            match select {
                Some(at) => first_with_key(records@, config_key@, at as int),
                None => lacks_key(records@, config_key@),
            },
    {
        let n: usize = records.len();
        let mut select: Option<usize> = None;
        let mut i: usize = 0;
        while i < n && select.is_none()
            invariant
                i <= n,
                n == records@.len(),
                match select {
                    Some(at) => first_with_key(records@, config_key@, at as int),
                    None => forall|j: int|
                        0 <= j < i ==> (#[trigger] records@[j]).config_key@ != config_key@,
                },
            decreases n - i,
        {
            if same_text(records[i].config_key.as_str(), config_key.as_str()) {
                select = Some(i);
            }
            i = i + 1;
        }
        self.route = Route::Device { config_key };
        select
    }

    /// Go back to the gallery. The selection stays.
    pub fn go_home(&mut self)
        ensures
            final(self).route is Home,
            final(self).accessibility_dismissed == old(self).accessibility_dismissed,
            final(self).device_details_open == old(self).device_details_open,
            final(self).configuration_open == old(self).configuration_open,
    {
        self.route = Route::Home;
    }

    /// Put the request for access off.
    pub fn dismiss_accessibility(&mut self)
        ensures
            final(self).accessibility_dismissed,
            final(self).route == old(self).route,
            final(self).device_details_open == old(self).device_details_open,
            final(self).configuration_open == old(self).configuration_open,
    {
        self.accessibility_dismissed = true;
    }

    /// Fold or unfold the details of the device.
    pub fn toggle_device_details(&mut self)
        ensures
            final(self).device_details_open == !old(self).device_details_open,
            final(self).route == old(self).route,
            final(self).accessibility_dismissed == old(self).accessibility_dismissed,
            final(self).configuration_open == old(self).configuration_open,
    {
        self.device_details_open = !self.device_details_open;
    }

    /// Fold or unfold the configuration.
    pub fn toggle_configuration(&mut self)
        ensures
            final(self).configuration_open == !old(self).configuration_open,
            final(self).route == old(self).route,
            final(self).accessibility_dismissed == old(self).accessibility_dismissed,
            final(self).device_details_open == old(self).device_details_open,
    {
        self.configuration_open = !self.configuration_open;
    }

    /// The device that the route names is the selected one.
    pub open spec fn on_device(self, current: Option<Seq<char>>) -> bool {
        match self.route {
            Route::Home => false,
            Route::Device { config_key } => current == Some(config_key@),
        }
    }

    /// The screen for this state.
    pub open spec fn screen_for(
        self,
        granted: bool,
        current: Option<Seq<char>>,
        has_device: bool,
        scanning: bool,
    ) -> Screen {
        if !granted && !self.accessibility_dismissed {
            Screen::AccessibilityGate
        } else if self.on_device(current) {
            Screen::Detail
        } else if has_device {
            Screen::Gallery
        } else {
            Screen::Empty { scanning }
        }
    }

    /// The screen to draw. The settings of a device are shown only while it is the
    /// selected one; otherwise the window goes back to the gallery, rather than
    /// show another device in its place.
    pub fn render(
        &mut self,
        granted: bool,
        current: Option<&DeviceRecord>,
        has_device: bool,
        scanning: bool,
    ) -> (screen: Screen)
        ensures
            screen == old(self).screen_for(granted, key_of(current), has_device, scanning),
            final(self).route == if screen is AccessibilityGate || screen is Detail {
                old(self).route
            } else {
                Route::Home
            },
            final(self).accessibility_dismissed == old(self).accessibility_dismissed,
            final(self).device_details_open == old(self).device_details_open,
            final(self).configuration_open == old(self).configuration_open,
    {
        if !granted && !self.accessibility_dismissed {
            return Screen::AccessibilityGate;
        }
        let current_key: Option<&str> = match current {
            Some(r) => Some(r.config_key.as_str()),
            None => None,
        };
        let show_device: bool = match &self.route {
            Route::Home => false,
            Route::Device { config_key } => same_optional_text(
                current_key,
                Some(config_key.as_str()),
            ),
        };
        if !show_device {
            self.route = Route::Home;
        }
        if show_device {
            Screen::Detail
        } else if has_device {
            Screen::Gallery
        } else {
            Screen::Empty { scanning }
        }
    }
}

/// Opening a device that becomes the selected one leads to its settings.
pub proof fn opened_devices_are_shown(
    view: AppView,
    config_key: String,
    granted: bool,
    has_device: bool,
    scanning: bool,
)
    requires
        view.route == (Route::Device { config_key }),
        granted || view.accessibility_dismissed,
    ensures
        view.screen_for(granted, Some(config_key@), has_device, scanning) is Detail,
{
}

/// The settings of a device are never shown while another device is selected.
pub proof fn settings_are_those_of_the_selected_device(
    view: AppView,
    config_key: String,
    granted: bool,
    current: Option<Seq<char>>,
    has_device: bool,
    scanning: bool,
)
    requires
        view.route == (Route::Device { config_key }),
        view.screen_for(granted, current, has_device, scanning) is Detail,
    ensures
        current == Some(config_key@),
{
}

// ── Words on the window ─────────────────────────────────────────────────────

/// The title as characters.
pub open spec fn title_text(screen: Screen, current: Option<&DeviceRecord>) -> Seq<char> {
    match (screen, current) {
        (Screen::Detail, Some(r)) => "OpenLogi - "@ + r.display_name@,
        _ => "OpenLogi"@,
    }
}

/// The title of the window: the application, and the device whose settings are
/// shown.
pub fn main_window_title(screen: Screen, current: Option<&DeviceRecord>) -> (title: String)
    ensures
        title@ == title_text(screen, current),
{
    match (screen, current) {
        (Screen::Detail, Some(r)) => {
            let mut title: String = "OpenLogi - ".to_string();
            title.append(r.display_name.as_str());
            title
        },
        _ => "OpenLogi".to_string(),
    }
}

/// The heading over a device's settings.
pub fn detail_header(current: Option<&DeviceRecord>) -> (heading: (String, Option<StatusBadge>))
    ensures
        match current {
            Some(r) => heading.0 == r.display_name && heading.1 == Some(badge_of(r.online)),
            None => heading.0@ == "Device"@ && heading.1 is None,
        },
{
    match current {
        Some(r) => (r.display_name.clone(), Some(status_badge(r.online))),
        None => ("Device".to_string(), None),
    }
}

/// Whether a device is there.
#[derive(Debug, Clone, Copy, PartialEq, Eq, Structural)]
pub enum StatusBadge {
    /// It is.
    Connected,
    /// It is not.
    Offline,
}

/// The badge of a device.
pub open spec fn badge_of(online: bool) -> StatusBadge {
    if online {
        StatusBadge::Connected
    } else {
        StatusBadge::Offline
    }
}

/// The badge of a device.
pub fn status_badge(online: bool) -> (badge: StatusBadge)
    ensures
        badge == badge_of(online),
{
    if online {
        StatusBadge::Connected
    } else {
        StatusBadge::Offline
    }
}

impl StatusBadge {
    /// The words as characters.
    pub open spec fn label_text(self) -> Seq<char> {
        match self {
            StatusBadge::Connected => "Connected"@,
            StatusBadge::Offline => "Offline"@,
        }
    }

    /// The words.
    pub fn label(self) -> (label: &'static str)
        ensures
            label@ == self.label_text(),
    {
        match self {
            StatusBadge::Connected => "Connected",
            StatusBadge::Offline => "Offline",
        }
    }

    /// The tone of the dot, which is also the one that breathes.
    pub fn tone(self) -> (tone: Tone)
        ensures
            tone == if self is Connected {
                Tone::Good
            } else {
                Tone::Muted
            },
    {
        match self {
            StatusBadge::Connected => Tone::Good,
            StatusBadge::Offline => Tone::Muted,
        }
    }
}

/// The gallery without devices.
#[derive(Debug, Clone, Copy)]
pub struct EmptyState {
    /// The heading.
    pub heading: &'static str,
    /// What the user can do.
    pub advice: &'static str,
    /// The button that starts pairing.
    pub button: &'static str,
    /// A warning about a program that takes the devices.
    pub warning: &'static str,
}

/// The gallery without devices, which waits for one to appear.
pub fn device_empty_state(scanning: bool) -> (state: EmptyState)
    ensures
        state.heading@ == if scanning {
            "Scanning for devices…"@
        } else {
            "No devices connected"@
        },
        state.advice@
            == "Plug in or pair a supported Logitech device — it'll show up here automatically. For direct Bluetooth connections, pair in your computer's bluetooth settings."@,
        state.button@ == "Add Device"@,
        state.warning@
            == "Using Logi Options+? Quit it first — both apps compete for HID++ access."@,
{
    EmptyState {
        heading: if scanning {
            "Scanning for devices…"
        } else {
            "No devices connected"
        },
        advice: "Plug in or pair a supported Logitech device — it'll show up here automatically. For direct Bluetooth connections, pair in your computer's bluetooth settings.",
        button: "Add Device",
        warning: "Using Logi Options+? Quit it first — both apps compete for HID++ access.",
    }
}

/// The request for access.
#[derive(Debug, Clone, Copy)]
pub struct AccessibilityGate {
    /// The heading.
    pub heading: &'static str,
    /// What access is for.
    pub reason: &'static str,
    /// The button that leads to the system's settings.
    pub grant: &'static str,
    /// When access takes effect.
    pub hint: &'static str,
    /// The words that put the request off.
    pub skip: &'static str,
}

/// The request for access.
pub fn accessibility_gate() -> (gate: AccessibilityGate)
    ensures
        gate.heading@ == "Accessibility permission required"@,
        gate.reason@
            == "OpenLogi captures mouse buttons (Back / Forward / gesture button) through the system Accessibility permission and runs the actions you bind. Features that talk to the device directly — DPI, SmartShift — are unaffected."@,
        gate.grant@ == "Open System Settings to grant access"@,
        gate.hint@ == "Takes effect automatically once granted — no restart needed."@,
        gate.skip@ == "Not now (use DPI and other features only)"@,
{
    AccessibilityGate {
        heading: "Accessibility permission required",
        reason: "OpenLogi captures mouse buttons (Back / Forward / gesture button) through the system Accessibility permission and runs the actions you bind. Features that talk to the device directly — DPI, SmartShift — are unaffected.",
        grant: "Open System Settings to grant access",
        hint: "Takes effect automatically once granted — no restart needed.",
        skip: "Not now (use DPI and other features only)",
    }
}

/// The configuration that the window starts with: the stored one, or a fresh one
/// where it could not be loaded.
pub fn initial_config(loaded: Result<Config, ConfigError>) -> (config: Config)
    ensures
        match loaded {
            Ok(stored) => config == stored,
            Err(_) => config.is_default(),
        },
{
    match loaded {
        Ok(stored) => stored,
        Err(_) => Config::default(),
    }
}

/// The words in the status bar, as characters.
pub open spec fn access_text(granted: bool) -> Seq<char> {
    if granted {
        "Accessibility granted"@
    } else {
        "Accessibility not granted · click to grant"@
    }
}

/// The words in the status bar and whether a click asks for access.
pub fn accessibility_status(granted: bool) -> (status: (&'static str, bool))
    ensures
        status.0@ == access_text(granted),
        status.1 == !granted,
{
    if granted {
        ("Accessibility granted", false)
    } else {
        ("Accessibility not granted · click to grant", true)
    }
}

/// The version in the status bar.
pub fn footer(version: &str) -> (text: String)
    ensures
        text@ == "v"@ + version@,
{
    let mut text: String = "v".to_string();
    text.append(version);
    text
}

// ── The gallery ─────────────────────────────────────────────────────────────

/// A card in the gallery.
#[derive(Debug)]
pub struct GalleryCard {
    /// The key of the device that a click opens.
    pub config_key: String,
    /// The name.
    pub name: String,
    /// The kind and the slot.
    pub sub: String,
    /// Whether the device is the selected one, which has a ring.
    pub active: bool,
    /// Whether the device is there.
    pub badge: StatusBadge,
    /// The drawing and the charge of its battery.
    pub battery: Option<(BatteryGlyph, String)>,
}

/// `view` is the drawing and the charge of `battery`.
pub open spec fn is_battery_view(
    view: Option<(BatteryGlyph, String)>,
    battery: Option<BatteryInfo>,
) -> bool {
    match (view, battery) {
        (Some(v), Some(b)) => v.0 == glyph_of(b) && v.1@ == percent(b.percentage),
        (None, None) => true,
        _ => false,
    }
}

/// `card` is the card of `record`.
pub open spec fn is_gallery_card(
    card: GalleryCard,
    record: DeviceRecord,
    active_key: Option<Seq<char>>,
) -> bool {
    &&& card.config_key == record.config_key
    &&& card.name == record.display_name
    &&& card.sub@ == kind_and_slot(record.kind, record.slot)
    &&& card.active == (active_key == Some(record.config_key@))
    &&& card.badge == badge_of(record.online)
    &&& is_battery_view(card.battery, record.battery)
}

fn battery_view(battery: &Option<BatteryInfo>) -> (view: Option<(BatteryGlyph, String)>)
    ensures
        is_battery_view(view, *battery),
{
    match battery {
        Some(b) => Some((battery_icon(b), percent_text(b.percentage))),
        None => None,
    }
}

/// The card of a device.
pub fn gallery_card(record: &DeviceRecord, active_key: Option<&str>) -> (card: GalleryCard)
    ensures
        is_gallery_card(card, *record, crate::text::optional_view(active_key)),
{
    GalleryCard {
        config_key: record.config_key.clone(),
        name: record.display_name.clone(),
        sub: kind_and_slot_text(record.kind, record.slot),
        active: same_optional_text(Some(record.config_key.as_str()), active_key),
        badge: status_badge(record.online),
        battery: battery_view(&record.battery),
    }
}

/// The cards of the devices, in their order.
pub fn device_gallery(records: &[DeviceRecord], active_key: Option<&str>) -> (cards: Vec<
    GalleryCard,
>)
    ensures
        cards@.len() == records@.len(),
        forall|i: int|
            0 <= i < records@.len() ==> is_gallery_card(
                #[trigger] cards@[i],
                records@[i],
                crate::text::optional_view(active_key),
            ),
{
    let n: usize = records.len();
    let mut cards: Vec<GalleryCard> = Vec::new();
    let mut i: usize = 0;
    while i < n
        invariant
            i <= n,
            n == records@.len(),
            cards@.len() == i,
            forall|j: int|
                0 <= j < i ==> is_gallery_card(
                    #[trigger] cards@[j],
                    records@[j],
                    crate::text::optional_view(active_key),
                ),
        decreases n - i,
    {
        cards.push(gallery_card(&records[i], active_key));
        i = i + 1;
    }
    cards
}

// ── The side panel ──────────────────────────────────────────────────────────

/// A labelled value.
#[derive(Debug)]
pub struct Row {
    /// The label.
    pub label: &'static str,
    /// The value.
    pub value: String,
}

/// `row` is this label with this value.
pub open spec fn is_row(row: Row, label: Seq<char>, value: Seq<char>) -> bool {
    row.label@ == label && row.value@ == value
}

/// The details of a device: how it is reached, its slot and its key, and its serial
/// number where there is one.
pub fn device_description_list(record: &DeviceRecord) -> (rows: Vec<Row>)
    ensures
        rows@.len() == if record.serial_number is Some {
            4int
        } else {
            3int
        },
        is_row(rows@[0], "Connection"@, route_text(record.route)),
        is_row(rows@[1], "Slot"@, decimal(record.slot as nat)),
        is_row(rows@[2], "Device key"@, record.config_key@),
        record.serial_number matches Some(serial) ==> is_row(rows@[3], "Serial"@, serial@),
{
    let mut rows: Vec<Row> = Vec::new();
    rows.push(Row { label: "Connection", value: route_label(&record.route).to_string() });
    rows.push(Row { label: "Slot", value: decimal_text(record.slot as u64) });
    rows.push(Row { label: "Device key", value: record.config_key.clone() });
    match &record.serial_number {
        Some(serial) => {
            rows.push(Row { label: "Serial", value: serial.clone() });
        },
        None => {},
    }
    rows
}

/// The words for what a battery does, as characters.
pub open spec fn battery_status_text(status: BatteryStatus) -> Seq<char> {
    match status {
        BatteryStatus::Charging => "Charging"@,
        BatteryStatus::ChargingSlow => "Charging"@,
        BatteryStatus::Full => "Full"@,
        BatteryStatus::Error => "Battery error"@,
        BatteryStatus::Discharging => "Battery"@,
        BatteryStatus::Unknown => "Battery"@,
    }
}

/// A battery on the side panel.
#[derive(Debug)]
pub struct BatterySummary {
    /// What the battery does.
    pub status: &'static str,
    /// The charge.
    pub charge: String,
    /// How much of the bar is filled, in hundredths.
    pub hundredths: u8,
    /// The tone of the bar.
    pub tone: Tone,
}

/// A battery on the side panel.
pub fn battery_summary(battery: &BatteryInfo) -> (summary: BatterySummary)
    ensures
        summary.status@ == battery_status_text(battery.status),
        summary.charge@ == percent(battery.percentage),
        summary.hundredths == bar_hundredths(battery.percentage),
        summary.tone == charge_tone(battery.percentage),
{
    let status: &'static str = match battery.status {
        BatteryStatus::Charging => "Charging",
        BatteryStatus::ChargingSlow => "Charging",
        BatteryStatus::Full => "Full",
        BatteryStatus::Error => "Battery error",
        BatteryStatus::Discharging => "Battery",
        BatteryStatus::Unknown => "Battery",
    };
    BatterySummary {
        status,
        charge: percent_text(battery.percentage),
        hundredths: relative_percent(battery.percentage),
        tone: battery_color(battery.percentage),
    }
}

/// What the side panel says of the selected device.
#[derive(Debug)]
pub struct DeviceStatus {
    /// The name.
    pub name: String,
    /// The kind.
    pub kind: &'static str,
    /// Whether the device is there.
    pub badge: StatusBadge,
    /// Its battery.
    pub battery: Option<BatterySummary>,
    /// Its details.
    pub details: Vec<Row>,
}

/// What the side panel says of the selected device; nothing without one.
pub fn device_status_card(current: Option<&DeviceRecord>) -> (status: Option<DeviceStatus>)
    ensures
        status is Some == current is Some,
        status matches Some(s) ==> current matches Some(r) && {
            &&& s.name == r.display_name
            &&& s.kind@ == kind_text(r.kind)
            &&& s.badge == badge_of(r.online)
            &&& s.battery is Some == r.battery is Some
            &&& s.battery matches Some(summary) ==> r.battery matches Some(b)
                && summary.status@ == battery_status_text(b.status)
                && summary.charge@ == percent(b.percentage)
                && summary.hundredths == bar_hundredths(b.percentage)
                && summary.tone == charge_tone(b.percentage)
            &&& s.details@.len() >= 3
            &&& is_row(s.details@[0], "Connection"@, route_text(r.route))
            &&& is_row(s.details@[1], "Slot"@, decimal(r.slot as nat))
            &&& is_row(s.details@[2], "Device key"@, r.config_key@)
            &&& match r.serial_number {
                Some(serial) => s.details@.len() == 4 && is_row(
                    s.details@[3],
                    "Serial"@,
                    serial@,
                ),
                None => s.details@.len() == 3,
            }
        },
{
    match current {
        Some(r) => Some(
            DeviceStatus {
                name: r.display_name.clone(),
                kind: kind_label(r.kind),
                badge: status_badge(r.online),
                battery: match &r.battery {
                    Some(b) => Some(battery_summary(b)),
                    None => None,
                },
                details: device_description_list(r),
            },
        ),
        None => None,
    }
}

/// The rows of the configuration: the application whose profile is in use and how
/// much is configured.
pub fn configuration_card(
    app_bundle: Option<&str>,
    bindings: usize,
    gestures: usize,
    presets: usize,
) -> (rows: Vec<Row>)
    ensures
        rows@.len() == 4,
        is_row(
            rows@[0],
            "Active profile"@,
            match app_bundle {
                Some(bundle) => bundle@,
                None => "Default profile"@,
            },
        ),
        is_row(rows@[1], "Button bindings"@, decimal(bindings as nat)),
        is_row(rows@[2], "Gesture bindings"@, decimal(gestures as nat)),
        is_row(rows@[3], "DPI presets"@, decimal(presets as nat)),
{
    let profile: String = match app_bundle {
        Some(bundle) => bundle.to_string(),
        None => "Default profile".to_string(),
    };
    let mut rows: Vec<Row> = Vec::new();
    rows.push(Row { label: "Active profile", value: profile });
    rows.push(Row { label: "Button bindings", value: decimal_text(bindings as u64) });
    rows.push(Row { label: "Gesture bindings", value: decimal_text(gestures as u64) });
    rows.push(Row { label: "DPI presets", value: decimal_text(presets as u64) });
    rows
}

} // verus!

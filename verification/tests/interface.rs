use openlogi::address::file_url;
use openlogi::app::{
    accessibility_gate, accessibility_status, battery_summary, configuration_card, detail_header,
    device_description_list, device_empty_state, device_gallery, device_status_card, footer,
    initial_config, main_window_title, AppView, Route, Screen, StatusBadge,
};
use openlogi::cmd::Command;
use openlogi::config::{Config, ConfigError};
use openlogi::device::{
    BatteryInfo, BatteryLevel, BatteryStatus, DeviceInventory, DeviceKind, PairedDevice,
    ReceiverInfo,
};
use openlogi::device_carousel::{battery_label, card_view, DeviceCarousel, Status};
use openlogi::device_list_view::{
    receiver_note, render_battery, render_device, render_receiver, DeviceListView, TITLE,
};
use openlogi::device_order::DeviceRoute;
use openlogi::device_view::device_view;
use openlogi::devices::DeviceRecord;
use openlogi::labels::{
    battery_color, battery_icon, battery_tone, format_battery, kind_label, relative_percent,
    route_label, BatteryGlyph, Tone,
};
use openlogi::os::{os_version, VersionReply};
use openlogi::text::trimmed;

fn battery(percentage: u8, level: BatteryLevel, status: BatteryStatus) -> BatteryInfo {
    BatteryInfo {
        percentage,
        level,
        status,
    }
}

fn record(key: &str) -> DeviceRecord {
    DeviceRecord {
        config_key: key.to_string(),
        persistent: true,
        model_key: key.to_string(),
        display_name: format!("Mouse {key}"),
        asset: None,
        model_info: None,
        codename: None,
        serial_number: None,
        unit_id: [0; 4],
        route: Some(DeviceRoute::Direct {
            vendor_id: 1,
            product_id: 2,
        }),
        kind: DeviceKind::Mouse,
        capabilities: None,
        slot: 3,
        online: true,
        battery: Some(battery(
            86,
            BatteryLevel::Good,
            BatteryStatus::Discharging,
        )),
    }
}

fn paired(slot: u8, codename: Option<&str>, online: bool) -> PairedDevice {
    PairedDevice {
        slot,
        codename: codename.map(str::to_string),
        wpid: Some(0x4076),
        kind: DeviceKind::Keyboard,
        online,
        battery: Some(battery(20, BatteryLevel::Low, BatteryStatus::Charging)),
        model_info: None,
        capabilities: None,
    }
}

fn inventory(devices: Vec<PairedDevice>) -> DeviceInventory {
    DeviceInventory {
        receiver: ReceiverInfo {
            name: "Bolt".to_string(),
            vendor_id: 0x046d,
            product_id: 0xc548,
            unique_id: None,
        },
        paired: devices,
    }
}

#[test]
fn settings_are_shown_for_the_selected_device_only() {
    let records = [record("a"), record("b")];
    let mut view = AppView::new();
    assert_eq!(view.render(true, None, true, false), Screen::Gallery);
    assert_eq!(view.open_device("b".to_string(), &records), Some(1));
    assert_eq!(
        view.render(true, Some(&records[1]), true, false),
        Screen::Detail
    );
    assert_eq!(
        main_window_title(Screen::Detail, Some(&records[1])),
        "OpenLogi - Mouse b"
    );
    // The selection moved on: back to the gallery.
    assert_eq!(
        view.render(true, Some(&records[0]), true, false),
        Screen::Gallery
    );
    assert!(matches!(view.route, Route::Home));
    assert_eq!(view.open_device("gone".to_string(), &records), None);
    view.go_home();
    assert_eq!(
        view.render(true, None, false, true),
        Screen::Empty { scanning: true }
    );
    assert_eq!(main_window_title(Screen::Gallery, Some(&records[0])), "OpenLogi");
}

#[test]
fn access_is_asked_for_until_it_is_put_off() {
    let mut view = AppView::new();
    assert_eq!(
        view.render(false, None, true, false),
        Screen::AccessibilityGate
    );
    view.dismiss_accessibility();
    assert_eq!(view.render(false, None, true, false), Screen::Gallery);
    assert_eq!(
        accessibility_status(false),
        ("Accessibility not granted · click to grant", true)
    );
    assert_eq!(accessibility_status(true), ("Accessibility granted", false));
    assert_eq!(
        accessibility_gate().heading,
        "Accessibility permission required"
    );
}

#[test]
fn panels_fold_and_unfold() {
    let mut view = AppView::new();
    view.toggle_device_details();
    assert!(!view.device_details_open && view.configuration_open);
    view.toggle_configuration();
    view.toggle_device_details();
    assert!(view.device_details_open && !view.configuration_open);
}

#[test]
fn the_gallery_rings_the_active_device() {
    let records = [record("a"), record("b")];
    let cards = device_gallery(&records, Some("b"));
    assert_eq!(cards.len(), 2);
    assert!(!cards[0].active && cards[1].active);
    assert_eq!(cards[0].sub, "Mouse · slot 3");
    assert_eq!(cards[0].badge, StatusBadge::Connected);
    assert_eq!(
        cards[0].battery,
        Some((BatteryGlyph::Medium, "86%".to_string()))
    );
}

#[test]
fn the_side_panel_describes_the_device() {
    let mut r = record("a");
    r.serial_number = Some("S1".to_string());
    let rows = device_description_list(&r);
    let words: Vec<(&str, &str)> = rows.iter().map(|r| (r.label, r.value.as_str())).collect();
    assert_eq!(
        words,
        [
            ("Connection", "Direct connection"),
            ("Slot", "3"),
            ("Device key", "a"),
            ("Serial", "S1"),
        ]
    );
    let status = device_status_card(Some(&r)).expect("device");
    assert_eq!(status.name, "Mouse a");
    assert_eq!(status.kind, "Mouse");
    assert!(device_status_card(None).is_none());
    let summary = battery_summary(&battery(0, BatteryLevel::Critical, BatteryStatus::Error));
    assert_eq!(summary.status, "Battery error");
    assert_eq!(summary.charge, "0%");
    assert_eq!(summary.hundredths, 1);
    assert_eq!(summary.tone, Tone::Bad);
    let (heading, badge) = detail_header(None);
    assert_eq!(heading, "Device");
    assert_eq!(badge, None);
    assert_eq!(StatusBadge::Offline.label(), "Offline");
    assert_eq!(StatusBadge::Connected.tone(), Tone::Good);
}

#[test]
fn the_configuration_is_counted() {
    let rows = configuration_card(None, 6, 2, 0);
    let words: Vec<(&str, &str)> = rows.iter().map(|r| (r.label, r.value.as_str())).collect();
    assert_eq!(
        words,
        [
            ("Active profile", "Default profile"),
            ("Button bindings", "6"),
            ("Gesture bindings", "2"),
            ("DPI presets", "0"),
        ]
    );
    assert_eq!(configuration_card(Some("com.app"), 0, 0, 0)[0].value, "com.app");
}

#[test]
fn addresses_hold_no_blanks() {
    assert_eq!(
        file_url("/Users/a b/c d").as_deref(),
        Some("file:///Users/a%20b/c%20d")
    );
    assert_eq!(
        file_url("/tmp/a b#c.png").as_deref(),
        Some("file:///tmp/a%20b%23c.png")
    );
    assert_eq!(
        file_url("/tmp/50%?/\u{e9}\u{1f600}").as_deref(),
        Some("file:///tmp/50%25%3F/%C3%A9%F0%9F%98%80")
    );
    assert_eq!(file_url("/").as_deref(), Some("file:///"));
    assert_eq!(
        file_url("//tmp/./a/../b/").as_deref(),
        Some("file:///tmp/a/../b")
    );
    assert_eq!(file_url("tmp/a"), None);
    assert_eq!(file_url(""), None);
}

#[test]
fn addresses_are_those_of_the_url_crate() {
    for code in 1..=0x7f_u8 {
        let path = format!("/a{}b", code as char);
        let expected = url::Url::from_file_path(&path).map(String::from);
        assert_eq!(file_url(&path).ok_or(()), expected, "{path:?}");
    }
    let paths = [
        "/",
        "//",
        "/.",
        "/./",
        "/..",
        "/...",
        "/a/./b//c/",
        "/Users/Zo\u{eb}/\u{4f8b} \u{1f600}.png",
        "a/b",
        "./a",
        ".",
        "",
    ];
    for path in paths {
        let expected = url::Url::from_file_path(path).map(String::from);
        assert_eq!(file_url(path).ok_or(()), expected, "{path:?}");
    }
}

#[test]
fn empty_states_speak_to_the_user() {
    assert_eq!(footer("1.2.3"), "v1.2.3");
    assert_eq!(device_empty_state(true).heading, "Scanning for devices…");
    assert_eq!(device_empty_state(false).heading, "No devices connected");
    assert_eq!(device_empty_state(false).button, "Add Device");
}

#[test]
fn batteries_have_signs_and_tones() {
    let full = battery(100, BatteryLevel::Full, BatteryStatus::Full);
    let charging = battery(5, BatteryLevel::Critical, BatteryStatus::ChargingSlow);
    let failing = battery(50, BatteryLevel::Good, BatteryStatus::Error);
    let low = battery(21, BatteryLevel::Low, BatteryStatus::Discharging);
    assert_eq!(format_battery(&full), "✓ 100%");
    assert_eq!(format_battery(&charging), "⚡ 5%");
    assert_eq!(format_battery(&failing), "⚠ 50%");
    assert_eq!(format_battery(&low), "21%");
    assert_eq!(battery_icon(&charging), BatteryGlyph::Charging);
    assert_eq!(battery_icon(&low), BatteryGlyph::Low);
    assert_eq!(battery_icon(&failing), BatteryGlyph::Warning);
    assert_eq!(battery_tone(&charging), Tone::Busy);
    assert_eq!(battery_tone(&low), Tone::Waiting);
    assert_eq!(battery_color(20), Tone::Bad);
    assert_eq!(battery_color(21), Tone::Waiting);
    assert_eq!(battery_color(51), Tone::Good);
    assert_eq!(relative_percent(0), 1);
    assert_eq!(relative_percent(255), 100);
    assert_eq!(kind_label(DeviceKind::Unknown), "Device");
    assert_eq!(route_label(&None), "Unavailable");
}

#[test]
fn the_carousel_is_never_empty() {
    let carousel = DeviceCarousel::new(&[
        inventory(vec![paired(1, Some("MX Keys"), true)]),
        inventory(vec![paired(4, None, false)]),
    ]);
    assert_eq!(carousel.cards.len(), 2);
    assert_eq!(carousel.cards[0].name, "MX Keys");
    assert_eq!(carousel.cards[0].sub, "Keyboard · slot 1");
    assert_eq!(carousel.cards[1].name, "Slot 4");
    assert_eq!(carousel.cards[1].status, Status::Offline);
    assert_eq!(battery_label(&carousel.cards[0]).as_deref(), Some("⚡ 20%"));
    assert_eq!(carousel.selected_card(9), 1);
    let drawn = card_view(1, &carousel.cards[1], carousel.selected_card(9));
    assert!(drawn.selected);
    assert_eq!(drawn.tone, Tone::Muted);
    let demo = DeviceCarousel::new(&[inventory(Vec::new())]);
    assert_eq!(demo.cards.len(), 3);
    assert_eq!(demo.cards[1].name, "Lift");
    assert_eq!(demo.cards[1].sub, "Mouse · slot 2");
    assert_eq!(demo.cards[1].status.color(), Tone::Waiting);
    assert_eq!(battery_label(&demo.cards[1]), None);
}

#[test]
fn the_list_counts_devices() {
    let view = DeviceListView {
        inventories: vec![inventory(vec![
            paired(1, Some("MX Keys"), true),
            paired(2, None, false),
        ])],
    };
    assert_eq!(view.header(), "1/2 devices online on 1 receiver");
    let empty = DeviceListView {
        inventories: Vec::new(),
    };
    assert_eq!(empty.header(), "No receivers detected");
    assert_eq!(TITLE, "Options−");
    let note = empty.note().expect("a note");
    assert_eq!(note.heading, "No Logitech HID++ receivers found.");
    assert_eq!(
        note.advice,
        "Quit Logi Options+ if it is running, replug the receiver, and reopen."
    );
    assert!(view.note().is_none());
    assert_eq!(receiver_note(&view.inventories[0]), None);
    assert_eq!(
        receiver_note(&inventory(Vec::new())),
        Some("No paired devices currently online.")
    );
    assert_eq!(
        render_receiver(&view.inventories[0]),
        "—  ·  vid=046d  pid=c548"
    );
    let line = render_device(&view.inventories[0].paired[1]);
    assert_eq!(line.dot, "○");
    assert_eq!(line.name, "Unknown device");
    assert_eq!(line.meta, "Keyboard  ·  slot 2  ·  wpid=4076");
    assert_eq!(line.battery, "⚡ 20%");
    assert_eq!(render_battery(&None), ("—".to_string(), Tone::Muted));
}

#[test]
fn devices_without_settings_say_so() {
    let mut r = record("a");
    let view = device_view(&r);
    assert_eq!(view.subtitle, "Connected");
    assert!(!view.preview);
    assert!(view.note.is_some());
    r.kind = DeviceKind::Camera;
    let camera = device_view(&r);
    assert_eq!(camera.subtitle, "Logitech webcam · USB Video Class");
    assert!(camera.preview);
    assert!(camera.note.is_none());
}

#[test]
fn the_system_version_is_trimmed() {
    let reply = |success, text: Option<&str>| {
        Some(VersionReply {
            success,
            text: text.map(str::to_string),
        })
    };
    assert_eq!(os_version(&reply(true, Some("15.5\n"))).as_deref(), Some("15.5"));
    assert_eq!(os_version(&reply(false, Some("15.5\n"))), None);
    assert_eq!(os_version(&reply(true, Some(" \n"))), None);
    assert_eq!(os_version(&reply(true, None)), None);
    assert_eq!(os_version(&None), None);
}

#[test]
fn device_commands_wait() {
    assert!(Command::List.waits() && Command::Diag.waits());
    assert!(!Command::Snapshot.waits() && !Command::Camera.waits() && !Command::Assets.waits());
}

#[test]
fn a_broken_configuration_starts_afresh() {
    let fresh = initial_config(Err(ConfigError::Serialize));
    assert!(fresh.devices.is_empty());
    let stored = Config {
        schema_version: 7,
        ..Config::default()
    };
    assert_eq!(initial_config(Ok(stored)).schema_version, 7);
}

#[test]
fn white_space_is_that_of_unicode() {
    for code in 0..=0x10_ffff_u32 {
        if let Some(c) = char::from_u32(code) {
            assert_eq!(trimmed(&[c]).is_empty(), c.is_whitespace(), "{code:#x}");
        }
    }
    assert_eq!(trimmed(&['\u{3000}', 'a', ' ', 'b', '\n']), ['a', ' ', 'b']);
}

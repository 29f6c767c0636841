use openlogi::brand::{release_tag_url, DeeplinkCommand, HELP_URL, RELEASES_URL, REPO_URL};
use openlogi::tray::{gui_is_running, menu, on_click, MenuLine, TrayStep};

const ALL: [DeeplinkCommand; 5] = [
    DeeplinkCommand::Show,
    DeeplinkCommand::OpenSettings,
    DeeplinkCommand::OpenAbout,
    DeeplinkCommand::CheckForUpdates,
    DeeplinkCommand::Quit,
];

#[test]
fn url_round_trips() {
    for cmd in ALL {
        assert_eq!(DeeplinkCommand::parse_url(&cmd.to_url()), Some(cmd));
    }
}

#[test]
fn parse_url_ignores_trailing_path_and_query() {
    assert_eq!(
        DeeplinkCommand::parse_url("openlogi://show/"),
        Some(DeeplinkCommand::Show)
    );
    assert_eq!(
        DeeplinkCommand::parse_url("openlogi://open-settings?from=tray"),
        Some(DeeplinkCommand::OpenSettings)
    );
}

#[test]
fn parse_url_rejects_foreign_scheme_and_unknown_command() {
    assert_eq!(DeeplinkCommand::parse_url("https://example.com/show"), None);
    assert_eq!(DeeplinkCommand::parse_url("openlogi://bogus"), None);
    assert_eq!(DeeplinkCommand::parse_url("openlogi://"), None);
}

#[test]
fn names_and_addresses_agree() {
    for cmd in ALL {
        assert_eq!(DeeplinkCommand::from_name(cmd.as_name()), Some(cmd));
        assert_eq!(cmd.to_url(), format!("openlogi://{}", cmd.as_name()));
    }
    assert!(HELP_URL.starts_with(REPO_URL));
    assert!(RELEASES_URL.starts_with(REPO_URL));
    assert_eq!(
        release_tag_url("1.2.3"),
        "https://github.com/AprilNEA/OpenLogi/releases/tag/v1.2.3"
    );
}

#[test]
fn the_menu_leads_to_every_command() {
    let lines = menu();
    assert_eq!(lines.len(), 7);
    for cmd in ALL {
        assert!(lines
            .iter()
            .any(|l| matches!(l, MenuLine::Entry { command, .. } if *command == cmd)));
    }
    assert!(matches!(
        lines[6],
        MenuLine::Entry {
            title: "Quit OpenLogi",
            key: "q",
            ..
        }
    ));
}

#[test]
fn quitting_never_starts_the_window() {
    assert_eq!(on_click(DeeplinkCommand::Quit, false), [TrayStep::Exit]);
    assert_eq!(
        on_click(DeeplinkCommand::Quit, true),
        [TrayStep::Deliver(DeeplinkCommand::Quit), TrayStep::Exit]
    );
    assert_eq!(
        on_click(DeeplinkCommand::OpenAbout, false),
        [TrayStep::Open(DeeplinkCommand::OpenAbout)]
    );
    assert!(gui_is_running(0, 1));
    assert!(!gui_is_running(0, 0));
}

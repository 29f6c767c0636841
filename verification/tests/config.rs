use openlogi::binding::{Action, ButtonId};
use openlogi::config::{
    Config, ConfigError, ConfigFile, DeviceConfig, DeviceIdentity, SaveStep, SCHEMA_VERSION,
};
use openlogi::device::{Capabilities, DeviceKind};
use openlogi::state::{AppState, DEFAULT_DPI};

/// What loading makes of the document to write, when the file gives it back.
fn write_and_read(config: &Config) -> Config {
    match Config::load_from_path("config.toml", ConfigFile::Document(config.document())) {
        Ok(config) => config,
        Err(e) => panic!("{}", e.message()),
    }
}

#[test]
fn missing_file_yields_default() {
    let cfg = Config::load_from_path("nonexistent.toml", ConfigFile::Missing).expect("load");
    assert_eq!(cfg.schema_version, SCHEMA_VERSION);
    assert!(cfg.devices.is_empty());
}

#[test]
fn bindings_roundtrip_per_device() {
    let mut cfg = Config::default();
    cfg.set_binding("2b042", ButtonId::Back, Action::Copy);
    cfg.set_binding(
        "2b042",
        ButtonId::DpiToggle,
        Action::CustomShortcut("Toggle DPI".to_string()),
    );
    cfg.set_binding("4082d", ButtonId::Back, Action::Paste);

    let parsed = write_and_read(&cfg);

    // Per-device isolation.
    let a = parsed.bindings_for("2b042");
    assert_eq!(a.get(&ButtonId::Back), Some(&Action::Copy));
    assert_eq!(
        a.get(&ButtonId::DpiToggle),
        Some(&Action::CustomShortcut("Toggle DPI".to_string()))
    );

    let b = parsed.bindings_for("4082d");
    assert_eq!(b.get(&ButtonId::Back), Some(&Action::Paste));
    assert_eq!(b.len(), 1, "device b should only see its own bindings");

    // Unknown device returns empty map without panic.
    assert!(parsed.bindings_for("deadbeef").is_empty());
}

#[test]
fn rejects_unknown_schema_version() {
    let document = Config {
        schema_version: 99,
        ..Config::default()
    };
    let err = Config::load_from_path("config.toml", ConfigFile::Document(document))
        .expect_err("should fail");
    assert!(matches!(
        err,
        ConfigError::UnsupportedSchemaVersion { found: 99, .. }
    ));
    assert_eq!(
        err.message(),
        "config at config.toml has unsupported schema_version 99"
    );
}

#[test]
fn empty_device_block_is_skipped_in_output() {
    // Inserting then clearing should not leave a device with no bindings under it.
    let mut cfg = Config::default();
    cfg.set_binding("2b042", ButtonId::Back, Action::Copy);
    let mut device = cfg.devices.get("2b042").expect("entry").clone();
    device.button_bindings.clear();
    cfg.devices.insert("2b042".to_string(), device);
    let document = cfg.document();
    assert!(document.devices.is_empty());
    let body = format!("{document:?}");
    assert!(
        !body.contains("Back"),
        "cleared bindings should not appear: {body}"
    );
    assert!(!body.contains("2b042"), "got: {body}");
}

#[test]
fn saved_configurations_are_loaded_again() {
    let mut cfg = Config::default();
    cfg.set_binding("4082d", ButtonId::Forward, Action::Paste);
    cfg.devices
        .insert("empty".to_string(), DeviceConfig::default());
    let identity = DeviceIdentity {
        display_name: "MX Master 4".to_string(),
        kind: DeviceKind::Mouse,
        capabilities: Capabilities {
            buttons: true,
            pointer: true,
            lighting: false,
            scroll_inversion: true,
            hires_wheel: false,
        },
        model_info: None,
        codename: None,
    };
    let remembered = DeviceConfig {
        identity: Some(identity),
        ..DeviceConfig::default()
    };
    assert!(!remembered.is_empty());
    cfg.devices.insert("2b042".to_string(), remembered);

    let loaded = write_and_read(&cfg);
    assert_eq!(loaded.schema_version, SCHEMA_VERSION);
    assert_eq!(loaded.devices.len(), 2);
    assert_eq!(
        loaded.bindings_for("4082d").get(&ButtonId::Forward),
        Some(&Action::Paste)
    );
    assert!(loaded.bindings_for("empty").is_empty());
    let known = loaded.known_identities();
    assert_eq!(known.len(), 1);
    assert_eq!(known[0].0, "2b042");
    assert_eq!(known[0].1.display_name, "MX Master 4");
    assert_eq!(write_and_read(&loaded).devices.len(), 2);
    let copy = cfg.clone();
    assert_eq!(copy.schema_version, cfg.schema_version);
    assert_eq!(format!("{copy:?}"), format!("{cfg:?}"));
}

#[test]
fn loading_tells_what_went_wrong() {
    assert!(matches!(
        Config::load_or_default(None, ConfigFile::Missing),
        Err(ConfigError::Path)
    ));
    let read = Config::load_or_default(Some("c"), ConfigFile::Unreadable).expect_err("read");
    assert_eq!(read.message(), "could not read config at c");
    let parse = Config::load_or_default(Some("c"), ConfigFile::Malformed).expect_err("parse");
    assert_eq!(parse.message(), "could not parse config at c");
    assert_eq!(
        ConfigError::Serialize.message(),
        "could not serialize config"
    );
    assert_eq!(ConfigError::Path.message(), "could not resolve config path");
}

#[test]
fn saving_goes_step_by_step() {
    assert_eq!(
        Config::save_atomic(None, SaveStep::ResolvePath, true),
        Err(ConfigError::Path)
    );
    let mut step = SaveStep::ResolvePath;
    let mut seen = vec![step];
    while step != SaveStep::Done {
        step = Config::save_atomic(Some("c"), step, true).expect("save");
        seen.push(step);
    }
    assert_eq!(
        seen,
        [
            SaveStep::ResolvePath,
            SaveStep::CreateParent,
            SaveStep::Serialize,
            SaveStep::Replace,
            SaveStep::Done
        ]
    );
    assert_eq!(
        Config::save_to_path("c", SaveStep::Serialize, false),
        Err(ConfigError::Serialize)
    );
    assert_eq!(
        Config::save_to_path("c", SaveStep::Replace, false),
        Err(ConfigError::Write {
            path: "c".to_string()
        })
    );
}

#[test]
fn later_bindings_replace_earlier_ones() {
    let mut cfg = Config::default();
    cfg.set_binding("2b042", ButtonId::Back, Action::Copy);
    cfg.set_binding("2b042", ButtonId::Back, Action::Paste);
    let bindings = cfg.bindings_for("2b042");
    assert_eq!(bindings.len(), 1);
    assert_eq!(bindings.get(&ButtonId::Back), Some(&Action::Paste));
}

#[test]
fn committed_bindings_survive_a_restart() {
    let mut state = AppState::from_config(Config::default(), Some("2b042".to_string()));
    assert_eq!(state.dpi, DEFAULT_DPI);
    assert!(state.commit_binding(ButtonId::Forward, Action::Screenshot));
    let again = AppState::from_config(write_and_read(&state.config), Some("2b042".to_string()));
    assert_eq!(
        again.button_bindings.get(&ButtonId::Forward),
        Some(&Action::Screenshot)
    );
}

#[test]
fn bindings_without_a_device_are_not_saved() {
    let mut state = AppState::from_config(Config::default(), None);
    assert!(!state.commit_binding(ButtonId::Back, Action::Copy));
    assert_eq!(
        state.button_bindings.get(&ButtonId::Back),
        Some(&Action::Copy)
    );
    assert!(state.config.devices.is_empty());
}

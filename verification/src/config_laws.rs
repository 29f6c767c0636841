//! Laws of what is remembered: how a configuration is read, kept and written.

use vstd::prelude::*;

use crate::binding::{Action, ButtonBindings, ButtonId};
use crate::config::{
    identities_of, Config, ConfigError, ConfigFile, DeviceConfig, DeviceIdentity, SaveStep,
};
use crate::state::AppState;
use crate::table::lookup;

verus! {

// ── Reading ─────────────────────────────────────────────────────────────────

/// A configuration of the known layout is taken as it is, a missing one starts empty, and
/// everything else is refused with the path and the reason.
pub proof fn configurations_are_read_or_refused(
    path: &str,
    file: ConfigFile,
    out: Result<Config, ConfigError>,
)
    requires
        call_ensures(Config::load_from_path, (path, file), out),
    ensures
        file matches ConfigFile::Document(config) ==> config.schema_version == 1 ==> out == Ok::<
            Config,
            ConfigError,
        >(config),
        file matches ConfigFile::Document(config) ==> config.schema_version != 1 ==> (
        out matches Err(ConfigError::UnsupportedSchemaVersion { path: at, found }) && at@ == path@
            && found == config.schema_version),
        file is Missing ==> (out matches Ok(config) && config.schema_version == 1
            && config.devices.rows().len() == 0),
        file is Unreadable ==> (out matches Err(ConfigError::Read { path: at }) && at@ == path@),
        file is Malformed ==> (out matches Err(ConfigError::Parse { path: at }) && at@ == path@),
{
}

/// Without a place for it nothing is read and nothing is written; with one, it is read and
/// written there.
pub proof fn configurations_need_a_place(
    file: ConfigFile,
    step: SaveStep,
    ok: bool,
    nowhere: Result<Config, ConfigError>,
    unsaved: Result<SaveStep, ConfigError>,
    path: &str,
    somewhere: Result<Config, ConfigError>,
    saved: Result<SaveStep, ConfigError>,
)
    requires
        call_ensures(Config::load_or_default, (None, file), nowhere),
        call_ensures(Config::save_atomic, (None, step, ok), unsaved),
        call_ensures(Config::load_or_default, (Some(path), ConfigFile::Missing), somewhere),
        call_ensures(Config::save_atomic, (Some(path), SaveStep::Replace, false), saved),
    ensures
        nowhere == Err::<Config, ConfigError>(ConfigError::Path),
        unsaved == Err::<SaveStep, ConfigError>(ConfigError::Path),
        somewhere is Ok,
        saved matches Err(ConfigError::Write { path: at }) && at@ == path@,
{
}

/// The one before is followed by `next`.
pub open spec fn goes_on(path: &str, step: SaveStep, next: SaveStep) -> bool {
    call_ensures(
        Config::save_to_path,
        (path, step, true),
        Ok::<SaveStep, ConfigError>(next),
    )
}

/// Saving goes through every step once, in order: the directory is there before the text is
/// made, and the file is replaced last.
pub proof fn saving_goes_in_order(
    path: &str,
    a: SaveStep,
    b: SaveStep,
    c: SaveStep,
    d: SaveStep,
)
    requires
        goes_on(path, SaveStep::ResolvePath, a),
        goes_on(path, a, b),
        goes_on(path, b, c),
        goes_on(path, c, d),
    ensures
        a == SaveStep::CreateParent,
        b == SaveStep::Serialize,
        c == SaveStep::Replace,
        d == SaveStep::Done,
{
}

/// A step of saving that fails is told by what could not be done.
pub proof fn failed_saves_are_told(path: &str, step: SaveStep, out: Result<SaveStep, ConfigError>)
    requires
        call_ensures(Config::save_to_path, (path, step, false), out),
    ensures
        step == SaveStep::ResolvePath ==> out == Err::<SaveStep, ConfigError>(ConfigError::Path),
        step == SaveStep::Serialize ==> out == Err::<SaveStep, ConfigError>(
            ConfigError::Serialize,
        ),
        step == SaveStep::CreateParent || step == SaveStep::Replace ==> (out matches Err(
            ConfigError::Write { path: at },
        ) && at@ == path@),
        step == SaveStep::Done ==> out == Ok::<SaveStep, ConfigError>(SaveStep::Done),
{
}

/// The reasons can be read, with the path.
pub proof fn configuration_errors_can_be_read(e: ConfigError, text: String)
    requires
        call_ensures(ConfigError::message, (&e,), text),
    ensures
        e is Path ==> text@ == "could not resolve config path"@,
        e matches ConfigError::Read { path } ==> text@ == "could not read config at "@ + path@,
        e matches ConfigError::Parse { path } ==> text@ == "could not parse config at "@ + path@,
        e matches ConfigError::Write { path } ==> text@ == "could not write config at "@ + path@,
        e is Serialize ==> text@ == "could not serialize config"@,
        e matches ConfigError::UnsupportedSchemaVersion { path, found } ==> text@ == "config at "@
            + path@ + " has unsupported schema_version "@ + crate::text::decimal(found as nat),
{
}

// ── Bindings ────────────────────────────────────────────────────────────────

/// A binding that is set for a device is read for that device and that button; nothing else
/// that was bound changes, on any device.
pub proof fn set_bindings_are_read(
    config: &mut Config,
    device: &str,
    button: ButtonId,
    action: Action,
    after: Config,
    asked: &str,
    before: ButtonBindings,
    bindings: ButtonBindings,
    other: ButtonId,
)
    requires
        call_ensures(Config::set_binding, (config, device, button, action), ()),
        after == *final(config),
        call_ensures(Config::bindings_for, (&*old(config), asked), before),
        call_ensures(Config::bindings_for, (&after, asked), bindings),
    ensures
        asked@ == device@ ==> bindings@.contains_key(button) && bindings@[button] == action,
        asked@ != device@ || other != button ==> (bindings@.contains_key(other)
            <==> before@.contains_key(other)) && (before@.contains_key(other) ==> bindings@[other]
            == before@[other]),
        after.schema_version == old(config).schema_version,
        after.stored_identity(asked@) == old(config).stored_identity(asked@),
{
    if asked@ != device@ {
        assert(lookup(after.devices.rows(), asked@) == lookup(
            old(config).devices.rows(),
            asked@,
        ));
    }
}

/// What is written of a configuration is every device that says something, as it is, and no
/// device that says nothing.
pub proof fn documents_hold_what_is_said(config: Config, document: Config, key: Seq<char>)
    requires
        call_ensures(Config::document, (&config,), document),
    ensures
        document.schema_version == config.schema_version,
        lookup(config.devices.rows(), key) matches Some(device) ==> device.identity is Some
            || device.button_bindings@ != Map::<ButtonId, Action>::empty() ==> lookup(
            document.devices.rows(),
            key,
        ) == Some(device),
        lookup(config.devices.rows(), key) matches Some(device) ==> device.identity is None
            && device.button_bindings@ == Map::<ButtonId, Action>::empty() ==> lookup(
            document.devices.rows(),
            key,
        ) is None,
        lookup(config.devices.rows(), key) is None ==> lookup(document.devices.rows(), key)
            is None,
{
    assert(lookup(document.devices.rows(), key) == crate::config::written_device(
        lookup(config.devices.rows(), key),
    ));
}

/// A device says nothing exactly when it has neither a binding nor an identity.
pub proof fn empty_devices_say_nothing(device: DeviceConfig, empty: bool, button: ButtonId)
    requires
        call_ensures(DeviceConfig::is_empty, (&device,), empty),
    ensures
        empty ==> device.identity is None && !device.button_bindings@.contains_key(button),
        device.identity is Some ==> !empty,
        device.button_bindings@.contains_key(button) ==> !empty,
{
}

proof fn lemma_identities(rows: Seq<(String, DeviceConfig)>)
    ensures
        forall|i: int, identity: DeviceIdentity|
            #![trigger identities_of(rows).contains((rows[i].0, identity))]
            0 <= i < rows.len() && rows[i].1.identity == Some(identity) ==> identities_of(
                rows,
            ).contains((rows[i].0, identity)),
        forall|j: int|
            0 <= j < identities_of(rows).len() ==> #[trigger] is_known(
                rows,
                identities_of(rows)[j],
            ),
    decreases rows.len(),
{
    if rows.len() > 0 {
        let front = rows.drop_last();
        let less = identities_of(front);
        let all = identities_of(rows);
        lemma_identities(front);
        assert forall|i: int, identity: DeviceIdentity|
            #![trigger all.contains((rows[i].0, identity))]
            0 <= i < rows.len() && rows[i].1.identity == Some(identity) implies all.contains(
            (rows[i].0, identity),
        ) by {
            let pair = (rows[i].0, identity);
            if i < front.len() {
                assert(front[i] == rows[i]);
                assert(less.contains((front[i].0, identity)));
                let k = choose|k: int| 0 <= k < less.len() && less[k] == pair;
                assert(all[k] == pair);
            } else {
                assert(all.last() == pair);
                assert(all.contains(pair));
            }
        }
        assert forall|j: int| 0 <= j < all.len() implies #[trigger] is_known(rows, all[j]) by {
            if j < less.len() {
                assert(all[j] == less[j]);
                assert(is_known(front, less[j]));
                let i = choose|i: int|
                    0 <= i < front.len() && (#[trigger] front[i]).0 == less[j].0
                        && front[i].1.identity == Some(less[j].1);
                assert(rows[i] == front[i]);
            } else {
                assert(rows[rows.len() - 1].0 == all[j].0);
            }
        }
    }
}

/// The entry is that of a device whose identity is stored.
pub open spec fn is_known(
    rows: Seq<(String, DeviceConfig)>,
    entry: (String, DeviceIdentity),
) -> bool {
    exists|i: int|
        0 <= i < rows.len() && (#[trigger] rows[i]).0 == entry.0 && rows[i].1.identity == Some(
            entry.1,
        )
}

/// The known devices are those with a stored identity, each under its own key.
pub proof fn known_devices_are_those_with_identity(
    config: Config,
    known: Vec<(String, DeviceIdentity)>,
    i: int,
    j: int,
)
    requires
        call_ensures(Config::known_identities, (&config,), known),
    ensures
        0 <= i < config.devices.rows().len() ==> (config.devices.rows()[i].1.identity matches Some(
            identity,
        ) ==> known@.contains((config.devices.rows()[i].0, identity))),
        0 <= j < known@.len() ==> is_known(config.devices.rows(), known@[j]),
{
    lemma_identities(config.devices.rows());
    if 0 <= j < known@.len() {
        assert(is_known(config.devices.rows(), identities_of(config.devices.rows())[j]));
    }
}

// ── The state of the application ────────────────────────────────────────────

/// Started on a configuration, the application shows for every button what the device was
/// bound to, and where nothing was bound what a fresh device does.
pub proof fn stored_bindings_are_shown(
    config: Config,
    device: Option<String>,
    state: AppState,
    button: ButtonId,
)
    requires
        call_ensures(AppState::from_config, (config, device), state),
    ensures
        state.config == config,
        state.current_device_key == device,
        state.current_device == 0,
        state.active_button is None,
        state.dpi == 1600,
        state.button_bindings@.contains_key(button),
        device matches Some(key) ==> config.stored_bindings(key@).contains_key(button) ==>
            state.button_bindings@[button] == config.stored_bindings(key@)[button],
        device is None || !config.stored_bindings(device->0@).contains_key(button) ==> {
            let action = state.button_bindings@[button];
            &&& button == ButtonId::LeftClick ==> action == Action::LeftClick
            &&& button == ButtonId::RightClick ==> action == Action::RightClick
            &&& button == ButtonId::MiddleClick ==> action == Action::MiddleClick
            &&& button == ButtonId::Back ==> action == Action::BrowserBack
            &&& button == ButtonId::Forward ==> action == Action::BrowserForward
            &&& button == ButtonId::DpiToggle ==> (action matches Action::CustomShortcut(name)
                && name@ == "Toggle DPI"@)
        },
{
    assert(state.button_bindings@.contains_key(button));
}

/// Committing a binding shows it at once and stores it for the current device, and for that
/// device alone; without a device there is nothing to save.
pub proof fn committed_bindings_are_shown_and_stored(
    state: &mut AppState,
    button: ButtonId,
    action: Action,
    save: bool,
    other: ButtonId,
    key: Seq<char>,
)
    requires
        call_ensures(AppState::commit_binding, (state, button, action), save),
    ensures
        save <==> old(state).current_device_key is Some,
        final(state).button_bindings@.contains_key(button),
        final(state).button_bindings@[button] == action,
        other != button && old(state).button_bindings@.contains_key(other)
            ==> final(state).button_bindings@[other] == old(state).button_bindings@[other],
        old(state).current_device_key matches Some(current) ==> {
            &&& final(state).config.stored_bindings(current@).contains_key(button)
            &&& final(state).config.stored_bindings(current@)[button] == action
            &&& key != current@ ==> final(state).config.stored_bindings(key)
                == old(state).config.stored_bindings(key)
        },
        old(state).current_device_key is None ==> final(state).config == old(state).config,
        final(state).current_device == old(state).current_device,
        final(state).current_device_key == old(state).current_device_key,
        final(state).dpi == old(state).dpi,
        final(state).active_button == old(state).active_button,
        final(state).config.schema_version == old(state).config.schema_version,
{
    if let Some(current) = old(state).current_device_key {
        if key != current@ {
            assert(lookup(final(state).config.devices.rows(), key) == lookup(
                old(state).config.devices.rows(),
                key,
            ));
        }
    }
}

/// Without a configuration everything starts fresh: no device, every button as on a fresh
/// device, and nothing stored.
pub proof fn everything_starts_fresh(
    state: AppState,
    config: Config,
    device: DeviceConfig,
    button: ButtonId,
)
    requires
        call_ensures(AppState::default, (), state),
        call_ensures(Config::default, (), config),
        call_ensures(DeviceConfig::default, (), device),
    ensures
        state.current_device == 0 && state.current_device_key is None && state.active_button
            is None,
        state.dpi == 1600,
        state.config.schema_version == 1 && state.config.devices.rows().len() == 0,
        config.schema_version == 1 && config.devices.rows().len() == 0,
        device.identity is None && !device.button_bindings@.contains_key(button),
        state.button_bindings@.contains_key(button),
        ({
            let action = state.button_bindings@[button];
            &&& button == ButtonId::LeftClick ==> action == Action::LeftClick
            &&& button == ButtonId::RightClick ==> action == Action::RightClick
            &&& button == ButtonId::MiddleClick ==> action == Action::MiddleClick
            &&& button == ButtonId::Back ==> action == Action::BrowserBack
            &&& button == ButtonId::Forward ==> action == Action::BrowserForward
            &&& button == ButtonId::DpiToggle ==> (action matches Action::CustomShortcut(name)
                && name@ == "Toggle DPI"@)
        }),
{
    assert(state.button_bindings@.contains_key(button));
}

} // verus!

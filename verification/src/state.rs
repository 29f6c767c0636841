//! The state that the views of the application share.

use vstd::prelude::*;

use crate::binding::{
    default_binding, is_default_binding, Action, ButtonBindings, ButtonId, ButtonMap,
};
use crate::config::{
    load_result, saved_configurations_are_loaded_again, Config, ConfigError, ConfigFile,
    SCHEMA_VERSION,
};
use crate::table::lookup;
use crate::text::optional_text;

verus! {

/// The pointer resolution of a fresh state. Matches a common mid-range mouse.
pub const DEFAULT_DPI: u32 = 1600;

/// State shared by the views.
#[derive(Debug)]
pub struct AppState {
    /// Index into the carousel's device list. May briefly point past its end
    /// while devices are being enumerated.
    pub current_device: usize,
    /// Key of the active device, which scopes the persisted bindings. `None` when
    /// no device can be identified: bindings then live in memory only.
    pub current_device_key: Option<String>,
    /// The button that the user armed last.
    pub active_button: Option<ButtonId>,
    /// The bindings in force.
    pub button_bindings: ButtonBindings,
    /// The pointer resolution.
    pub dpi: u32,
    /// The configuration that commits go to.
    pub config: Config,
}

/// The bindings that `config` stores for an optional device.
pub open spec fn stored_for(config: Config, device_key: Option<Seq<char>>) -> Map<ButtonId, Action> {
    match device_key {
        Some(key) => config.stored_bindings(key),
        None => Map::empty(),
    }
}

/// `bindings` gives every button its stored action, or else its default.
pub open spec fn seeded(
    bindings: Map<ButtonId, Action>,
    stored: Map<ButtonId, Action>,
) -> bool {
    forall|b: ButtonId| #[trigger]
        bindings.contains_key(b) && (if stored.contains_key(b) {
            bindings[b] == stored[b]
        } else {
            is_default_binding(b, bindings[b])
        })
}

fn seed(bindings: &mut ButtonBindings, stored: &ButtonBindings, button: ButtonId)
    ensures
        exists|action: Action| #[trigger]
            final(bindings)@ == old(bindings)@.insert(button, action) && (if stored@.contains_key(
                button,
            ) {
                action == stored@[button]
            } else {
                is_default_binding(button, action)
            }),
{
    match stored.get(&button) {
        Some(action) => {
            let action: Action = action.clone();
            bindings.insert(button, action);
        },
        None => {
            let action: Action = default_binding(button);
            bindings.insert(button, action);
        },
    }
}

impl AppState {
    /// Build the state from a loaded configuration and the active device's key.
    ///
    /// Bindings come from the configuration where it has them, else from the
    /// defaults. Without a device key the defaults are used throughout.
    #[must_use]
    pub fn from_config(config: Config, device_key: Option<String>) -> (out: Self)
        ensures
            out.current_device == 0,
            out.current_device_key == device_key,
            out.active_button is None,
            seeded(out.button_bindings@, stored_for(config, optional_text(device_key))),
            out.dpi == DEFAULT_DPI,
            out.config == config,
    {
        let stored: ButtonBindings = match &device_key {
            Some(key) => config.bindings_for(key.as_str()),
            None => ButtonMap::new(),
        };
        let mut bindings: ButtonBindings = ButtonMap::new();
        seed(&mut bindings, &stored, ButtonId::LeftClick);
        seed(&mut bindings, &stored, ButtonId::RightClick);
        seed(&mut bindings, &stored, ButtonId::MiddleClick);
        seed(&mut bindings, &stored, ButtonId::Back);
        seed(&mut bindings, &stored, ButtonId::Forward);
        seed(&mut bindings, &stored, ButtonId::DpiToggle);
        AppState {
            current_device: 0,
            current_device_key: device_key,
            active_button: None,
            button_bindings: bindings,
            dpi: DEFAULT_DPI,
            config,
        }
    }

    /// Update one binding in memory and, with an active device, in the
    /// configuration. Returns whether the configuration changed and has to be
    /// saved; a failed save does not undo the binding.
    pub fn commit_binding(&mut self, button: ButtonId, action: Action) -> (save: bool)
        ensures
            save == old(self).current_device_key is Some,
            final(self).current_device == old(self).current_device,
            final(self).current_device_key == old(self).current_device_key,
            final(self).active_button == old(self).active_button,
            final(self).dpi == old(self).dpi,
            final(self).button_bindings@ == old(self).button_bindings@.insert(button, action),
            match old(self).current_device_key {
                Some(key) => {
                    &&& final(self).config.schema_version == old(self).config.schema_version
                    &&& final(self).config.stored_bindings(key@) == old(
                        self,
                    ).config.stored_bindings(key@).insert(button, action)
                    &&& final(self).config.stored_identity(key@) == old(
                        self,
                    ).config.stored_identity(key@)
                    &&& forall|k: Seq<char>|
                        k != key@ ==> lookup(final(self).config.devices.rows(), k)
                            == #[trigger] lookup(old(self).config.devices.rows(), k)
                },
                None => final(self).config == old(self).config,
            },
    {
        self.button_bindings.insert(button, action.clone());
        match &self.current_device_key {
            Some(key) => {
                self.config.set_binding(key.as_str(), button, action);
                true
            },
            None => false,
        }
    }
}

impl Default for AppState {
    fn default() -> (out: Self)
        ensures
            out.current_device == 0,
            out.current_device_key is None,
            out.active_button is None,
            seeded(out.button_bindings@, Map::empty()),
            out.dpi == DEFAULT_DPI,
            out.config.is_default(),
    {
        AppState::from_config(Config::default(), None)
    }
}

/// A binding that was committed for a device is in force again after a restart: the
/// configuration is written, loaded, and a state is built from it.
///
/// `saved` is the configuration after [`AppState::commit_binding`], `document` what is
/// written for it, `loaded` what reading that document gives, and `restored` the
/// bindings of a state built from what was loaded.
pub proof fn committed_bindings_survive_a_restart(
    before: Config,
    saved: Config,
    document: Config,
    path: Seq<char>,
    loaded: Result<Config, ConfigError>,
    device: Seq<char>,
    button: ButtonId,
    action: Action,
    restored: Map<ButtonId, Action>,
)
    requires
        before.schema_version == SCHEMA_VERSION,
        saved.schema_version == before.schema_version,
        saved.stored_bindings(device) == before.stored_bindings(device).insert(button, action),
        document.is_document_of(saved),
        load_result(path, ConfigFile::Document(document), loaded),
        loaded matches Ok(config) ==> seeded(restored, stored_for(config, Some(device))),
    ensures
        loaded is Ok,
        restored.contains_key(button),
        restored[button] == action,
{
    saved_configurations_are_loaded_again(saved, document, path, loaded);
    assert(loaded->Ok_0.stored_bindings(device) == saved.stored_bindings(device));
    assert(restored.contains_key(button));
}

} // verus!

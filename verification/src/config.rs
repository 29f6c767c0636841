//! User configuration.
//!
//! Per-device state lives in a table keyed by the device key, for example
//! `"2b042"` for an MX Master 4. Readers branch on the schema version before they
//! use the rest of the document.

use vstd::prelude::*;
use vstd::string::*;

use crate::binding::{Action, ButtonBindings, ButtonId, ButtonMap};
use crate::device::{clone_model_info, Capabilities, DeviceKind, DeviceModelInfo};
use crate::table::{
    ascending, lemma_ascending_distinct, lemma_lookup_push, lemma_lookup_some, lookup, TextTable,
};
use crate::text::{clone_optional, decimal, decimal_text};

verus! {

/// The schema version that is written. A document with another version is not
/// read.
pub const SCHEMA_VERSION: u32 = 1;

/// What is remembered of a device that was seen online, so that it can be shown
/// while it sleeps.
#[derive(Debug)]
pub struct DeviceIdentity {
    /// The name on the device's card.
    pub display_name: String,
    /// What the device is.
    pub kind: DeviceKind,
    /// The measured capabilities.
    pub capabilities: Capabilities,
    /// The model, when it was measured.
    pub model_info: Option<DeviceModelInfo>,
    /// The firmware codename, when it was reported.
    pub codename: Option<String>,
}

impl Clone for DeviceIdentity {
    fn clone(&self) -> (out: Self)
        ensures
            out == *self,
    {
        DeviceIdentity {
            display_name: self.display_name.clone(),
            kind: self.kind,
            capabilities: self.capabilities,
            model_info: clone_model_info(&self.model_info),
            codename: clone_optional(&self.codename),
        }
    }
}

/// Settings scoped to one device.
#[derive(Debug)]
pub struct DeviceConfig {
    /// The committed button bindings.
    pub button_bindings: ButtonBindings,
    /// What is remembered of the device.
    pub identity: Option<DeviceIdentity>,
}

impl Clone for DeviceConfig {
    fn clone(&self) -> (out: Self)
        ensures
            out == *self,
    {
        DeviceConfig {
            button_bindings: self.button_bindings.clone(),
            identity: match &self.identity {
                Some(i) => Some(i.clone()),
                None => None,
            },
        }
    }
}

impl DeviceConfig {
    /// Nothing is set and nothing is remembered.
    pub open spec fn says_nothing(self) -> bool {
        self.button_bindings@ == Map::<ButtonId, Action>::empty() && self.identity is None
    }

    /// Whether nothing is set and nothing is remembered.
    #[must_use]
    pub fn is_empty(&self) -> (yes: bool)
        ensures
            yes == self.says_nothing(),
    {
        self.button_bindings.is_empty() && self.identity.is_none()
    }
}

impl Default for DeviceConfig {
    fn default() -> (out: Self)
        ensures
            out.button_bindings@ == Map::<ButtonId, Action>::empty(),
            out.identity is None,
    {
        DeviceConfig { button_bindings: ButtonMap::new(), identity: None }
    }
}

/// Top-level configuration document.
#[derive(Debug)]
pub struct Config {
    /// The version of the document's layout.
    pub schema_version: u32,
    /// Settings per device key.
    pub devices: TextTable<DeviceConfig>,
}

impl Clone for Config {
    fn clone(&self) -> (out: Self)
        ensures
            out.schema_version == self.schema_version,
            out.devices.rows() == self.devices.rows(),
    {
        let devices: TextTable<DeviceConfig> = self.devices.clone();
        assert(devices.rows() =~= self.devices.rows());
        Config { schema_version: self.schema_version, devices }
    }
}

impl Default for Config {
    fn default() -> (out: Self)
        ensures
            out.is_default(),
    {
        Config { schema_version: SCHEMA_VERSION, devices: TextTable::new() }
    }
}

/// Why a configuration could not be read or written.
#[derive(Debug, PartialEq, Eq)]
pub enum ConfigError {
    /// The configuration path could not be resolved.
    Path,
    /// The file exists and could not be read.
    Read {
        /// The file.
        path: String,
    },
    /// The file is not a configuration document.
    Parse {
        /// The file.
        path: String,
    },
    /// The file, or a directory for it, could not be written.
    Write {
        /// The file.
        path: String,
    },
    /// The document could not be put into text.
    Serialize,
    /// The document has another schema version.
    UnsupportedSchemaVersion {
        /// The file.
        path: String,
        /// The version that the file names.
        found: u32,
    },
}

impl ConfigError {
    /// The message as characters.
    pub open spec fn message_text(self) -> Seq<char> {
        match self {
            ConfigError::Path => "could not resolve config path"@,
            ConfigError::Read { path } => "could not read config at "@ + path@,
            ConfigError::Parse { path } => "could not parse config at "@ + path@,
            ConfigError::Write { path } => "could not write config at "@ + path@,
            ConfigError::Serialize => "could not serialize config"@,
            ConfigError::UnsupportedSchemaVersion { path, found } => "config at "@ + path@
                + " has unsupported schema_version "@ + decimal(found as nat),
        }
    }

    /// The message for the user.
    pub fn message(&self) -> (out: String)
        ensures
            out@ == self.message_text(),
    {
        let mut out: String = String::new();
        match self {
            ConfigError::Path => {
                out.append("could not resolve config path");
            },
            ConfigError::Read { path } => {
                out.append("could not read config at ");
                out.append(path.as_str());
            },
            ConfigError::Parse { path } => {
                out.append("could not parse config at ");
                out.append(path.as_str());
            },
            ConfigError::Write { path } => {
                out.append("could not write config at ");
                out.append(path.as_str());
            },
            ConfigError::Serialize => {
                out.append("could not serialize config");
            },
            ConfigError::UnsupportedSchemaVersion { path, found } => {
                out.append("config at ");
                out.append(path.as_str());
                out.append(" has unsupported schema_version ");
                let n: String = decimal_text(*found as u64);
                out.append(n.as_str());
            },
        }
        assert(out@ =~= self.message_text());
        out
    }
}

/// What reading the configuration file gave.
#[derive(Debug)]
pub enum ConfigFile {
    /// There is no such file.
    Missing,
    /// The file could not be read.
    Unreadable,
    /// The text is not a configuration document.
    Malformed,
    /// A document of some schema version.
    Document(Config),
}

/// The steps of writing a configuration.
#[derive(Debug, Clone, Copy, PartialEq, Eq, Structural)]
pub enum SaveStep {
    /// Find out where the configuration lives.
    ResolvePath,
    /// Create the directory that holds the file.
    CreateParent,
    /// Put the document that [`Config::document`] gives into text.
    Serialize,
    /// Write the text to a sibling file and rename it over the target.
    Replace,
    /// Nothing is left to do.
    Done,
}

/// The remembered devices of `rows`, in order.
pub open spec fn identities_of(rows: Seq<(String, DeviceConfig)>) -> Seq<(String, DeviceIdentity)>
    decreases rows.len(),
{
    if rows.len() == 0 {
        Seq::empty()
    } else {
        let before = identities_of(rows.drop_last());
        match rows.last().1.identity {
            Some(identity) => before.push((rows.last().0, identity)),
            None => before,
        }
    }
}

/// What a document holds of a device: nothing where there is nothing to say.
pub open spec fn written_device(device: Option<DeviceConfig>) -> Option<DeviceConfig> {
    match device {
        Some(d) => if d.says_nothing() {
            None
        } else {
            Some(d)
        },
        None => None,
    }
}

impl Config {
    /// The document that is written for `config`: its version, and its devices but for
    /// those of which there is nothing to say.
    pub open spec fn is_document_of(self, config: Config) -> bool {
        &&& self.schema_version == config.schema_version
        &&& forall|k: Seq<char>| #[trigger]
            lookup(self.devices.rows(), k) == written_device(lookup(config.devices.rows(), k))
    }

    /// A fresh document: the current schema version and no device.
    pub open spec fn is_default(self) -> bool {
        self.schema_version == SCHEMA_VERSION && self.devices.rows().len() == 0
    }

    /// The bindings stored for `device_key`; none for an unknown device.
    pub open spec fn stored_bindings(self, device_key: Seq<char>) -> Map<ButtonId, Action> {
        match lookup(self.devices.rows(), device_key) {
            Some(device) => device.button_bindings@,
            None => Map::empty(),
        }
    }

    /// What is remembered of `device_key`.
    pub open spec fn stored_identity(self, device_key: Seq<char>) -> Option<DeviceIdentity> {
        match lookup(self.devices.rows(), device_key) {
            Some(device) => device.identity,
            None => None,
        }
    }

    /// The configuration that reading the file at the user's configuration path
    /// gives: the default one when there is no such file yet.
    pub fn load_or_default(path: Option<&str>, file: ConfigFile) -> (out: Result<Self, ConfigError>)
        ensures
            path is None ==> out == Err::<Config, ConfigError>(ConfigError::Path),
            path matches Some(p) ==> load_result(p@, file, out),
    {
        match path {
            Some(p) => Self::load_from_path(p, file),
            None => Err(ConfigError::Path),
        }
    }

    /// The configuration that reading the file at `path` gives.
    pub fn load_from_path(path: &str, file: ConfigFile) -> (out: Result<Self, ConfigError>)
        ensures
            load_result(path@, file, out),
    {
        match file {
            ConfigFile::Missing => Ok(Config::default()),
            ConfigFile::Unreadable => Err(ConfigError::Read { path: path.to_string() }),
            ConfigFile::Malformed => Err(ConfigError::Parse { path: path.to_string() }),
            ConfigFile::Document(config) => {
                if config.schema_version != SCHEMA_VERSION {
                    Err(
                        ConfigError::UnsupportedSchemaVersion {
                            path: path.to_string(),
                            found: config.schema_version,
                        },
                    )
                } else {
                    Ok(config)
                }
            },
        }
    }

    /// What follows the outcome of one step of saving to the user's configuration
    /// path.
    pub fn save_atomic(path: Option<&str>, step: SaveStep, succeeded: bool) -> (out: Result<
        SaveStep,
        ConfigError,
    >)
        ensures
            path is None ==> out == Err::<SaveStep, ConfigError>(ConfigError::Path),
            path matches Some(p) ==> save_result(p@, step, succeeded, out),
    {
        match path {
            Some(p) => Self::save_to_path(p, step, succeeded),
            None => Err(ConfigError::Path),
        }
    }

    /// What follows the outcome of one step of saving to `path`.
    pub fn save_to_path(path: &str, step: SaveStep, succeeded: bool) -> (out: Result<
        SaveStep,
        ConfigError,
    >)
        ensures
            save_result(path@, step, succeeded, out),
    {
        match step {
            SaveStep::ResolvePath => if succeeded {
                Ok(SaveStep::CreateParent)
            } else {
                Err(ConfigError::Path)
            },
            SaveStep::CreateParent => if succeeded {
                Ok(SaveStep::Serialize)
            } else {
                Err(ConfigError::Write { path: path.to_string() })
            },
            SaveStep::Serialize => if succeeded {
                Ok(SaveStep::Replace)
            } else {
                Err(ConfigError::Serialize)
            },
            SaveStep::Replace => if succeeded {
                Ok(SaveStep::Done)
            } else {
                Err(ConfigError::Write { path: path.to_string() })
            },
            SaveStep::Done => Ok(SaveStep::Done),
        }
    }

    /// The document to write. A device without bindings of which nothing is remembered
    /// is left out, so that no heading stands there with nothing under it.
    #[must_use]
    pub fn document(&self) -> (out: Self)
        ensures
            out.is_document_of(*self),
    {
        let mut devices: TextTable<DeviceConfig> = TextTable::new();
        let n: usize = self.devices.len();
        let ghost rows = self.devices.rows();
        let mut i: usize = 0;
        assert forall|k: Seq<char>| #[trigger]
            lookup(devices.rows(), k) == written_device(lookup(rows.take(0), k)) by {}
        while i < n
            invariant
                i <= n,
                rows == self.devices.rows(),
                n == rows.len(),
                ascending(rows),
                forall|k: Seq<char>| #[trigger]
                    lookup(devices.rows(), k) == written_device(lookup(rows.take(i as int), k)),
            decreases n - i,
        {
            let row: &(String, DeviceConfig) = self.devices.row_at(i);
            let ghost before = devices.rows();
            if !row.1.is_empty() {
                devices.insert(row.0.clone(), row.1.clone());
            }
            proof {
                let seen = rows.take(i as int);
                if lookup(seen, row.0@) is Some {
                    let j = lemma_lookup_some(seen, row.0@);
                    lemma_ascending_distinct(rows, i as int, j);
                }
                assert(rows.take(i as int + 1) =~= seen.push(*row));
                assert forall|k: Seq<char>| #[trigger]
                    lookup(devices.rows(), k) == written_device(
                        lookup(rows.take(i as int + 1), k),
                    ) by {
                    lemma_lookup_push(seen, *row, k);
                    assert(lookup(before, k) == written_device(lookup(seen, k)));
                }
            }
            i = i + 1;
        }
        assert(rows.take(n as int) =~= rows);
        Config { schema_version: self.schema_version, devices }
    }

    /// The bindings stored for `device_key`, or an empty map if the device has no
    /// committed bindings yet.
    #[must_use]
    pub fn bindings_for(&self, device_key: &str) -> (out: ButtonBindings)
        ensures
            out@ == self.stored_bindings(device_key@),
    {
        match self.devices.get(device_key) {
            Some(device) => device.button_bindings.clone(),
            None => ButtonMap::new(),
        }
    }

    /// Record `action` as the binding for `button` on `device_key`, creating the
    /// device entry if needed.
    pub fn set_binding(&mut self, device_key: &str, button: ButtonId, action: Action)
        ensures
            final(self).schema_version == old(self).schema_version,
            final(self).stored_bindings(device_key@) == old(self).stored_bindings(
                device_key@,
            ).insert(button, action),
            final(self).stored_identity(device_key@) == old(self).stored_identity(device_key@),
            forall|k: Seq<char>|
                k != device_key@ ==> lookup(final(self).devices.rows(), k) == #[trigger] lookup(
                    old(self).devices.rows(),
                    k,
                ),
    {
        let mut device: DeviceConfig = match self.devices.get(device_key) {
            Some(device) => device.clone(),
            None => DeviceConfig::default(),
        };
        device.button_bindings.insert(button, action);
        self.devices.insert(device_key.to_string(), device);
    }

    /// The remembered devices, in ascending order of their keys.
    pub fn known_identities(&self) -> (out: Vec<(String, DeviceIdentity)>)
        ensures
            out@ == identities_of(self.devices.rows()),
    {
        let mut out: Vec<(String, DeviceIdentity)> = Vec::new();
        let n: usize = self.devices.len();
        let ghost rows = self.devices.rows();
        let mut i: usize = 0;
        while i < n
            invariant
                i <= n,
                rows == self.devices.rows(),
                n == rows.len(),
                out@ == identities_of(rows.take(i as int)),
            decreases n - i,
        {
            let row: &(String, DeviceConfig) = self.devices.row_at(i);
            assert(rows.take(i as int + 1).drop_last() =~= rows.take(i as int));
            assert(rows.take(i as int + 1).last() == rows[i as int]);
            match &row.1.identity {
                Some(identity) => {
                    out.push((row.0.clone(), identity.clone()));
                },
                None => {},
            }
            i = i + 1;
        }
        assert(rows.take(n as int) =~= rows);
        out
    }
}

/// `out` is what reading `path` gives when the read itself gave `file`.
pub open spec fn load_result(
    path: Seq<char>,
    file: ConfigFile,
    out: Result<Config, ConfigError>,
) -> bool {
    match file {
        ConfigFile::Missing => out matches Ok(c) && c.is_default(),
        ConfigFile::Unreadable => out matches Err(ConfigError::Read { path: p }) && p@ == path,
        ConfigFile::Malformed => out matches Err(ConfigError::Parse { path: p }) && p@ == path,
        ConfigFile::Document(config) => if config.schema_version == SCHEMA_VERSION {
            out == Ok::<Config, ConfigError>(config)
        } else {
            out matches Err(ConfigError::UnsupportedSchemaVersion { path: p, found }) && p@ == path
                && found == config.schema_version
        },
    }
}

/// `out` is what follows the outcome of `step` in a save to `path`.
pub open spec fn save_result(
    path: Seq<char>,
    step: SaveStep,
    succeeded: bool,
    out: Result<SaveStep, ConfigError>,
) -> bool {
    if step == SaveStep::Done {
        out == Ok::<SaveStep, ConfigError>(SaveStep::Done)
    } else if succeeded {
        out == Ok::<SaveStep, ConfigError>(
            match step {
                SaveStep::ResolvePath => SaveStep::CreateParent,
                SaveStep::CreateParent => SaveStep::Serialize,
                SaveStep::Serialize => SaveStep::Replace,
                _ => SaveStep::Done,
            },
        )
    } else {
        match step {
            SaveStep::ResolvePath => out == Err::<SaveStep, ConfigError>(ConfigError::Path),
            SaveStep::Serialize => out == Err::<SaveStep, ConfigError>(ConfigError::Serialize),
            _ => out matches Err(ConfigError::Write { path: p }) && p@ == path,
        }
    }
}

/// A binding that was set is read back, and no other button or device changes.
///
/// `before` and `after` are a configuration before and after
/// [`Config::set_binding`].
pub proof fn bindings_are_read_back(
    before: Config,
    after: Config,
    device: Seq<char>,
    button: ButtonId,
    action: Action,
    other_device: Seq<char>,
    other_button: ButtonId,
)
    requires
        after.stored_bindings(device) == before.stored_bindings(device).insert(button, action),
        forall|k: Seq<char>|
            k != device ==> lookup(after.devices.rows(), k) == #[trigger] lookup(
                before.devices.rows(),
                k,
            ),
    ensures
        after.stored_bindings(device).contains_key(button),
        after.stored_bindings(device)[button] == action,
        other_button != button ==> (after.stored_bindings(device).contains_key(other_button)
            == before.stored_bindings(device).contains_key(other_button)),
        other_button != button && before.stored_bindings(device).contains_key(other_button)
            ==> after.stored_bindings(device)[other_button] == before.stored_bindings(
            device,
        )[other_button],
        other_device != device ==> after.stored_bindings(other_device) == before.stored_bindings(
            other_device,
        ),
{
    if other_device != device {
        assert(lookup(after.devices.rows(), other_device) == lookup(
            before.devices.rows(),
            other_device,
        ));
    }
}

/// What was saved is loaded again: the document written for a configuration of the
/// current version is accepted, and every device has the bindings and the identity
/// that it had.
///
/// `out` is what [`Config::load_from_path`] makes of the document that
/// [`Config::document`] gave for `config`.
pub proof fn saved_configurations_are_loaded_again(
    config: Config,
    document: Config,
    path: Seq<char>,
    out: Result<Config, ConfigError>,
)
    requires
        config.schema_version == SCHEMA_VERSION,
        document.is_document_of(config),
        load_result(path, ConfigFile::Document(document), out),
    ensures
        out is Ok,
        out->Ok_0.schema_version == config.schema_version,
        forall|k: Seq<char>| #[trigger]
            out->Ok_0.stored_bindings(k) == config.stored_bindings(k),
        forall|k: Seq<char>| #[trigger]
            out->Ok_0.stored_identity(k) == config.stored_identity(k),
{
    let loaded = out->Ok_0;
    assert forall|k: Seq<char>| #[trigger]
        loaded.stored_bindings(k) == config.stored_bindings(k) by {
        assert(lookup(loaded.devices.rows(), k) == written_device(
            lookup(config.devices.rows(), k),
        ));
    }
    assert forall|k: Seq<char>| #[trigger]
        loaded.stored_identity(k) == config.stored_identity(k) by {
        assert(lookup(loaded.devices.rows(), k) == written_device(
            lookup(config.devices.rows(), k),
        ));
    }
}

/// No heading of a written document is empty, and writing a document again changes
/// nothing.
pub proof fn documents_hold_no_empty_devices(
    config: Config,
    document: Config,
    again: Config,
    device: Seq<char>,
)
    requires
        document.is_document_of(config),
        again.is_document_of(document),
    ensures
        lookup(document.devices.rows(), device) matches Some(d) ==> !d.says_nothing(),
        lookup(again.devices.rows(), device) == lookup(document.devices.rows(), device),
{
    assert(lookup(document.devices.rows(), device) == written_device(
        lookup(config.devices.rows(), device),
    ));
    assert(lookup(again.devices.rows(), device) == written_device(
        lookup(document.devices.rows(), device),
    ));
}

} // verus!

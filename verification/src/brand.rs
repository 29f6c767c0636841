//! The project's public addresses and its deep-link commands.
//!
//! The agent builds deep links and the interface reads them; both sides take the
//! command names from here, so they cannot disagree.

use vstd::prelude::*;
use vstd::string::*;

use crate::text::{chars_of, head, same_chars, strip_prefix, string_of, without_prefix};

verus! {

/// The repository.
pub const REPO_URL: &'static str = "https://github.com/AprilNEA/OpenLogi";

/// The page that the help link opens.
pub const HELP_URL: &'static str = "https://github.com/AprilNEA/OpenLogi#readme";

/// The page of the latest release.
pub const RELEASES_URL: &'static str = "https://github.com/AprilNEA/OpenLogi/releases/latest";

/// The release page of one version.
#[must_use]
pub fn release_tag_url(version: &str) -> (url: String)
    ensures
        url@ == "https://github.com/AprilNEA/OpenLogi"@ + "/releases/tag/v"@ + version@,
{
    let mut url: String = REPO_URL.to_string();
    url.append("/releases/tag/v");
    url.append(version);
    url
}

/// An action of the interface that is requested by opening an `openlogi://<name>`
/// address.
#[derive(Clone, Copy, Debug, PartialEq, Eq, Structural)]
pub enum DeeplinkCommand {
    /// Bring up the main window.
    Show,
    /// Open the settings.
    OpenSettings,
    /// Open the about window.
    OpenAbout,
    /// Look for updates.
    CheckForUpdates,
    /// Quit the interface.
    Quit,
}

/// How many characters stand in `s` before any slash or question mark.
pub open spec fn host_len(s: Seq<char>) -> nat
    decreases s.len(),
{
    if s.len() > 0 && s[0] != '/' && s[0] != '?' {
        1 + host_len(s.skip(1))
    } else {
        0
    }
}

/// The command that a name stands for.
pub open spec fn command_named(name: Seq<char>) -> Option<DeeplinkCommand> {
    if name == "show"@ {
        Some(DeeplinkCommand::Show)
    } else if name == "open-settings"@ {
        Some(DeeplinkCommand::OpenSettings)
    } else if name == "open-about"@ {
        Some(DeeplinkCommand::OpenAbout)
    } else if name == "check-for-updates"@ {
        Some(DeeplinkCommand::CheckForUpdates)
    } else if name == "quit"@ {
        Some(DeeplinkCommand::Quit)
    } else {
        None
    }
}

/// The command that an address stands for: the one that its host names.
pub open spec fn command_at(url: Seq<char>) -> Option<DeeplinkCommand> {
    match strip_prefix(url, "openlogi"@) {
        Some(rest) => match strip_prefix(rest, "://"@) {
            Some(rest) => command_named(rest.take(host_len(rest) as int)),
            None => None,
        },
        None => None,
    }
}

fn host_length(s: &[char]) -> (n: usize)
    ensures
        n == host_len(s@),
        n <= s@.len(),
{
    let len: usize = s.len();
    let mut i: usize = 0;
    assert(s@.skip(0) =~= s@);
    while i < len && s[i] != '/' && s[i] != '?'
        invariant
            i <= len,
            len == s@.len(),
            host_len(s@) == i + host_len(s@.skip(i as int)),
        decreases len - i,
    {
        assert(s@.skip(i as int).skip(1) =~= s@.skip(i as int + 1));
        i = i + 1;
    }
    i
}

fn is_name(name: &[char], literal: &str) -> (yes: bool)
    ensures
        yes == (name@ == literal@),
{
    let other: Vec<char> = chars_of(literal);
    same_chars(name, other.as_slice())
}

impl DeeplinkCommand {
    /// The scheme that the application registers.
    pub const SCHEME: &'static str = "openlogi";

    /// The name as characters.
    pub open spec fn name_text(self) -> Seq<char> {
        match self {
            DeeplinkCommand::Show => "show"@,
            DeeplinkCommand::OpenSettings => "open-settings"@,
            DeeplinkCommand::OpenAbout => "open-about"@,
            DeeplinkCommand::CheckForUpdates => "check-for-updates"@,
            DeeplinkCommand::Quit => "quit"@,
        }
    }

    /// The address as characters.
    pub open spec fn url_text(self) -> Seq<char> {
        "openlogi"@ + "://"@ + self.name_text()
    }

    /// The name of the command: the host of its address.
    #[must_use]
    pub fn as_name(self) -> (name: &'static str)
        ensures
            name@ == self.name_text(),
    {
        match self {
            DeeplinkCommand::Show => "show",
            DeeplinkCommand::OpenSettings => "open-settings",
            DeeplinkCommand::OpenAbout => "open-about",
            DeeplinkCommand::CheckForUpdates => "check-for-updates",
            DeeplinkCommand::Quit => "quit",
        }
    }

    /// Build the address of the command.
    #[must_use]
    pub fn to_url(self) -> (url: String)
        ensures
            url@ == self.url_text(),
    {
        let mut url: String = Self::SCHEME.to_string();
        url.append("://");
        url.append(self.as_name());
        url
    }

    /// Read a command from its name.
    #[must_use]
    pub fn from_name(name: &str) -> (command: Option<Self>)
        ensures
            command == command_named(name@),
    {
        let chars: Vec<char> = chars_of(name);
        let host: &[char] = chars.as_slice();
        if is_name(host, "show") {
            Some(DeeplinkCommand::Show)
        } else if is_name(host, "open-settings") {
            Some(DeeplinkCommand::OpenSettings)
        } else if is_name(host, "open-about") {
            Some(DeeplinkCommand::OpenAbout)
        } else if is_name(host, "check-for-updates") {
            Some(DeeplinkCommand::CheckForUpdates)
        } else if is_name(host, "quit") {
            Some(DeeplinkCommand::Quit)
        } else {
            None
        }
    }

    /// Read a full address. The command is its host, so a trailing path or query
    /// is ignored. `None` for a foreign scheme or an unknown command.
    #[must_use]
    pub fn parse_url(url: &str) -> (command: Option<Self>)
        ensures
            command == command_at(url@),
    {
        let chars: Vec<char> = chars_of(url);
        let scheme: Vec<char> = chars_of(Self::SCHEME);
        let separator: Vec<char> = chars_of("://");
        match without_prefix(chars.as_slice(), scheme.as_slice()) {
            Some(rest) => match without_prefix(rest, separator.as_slice()) {
                Some(rest) => {
                    let host: String = string_of(head(rest, host_length(rest)));
                    Self::from_name(host.as_str())
                },
                None => None,
            },
            None => None,
        }
    }
}

proof fn lemma_names(command: DeeplinkCommand)
    ensures
        command_named(command.name_text()) == Some(command),
        forall|i: int|
            0 <= i < command.name_text().len() ==> #[trigger] command.name_text()[i] != '/'
                && command.name_text()[i] != '?',
{
    reveal_strlit("show");
    reveal_strlit("open-settings");
    reveal_strlit("open-about");
    reveal_strlit("check-for-updates");
    reveal_strlit("quit");
    assert("show"@.len() == 4);
    assert("open-settings"@.len() == 13);
    assert("open-about"@.len() == 10);
    assert("check-for-updates"@.len() == 17);
    assert("quit"@.len() == 4);
    assert("show"@[0] == 's' && "quit"@[0] == 'q');
}

proof fn lemma_host_len(name: Seq<char>, tail: Seq<char>)
    requires
        forall|i: int| 0 <= i < name.len() ==> #[trigger] name[i] != '/' && name[i] != '?',
        tail.len() == 0 || tail[0] == '/' || tail[0] == '?',
    ensures
        host_len(name + tail) == name.len(),
    decreases name.len(),
{
    let s = name + tail;
    if name.len() > 0 {
        assert(s[0] == name[0]);
        assert forall|i: int| 0 <= i < name.skip(1).len() implies #[trigger] name.skip(1)[i] != '/'
            && name.skip(1)[i] != '?' by {
            assert(name[i + 1] != '/');
        }
        lemma_host_len(name.skip(1), tail);
        assert(s.skip(1) =~= name.skip(1) + tail);
    } else {
        assert(s =~= tail);
    }
}

/// The address of a command is read back as that command, also with a path or a
/// query behind it.
pub proof fn addresses_are_read_back(command: DeeplinkCommand, tail: Seq<char>)
    requires
        tail.len() == 0 || tail[0] == '/' || tail[0] == '?',
    ensures
        command_at(command.url_text() + tail) == Some(command),
{
    let name = command.name_text();
    let url = command.url_text() + tail;
    lemma_names(command);
    lemma_host_len(name, tail);
    let rest = name + tail;
    let after_scheme = "://"@ + rest;
    assert(url =~= "openlogi"@ + after_scheme);
    assert(url.subrange(0, "openlogi"@.len() as int) =~= "openlogi"@);
    assert(url.skip("openlogi"@.len() as int) =~= after_scheme);
    assert(after_scheme.subrange(0, "://"@.len() as int) =~= "://"@);
    assert(after_scheme.skip("://"@.len() as int) =~= rest);
    assert(rest.take(name.len() as int) =~= name);
}

/// No two commands share a name.
pub proof fn names_tell_commands_apart(a: DeeplinkCommand, b: DeeplinkCommand)
    requires
        a.name_text() == b.name_text(),
    ensures
        a == b,
{
    lemma_names(a);
    lemma_names(b);
}

} // verus!

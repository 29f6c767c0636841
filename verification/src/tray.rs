//! The agent's item in the menu bar.

use vstd::prelude::*;

use crate::brand::DeeplinkCommand;

verus! {

/// A line of the menu.
#[derive(Debug, Clone, Copy)]
pub enum MenuLine {
    /// A line that can be clicked.
    Entry {
        /// The words.
        title: &'static str,
        /// The key that stands for a click, empty for none.
        key: &'static str,
        /// What a click does.
        command: DeeplinkCommand,
    },
    /// A separator.
    Separator,
}

/// `line` is an entry with these words and this key.
pub open spec fn is_entry(
    line: MenuLine,
    words: Seq<char>,
    shortcut: Seq<char>,
    action: DeeplinkCommand,
) -> bool {
    match line {
        MenuLine::Entry { title, key, command } => title@ == words && key@ == shortcut && command
            == action,
        MenuLine::Separator => false,
    }
}

/// The menu: what leads to the main window first, leaving last.
pub fn menu() -> (lines: Vec<MenuLine>)
    ensures
        lines@.len() == 7,
        is_entry(lines@[0], "Show Main Window"@, "m"@, DeeplinkCommand::Show),
        lines@[1] is Separator,
        is_entry(lines@[2], "Settings…"@, ","@, DeeplinkCommand::OpenSettings),
        is_entry(lines@[3], "About OpenLogi"@, ""@, DeeplinkCommand::OpenAbout),
        is_entry(lines@[4], "Check for Updates…"@, "u"@, DeeplinkCommand::CheckForUpdates),
        lines@[5] is Separator,
        is_entry(lines@[6], "Quit OpenLogi"@, "q"@, DeeplinkCommand::Quit),
{
    let mut lines: Vec<MenuLine> = Vec::new();
    lines.push(
        MenuLine::Entry { title: "Show Main Window", key: "m", command: DeeplinkCommand::Show },
    );
    lines.push(MenuLine::Separator);
    lines.push(
        MenuLine::Entry { title: "Settings…", key: ",", command: DeeplinkCommand::OpenSettings },
    );
    lines.push(
        MenuLine::Entry { title: "About OpenLogi", key: "", command: DeeplinkCommand::OpenAbout },
    );
    lines.push(
        MenuLine::Entry {
            title: "Check for Updates…",
            key: "u",
            command: DeeplinkCommand::CheckForUpdates,
        },
    );
    lines.push(MenuLine::Separator);
    lines.push(MenuLine::Entry { title: "Quit OpenLogi", key: "q", command: DeeplinkCommand::Quit });
    lines
}

/// What the agent does for a click.
#[derive(Debug, Clone, Copy, PartialEq, Eq, Structural)]
pub enum TrayStep {
    /// Hand a command to the window, which is started where it is not there.
    Open(DeeplinkCommand),
    /// Hand a command to the running window and wait until it was delivered.
    Deliver(DeeplinkCommand),
    /// Leave.
    Exit,
}

/// The steps for a click. Quitting tells a running window to quit too, but never
/// starts one for that.
pub open spec fn steps_for(command: DeeplinkCommand, gui_running: bool) -> Seq<TrayStep> {
    if command == DeeplinkCommand::Quit {
        if gui_running {
            seq![TrayStep::Deliver(command), TrayStep::Exit]
        } else {
            seq![TrayStep::Exit]
        }
    } else {
        seq![TrayStep::Open(command)]
    }
}

/// The steps for a click.
pub fn on_click(command: DeeplinkCommand, gui_running: bool) -> (steps: Vec<TrayStep>)
    ensures
        steps@ == steps_for(command, gui_running),
{
    let mut steps: Vec<TrayStep> = Vec::new();
    if command == DeeplinkCommand::Quit {
        if gui_running {
            steps.push(TrayStep::Deliver(command));
        }
        steps.push(TrayStep::Exit);
    } else {
        steps.push(TrayStep::Open(command));
    }
    assert(steps@ =~= steps_for(command, gui_running));
    steps
}

/// The agent leaves on Quit and on nothing else, and Quit starts no window.
pub proof fn only_quitting_leaves(command: DeeplinkCommand, gui_running: bool)
    ensures
        steps_for(command, gui_running).contains(TrayStep::Exit) <==> command
            == DeeplinkCommand::Quit,
        forall|c: DeeplinkCommand|
            command == DeeplinkCommand::Quit ==> !(#[trigger] steps_for(
                command,
                gui_running,
            ).contains(TrayStep::Open(c))),
{
    let steps = steps_for(command, gui_running);
    if command == DeeplinkCommand::Quit {
        assert(steps[steps.len() - 1] == TrayStep::Exit);
    }
}

/// Whether a window is running, told by the number of running applications with the
/// identifier of the released and of the development bundle. The agent has an
/// identifier of its own.
pub fn gui_is_running(released: usize, development: usize) -> (running: bool)
    ensures
        running == (released > 0 || development > 0),
{
    released > 0 || development > 0
}

/// The identifier of the released bundle.
pub const GUI_BUNDLE_ID: &'static str = "org.openlogi.openlogi";

/// The identifier of the development bundle.
pub const GUI_DEV_BUNDLE_ID: &'static str = "org.openlogi.openlogi.dev";

} // verus!

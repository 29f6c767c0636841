//! The commands of the command line.

use vstd::prelude::*;

verus! {

/// A command.
#[derive(Debug, Clone, Copy, PartialEq, Eq, Structural)]
pub enum Command {
    /// List connected Logitech HID++ devices.
    List,
    /// Capture one frame from a Logitech webcam to a PNG.
    Snapshot,
    /// Read or write device-level UVC image controls on a webcam.
    Camera,
    /// Manage assets fetched from OpenLogi's asset mirrors.
    Assets,
    /// Real-device round-trip smoke tests against the HID++ write path.
    Diag,
}

impl Command {
    /// Whether a command waits for devices. Camera capture, UVC transfers and the
    /// asset mirrors block the thread instead.
    pub fn waits(self) -> (waits: bool)
        ensures
            waits == (self is List || self is Diag),
    {
        match self {
            Command::List => true,
            Command::Snapshot => false,
            Command::Camera => false,
            Command::Assets => false,
            Command::Diag => true,
        }
    }
}

} // verus!

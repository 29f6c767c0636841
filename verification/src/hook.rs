//! The platform's mouse hook: its events, its verdicts and its errors.

use vstd::prelude::*;
use vstd::string::*;

use crate::binding::ButtonId;

verus! {

/// A mouse event that the hook sees. `T` is the type of scroll distances.
#[derive(Debug, Clone, PartialEq)]
#[allow(inconsistent_fields)]
pub enum MouseEvent<T> {
    /// A button went down or up.
    Button {
        /// The button.
        id: ButtonId,
        /// Whether it went down.
        pressed: bool,
    },
    /// The wheel or a trackpad scrolled.
    Scroll {
        /// Horizontal distance.
        delta_x: T,
        /// Vertical distance.
        delta_y: T,
        /// Whether a trackpad scrolled.
        from_trackpad: bool,
        /// The device, where it is known.
        device: Option<u64>,
    },
    /// The pointer moved.
    Moved {
        /// Horizontal distance.
        delta_x: i32,
        /// Vertical distance.
        delta_y: i32,
    },
}

/// What becomes of an event.
#[derive(Debug, Clone, Copy, PartialEq, Eq, Structural)]
pub enum EventDisposition {
    /// The system handles it.
    PassThrough,
    /// Nobody else sees it.
    Suppress,
}

/// Why the hook could not be installed.
#[derive(Debug, PartialEq, Eq)]
pub enum HookError {
    /// The platform has no hook.
    Unsupported,
    /// The user has not granted access to input events.
    AccessibilityDenied,
    /// The event tap failed.
    MacOsTap(String),
    /// No mouse was found.
    NoDeviceFound,
    /// The input device failed.
    Linux(String),
}

impl HookError {
    /// The message as characters.
    pub open spec fn message_text(self) -> Seq<char> {
        match self {
            HookError::Unsupported => "mouse hook is not supported on this platform"@,
            HookError::AccessibilityDenied => "accessibility permission is not granted"@,
            HookError::MacOsTap(reason) => "could not install the event tap: "@ + reason@,
            HookError::NoDeviceFound => "no mouse device was found"@,
            HookError::Linux(reason) => "input device error: "@ + reason@,
        }
    }

    /// The message for the user. It is never empty.
    pub fn message(&self) -> (out: String)
        ensures
            out@ == self.message_text(),
            out@.len() > 0,
    {
        proof {
            reveal_strlit("mouse hook is not supported on this platform");
            reveal_strlit("accessibility permission is not granted");
            reveal_strlit("could not install the event tap: ");
            reveal_strlit("no mouse device was found");
            reveal_strlit("input device error: ");
        }
        let mut out: String = String::new();
        match self {
            HookError::Unsupported => {
                out.append("mouse hook is not supported on this platform");
            },
            HookError::AccessibilityDenied => {
                out.append("accessibility permission is not granted");
            },
            HookError::MacOsTap(reason) => {
                out.append("could not install the event tap: ");
                out.append(reason.as_str());
            },
            HookError::NoDeviceFound => {
                out.append("no mouse device was found");
            },
            HookError::Linux(reason) => {
                out.append("input device error: ");
                out.append(reason.as_str());
            },
        }
        assert(out@ =~= self.message_text());
        out
    }
}

/// A platform, as far as the hook is concerned.
#[derive(Debug, Clone, Copy, PartialEq, Eq, Structural)]
pub enum Platform {
    /// macOS.
    MacOs,
    /// Linux.
    Linux,
    /// Any other.
    Other,
}

/// What an attempt to install the hook came to.
#[derive(Debug)]
pub enum Attempt {
    /// The hook is installed.
    Installed,
    /// Access was refused.
    Denied,
    /// There is no mouse.
    NoDevice,
    /// The platform failed, as this text tells.
    Failed(String),
}

/// Where the hook runs.
#[derive(Debug, Clone, Copy, PartialEq, Eq, Structural)]
pub struct Hook {
    /// The platform.
    pub platform: Platform,
}

impl Hook {
    /// Whether the hook may see input events: only macOS asks for a permission.
    pub fn has_accessibility(&self, granted: bool) -> (yes: bool)
        ensures
            yes == (self.platform != Platform::MacOs || granted),
    {
        match self.platform {
            Platform::MacOs => granted,
            _ => true,
        }
    }

    /// The outcome of installing the hook.
    pub fn start(&self, attempt: Attempt) -> (out: Result<(), HookError>)
        ensures
            out == match (self.platform, attempt) {
                (Platform::Other, _) => Err::<(), HookError>(HookError::Unsupported),
                (_, Attempt::Installed) => Ok(()),
                (_, Attempt::Denied) => Err(HookError::AccessibilityDenied),
                (_, Attempt::NoDevice) => Err(HookError::NoDeviceFound),
                (Platform::MacOs, Attempt::Failed(reason)) => Err(HookError::MacOsTap(reason)),
                (Platform::Linux, Attempt::Failed(reason)) => Err(HookError::Linux(reason)),
            },
    {
        match self.platform {
            Platform::Other => {
                return Err(HookError::Unsupported);
            },
            _ => {},
        }
        match attempt {
            Attempt::Installed => Ok(()),
            Attempt::Denied => Err(HookError::AccessibilityDenied),
            Attempt::NoDevice => Err(HookError::NoDeviceFound),
            Attempt::Failed(reason) => match self.platform {
                Platform::MacOs => Err(HookError::MacOsTap(reason)),
                _ => Err(HookError::Linux(reason)),
            },
        }
    }
}

} // verus!

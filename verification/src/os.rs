//! The version of the operating system.

use vstd::prelude::*;

use crate::text::{chars_of, string_of, trim, trimmed};

verus! {

/// What the system's version command gave back.
#[derive(Debug)]
pub struct VersionReply {
    /// Whether it succeeded.
    pub success: bool,
    /// What it printed, where that is text.
    pub text: Option<String>,
}

/// The version that a reply names.
pub open spec fn version_in(reply: Option<VersionReply>) -> Option<Seq<char>> {
    match reply {
        Some(r) => match r.text {
            Some(text) => if r.success && trim(text@).len() > 0 {
                Some(trim(text@))
            } else {
                None
            },
            None => None,
        },
        None => None,
    }
}

/// The version of the operating system, for reports. There is none where the
/// command could not run, failed or printed nothing.
pub fn os_version(reply: &Option<VersionReply>) -> (version: Option<String>)
    ensures
        crate::text::optional_text(version) == version_in(*reply),
{
    match reply {
        Some(r) => {
            if !r.success {
                return None;
            }
            match &r.text {
                Some(text) => {
                    let chars: Vec<char> = chars_of(text.as_str());
                    let kept: &[char] = trimmed(chars.as_slice());
                    if kept.len() == 0 {
                        None
                    } else {
                        Some(string_of(kept))
                    }
                },
                None => None,
            }
        },
        None => None,
    }
}

} // verus!

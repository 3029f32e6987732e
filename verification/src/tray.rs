//! What the entries of the tray menu set going.

use crate::text::{chars_of, spells};
use vstd::prelude::*;

verus! {

/// What a choice from the tray menu asks for.
#[derive(Clone, Copy, Debug, PartialEq, Eq, Structural)]
pub enum TrayAction {
    /// Show and focus the settings window.
    ShowSettings,
    /// Start the transcription service.
    StartBackend,
    /// Reserved for a test recording; nothing happens yet.
    TestRecording,
    /// Leave the application.
    Quit,
    /// An entry the application does not know.
    Nothing,
}

/// The action behind the menu entry with the given identifier.
pub open spec fn action_of(id: Seq<char>) -> TrayAction {
    if id == "settings"@ {
        TrayAction::ShowSettings
    } else if id == "start_backend"@ {
        TrayAction::StartBackend
    } else if id == "test_recording"@ {
        TrayAction::TestRecording
    } else if id == "quit"@ {
        TrayAction::Quit
    } else {
        TrayAction::Nothing
    }
}

/// Looks a menu entry up by its identifier.
pub fn menu_action(id: &str) -> (action: TrayAction)
    ensures
        action == action_of(id@),
{
    let chars = chars_of(id);
    let s = chars.as_slice();
    let len: usize = s.len();
    assert(s@.subrange(0, len as int) =~= id@);
    if spells(s, 0, len, "settings") {
        TrayAction::ShowSettings
    } else if spells(s, 0, len, "start_backend") {
        TrayAction::StartBackend
    } else if spells(s, 0, len, "test_recording") {
        TrayAction::TestRecording
    } else if spells(s, 0, len, "quit") {
        TrayAction::Quit
    } else {
        TrayAction::Nothing
    }
}

} // verus!

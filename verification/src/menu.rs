//! Application states and actions the system-tray menu works with. The
//! tray itself is platform UI owned by the surrounding runtime; these
//! values are what it reports and reacts to.

use vstd::prelude::*;

verus! {

/// What the application is doing, as shown in the menu and tray icon.
#[derive(Debug, Clone, Copy, PartialEq, Eq, Structural)]
pub enum AppState {
    Idle,
    Recording,
    Processing,
}

/// Actions a user can trigger from the menu.
#[derive(Debug, Clone, Copy, PartialEq, Eq, Structural)]
pub enum MenuAction {
    ToggleRecording,
    OpenSettings,
    Quit,
}

/// How transcribed text leaves the application.
#[derive(Debug, Clone, Copy, PartialEq, Eq, Structural)]
pub enum OutputMethod {
    /// Type the text using keyboard simulation.
    TypeText,
    /// Copy to the clipboard.
    Clipboard,
    /// Both: type and copy.
    Both,
}

impl Default for OutputMethod {
    /// Typing the text out.
    fn default() -> (r: OutputMethod)
        ensures
            r == OutputMethod::TypeText,
    {
        OutputMethod::TypeText
    }
}

/// The menu caption and enablement for each application state: idle and
/// recording offer to start or stop, processing disables the entry.
pub fn recording_entry_for_state(state: AppState) -> (r: (&'static str, bool))
    ensures
        state == AppState::Idle ==> r.0@ == "Start Recording"@ && r.1,
        state == AppState::Recording ==> r.0@ == "Stop Recording"@ && r.1,
        state == AppState::Processing ==> r.0@ == "Processing..."@ && !r.1,
{
    match state {
        AppState::Idle => ("Start Recording", true),
        AppState::Recording => ("Stop Recording", true),
        AppState::Processing => ("Processing...", false),
    }
}

} // verus!

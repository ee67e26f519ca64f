//! State of the settings window: the edited configuration, the
//! unsaved-changes flag and the status line. Rendering and persistence
//! belong to the surrounding runtime; the state transitions live here.

use vstd::prelude::*;

verus! {

use crate::config::{is_default_config, Config};
use vstd::string::StringExecFns;

/// The settings window's state.
pub struct SettingsWindow {
    /// The configuration being edited.
    pub config: Config,
    /// Whether edits have not been saved yet.
    pub has_changes: bool,
    /// The last status line shown to the user, if any.
    pub status_message: Option<String>,
    /// Whether the advanced section is unfolded.
    pub show_advanced: bool,
}

impl SettingsWindow {
    /// A window editing `config`, with nothing changed yet and no
    /// status line.
    pub fn new(config: Config) -> (r: SettingsWindow)
        ensures
            r.config == config,
            !r.has_changes,
            r.status_message is None,
            !r.show_advanced,
    {
        SettingsWindow { config, has_changes: false, status_message: None, show_advanced: false }
    }

    /// Replace the edited configuration by the defaults; this is an
    /// unsaved change and says so in the status line.
    pub fn reset_to_defaults(&mut self)
        ensures
            is_default_config(final(self).config),
            final(self).has_changes,
            final(self).status_message matches Some(m) && m@ == "Settings reset to defaults"@,
            final(self).show_advanced == old(self).show_advanced,
    {
        self.config = Config::default();
        self.has_changes = true;
        self.status_message = Some(String::from_str("Settings reset to defaults"));
    }

    /// Record the outcome of an attempt to save: success clears the
    /// unsaved-changes flag, failure keeps it, and either way the status
    /// line reports what happened.
    pub fn apply_save_outcome(&mut self, outcome: Result<(), String>)
        ensures
            final(self).config == old(self).config,
            final(self).show_advanced == old(self).show_advanced,
            outcome is Ok ==> ({
                &&& !final(self).has_changes
                &&& final(self).status_message matches Some(m) && m@
                    == "Settings saved successfully!"@
            }),
            outcome is Err ==> ({
                &&& final(self).has_changes == old(self).has_changes
                &&& final(self).status_message matches Some(m) && m@
                    == "Error saving settings: "@ + outcome.unwrap_err()@
            }),
    {
        match outcome {
            Ok(()) => {
                self.has_changes = false;
                self.status_message = Some(String::from_str("Settings saved successfully!"));
            },
            Err(e) => {
                let mut msg = String::from_str("Error saving settings: ");
                msg.append(e.as_str());
                self.status_message = Some(msg);
            },
        }
    }
}

} // verus!

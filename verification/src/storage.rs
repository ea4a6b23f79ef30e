//! The in-memory settings store. The settings travel as plain values; the
//! on-disk format and its file handling belong to the embedding program.

use vstd::prelude::*;

use crate::tray::Discovery;

verus! {

/// The user-facing settings the core consumes: the discovery policy, the
/// command server's port, and the shell preferences.
#[derive(Debug, Clone, Copy, PartialEq, Eq, Structural)]
pub struct Settings {
    pub duration: Discovery,
    pub port_address: u16,
    pub exit_to_tray: bool,
    pub autostart: bool,
}

impl Default for Settings {
    /// The out-of-the-box settings: discovery always on, port 9002, exit to
    /// tray and autostart enabled.
    fn default() -> (r: Settings)
        ensures
            r.duration == Discovery::AlwaysOn,
            r.port_address == 9002,
            r.exit_to_tray,
            r.autostart,
    {
        Settings {
            duration: Discovery::AlwaysOn,
            port_address: 9002,
            exit_to_tray: true,
            autostart: true,
        }
    }
}

/// The current settings, exclusively owned here; readers get copies.
pub struct Storage {
    settings: Settings,
}

impl Storage {
    pub fn new() -> (r: Storage)
        ensures
            r.spec_settings().duration == Discovery::AlwaysOn,
            r.spec_settings().port_address == 9002,
    {
        Storage { settings: Settings::default() }
    }

    pub closed spec fn spec_settings(self) -> Settings {
        self.settings
    }

    /// A copy of the current settings.
    pub fn get(&self) -> (r: Settings)
        ensures
            r == self.spec_settings(),
    {
        self.settings
    }

    /// A copy of the current settings, under the name the settings file code
    /// has always used.
    pub fn get_settings(&self) -> (r: Settings)
        ensures
            r == self.spec_settings(),
    {
        self.settings
    }

    /// Replace the current settings.
    pub fn update(&mut self, value: Settings)
        ensures
            final(self).spec_settings() == value,
    {
        self.settings = value;
    }
}

} // verus!

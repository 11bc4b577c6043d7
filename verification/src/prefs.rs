//! Persisted user preferences. The store itself is an external collaborator;
//! this module only defines the value and its defaults.

use vstd::prelude::*;

verus! {

/// The unit temperatures are displayed in.
#[derive(Debug, Clone, Copy, PartialEq, Eq, Structural)]
pub enum TemperatureUnit {
    Fahrenheit,
    Celsius,
}

/// Preferences kept across runs.
#[derive(Debug, Clone, PartialEq)]
pub struct UserPreferences {
    pub adapter: String,
    pub unit: TemperatureUnit,
    pub autoconnect_last_device: bool,
}

impl Default for UserPreferences {
    /// No adapter chosen yet, Fahrenheit display, no automatic reconnect.
    fn default() -> (r: Self)
        ensures
            r.adapter@ == Seq::<char>::empty(),
            r.unit == TemperatureUnit::Fahrenheit,
            !r.autoconnect_last_device,
    {
        Self {
            adapter: String::new(),
            unit: TemperatureUnit::Fahrenheit,
            autoconnect_last_device: false,
        }
    }
}

} // verus!

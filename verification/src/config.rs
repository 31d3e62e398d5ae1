use vstd::prelude::*;

verus! {

/// The pointer settings that one profile applies.
#[derive(Debug, Clone, PartialEq, Eq)]
pub struct Profile {
    pub speed: u32,
    pub enhance_precision: bool,
}

/// The hotkey strings of the settings file.
#[derive(Debug, Clone, PartialEq, Eq)]
pub struct HotkeyConfig {
    pub toggle: String,
    pub speed_up: String,
    pub speed_down: String,
}

/// The whole settings file: two profiles and the hotkeys.
#[derive(Debug, Clone, PartialEq, Eq)]
pub struct Config {
    pub normal: Profile,
    pub gaming: Profile,
    pub hotkey: HotkeyConfig,
}

/// The settings written when no settings file exists yet.
pub open spec fn is_default_config(c: Config) -> bool {
    &&& c.normal == Profile { speed: 10, enhance_precision: true }
    &&& c.gaming == Profile { speed: 4, enhance_precision: false }
    &&& c.hotkey.toggle@ == "Ctrl+Alt+KeyM"@
    &&& c.hotkey.speed_up@ == "Ctrl+Alt+ArrowUp"@
    &&& c.hotkey.speed_down@ == "Ctrl+Alt+ArrowDown"@
}

impl Config {
    /// Normal: speed 10 with pointer precision; gaming: speed 4 without it;
    /// hotkeys Ctrl+Alt+KeyM, Ctrl+Alt+ArrowUp and Ctrl+Alt+ArrowDown.
    pub fn default_values() -> (c: Self)
        ensures
            is_default_config(c),
    {
        Config {
            normal: Profile { speed: 10, enhance_precision: true },
            gaming: Profile { speed: 4, enhance_precision: false },
            hotkey: HotkeyConfig {
                toggle: String::from_str("Ctrl+Alt+KeyM"),
                speed_up: String::from_str("Ctrl+Alt+ArrowUp"),
                speed_down: String::from_str("Ctrl+Alt+ArrowDown"),
            },
        }
    }
}

} // verus!

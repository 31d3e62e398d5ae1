use vstd::prelude::*;

use crate::config::Profile;
use vstd::std_specs::convert::FromSpecImpl;

verus! {

/// The pointer settings as the system holds them: the speed (1 to 20) and
/// whether "enhance pointer precision" (acceleration) is on.
#[derive(Debug, Clone, PartialEq, Eq)]
pub struct MouseSettings {
    pub speed: u32,
    pub enhance_precision: bool,
}

/// The settings that a profile stands for.
pub open spec fn settings_of(p: Profile) -> MouseSettings {
    MouseSettings { speed: p.speed, enhance_precision: p.enhance_precision }
}

impl From<Profile> for MouseSettings {
    fn from(p: Profile) -> (r: MouseSettings)
        ensures
            r.speed == p.speed,
            r.enhance_precision == p.enhance_precision,
    {
        MouseSettings { speed: p.speed, enhance_precision: p.enhance_precision }
    }
}

impl FromSpecImpl<Profile> for MouseSettings {
    open spec fn obeys_from_spec() -> bool {
        true
    }

    open spec fn from_spec(p: Profile) -> MouseSettings {
        settings_of(p)
    }
}

/// The settings read back from the system: its pointer speed, and the third of
/// its three mouse parameters, which is non-zero when acceleration is on.
pub fn settings_from_system(speed: u32, mouse_params: [u32; 3]) -> (r: MouseSettings)
    ensures
        r.speed == speed,
        r.enhance_precision == (mouse_params@[2] != 0),
{
    MouseSettings { speed, enhance_precision: mouse_params[2] != 0 }
}

/// The mouse parameters to hand back to the system: the current ones with the
/// acceleration flag (the third) set to 1 or 0.
pub fn mouse_params_with_precision(mouse_params: [u32; 3], enhance_precision: bool) -> (r: [u32; 3])
    ensures
        r@ == mouse_params@.update(2, if enhance_precision { 1u32 } else { 0u32 }),
{
    let mut out = mouse_params;
    out[2] = if enhance_precision { 1 } else { 0 };
    out
}

/// The settings of a profile carry exactly its speed and its acceleration
/// flag, whatever the speed.
pub proof fn lemma_settings_copy_profile(p: Profile)
    ensures
        settings_of(p).speed == p.speed,
        settings_of(p).enhance_precision == p.enhance_precision,
        <MouseSettings as vstd::std_specs::convert::FromSpec<Profile>>::from_spec(p) == (MouseSettings {
            speed: p.speed,
            enhance_precision: p.enhance_precision,
        }),
{
}

/// Writing the acceleration flag into the mouse parameters and reading the
/// settings back gives the flag that was written, and leaves the threshold
/// parameters as they were.
pub proof fn lemma_precision_round_trip(speed: u32, mouse_params: [u32; 3], enhance_precision: bool)
    ensures
        ({
            let written = mouse_params@.update(2, if enhance_precision { 1u32 } else { 0u32 });
            &&& (written[2] != 0) == enhance_precision
            &&& written[0] == mouse_params@[0]
            &&& written[1] == mouse_params@[1]
        }),
{
}

} // verus!

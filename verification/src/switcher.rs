use vstd::prelude::*;

use crate::config::{Config, Profile};
use crate::mouse::{settings_of, MouseSettings};
use crate::tray::{
    is_open_config, is_quit, is_toggle, menu_id_to_profile, profile_of_menu_id, toggled,
    CurrentProfile, MENU_ID_OPEN_CONFIG, MENU_ID_QUIT, MENU_ID_TOGGLE,
};

verus! {

/// The state of the running switcher: the profile in force, the settings,
/// and the ids of the three registered hotkeys.
pub struct Switcher {
    pub profile: CurrentProfile,
    pub config: Config,
    pub hotkey_toggle_id: u32,
    pub hotkey_speed_up_id: u32,
    pub hotkey_speed_down_id: u32,
}

/// What the user asked for, by hotkey or by menu.
#[derive(Debug, Clone, Copy, PartialEq, Eq, Structural)]
pub enum Command {
    Toggle,
    SwitchTo(CurrentProfile),
    ChangeSpeed(i32),
    ToggleAcceleration,
    OpenConfig,
    Quit,
}

/// What the caller has to do after a command: apply the settings to the
/// system (and, for a changed profile setting, also save the settings file),
/// then refresh the tray; open the settings file; or quit.
#[derive(Debug, Clone, PartialEq, Eq)]
pub enum Outcome {
    Unchanged,
    Switched(MouseSettings),
    SpeedChanged(MouseSettings),
    AccelerationToggled(MouseSettings),
    OpenConfig,
    Quit,
}

/// The lowest and the highest pointer speed.
pub const MIN_SPEED: u32 = 1;
pub const MAX_SPEED: u32 = 20;

/// A `u32` read as an `i32` (two's complement, as `as i32` does).
pub open spec fn as_i32(x: u32) -> int {
    if x <= i32::MAX {
        x as int
    } else {
        x - 0x1_0000_0000
    }
}

pub open spec fn clamp(v: int, lo: int, hi: int) -> int {
    if v < lo {
        lo
    } else if v > hi {
        hi
    } else {
        v
    }
}

/// Adding `delta` to `speed` as `i32` values does not overflow.
pub open spec fn speed_step_fits(speed: u32, delta: i32) -> bool {
    i32::MIN <= as_i32(speed) + delta <= i32::MAX
}

/// The speed after a step: the sum, kept between 1 and 20.
pub open spec fn stepped_speed(speed: u32, delta: i32) -> u32 {
    clamp(as_i32(speed) + delta, MIN_SPEED as int, MAX_SPEED as int) as u32
}

pub open spec fn active_profile_of(s: Switcher) -> Profile {
    match s.profile {
        CurrentProfile::Normal => s.config.normal,
        CurrentProfile::Gaming => s.config.gaming,
    }
}

/// The state with the profile in force replaced by `p`; nothing else changes.
pub open spec fn with_active_profile(s: Switcher, p: Profile) -> Switcher {
    match s.profile {
        CurrentProfile::Normal => Switcher { config: Config { normal: p, ..s.config }, ..s },
        CurrentProfile::Gaming => Switcher { config: Config { gaming: p, ..s.config }, ..s },
    }
}

/// The state after the acceleration of the profile in force is flipped.
pub open spec fn acceleration_toggled(s: Switcher) -> Switcher {
    let p = active_profile_of(s);
    with_active_profile(s, Profile { enhance_precision: !p.enhance_precision, ..p })
}

/// The command that a hotkey id stands for.
pub open spec fn command_of_hotkey(s: Switcher, id: u32) -> Option<Command> {
    if id == s.hotkey_toggle_id {
        Some(Command::Toggle)
    } else if id == s.hotkey_speed_up_id {
        Some(Command::ChangeSpeed(1i32))
    } else if id == s.hotkey_speed_down_id {
        Some(Command::ChangeSpeed(-1i32))
    } else {
        None
    }
}

/// The command that a menu entry id stands for.
pub open spec fn command_of_menu_id(id: Seq<char>) -> Option<Command> {
    if id == MENU_ID_TOGGLE@ {
        Some(Command::Toggle)
    } else if profile_of_menu_id(id) is Some {
        Some(Command::SwitchTo(profile_of_menu_id(id)->0))
    } else if id == MENU_ID_OPEN_CONFIG@ {
        Some(Command::OpenConfig)
    } else if id == MENU_ID_QUIT@ {
        Some(Command::Quit)
    } else {
        None
    }
}

/// Putting `p` in force.
pub open spec fn switch_spec(s: Switcher, p: CurrentProfile) -> (Switcher, Outcome) {
    if s.profile == p {
        (s, Outcome::Unchanged)
    } else {
        let t = Switcher { profile: p, ..s };
        (t, Outcome::Switched(settings_of(active_profile_of(t))))
    }
}

/// Putting the other profile in force.
pub open spec fn toggle_spec(s: Switcher) -> (Switcher, Outcome) {
    switch_spec(s, toggled(s.profile))
}

/// A speed step of the profile in force.
pub open spec fn change_speed_spec(s: Switcher, delta: i32) -> (Switcher, Outcome) {
    let p = active_profile_of(s);
    let speed = stepped_speed(p.speed, delta);
    if speed == p.speed {
        (s, Outcome::Unchanged)
    } else {
        let q = Profile { speed, ..p };
        (with_active_profile(s, q), Outcome::SpeedChanged(settings_of(q)))
    }
}

/// An acceleration flip of the profile in force.
pub open spec fn toggle_accel_spec(s: Switcher) -> (Switcher, Outcome) {
    let t = acceleration_toggled(s);
    (t, Outcome::AccelerationToggled(settings_of(active_profile_of(t))))
}

/// A command can be carried out: a speed step must not overflow `i32`.
pub open spec fn command_allowed(s: Switcher, c: Command) -> bool {
    c matches Command::ChangeSpeed(d) ==> speed_step_fits(active_profile_of(s).speed, d)
}

/// The state after a command, and what the caller has to do.
pub open spec fn step_spec(s: Switcher, c: Command) -> (Switcher, Outcome) {
    match c {
        Command::Toggle => toggle_spec(s),
        Command::SwitchTo(p) => switch_spec(s, p),
        Command::ChangeSpeed(d) => change_speed_spec(s, d),
        Command::ToggleAcceleration => toggle_accel_spec(s),
        Command::OpenConfig => (s, Outcome::OpenConfig),
        Command::Quit => (s, Outcome::Quit),
    }
}

fn copy_profile(p: &Profile) -> (r: Profile)
    ensures
        r == *p,
{
    Profile { speed: p.speed, enhance_precision: p.enhance_precision }
}

fn settings_from_profile(p: &Profile) -> (r: MouseSettings)
    ensures
        r == settings_of(*p),
        r.speed == p.speed,
        r.enhance_precision == p.enhance_precision,
{
    MouseSettings { speed: p.speed, enhance_precision: p.enhance_precision }
}

/// `speed` read as an `i32`, as `speed as i32` does.
fn speed_as_i32(speed: u32) -> (r: i32)
    ensures
        r as int == as_i32(speed),
{
    if speed <= 2147483647 {
        speed as i32
    } else {
        let low = (speed - 2147483648) as i32;
        low - 2147483647 - 1
    }
}

/// The speed after a step of `delta`: `speed + delta` as `i32`, kept between
/// 1 and 20.
pub fn step_speed(speed: u32, delta: i32) -> (r: u32)
    requires
        speed_step_fits(speed, delta),
    ensures
        r == stepped_speed(speed, delta),
        MIN_SPEED <= r <= MAX_SPEED,
        speed <= i32::MAX && 1 <= speed + delta <= 20 ==> r == speed + delta,
        speed <= i32::MAX && speed + delta < 1 ==> r == 1,
        speed <= i32::MAX && speed + delta > 20 ==> r == 20,
        speed > i32::MAX && delta <= 1 ==> r == 1,
{
    let sum = speed_as_i32(speed) + delta;
    if sum < 1 {
        MIN_SPEED
    } else if sum > 20 {
        MAX_SPEED
    } else {
        sum as u32
    }
}

/// The command of a menu entry id; none for an id the menu does not hold.
pub fn handle_menu_event(id: &str) -> (r: Option<Command>)
    ensures
        r == command_of_menu_id(id@),
{
    if is_toggle(id) {
        Some(Command::Toggle)
    } else {
        match menu_id_to_profile(id) {
            Some(p) => Some(Command::SwitchTo(p)),
            None => {
                if is_open_config(id) {
                    Some(Command::OpenConfig)
                } else if is_quit(id) {
                    Some(Command::Quit)
                } else {
                    None
                }
            },
        }
    }
}

impl Switcher {
    /// The state at start: the Normal profile in force.
    pub fn new(
        config: Config,
        hotkey_toggle_id: u32,
        hotkey_speed_up_id: u32,
        hotkey_speed_down_id: u32,
    ) -> (r: Switcher)
        ensures
            r == (Switcher {
                profile: CurrentProfile::Normal,
                config,
                hotkey_toggle_id,
                hotkey_speed_up_id,
                hotkey_speed_down_id,
            }),
    {
        Switcher {
            profile: CurrentProfile::Normal,
            config,
            hotkey_toggle_id,
            hotkey_speed_up_id,
            hotkey_speed_down_id,
        }
    }

    /// The settings of the profile in force (what the tray shows).
    pub fn active_profile(&self) -> (r: &Profile)
        ensures
            *r == active_profile_of(*self),
    {
        match self.profile {
            CurrentProfile::Normal => &self.config.normal,
            CurrentProfile::Gaming => &self.config.gaming,
        }
    }

    fn set_active_profile(&mut self, p: Profile)
        ensures
            *final(self) == with_active_profile(*old(self), p),
    {
        match self.profile {
            CurrentProfile::Normal => self.config.normal = p,
            CurrentProfile::Gaming => self.config.gaming = p,
        }
    }

    /// The command of a pressed hotkey; the toggle hotkey first, then speed
    /// up, then speed down.
    pub fn handle_hotkey(&self, hotkey_id: u32) -> (r: Option<Command>)
        ensures
            r == command_of_hotkey(*self, hotkey_id),
            hotkey_id == self.hotkey_toggle_id ==> r == Some(Command::Toggle),
            hotkey_id != self.hotkey_toggle_id && hotkey_id == self.hotkey_speed_up_id ==> r == Some(
                Command::ChangeSpeed(1i32),
            ),
            hotkey_id != self.hotkey_toggle_id && hotkey_id != self.hotkey_speed_up_id && hotkey_id
                == self.hotkey_speed_down_id ==> r == Some(Command::ChangeSpeed(-1i32)),
            hotkey_id != self.hotkey_toggle_id && hotkey_id != self.hotkey_speed_up_id && hotkey_id
                != self.hotkey_speed_down_id ==> r is None,
    {
        if hotkey_id == self.hotkey_toggle_id {
            Some(Command::Toggle)
        } else if hotkey_id == self.hotkey_speed_up_id {
            Some(Command::ChangeSpeed(1))
        } else if hotkey_id == self.hotkey_speed_down_id {
            Some(Command::ChangeSpeed(-1))
        } else {
            None
        }
    }

    /// Puts `profile` in force. Nothing happens when it already is; otherwise
    /// its settings are to be applied and the tray refreshed.
    pub fn switch_to_profile(&mut self, profile: CurrentProfile) -> (r: Outcome)
        ensures
            (*final(self), r) == switch_spec(*old(self), profile),
            final(self).profile == profile,
            final(self).config == old(self).config,
            old(self).profile == profile ==> r == Outcome::Unchanged,
            old(self).profile != profile ==> r == Outcome::Switched(
                MouseSettings {
                    speed: (if profile == CurrentProfile::Normal {
                        old(self).config.normal
                    } else {
                        old(self).config.gaming
                    }).speed,
                    enhance_precision: (if profile == CurrentProfile::Normal {
                        old(self).config.normal
                    } else {
                        old(self).config.gaming
                    }).enhance_precision,
                },
            ),
    {
        if self.profile == profile {
            return Outcome::Unchanged;
        }
        self.profile = profile;
        let settings = settings_from_profile(self.active_profile());
        Outcome::Switched(settings)
    }

    /// Puts the other profile in force.
    pub fn do_toggle(&mut self) -> (r: Outcome)
        ensures
            (*final(self), r) == toggle_spec(*old(self)),
            final(self).profile == toggled(old(self).profile),
    {
        let next = match self.profile {
            CurrentProfile::Normal => CurrentProfile::Gaming,
            CurrentProfile::Gaming => CurrentProfile::Normal,
        };
        self.switch_to_profile(next)
    }

    /// Steps the speed of the profile in force by `delta`, kept between 1 and
    /// 20. When the speed stays as it was nothing happens; otherwise the new
    /// settings are to be applied and saved, and the tray refreshed.
    pub fn do_change_speed(&mut self, delta: i32) -> (r: Outcome)
        requires
            speed_step_fits(active_profile_of(*old(self)).speed, delta),
        ensures
            (*final(self), r) == change_speed_spec(*old(self), delta),
            MIN_SPEED <= active_profile_of(*final(self)).speed <= MAX_SPEED,
    {
        let mut prof = copy_profile(self.active_profile());
        let new_speed = step_speed(prof.speed, delta);
        if new_speed == prof.speed {
            return Outcome::Unchanged;
        }
        prof.speed = new_speed;
        let settings = settings_from_profile(&prof);
        self.set_active_profile(prof);
        Outcome::SpeedChanged(settings)
    }

    /// Flips the acceleration of the profile in force; the new settings are to
    /// be applied and saved, and the tray refreshed.
    pub fn do_toggle_accel(&mut self) -> (r: Outcome)
        ensures
            (*final(self), r) == toggle_accel_spec(*old(self)),
            final(self).profile == old(self).profile,
            final(self).config.hotkey == old(self).config.hotkey,
            old(self).profile == CurrentProfile::Normal ==> final(self).config.normal == (Profile {
                speed: old(self).config.normal.speed,
                enhance_precision: !old(self).config.normal.enhance_precision,
            }) && final(self).config.gaming == old(self).config.gaming && r
                == Outcome::AccelerationToggled(
                MouseSettings {
                    speed: old(self).config.normal.speed,
                    enhance_precision: !old(self).config.normal.enhance_precision,
                },
            ),
            old(self).profile == CurrentProfile::Gaming ==> final(self).config.gaming == (Profile {
                speed: old(self).config.gaming.speed,
                enhance_precision: !old(self).config.gaming.enhance_precision,
            }) && final(self).config.normal == old(self).config.normal && r
                == Outcome::AccelerationToggled(
                MouseSettings {
                    speed: old(self).config.gaming.speed,
                    enhance_precision: !old(self).config.gaming.enhance_precision,
                },
            ),
    {
        let mut prof = copy_profile(self.active_profile());
        prof.enhance_precision = !prof.enhance_precision;
        let settings = settings_from_profile(&prof);
        self.set_active_profile(prof);
        Outcome::AccelerationToggled(settings)
    }

    /// Whether `step` may be given `command` (see `command_allowed`).
    pub fn can_step(&self, command: Command) -> (r: bool)
        ensures
            r == command_allowed(*self, command),
    {
        match command {
            Command::ChangeSpeed(d) => {
                let speed = self.active_profile().speed;
                speed_as_i32(speed).checked_add(d).is_some()
            },
            _ => true,
        }
    }

    /// Carries out one command.
    pub fn step(&mut self, command: Command) -> (r: Outcome)
        requires
            command_allowed(*old(self), command),
        ensures
            (*final(self), r) == step_spec(*old(self), command),
    {
        match command {
            Command::Toggle => self.do_toggle(),
            Command::SwitchTo(p) => self.switch_to_profile(p),
            Command::ChangeSpeed(d) => self.do_change_speed(d),
            Command::ToggleAcceleration => self.do_toggle_accel(),
            Command::OpenConfig => Outcome::OpenConfig,
            Command::Quit => Outcome::Quit,
        }
    }
}

/// Putting a profile in force lands on it and leaves the settings and the
/// hotkeys as they were.
pub proof fn lemma_switch_lands_on_target(s: Switcher, p: CurrentProfile)
    ensures
        switch_spec(s, p).0.profile == p,
        switch_spec(s, p).0.config == s.config,
        switch_spec(s, p).0.hotkey_toggle_id == s.hotkey_toggle_id,
        switch_spec(s, p).0.hotkey_speed_up_id == s.hotkey_speed_up_id,
        switch_spec(s, p).0.hotkey_speed_down_id == s.hotkey_speed_down_id,
{
}

/// Putting the same profile in force a second time changes nothing and asks
/// for nothing.
pub proof fn lemma_switch_idempotent(s: Switcher, p: CurrentProfile)
    ensures
        switch_spec(switch_spec(s, p).0, p) == (switch_spec(s, p).0, Outcome::Unchanged),
{
}

/// Toggling the profile twice gives back the state one started from, and a
/// toggle always asks for the settings of the profile it puts in force.
pub proof fn lemma_toggle_twice_restores(s: Switcher)
    ensures
        toggle_spec(toggle_spec(s).0).0 == s,
        toggle_spec(s).0.profile != s.profile,
        toggle_spec(s).1 == Outcome::Switched(settings_of(active_profile_of(toggle_spec(s).0))),
{
}

/// Whatever the speed was, after a speed step the profile in force has a
/// speed between 1 and 20.
pub proof fn lemma_speed_step_in_range(s: Switcher, delta: i32)
    requires
        speed_step_fits(active_profile_of(s).speed, delta),
    ensures
        MIN_SPEED <= active_profile_of(change_speed_spec(s, delta).0).speed <= MAX_SPEED,
{
}

/// Below the top speed, a step up then a step down gives back the state one
/// started from; above the bottom speed, so does a step down then a step up.
pub proof fn lemma_speed_up_down_restores(s: Switcher)
    ensures
        MIN_SPEED <= active_profile_of(s).speed < MAX_SPEED ==> change_speed_spec(
            change_speed_spec(s, 1i32).0,
            -1i32,
        ).0 == s,
        MIN_SPEED < active_profile_of(s).speed <= MAX_SPEED ==> change_speed_spec(
            change_speed_spec(s, -1i32).0,
            1i32,
        ).0 == s,
{
}

/// At the top speed a step up, and at the bottom speed a step down, changes
/// nothing and asks for nothing.
pub proof fn lemma_speed_saturates(s: Switcher)
    ensures
        active_profile_of(s).speed == MAX_SPEED ==> change_speed_spec(s, 1i32) == (
            s,
            Outcome::Unchanged,
        ),
        active_profile_of(s).speed == MIN_SPEED ==> change_speed_spec(s, -1i32) == (
            s,
            Outcome::Unchanged,
        ),
{
}

/// Flipping the acceleration twice gives back the state one started from.
pub proof fn lemma_acceleration_toggle_twice_restores(s: Switcher)
    ensures
        toggle_accel_spec(toggle_accel_spec(s).0).0 == s,
{
}

/// A speed step or an acceleration flip changes only the profile in force:
/// the other profile, the hotkeys and which profile is in force stay.
pub proof fn lemma_edits_touch_only_active_profile(s: Switcher, delta: i32)
    ensures
        ({
            let t = change_speed_spec(s, delta).0;
            &&& t.profile == s.profile
            &&& t.config.hotkey == s.config.hotkey
            &&& s.profile == CurrentProfile::Normal ==> t.config.gaming == s.config.gaming
            &&& s.profile == CurrentProfile::Gaming ==> t.config.normal == s.config.normal
            &&& active_profile_of(t).enhance_precision == active_profile_of(s).enhance_precision
        }),
        ({
            let t = toggle_accel_spec(s).0;
            &&& t.profile == s.profile
            &&& t.config.hotkey == s.config.hotkey
            &&& s.profile == CurrentProfile::Normal ==> t.config.gaming == s.config.gaming
            &&& s.profile == CurrentProfile::Gaming ==> t.config.normal == s.config.normal
            &&& active_profile_of(t).speed == active_profile_of(s).speed
        }),
{
}

/// A speed step adds `delta` to the speed when the sum lies in 1..20, and
/// stops at 1 or 20 otherwise; a speed past `i32::MAX` reads as negative, as
/// `as i32` does, and steps to 1. In particular, below 20 a step up adds one
/// and above 1 a step down takes one away.
pub proof fn lemma_step_speed_arithmetic(speed: u32, delta: i32)
    ensures
        speed <= i32::MAX && 1 <= speed + delta <= 20 ==> stepped_speed(speed, delta) == speed
            + delta,
        speed <= i32::MAX && speed + delta < 1 ==> stepped_speed(speed, delta) == 1,
        speed <= i32::MAX && speed + delta > 20 ==> stepped_speed(speed, delta) == 20,
        speed > i32::MAX && speed_step_fits(speed, delta) && delta <= 1 ==> stepped_speed(
            speed,
            delta,
        ) == 1,
        1 <= speed < 20 ==> stepped_speed(speed, 1i32) == speed + 1,
        1 < speed <= 20 ==> stepped_speed(speed, -1i32) == speed - 1,
{
}

/// In either profile, below 20 the speed-up command raises the speed of the
/// profile in force by one, and above 1 the speed-down command lowers it by
/// one; the outcome carries the new speed and the profile's own acceleration.
pub proof fn lemma_unit_speed_steps(s: Switcher)
    ensures
        ({
            let p = if s.profile == CurrentProfile::Normal {
                s.config.normal
            } else {
                s.config.gaming
            };
            let up = change_speed_spec(s, 1i32);
            let down = change_speed_spec(s, -1i32);
            &&& 1 <= p.speed < 20 ==> up.1 == Outcome::SpeedChanged(
                MouseSettings { speed: (p.speed + 1) as u32, enhance_precision: p.enhance_precision },
            ) && (if s.profile == CurrentProfile::Normal {
                up.0.config.normal.speed == p.speed + 1 && up.0.config.gaming == s.config.gaming
            } else {
                up.0.config.gaming.speed == p.speed + 1 && up.0.config.normal == s.config.normal
            })
            &&& 1 < p.speed <= 20 ==> down.1 == Outcome::SpeedChanged(
                MouseSettings { speed: (p.speed - 1) as u32, enhance_precision: p.enhance_precision },
            ) && (if s.profile == CurrentProfile::Normal {
                down.0.config.normal.speed == p.speed - 1 && down.0.config.gaming == s.config.gaming
            } else {
                down.0.config.gaming.speed == p.speed - 1 && down.0.config.normal == s.config.normal
            })
        }),
{
}

/// Putting the other profile in force asks to apply exactly that profile's
/// speed and acceleration, whatever they are.
pub proof fn lemma_switch_applies_target_settings(s: Switcher, target: CurrentProfile)
    ensures
        ({
            let q = if target == CurrentProfile::Normal {
                s.config.normal
            } else {
                s.config.gaming
            };
            s.profile != target ==> switch_spec(s, target).1 == Outcome::Switched(
                MouseSettings { speed: q.speed, enhance_precision: q.enhance_precision },
            )
        }),
        ({
            let q = if s.profile == CurrentProfile::Normal {
                s.config.gaming
            } else {
                s.config.normal
            };
            toggle_spec(s).1 == Outcome::Switched(
                MouseSettings { speed: q.speed, enhance_precision: q.enhance_precision },
            )
        }),
{
}

/// The speed-up hotkey raises the speed and the speed-down hotkey lowers it,
/// whatever the numeric order of the ids; the toggle hotkey comes first when
/// ids coincide, and an unknown id asks for nothing.
pub proof fn lemma_hotkey_commands(s: Switcher, id: u32)
    ensures
        id == s.hotkey_toggle_id ==> command_of_hotkey(s, id) == Some(Command::Toggle),
        id != s.hotkey_toggle_id && id == s.hotkey_speed_up_id ==> command_of_hotkey(s, id)
            == Some(Command::ChangeSpeed(1i32)),
        id != s.hotkey_toggle_id && id != s.hotkey_speed_up_id && id == s.hotkey_speed_down_id
            ==> command_of_hotkey(s, id) == Some(Command::ChangeSpeed(-1i32)),
        id != s.hotkey_toggle_id && id != s.hotkey_speed_up_id && id != s.hotkey_speed_down_id
            ==> command_of_hotkey(s, id) is None,
{
}

/// In either profile, an acceleration flip negates the flag of the profile in
/// force, keeps its speed and the other profile, and asks to apply the new
/// flag with that speed.
pub proof fn lemma_acceleration_flip_negates(s: Switcher)
    ensures
        ({
            let (t, r) = toggle_accel_spec(s);
            &&& t.profile == s.profile
            &&& s.profile == CurrentProfile::Normal ==> {
                &&& t.config.normal.enhance_precision == !s.config.normal.enhance_precision
                &&& t.config.normal.speed == s.config.normal.speed
                &&& t.config.gaming == s.config.gaming
                &&& r == Outcome::AccelerationToggled(
                    MouseSettings {
                        speed: s.config.normal.speed,
                        enhance_precision: !s.config.normal.enhance_precision,
                    },
                )
            }
            &&& s.profile == CurrentProfile::Gaming ==> {
                &&& t.config.gaming.enhance_precision == !s.config.gaming.enhance_precision
                &&& t.config.gaming.speed == s.config.gaming.speed
                &&& t.config.normal == s.config.normal
                &&& r == Outcome::AccelerationToggled(
                    MouseSettings {
                        speed: s.config.gaming.speed,
                        enhance_precision: !s.config.gaming.enhance_precision,
                    },
                )
            }
        }),
{
}

/// The menu entry of a profile asks to put that profile in force.
pub proof fn lemma_profile_menu_entry_switches(p: CurrentProfile)
    ensures
        command_of_menu_id(crate::tray::menu_id_of_profile(p)) == Some(Command::SwitchTo(p)),
{
    crate::tray::lemma_menu_ids_distinct(p);
}

} // verus!

use vstd::prelude::*;

use crate::text::text_eq;

verus! {

pub const MENU_ID_NORMAL: &'static str = "normal";
pub const MENU_ID_GAMING: &'static str = "gaming";
pub const MENU_ID_TOGGLE: &'static str = "toggle";
pub const MENU_ID_OPEN_CONFIG: &'static str = "open_config";
pub const MENU_ID_QUIT: &'static str = "quit";

/// The profile in force.
#[derive(Debug, Clone, Copy, PartialEq, Eq, Structural)]
pub enum CurrentProfile {
    Normal,
    Gaming,
}

/// The name under which a profile is shown.
pub open spec fn profile_label(p: CurrentProfile) -> Seq<char> {
    match p {
        CurrentProfile::Normal => "Normal"@,
        CurrentProfile::Gaming => "Gaming"@,
    }
}

/// The other profile.
pub open spec fn toggled(p: CurrentProfile) -> CurrentProfile {
    match p {
        CurrentProfile::Normal => CurrentProfile::Gaming,
        CurrentProfile::Gaming => CurrentProfile::Normal,
    }
}

impl CurrentProfile {
    pub fn label(&self) -> (r: &'static str)
        ensures
            r@ == profile_label(*self),
    {
        match self {
            CurrentProfile::Normal => "Normal",
            CurrentProfile::Gaming => "Gaming",
        }
    }

    pub fn toggle(&mut self)
        ensures
            *final(self) == toggled(*old(self)),
    {
        *self = match self {
            CurrentProfile::Normal => CurrentProfile::Gaming,
            CurrentProfile::Gaming => CurrentProfile::Normal,
        };
    }
}

/// Toggling twice gives back the profile one started from, and toggling
/// always changes the profile.
pub proof fn lemma_toggle_involution(p: CurrentProfile)
    ensures
        toggled(toggled(p)) == p,
        toggled(p) != p,
{
}

/// The profile that a menu entry's id selects.
pub open spec fn profile_of_menu_id(id: Seq<char>) -> Option<CurrentProfile> {
    if id == MENU_ID_NORMAL@ {
        Some(CurrentProfile::Normal)
    } else if id == MENU_ID_GAMING@ {
        Some(CurrentProfile::Gaming)
    } else {
        None
    }
}

/// The id of the menu entry that selects a profile.
pub open spec fn menu_id_of_profile(p: CurrentProfile) -> Seq<char> {
    match p {
        CurrentProfile::Normal => MENU_ID_NORMAL@,
        CurrentProfile::Gaming => MENU_ID_GAMING@,
    }
}

pub fn menu_id_to_profile(id: &str) -> (r: Option<CurrentProfile>)
    ensures
        r == profile_of_menu_id(id@),
{
    if text_eq(id, MENU_ID_NORMAL) {
        Some(CurrentProfile::Normal)
    } else if text_eq(id, MENU_ID_GAMING) {
        Some(CurrentProfile::Gaming)
    } else {
        None
    }
}

pub fn is_toggle(id: &str) -> (r: bool)
    ensures
        r == (id@ == MENU_ID_TOGGLE@),
{
    text_eq(id, MENU_ID_TOGGLE)
}

pub fn is_open_config(id: &str) -> (r: bool)
    ensures
        r == (id@ == MENU_ID_OPEN_CONFIG@),
{
    text_eq(id, MENU_ID_OPEN_CONFIG)
}

pub fn is_quit(id: &str) -> (r: bool)
    ensures
        r == (id@ == MENU_ID_QUIT@),
{
    text_eq(id, MENU_ID_QUIT)
}

/// The menu ids are pairwise distinct, so a menu event selects at most one
/// thing; and the entry of each profile selects that profile.
pub proof fn lemma_menu_ids_distinct(p: CurrentProfile)
    ensures
        profile_of_menu_id(menu_id_of_profile(p)) == Some(p),
        MENU_ID_NORMAL@ != MENU_ID_GAMING@,
        profile_of_menu_id(MENU_ID_TOGGLE@) is None,
        profile_of_menu_id(MENU_ID_OPEN_CONFIG@) is None,
        profile_of_menu_id(MENU_ID_QUIT@) is None,
        MENU_ID_TOGGLE@ != MENU_ID_OPEN_CONFIG@,
        MENU_ID_TOGGLE@ != MENU_ID_QUIT@,
        MENU_ID_OPEN_CONFIG@ != MENU_ID_QUIT@,
{
    reveal_strlit("normal");
    reveal_strlit("gaming");
    reveal_strlit("toggle");
    reveal_strlit("open_config");
    reveal_strlit("quit");
    assert(MENU_ID_NORMAL@[0] != MENU_ID_GAMING@[0]);
    assert(MENU_ID_TOGGLE@[0] != MENU_ID_NORMAL@[0]);
    assert(MENU_ID_TOGGLE@[0] != MENU_ID_GAMING@[0]);
    assert(MENU_ID_OPEN_CONFIG@[0] != MENU_ID_NORMAL@[0]);
    assert(MENU_ID_OPEN_CONFIG@[0] != MENU_ID_GAMING@[0]);
    assert(MENU_ID_QUIT@[0] != MENU_ID_NORMAL@[0]);
    assert(MENU_ID_QUIT@[0] != MENU_ID_GAMING@[0]);
    assert(MENU_ID_TOGGLE@[0] != MENU_ID_OPEN_CONFIG@[0]);
    assert(MENU_ID_TOGGLE@[0] != MENU_ID_QUIT@[0]);
    assert(MENU_ID_OPEN_CONFIG@[0] != MENU_ID_QUIT@[0]);
}

/// One entry of the tray menu, in the order shown.
pub enum MenuEntry {
    /// An entry with a check mark.
    Check { id: String, text: String, checked: bool },
    /// A plain entry.
    Item { id: String, text: String },
    /// A dividing line.
    Separator,
}

pub open spec fn is_check_entry(e: MenuEntry, id: Seq<char>, text: Seq<char>, checked: bool) -> bool {
    e matches MenuEntry::Check { id: i, text: t, checked: c } && i@ == id && t@ == text && c
        == checked
}

pub open spec fn is_item_entry(e: MenuEntry, id: Seq<char>, text: Seq<char>) -> bool {
    e matches MenuEntry::Item { id: i, text: t } && i@ == id && t@ == text
}

/// The tray menu: the two profiles (Normal checked), a divider, the toggle,
/// a divider, then "Open Settings" and "Quit".
pub open spec fn is_tray_menu(m: Seq<MenuEntry>) -> bool {
    &&& m.len() == 7
    &&& is_check_entry(m[0], MENU_ID_NORMAL@, "Normal"@, true)
    &&& is_check_entry(m[1], MENU_ID_GAMING@, "Gaming"@, false)
    &&& m[2] is Separator
    &&& is_item_entry(m[3], MENU_ID_TOGGLE@, "Toggle Profile"@)
    &&& m[4] is Separator
    &&& is_item_entry(m[5], MENU_ID_OPEN_CONFIG@, "Open Settings"@)
    &&& is_item_entry(m[6], MENU_ID_QUIT@, "Quit"@)
}

/// The entries of the tray menu when the tray is first built.
pub fn tray_menu_entries() -> (r: Vec<MenuEntry>)
    ensures
        is_tray_menu(r@),
{
    let mut m: Vec<MenuEntry> = Vec::new();
    m.push(
        MenuEntry::Check {
            id: String::from_str(MENU_ID_NORMAL),
            text: String::from_str("Normal"),
            checked: true,
        },
    );
    m.push(
        MenuEntry::Check {
            id: String::from_str(MENU_ID_GAMING),
            text: String::from_str("Gaming"),
            checked: false,
        },
    );
    m.push(MenuEntry::Separator);
    m.push(
        MenuEntry::Item {
            id: String::from_str(MENU_ID_TOGGLE),
            text: String::from_str("Toggle Profile"),
        },
    );
    m.push(MenuEntry::Separator);
    m.push(
        MenuEntry::Item {
            id: String::from_str(MENU_ID_OPEN_CONFIG),
            text: String::from_str("Open Settings"),
        },
    );
    m.push(
        MenuEntry::Item { id: String::from_str(MENU_ID_QUIT), text: String::from_str("Quit") },
    );
    m
}

/// The tooltip shown for a profile.
pub open spec fn tooltip_of(p: CurrentProfile) -> Seq<char> {
    "Mouse Switcher - "@ + profile_label(p)
}

pub fn tooltip_text(p: CurrentProfile) -> (r: String)
    ensures
        r@ == tooltip_of(p),
{
    let mut t = String::from_str("Mouse Switcher - ");
    t.append(p.label());
    t
}

/// What the tray shows for the profile in force.
pub struct TrayView {
    pub tooltip: String,
    pub normal_checked: bool,
    pub gaming_checked: bool,
}

/// The tray's tooltip and check marks for a profile: the tooltip names it,
/// and exactly its own entry is checked.
pub fn tray_view(profile: CurrentProfile) -> (r: TrayView)
    ensures
        r.tooltip@ == tooltip_of(profile),
        r.normal_checked == (profile == CurrentProfile::Normal),
        r.gaming_checked == (profile == CurrentProfile::Gaming),
        r.normal_checked != r.gaming_checked,
{
    TrayView {
        tooltip: tooltip_text(profile),
        normal_checked: profile == CurrentProfile::Normal,
        gaming_checked: profile == CurrentProfile::Gaming,
    }
}

/// The menu as first built shows the same check marks as the view of the
/// Normal profile, the profile the application starts in.
pub proof fn lemma_initial_menu_shows_normal(m: Seq<MenuEntry>)
    requires
        is_tray_menu(m),
    ensures
        is_check_entry(m[0], menu_id_of_profile(CurrentProfile::Normal), profile_label(CurrentProfile::Normal), true),
        is_check_entry(m[1], menu_id_of_profile(CurrentProfile::Gaming), profile_label(CurrentProfile::Gaming), false),
{
}

} // verus!

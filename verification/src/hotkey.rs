use std::str::FromStr;
use vstd::prelude::*;

use crate::text::{
    contains_text, has_occurrence, lowercase, replace_all, replace_text, to_lowercase,
};
use global_hotkey::hotkey::HotKey;

verus! {

#[verifier::external_type_specification]
#[verifier::external_body]
pub struct ExHotKey(HotKey);

/// Whether `<HotKey as FromStr>::from_str` accepts a text. The parser reads
/// the text alone: modifiers, then one key, separated by `+`.
pub uninterp spec fn hotkey_text_accepted(text: Seq<char>) -> bool;

/// Calls `<HotKey as FromStr>::from_str` and keeps the hotkey when it parses.
/// The contract claims only when a hotkey comes back; which modifiers and key it
/// holds is left unsaid (the meaning of `CmdOrCtrl` differs between platforms).
#[verifier::external_body]
fn hotkey_from_str(text: &str) -> (r: Option<HotKey>)
    ensures
        r is Some <==> hotkey_text_accepted(text@),
{
    HotKey::from_str(text).ok()
}

/// The second spelling tried for a hotkey that does not parse as written:
/// lower-cased, with `arrowup`/`up` turned into `Plus`, or else with
/// `arrowdown`/`down` turned into `Minus`; none when the text names neither.
pub open spec fn fallback_text(s: Seq<char>) -> Option<Seq<char>> {
    let l = lowercase(s);
    if has_occurrence(l, "arrowup"@) || has_occurrence(l, "up"@) {
        Some(replace_all(replace_all(lowercase(l), "arrowup"@, "Plus"@), "up"@, "Plus"@))
    } else if has_occurrence(l, "arrowdown"@) || has_occurrence(l, "down"@) {
        Some(replace_all(replace_all(lowercase(l), "arrowdown"@, "Minus"@), "down"@, "Minus"@))
    } else {
        None
    }
}

/// Whether a hotkey setting yields a hotkey, as written or by its second spelling.
pub open spec fn hotkey_setting_usable(s: Seq<char>) -> bool {
    ||| hotkey_text_accepted(s)
    ||| (fallback_text(s) matches Some(t) && hotkey_text_accepted(t))
}

/// The second spelling of a hotkey setting (see `fallback_text`).
pub fn hotkey_fallback_text(s: &str) -> (r: Option<String>)
    ensures
        match r {
            Some(t) => fallback_text(s@) == Some(t@),
            None => fallback_text(s@) is None,
        },
{
    proof {
        reveal_strlit("arrowup");
        reveal_strlit("up");
        reveal_strlit("arrowdown");
        reveal_strlit("down");
    }
    let lower = to_lowercase(s);
    let l = lower.as_str();
    if contains_text(l, "arrowup") || contains_text(l, "up") {
        let again = to_lowercase(l);
        let first = replace_text(again.as_str(), "arrowup", "Plus");
        Some(replace_text(first.as_str(), "up", "Plus"))
    } else if contains_text(l, "arrowdown") || contains_text(l, "down") {
        let again = to_lowercase(l);
        let first = replace_text(again.as_str(), "arrowdown", "Minus");
        Some(replace_text(first.as_str(), "down", "Minus"))
    } else {
        None
    }
}

/// The hotkey that a setting yields, from the parse of the setting as written
/// (`direct`) and the parse of its second spelling (`second`): the first wins.
pub fn choose_hotkey(direct: Option<HotKey>, second: Option<HotKey>) -> (r: Option<HotKey>)
    ensures
        direct is Some ==> r == direct,
        direct is None ==> r == second,
{
    match direct {
        Some(h) => Some(h),
        None => second,
    }
}

/// What reading a setting with the parser `parse` gives: when `parse` accepts
/// the setting as written, that very result; otherwise the result of `parse` on
/// the second spelling, or none when there is no second spelling.
pub open spec fn read_setting_with<F: Fn(&str) -> Option<HotKey>>(
    parse: F,
    s: &str,
    r: Option<HotKey>,
) -> bool {
    exists|d: Option<HotKey>|
        #![trigger parse.ensures((s,), d)]
        {
            &&& parse.ensures((s,), d)
            &&& d is Some ==> r == d
            &&& d is None ==> match fallback_text(s@) {
                None => r is None,
                Some(t) => exists|x: &str, e: Option<HotKey>|
                    #![trigger parse.ensures((x,), e)]
                    x@ == t && parse.ensures((x,), e) && r == e,
            }
        }
}

/// Reads a hotkey setting with any parser: the setting as written wins, and
/// the second spelling is parsed only when the setting as written does not
/// parse. The contract holds for every parser, so the order cannot be swapped.
pub fn parse_setting_with<F: Fn(&str) -> Option<HotKey>>(s: &str, parse: F) -> (r: Option<
    HotKey,
>)
    requires
        forall|t: &str| #[trigger] parse.requires((t,)),
    ensures
        read_setting_with(parse, s, r),
{
    let direct = parse(s);
    let second = if direct.is_some() {
        None
    } else {
        match hotkey_fallback_text(s) {
            Some(t) => {
                let x = t.as_str();
                let e = parse(x);
                assert(parse.ensures((x,), e));
                e
            },
            None => None,
        }
    };
    let r = choose_hotkey(direct, second);
    assert(parse.ensures((s,), direct));
    r
}

/// Reads a hotkey setting: as written, or else by its second spelling, which
/// is only parsed when the setting as written does not parse.
pub fn parse_hotkey(s: &str) -> (r: Option<HotKey>)
    ensures
        r is Some <==> hotkey_setting_usable(s@),
{
    parse_setting_with(s, hotkey_from_str)
}

} // verus!

//! What the screens display. Rendering itself is done by the terminal layer;
//! the text and classification of what is shown is decided here.
//!
//! State classification pairs a symbol and text with a tone so that
//! it stays readable without colour.

pub mod dashboard;
pub mod diagnostics;
pub mod events;
pub mod help;
pub mod interfaces;
pub mod policies;
pub mod routing;
pub mod sdwan;
pub mod sessions;
pub mod system;
pub mod vpn;

use vstd::prelude::*;
use crate::models::LinkState;
use crate::text::{chars_of, contains, contains_chars, to_lowercase, trim, trim_chars, string_from_chars, lowercase_text};

verus! {

/// The currently active screen.
#[derive(Debug, Clone, Copy, PartialEq, Eq, Structural)]
pub enum Screen {
    Dashboard,
    Interfaces,
    System,
    Sdwan,
    Sessions,
    Policies,
    Ipsec,
    Routing,
    Events,
    Help,
    Diagnostics,
}

/// The title of a screen.
pub open spec fn screen_title(s: Screen) -> Seq<char> {
    match s {
        Screen::Dashboard => "Dashboard"@,
        Screen::Interfaces => "Interfaces"@,
        Screen::System => "System"@,
        Screen::Sdwan => "SD-WAN"@,
        Screen::Sessions => "Sessions"@,
        Screen::Policies => "Firewall Policies"@,
        Screen::Ipsec => "IPsec"@,
        Screen::Routing => "Routing"@,
        Screen::Events => "Events"@,
        Screen::Help => "Help"@,
        Screen::Diagnostics => "Diagnostics"@,
    }
}

impl Screen {
    /// The screen's title.
    pub fn title(self) -> (t: &'static str)
        ensures
            t@ == screen_title(self),
    {
        match self {
            Screen::Dashboard => "Dashboard",
            Screen::Interfaces => "Interfaces",
            Screen::System => "System",
            Screen::Sdwan => "SD-WAN",
            Screen::Sessions => "Sessions",
            Screen::Policies => "Firewall Policies",
            Screen::Ipsec => "IPsec",
            Screen::Routing => "Routing",
            Screen::Events => "Events",
            Screen::Help => "Help",
            Screen::Diagnostics => "Diagnostics",
        }
    }
}

/// The tone in which a state is shown.
#[derive(Debug, Clone, Copy, PartialEq, Eq, Structural)]
pub enum Tone {
    Green,
    /// Green and bold.
    GreenBold,
    Red,
    /// Red and bold.
    RedBold,
    Yellow,
    Cyan,
    Magenta,
    Gray,
    Plain,
}

/// An up/down state tag: `● UP` in green, `✕ DOWN` in red.
pub fn tag(up: bool) -> (r: (&'static str, Tone))
    ensures
        up ==> r.0@ == "● UP"@ && r.1 == Tone::Green,
        !up ==> r.0@ == "✕ DOWN"@ && r.1 == Tone::Red,
{
    if up {
        ("● UP", Tone::Green)
    } else {
        ("✕ DOWN", Tone::Red)
    }
}

/// The tag of a link state: up, down, or `? UNKNOWN` in yellow.
pub fn link_tag(link: LinkState) -> (r: (&'static str, Tone))
    ensures
        link == LinkState::Up ==> r.0@ == "● UP"@ && r.1 == Tone::Green,
        link == LinkState::Down ==> r.0@ == "✕ DOWN"@ && r.1 == Tone::Red,
        link == LinkState::Unknown ==> r.0@ == "? UNKNOWN"@ && r.1 == Tone::Yellow,
{
    match link {
        LinkState::Up => ("● UP", Tone::Green),
        LinkState::Down => ("✕ DOWN", Tone::Red),
        LinkState::Unknown => ("? UNKNOWN", Tone::Yellow),
    }
}

/// The search needle as compared: trimmed, then lower-cased.
pub open spec fn needle_of(needle: Seq<char>) -> Seq<char> {
    lowercase_text(trim(needle))
}

/// Some field of `hay` contains the needle, ignoring case; an empty needle
/// matches everything.
pub open spec fn search_matches(needle: Seq<char>, hay: Seq<Seq<char>>) -> bool {
    let n = needle_of(needle);
    n.len() == 0 || exists|i: int| 0 <= i < hay.len() && contains(lowercase_text(#[trigger] hay[i]), n)
}

/// The needle, trimmed and lower-cased, as characters.
pub fn lowered_needle(needle: &str) -> (r: Vec<char>)
    ensures
        r@ == needle_of(needle@),
{
    let t = string_from_chars(trim_chars(&chars_of(needle)).as_slice());
    let l = to_lowercase(t.as_str());
    chars_of(l.as_str())
}

/// Case-insensitive substring test used to filter tables.
pub fn matches_search(needle: &str, hay: &[&str]) -> (b: bool)
    ensures
        b == search_matches(needle@, hay@.map_values(|h: &str| h@)),
{
    let n = lowered_needle(needle);
    if n.len() == 0 {
        return true;
    }
    let ghost hv = hay@.map_values(|h: &str| h@);
    let mut i: usize = 0;
    while i < hay.len()
        invariant
            i <= hay@.len(),
            n@ == needle_of(needle@),
            n@.len() > 0,
            hv == hay@.map_values(|h: &str| h@),
            forall|k: int| 0 <= k < i ==> !contains(lowercase_text(#[trigger] hv[k]), n@),
        decreases hay@.len() - i,
    {
        let l = to_lowercase(hay[i]);
        let lc = chars_of(l.as_str());
        if contains_chars(&lc, &n) {
            assert(contains(lowercase_text(hv[i as int]), n@));
            return true;
        }
        i = i + 1;
    }
    false
}

/// How many elements of `s` satisfy `p`.
pub open spec fn count_where<T>(s: Seq<T>, p: spec_fn(T) -> bool) -> nat
    decreases s.len(),
{
    if s.len() == 0 {
        0
    } else {
        count_where(s.drop_last(), p) + if p(s.last()) {
            1nat
        } else {
            0nat
        }
    }
}

/// Counting over one more element.
pub proof fn lemma_count_where_push<T>(s: Seq<T>, p: spec_fn(T) -> bool, i: int)
    requires
        0 <= i < s.len(),
    ensures
        count_where(s.take(i + 1), p) == count_where(s.take(i), p) + if p(s[i]) {
            1nat
        } else {
            0nat
        },
{
    assert(s.take(i + 1).drop_last() =~= s.take(i));
}

/// A count never exceeds the length.
pub proof fn lemma_count_where_len<T>(s: Seq<T>, p: spec_fn(T) -> bool)
    ensures
        count_where(s, p) <= s.len(),
    decreases s.len(),
{
    if s.len() > 0 {
        lemma_count_where_len(s.drop_last(), p);
    }
}


/// An empty or blank search lists every row, whatever its fields.
pub proof fn law_blank_search_lists_all(needle: Seq<char>, hay: Seq<Seq<char>>)
    requires
        trim(needle).len() == 0,
    ensures
        search_matches(needle, hay),
{
    assert(lowercase_text(trim(needle)) =~= Seq::<char>::empty());
}

} // verus!

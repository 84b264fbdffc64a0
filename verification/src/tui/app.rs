//! The console's keyboard state machine.
//!
//! A key press changes the navigation state and the shared [`AppState`], and
//! may ask the terminal layer to do outside work: refresh the current
//! screen's data, or look up a route. The terminal layer performs that work
//! and writes the results back into the state.

use vstd::prelude::*;
use crate::text::{
    chars_of, contains, contains_chars, is_alphanumeric, is_blank, string_pop, string_push,
    to_lowercase, trim, unicode_alphanumeric, lowercase_text,
};
use crate::tui::screens::{lowered_needle, needle_of, Screen};
use crate::tui::state::AppState;

verus! {

/// A key, as the console distinguishes them.
#[derive(Debug, Clone, Copy, PartialEq, Eq, Structural)]
pub enum Key {
    Char(char),
    Up,
    Down,
    Enter,
    Esc,
    Backspace,
    Other,
}

/// Actions the command palette can execute.
#[derive(Debug, Clone, Copy, PartialEq, Eq, Structural)]
pub enum PaletteAction {
    Navigate(Screen),
    Refresh,
    Quit,
}

/// Outside work a key press asks for.
#[derive(Debug, PartialEq, Eq)]
pub enum Effect {
    /// Nothing to do.
    Nothing,
    /// Refresh the data of the (possibly new) current screen.
    Refresh,
    /// Look up the best route to this destination.
    Lookup(String),
}

/// The palette's commands, in order.
pub open spec fn palette_table() -> Seq<(Seq<char>, PaletteAction)> {
    seq![
        ("Open Dashboard"@, PaletteAction::Navigate(Screen::Dashboard)),
        ("Open System"@, PaletteAction::Navigate(Screen::System)),
        ("Open Interfaces"@, PaletteAction::Navigate(Screen::Interfaces)),
        ("Open SD-WAN"@, PaletteAction::Navigate(Screen::Sdwan)),
        ("Open IPsec VPN"@, PaletteAction::Navigate(Screen::Ipsec)),
        ("Open Routing / BGP"@, PaletteAction::Navigate(Screen::Routing)),
        ("Open Sessions"@, PaletteAction::Navigate(Screen::Sessions)),
        ("Open Firewall Policies"@, PaletteAction::Navigate(Screen::Policies)),
        ("Open Events"@, PaletteAction::Navigate(Screen::Events)),
        ("Open Diagnostics"@, PaletteAction::Navigate(Screen::Diagnostics)),
        ("Open Help"@, PaletteAction::Navigate(Screen::Help)),
        ("Refresh data"@, PaletteAction::Refresh),
        ("Quit"@, PaletteAction::Quit),
    ]
}

/// The commands whose lower-cased label contains `ql`, in order.
pub open spec fn filter_commands(s: Seq<(Seq<char>, PaletteAction)>, ql: Seq<char>) -> Seq<
    (Seq<char>, PaletteAction),
>
    decreases s.len(),
{
    if s.len() == 0 {
        Seq::empty()
    } else {
        let r = filter_commands(s.drop_last(), ql);
        if contains(lowercase_text(s.last().0), ql) {
            r.push(s.last())
        } else {
            r
        }
    }
}

/// The palette's commands filtered case-insensitively by the query `q`
/// (trimmed); all of them for an empty query.
pub open spec fn palette_for(q: Seq<char>) -> Seq<(Seq<char>, PaletteAction)> {
    let ql = needle_of(q);
    if ql.len() == 0 {
        palette_table()
    } else {
        filter_commands(palette_table(), ql)
    }
}

/// Commands as (label, action).
pub open spec fn commands_view(v: Seq<(&'static str, PaletteAction)>) -> Seq<
    (Seq<char>, PaletteAction),
> {
    v.map_values(|c: (&'static str, PaletteAction)| (c.0@, c.1))
}

fn all_commands() -> (v: Vec<(&'static str, PaletteAction)>)
    ensures
        commands_view(v@) == palette_table(),
{
    let v = vec![
        ("Open Dashboard", PaletteAction::Navigate(Screen::Dashboard)),
        ("Open System", PaletteAction::Navigate(Screen::System)),
        ("Open Interfaces", PaletteAction::Navigate(Screen::Interfaces)),
        ("Open SD-WAN", PaletteAction::Navigate(Screen::Sdwan)),
        ("Open IPsec VPN", PaletteAction::Navigate(Screen::Ipsec)),
        ("Open Routing / BGP", PaletteAction::Navigate(Screen::Routing)),
        ("Open Sessions", PaletteAction::Navigate(Screen::Sessions)),
        ("Open Firewall Policies", PaletteAction::Navigate(Screen::Policies)),
        ("Open Events", PaletteAction::Navigate(Screen::Events)),
        ("Open Diagnostics", PaletteAction::Navigate(Screen::Diagnostics)),
        ("Open Help", PaletteAction::Navigate(Screen::Help)),
        ("Refresh data", PaletteAction::Refresh),
        ("Quit", PaletteAction::Quit),
    ];
    assert(commands_view(v@) =~= palette_table());
    v
}

/// Ordered command list for the palette, filtered case-insensitively by `q`.
pub fn palette_commands(q: &str) -> (r: Vec<(&'static str, PaletteAction)>)
    ensures
        commands_view(r@) == palette_for(q@),
{
    let all = all_commands();
    let ql = lowered_needle(q);
    if ql.len() == 0 {
        return all;
    }
    let mut out: Vec<(&'static str, PaletteAction)> = Vec::new();
    let mut i: usize = 0;
    while i < all.len()
        invariant
            i <= all@.len(),
            commands_view(all@) == palette_table(),
            ql@ == needle_of(q@),
            commands_view(out@) == filter_commands(palette_table().take(i as int), ql@),
        decreases all@.len() - i,
    {
        let (label, action) = all[i];
        assert(palette_table().take(i + 1).drop_last() =~= palette_table().take(i as int));
        assert(palette_table().take(i + 1).last() == palette_table()[i as int]);
        assert(palette_table()[i as int] == (label@, action));
        let l = to_lowercase(label);
        let lc = chars_of(l.as_str());
        if contains_chars(&lc, &ql) {
            let ghost before = out@;
            out.push((label, action));
            assert(commands_view(out@) =~= commands_view(before).push((label@, action)));
        }
        i = i + 1;
    }
    assert(palette_table().take(13) =~= palette_table());
    out
}

/// Labels as characters.
pub open spec fn labels_view(v: Seq<&'static str>) -> Seq<Seq<char>> {
    v.map_values(|l: &'static str| l@)
}

/// Palette command labels (used by the renderer for the overlay).
pub fn palette_commands_for_draw(q: &str) -> (r: Vec<&'static str>)
    ensures
        labels_view(r@) == palette_for(q@).map_values(|c: (Seq<char>, PaletteAction)| c.0),
{
    let cmds = palette_commands(q);
    let mut out: Vec<&'static str> = Vec::new();
    let mut i: usize = 0;
    while i < cmds.len()
        invariant
            i <= cmds@.len(),
            commands_view(cmds@) == palette_for(q@),
            labels_view(out@) == palette_for(q@).take(i as int).map_values(
                |c: (Seq<char>, PaletteAction)| c.0,
            ),
        decreases cmds@.len() - i,
    {
        let ghost before = out@;
        out.push(cmds[i].0);
        assert(commands_view(cmds@).len() == cmds@.len());
        assert(palette_for(q@)[i as int] == commands_view(cmds@)[i as int]);
        assert(commands_view(cmds@)[i as int].0 == cmds@[i as int].0@);
        assert(labels_view(out@) =~= labels_view(before).push(cmds@[i as int].0@));
        assert(palette_for(q@).take(i + 1).map_values(|c: (Seq<char>, PaletteAction)| c.0)
            =~= palette_for(q@).take(i as int).map_values(|c: (Seq<char>, PaletteAction)| c.0).push(
            palette_for(q@)[i as int].0,
        ));
        assert(labels_view(out@) =~= palette_for(q@).take(i + 1).map_values(
            |c: (Seq<char>, PaletteAction)| c.0,
        ));
        i = i + 1;
    }
    assert(palette_for(q@).take(cmds@.len() as int) =~= palette_for(q@));
    out
}

/// Which screen is shown, which screen help describes, and whether to quit.
#[derive(Debug, Clone, Copy, PartialEq, Eq, Structural)]
pub struct Navigation {
    pub screen: Screen,
    /// Screen that contextual help is describing.
    pub help_subject: Screen,
    pub quit: bool,
}

/// Characters the palette query accepts.
pub open spec fn palette_char(c: char) -> bool {
    unicode_alphanumeric(c) || c == ' ' || c == '-' || c == '_' || c == '/'
}

/// Characters the search bar accepts.
pub open spec fn search_char(c: char) -> bool {
    unicode_alphanumeric(c) || c == '.' || c == ':' || c == '/' || c == '-' || c == '_' || c == ' '
        || c == '*'
}

/// Characters the route-lookup input accepts.
pub open spec fn input_char(c: char) -> bool {
    unicode_alphanumeric(c) || c == '.' || c == ':' || c == '/' || c == '-' || c == '_' || c == ' '
}

/// A text after Backspace: its last character removed, if any.
pub open spec fn backspaced(t: Seq<char>) -> Seq<char> {
    if t.len() > 0 {
        t.drop_last()
    } else {
        t
    }
}

/// A selection after Up: one row higher, stopping at the first.
pub open spec fn sel_up(sel: usize) -> usize {
    if sel > 0 {
        (sel - 1) as usize
    } else {
        0
    }
}

/// A selection after Down in a list of `len` rows: one row lower, stopping at
/// the last.
pub open spec fn sel_down(sel: usize, len: nat) -> usize {
    if len > 0 && sel + 1 < len {
        (sel + 1) as usize
    } else {
        sel
    }
}

/// The number of rows of an optional list.
pub open spec fn rows<T>(l: Option<Vec<T>>) -> nat {
    match l {
        Some(v) => v@.len(),
        None => 0,
    }
}

fn row_count<T>(l: &Option<Vec<T>>) -> (n: usize)
    ensures
        n == rows(*l),
{
    match l {
        Some(v) => v.len(),
        None => 0,
    }
}

/// Up/Down/Enter on a list (`sel`, `detail`) of `len` rows: Up and Down move
/// the selection while the detail is closed; Enter toggles the detail when
/// the list has rows.
pub open spec fn list_key(key: Key, sel: usize, detail: bool, len: nat) -> (usize, bool) {
    match key {
        Key::Up => (if detail {
            sel
        } else {
            sel_up(sel)
        }, detail),
        Key::Down => (if detail {
            sel
        } else {
            sel_down(sel, len)
        }, detail),
        Key::Enter => (sel, if len > 0 {
            !detail
        } else {
            detail
        }),
        _ => (sel, detail),
    }
}

fn list_step(key: Key, sel: usize, detail: bool, len: usize) -> (r: (usize, bool))
    requires
        sel < usize::MAX,
    ensures
        r == list_key(key, sel, detail, len as nat),
        r.0 < usize::MAX,
{
    match key {
        Key::Up => {
            if detail {
                (sel, detail)
            } else if sel > 0 {
                (sel - 1, detail)
            } else {
                (0, detail)
            }
        },
        Key::Down => {
            if !detail && len > 0 && sel < len - 1 {
                (sel + 1, detail)
            } else {
                (sel, detail)
            }
        },
        Key::Enter => {
            if len > 0 {
                (sel, !detail)
            } else {
                (sel, detail)
            }
        },
        _ => (sel, detail),
    }
}

/// The palette key `key`: Esc closes it, Enter runs the selected command,
/// Up/Down move the selection within the filtered commands, Backspace and
/// accepted characters edit the query.
pub open spec fn palette_key(
    n0: Navigation,
    s0: AppState,
    key: Key,
    n1: Navigation,
    s1: AppState,
    eff: Effect,
) -> bool {
    match key {
        Key::Esc => n1 == n0 && s1 == (AppState { palette: false, ..s0 }) && eff == Effect::Nothing,
        Key::Enter => palette_run(n0, s0, n1, s1, eff),
        Key::Up => n1 == n0 && s1 == (AppState { palette_sel: sel_up(s0.palette_sel), ..s0 }) && eff
            == Effect::Nothing,
        Key::Down => n1 == n0 && s1 == (AppState {
            palette_sel: sel_down(s0.palette_sel, palette_for(s0.search@).len()),
            ..s0
        }) && eff == Effect::Nothing,
        Key::Backspace => n1 == n0 && s1 == (AppState { search: s1.search, ..s0 }) && s1.search@
            == backspaced(s0.search@) && eff == Effect::Nothing,
        Key::Char(c) => n1 == n0 && s1 == (AppState { search: s1.search, ..s0 }) && s1.search@ == (
        if palette_char(c) {
            s0.search@.push(c)
        } else {
            s0.search@
        }) && eff == Effect::Nothing,
        Key::Other => n1 == n0 && s1 == s0 && eff == Effect::Nothing,
    }
}

/// Running the selected palette command: the palette closes and its query is
/// cleared; a selection past the filtered commands does nothing more.
pub open spec fn palette_run(
    n0: Navigation,
    s0: AppState,
    n1: Navigation,
    s1: AppState,
    eff: Effect,
) -> bool {
    let cmds = palette_for(s0.search@);
    &&& s1 == (AppState { palette: false, search: s1.search, ..s0 })
    &&& s1.search@.len() == 0
    &&& if s0.palette_sel < cmds.len() {
        match cmds[s0.palette_sel as int].1 {
            PaletteAction::Navigate(target) => n1 == (Navigation { screen: target, ..n0 }) && eff
                == Effect::Refresh,
            PaletteAction::Refresh => n1 == n0 && eff == Effect::Refresh,
            PaletteAction::Quit => n1 == (Navigation { quit: true, ..n0 }) && eff == Effect::Nothing,
        }
    } else {
        n1 == n0 && eff == Effect::Nothing
    }
}

/// The search-bar key `key`: Esc or Enter closes the bar (keeping the
/// filter), Backspace and accepted characters edit it.
pub open spec fn search_key(s0: AppState, key: Key, s1: AppState) -> bool {
    match key {
        Key::Esc | Key::Enter => s1 == (AppState { search_mode: false, ..s0 }),
        Key::Backspace => s1 == (AppState { search: s1.search, ..s0 }) && s1.search@ == backspaced(
            s0.search@,
        ),
        Key::Char(c) => s1 == (AppState { search: s1.search, ..s0 }) && s1.search@ == (
        if search_char(c) {
            s0.search@.push(c)
        } else {
            s0.search@
        }),
        _ => s1 == s0,
    }
}

/// The route-lookup input key `key`: Esc cancels (clearing the input), Enter
/// submits the input and closes it, Backspace and accepted characters edit it.
pub open spec fn input_key(s0: AppState, key: Key, s1: AppState, eff: Effect) -> bool {
    match key {
        Key::Esc => s1 == (AppState { input_mode: false, input: s1.input, ..s0 }) && s1.input@.len()
            == 0 && eff == Effect::Nothing,
        Key::Backspace => s1 == (AppState { input: s1.input, ..s0 }) && s1.input@ == backspaced(
            s0.input@,
        ) && eff == Effect::Nothing,
        Key::Enter => {
            let closed = AppState { input_mode: false, input: s1.input, lookup: s1.lookup, ..s0 };
            &&& s1.input@.len() == 0
            &&& lookup_submitted(closed, s0.input@, s1, eff)
        },
        Key::Char(c) => s1 == (AppState { input: s1.input, ..s0 }) && s1.input@ == (if input_char(c) {
            s0.input@.push(c)
        } else {
            s0.input@
        }) && eff == Effect::Nothing,
        _ => s1 == s0 && eff == Effect::Nothing,
    }
}

/// Submitting `dst` for route lookup from state `s0`: a blank destination
/// shows an empty result at once; any other is looked up by the terminal
/// layer.
pub open spec fn lookup_submitted(s0: AppState, dst: Seq<char>, s1: AppState, eff: Effect) -> bool {
    if trim(dst).len() == 0 {
        s1 == (AppState { lookup: s1.lookup, ..s0 }) && (s1.lookup matches Some(v) && v@.len() == 0)
            && eff == Effect::Nothing
    } else {
        s1 == (AppState { lookup: s1.lookup, ..s0 }) && s1.lookup == s0.lookup && (eff matches Effect::Lookup(d) && d@ == dst)
    }
}

/// The state after a list key on the Interfaces list.
pub open spec fn iface_list_after(s0: AppState, key: Key) -> AppState {
    let r = list_key(key, s0.iface_sel, s0.iface_detail, rows(s0.interfaces));
    AppState { iface_sel: r.0, iface_detail: r.1, ..s0 }
}

/// The state after a list key on the IPsec list.
pub open spec fn vpn_list_after(s0: AppState, key: Key) -> AppState {
    let r = list_key(key, s0.vpn_sel, s0.vpn_detail, rows(s0.vpn));
    AppState { vpn_sel: r.0, vpn_detail: r.1, ..s0 }
}

/// Navigation after toggling help: back to the subject when on help,
/// otherwise onto help describing the current screen.
pub open spec fn toggled(n: Navigation) -> Navigation {
    if n.screen == Screen::Help {
        Navigation { screen: n.help_subject, ..n }
    } else {
        Navigation { screen: Screen::Help, help_subject: n.screen, ..n }
    }
}

/// The state after `l` on `screen`: route lookup opens on Routing, the
/// rolling trend toggles on SD-WAN, nothing changes elsewhere.
pub open spec fn l_step(screen: Screen, s0: AppState, s1: AppState) -> bool {
    if screen == Screen::Routing {
        s1 == (AppState { input_mode: true, input: s1.input, lookup: None, lookup_err: None, ..s0 })
            && s1.input@.len() == 0
    } else if screen == Screen::Sdwan {
        s1 == (AppState { sdwan_trend: !s0.sdwan_trend, ..s0 })
    } else {
        s1 == s0
    }
}

/// Esc: closes the interfaces detail, else the IPsec detail, else the SD-WAN
/// trend; with none open, leaves help for its subject, or goes to the
/// dashboard (refreshing it).
pub open spec fn esc_step(n0: Navigation, s0: AppState, n1: Navigation, s1: AppState, eff: Effect) -> bool {
    if s0.iface_detail {
        s1 == (AppState { iface_detail: false, ..s0 }) && n1 == n0 && eff == Effect::Nothing
    } else if s0.vpn_detail {
        s1 == (AppState { vpn_detail: false, ..s0 }) && n1 == n0 && eff == Effect::Nothing
    } else if s0.sdwan_trend {
        s1 == (AppState { sdwan_trend: false, ..s0 }) && n1 == n0 && eff == Effect::Nothing
    } else if n0.screen == Screen::Help {
        s1 == s0 && n1 == (Navigation { screen: n0.help_subject, ..n0 }) && eff == Effect::Nothing
    } else {
        s1 == s0 && n1 == (Navigation { screen: Screen::Dashboard, ..n0 }) && eff == Effect::Refresh
    }
}

/// The state after a list key on `screen` (Interfaces and IPsec only).
pub open spec fn list_after(screen: Screen, s0: AppState, key: Key) -> AppState {
    if screen == Screen::Interfaces {
        iface_list_after(s0, key)
    } else if screen == Screen::Ipsec {
        vpn_list_after(s0, key)
    } else {
        s0
    }
}

/// The screen a navigation key opens.
pub open spec fn key_target(c: char) -> Option<Screen> {
    if c == 'i' {
        Some(Screen::Interfaces)
    } else if c == 'o' {
        Some(Screen::System)
    } else if c == 's' {
        Some(Screen::Sdwan)
    } else if c == 'f' {
        Some(Screen::Sessions)
    } else if c == 'F' {
        Some(Screen::Policies)
    } else if c == 'v' {
        Some(Screen::Ipsec)
    } else if c == 'g' {
        Some(Screen::Routing)
    } else if c == 'e' {
        Some(Screen::Events)
    } else if c == 'd' {
        Some(Screen::Diagnostics)
    } else {
        None
    }
}

/// A key with no overlay or input open: `q` quits, `?` toggles
/// help, `:` opens the palette, `/` the search bar, `l` per [`l_step`], Esc
/// per [`esc_step`], `r` refreshes, the navigation keys switch screens, and
/// Up/Down/Enter move in the current list.
pub open spec fn main_key(n0: Navigation, s0: AppState, key: Key, n1: Navigation, s1: AppState, eff: Effect) -> bool {
    match key {
        Key::Char(c) => if c == 'q' {
            n1 == (Navigation { quit: true, ..n0 }) && s1 == s0 && eff == Effect::Nothing
        } else if c == '?' {
            n1 == toggled(n0) && s1 == s0 && eff == Effect::Nothing
        } else if c == ':' {
            n1 == n0 && s1 == (AppState { palette: true, palette_sel: 0, search: s1.search, ..s0 })
                && s1.search@.len() == 0 && eff == Effect::Nothing
        } else if c == '/' {
            n1 == n0 && s1 == (AppState { search_mode: true, search: s1.search, ..s0 })
                && s1.search@.len() == 0 && eff == Effect::Nothing
        } else if c == 'l' {
            n1 == n0 && l_step(n0.screen, s0, s1) && eff == Effect::Nothing
        } else if c == 'r' {
            n1 == n0 && s1 == s0 && eff == Effect::Refresh
        } else {
            match key_target(c) {
                Some(t) => n1 == (Navigation { screen: t, ..n0 }) && s1 == s0 && eff == Effect::Refresh,
                None => n1 == n0 && s1 == s0 && eff == Effect::Nothing,
            }
        },
        Key::Esc => esc_step(n0, s0, n1, s1, eff),
        Key::Up | Key::Down | Key::Enter => n1 == n0 && s1 == list_after(n0.screen, s0, key) && eff
            == Effect::Nothing,
        _ => n1 == n0 && s1 == s0 && eff == Effect::Nothing,
    }
}

/// One key event: only presses count; an open palette takes the key first,
/// then the search bar, then the route-lookup input.
pub open spec fn key_step(
    n0: Navigation,
    s0: AppState,
    key: Key,
    press: bool,
    n1: Navigation,
    s1: AppState,
    eff: Effect,
) -> bool {
    if !press {
        n1 == n0 && s1 == s0 && eff == Effect::Nothing
    } else if s0.palette {
        palette_key(n0, s0, key, n1, s1, eff)
    } else if s0.search_mode {
        n1 == n0 && search_key(s0, key, s1) && eff == Effect::Nothing
    } else if s0.input_mode {
        n1 == n0 && input_key(s0, key, s1, eff)
    } else {
        main_key(n0, s0, key, n1, s1, eff)
    }
}

impl Navigation {
    /// The console starts on the dashboard.
    pub fn new() -> (n: Self)
        ensures
            n.screen == Screen::Dashboard,
            n.help_subject == Screen::Dashboard,
            !n.quit,
    {
        Navigation { screen: Screen::Dashboard, help_subject: Screen::Dashboard, quit: false }
    }

    /// Toggles contextual help for the current screen.
    pub fn toggle_help(&mut self)
        ensures
            *final(self) == toggled(*old(self)),
    {
        if self.screen == Screen::Help {
            self.screen = self.help_subject;
        } else {
            self.help_subject = self.screen;
            self.screen = Screen::Help;
        }
    }

    /// Switches screens; the new screen's data is refreshed at once.
    pub fn navigate(&mut self, screen: Screen) -> (eff: Effect)
        ensures
            *final(self) == (Navigation { screen, ..*old(self) }),
            eff == Effect::Refresh,
    {
        self.screen = screen;
        Effect::Refresh
    }

    /// Opens the command palette with an empty query.
    pub fn open_palette(&self, st: &mut AppState)
        requires
            old(st).wf(),
        ensures
            final(st).wf(),
            *final(st) == (AppState { palette: true, palette_sel: 0, search: final(st).search, ..*old(st) }),
            final(st).search@.len() == 0,
    {
        st.palette = true;
        st.palette_sel = 0;
        st.search = String::new();
    }

    /// Opens the search/filter bar with an empty filter.
    pub fn open_search(&self, st: &mut AppState)
        ensures
            *final(st) == (AppState { search_mode: true, search: final(st).search, ..*old(st) }),
            final(st).search@.len() == 0,
    {
        st.search_mode = true;
        st.search = String::new();
    }

    /// Opens the route-lookup input, clearing any previous result; only on the
    /// Routing screen.
    pub fn start_lookup(&self, st: &mut AppState)
        ensures
            self.screen != Screen::Routing ==> *final(st) == *old(st),
            self.screen == Screen::Routing ==> *final(st) == (AppState {
                input_mode: true,
                input: final(st).input,
                lookup: None,
                lookup_err: None,
                ..*old(st)
            }) && final(st).input@.len() == 0,
    {
        if self.screen != Screen::Routing {
            return ;
        }
        st.input_mode = true;
        st.input = String::new();
        st.lookup = None;
        st.lookup_err = None;
    }

    /// Submits a route lookup (see [`lookup_submitted`]).
    pub fn run_lookup(&self, st: &mut AppState, destination: &str) -> (eff: Effect)
        ensures
            lookup_submitted(*old(st), destination@, *final(st), eff),
    {
        if is_blank(destination) {
            st.lookup = Some(Vec::new());
            return Effect::Nothing;
        }
        Effect::Lookup(destination.to_owned())
    }

    /// `l`: route lookup on the Routing screen, the rolling trend on SD-WAN.
    pub fn handle_l(&self, st: &mut AppState)
        ensures
            l_step(self.screen, *old(st), *final(st)),
    {
        match self.screen {
            Screen::Routing => self.start_lookup(st),
            Screen::Sdwan => {
                st.sdwan_trend = !st.sdwan_trend;
            },
            _ => {},
        }
    }

    /// Esc: close an open detail or trend (interfaces, then IPsec, then
    /// SD-WAN); otherwise leave help for its subject; otherwise go home.
    pub fn handle_esc(&mut self, st: &mut AppState) -> (eff: Effect)
        ensures
            esc_step(*old(self), *old(st), *final(self), *final(st), eff),
    {
        if st.iface_detail {
            st.iface_detail = false;
            return Effect::Nothing;
        } else if st.vpn_detail {
            st.vpn_detail = false;
            return Effect::Nothing;
        } else if st.sdwan_trend {
            st.sdwan_trend = false;
            return Effect::Nothing;
        }
        if self.screen == Screen::Help {
            self.screen = self.help_subject;
            return Effect::Nothing;
        }
        self.navigate(Screen::Dashboard)
    }

    /// Up/Down/Enter on the Interfaces list (see [`list_key`]); only on the
    /// Interfaces screen.
    pub fn interfaces_nav(&self, st: &mut AppState, key: Key)
        requires
            old(st).wf(),
        ensures
            final(st).wf(),
            self.screen != Screen::Interfaces ==> *final(st) == *old(st),
            self.screen == Screen::Interfaces ==> *final(st) == iface_list_after(*old(st), key),
    {
        if self.screen != Screen::Interfaces {
            return ;
        }
        let len = row_count(&st.interfaces);
        let (sel, detail) = list_step(key, st.iface_sel, st.iface_detail, len);
        st.iface_sel = sel;
        st.iface_detail = detail;
    }

    /// Up/Down/Enter on the IPsec list (see [`list_key`]).
    pub fn vpn_nav(&self, st: &mut AppState, key: Key)
        requires
            old(st).wf(),
        ensures
            final(st).wf(),
            *final(st) == vpn_list_after(*old(st), key),
    {
        let len = row_count(&st.vpn);
        let (sel, detail) = list_step(key, st.vpn_sel, st.vpn_detail, len);
        st.vpn_sel = sel;
        st.vpn_detail = detail;
    }

    /// List navigation for the Interfaces and IPsec screens; other screens
    /// ignore it.
    pub fn list_nav(&self, st: &mut AppState, key: Key)
        requires
            old(st).wf(),
        ensures
            final(st).wf(),
            *final(st) == list_after(self.screen, *old(st), key),
    {
        match self.screen {
            Screen::Interfaces => self.interfaces_nav(st, key),
            Screen::Ipsec => self.vpn_nav(st, key),
            _ => {},
        }
    }

    /// Runs the selected palette command (see [`palette_run`]).
    pub fn run_palette(&mut self, st: &mut AppState) -> (eff: Effect)
        requires
            old(st).wf(),
        ensures
            final(st).wf(),
            palette_run(*old(self), *old(st), *final(self), *final(st), eff),
    {
        let sel = st.palette_sel;
        let cmds = palette_commands(st.search.as_str());
        st.palette = false;
        st.search = String::new();
        if sel >= cmds.len() {
            return Effect::Nothing;
        }
        let (_, action) = cmds[sel];
        assert(commands_view(cmds@)[sel as int].1 == action);
        match action {
            PaletteAction::Navigate(target) => self.navigate(target),
            PaletteAction::Refresh => Effect::Refresh,
            PaletteAction::Quit => {
                self.quit = true;
                Effect::Nothing
            },
        }
    }

    /// A key while the command palette is open (see [`palette_key`]).
    pub fn handle_palette(&mut self, st: &mut AppState, key: Key) -> (eff: Effect)
        requires
            old(st).wf(),
        ensures
            final(st).wf(),
            palette_key(*old(self), *old(st), key, *final(self), *final(st), eff),
    {
        match key {
            Key::Esc => {
                st.palette = false;
                Effect::Nothing
            },
            Key::Enter => self.run_palette(st),
            Key::Up => {
                if st.palette_sel > 0 {
                    st.palette_sel = st.palette_sel - 1;
                }
                Effect::Nothing
            },
            Key::Down => {
                let n = palette_commands(st.search.as_str()).len();
                if n > 0 && st.palette_sel < n - 1 {
                    st.palette_sel = st.palette_sel + 1;
                }
                Effect::Nothing
            },
            Key::Backspace => {
                string_pop(&mut st.search);
                Effect::Nothing
            },
            Key::Char(c) => {
                if is_alphanumeric(c) || c == ' ' || c == '-' || c == '_' || c == '/' {
                    string_push(&mut st.search, c);
                }
                Effect::Nothing
            },
            Key::Other => Effect::Nothing,
        }
    }

    /// A key while the search bar is open (see [`search_key`]).
    pub fn handle_search(&self, st: &mut AppState, key: Key)
        requires
            old(st).wf(),
        ensures
            final(st).wf(),
            search_key(*old(st), key, *final(st)),
    {
        match key {
            Key::Esc | Key::Enter => {
                st.search_mode = false;
            },
            Key::Backspace => {
                string_pop(&mut st.search);
            },
            Key::Char(c) => {
                if is_alphanumeric(c) || c == '.' || c == ':' || c == '/' || c == '-' || c == '_'
                    || c == ' ' || c == '*' {
                    string_push(&mut st.search, c);
                }
            },
            _ => {},
        }
    }

    /// A key while the route-lookup input is open (see [`input_key`]).
    pub fn handle_input(&self, st: &mut AppState, key: Key) -> (eff: Effect)
        requires
            old(st).wf(),
        ensures
            final(st).wf(),
            input_key(*old(st), key, *final(st), eff),
    {
        match key {
            Key::Esc => {
                st.input_mode = false;
                st.input = String::new();
                Effect::Nothing
            },
            Key::Backspace => {
                string_pop(&mut st.input);
                Effect::Nothing
            },
            Key::Enter => {
                let mut dst = String::new();
                std::mem::swap(&mut dst, &mut st.input);
                st.input_mode = false;
                self.run_lookup(st, dst.as_str())
            },
            Key::Char(c) => {
                if is_alphanumeric(c) || c == '.' || c == ':' || c == '/' || c == '-' || c == '_'
                    || c == ' ' {
                    string_push(&mut st.input, c);
                }
                Effect::Nothing
            },
            _ => Effect::Nothing,
        }
    }


    /// Keyboard dispatch (see [`key_step`]).
    pub fn dispatch(&mut self, st: &mut AppState, key: Key, press: bool) -> (eff: Effect)
        requires
            old(st).wf(),
        ensures
            final(st).wf(),
            key_step(*old(self), *old(st), key, press, *final(self), *final(st), eff),
    {
        if !press {
            return Effect::Nothing;
        }
        if st.palette {
            return self.handle_palette(st, key);
        }
        if st.search_mode {
            self.handle_search(st, key);
            return Effect::Nothing;
        }
        if st.input_mode {
            return self.handle_input(st, key);
        }
        match key {
            Key::Char(c) => {
                if c == 'q' {
                    self.quit = true;
                    Effect::Nothing
                } else if c == '?' {
                    self.toggle_help();
                    Effect::Nothing
                } else if c == ':' {
                    self.open_palette(st);
                    Effect::Nothing
                } else if c == '/' {
                    self.open_search(st);
                    Effect::Nothing
                } else if c == 'l' {
                    self.handle_l(st);
                    Effect::Nothing
                } else if c == 'r' {
                    Effect::Refresh
                } else if c == 'i' {
                    self.navigate(Screen::Interfaces)
                } else if c == 'o' {
                    self.navigate(Screen::System)
                } else if c == 's' {
                    self.navigate(Screen::Sdwan)
                } else if c == 'f' {
                    self.navigate(Screen::Sessions)
                } else if c == 'F' {
                    self.navigate(Screen::Policies)
                } else if c == 'v' {
                    self.navigate(Screen::Ipsec)
                } else if c == 'g' {
                    self.navigate(Screen::Routing)
                } else if c == 'e' {
                    self.navigate(Screen::Events)
                } else if c == 'd' {
                    self.navigate(Screen::Diagnostics)
                } else {
                    Effect::Nothing
                }
            },
            Key::Esc => self.handle_esc(st),
            Key::Up | Key::Down | Key::Enter => {
                self.list_nav(st, key);
                Effect::Nothing
            },
            _ => Effect::Nothing,
        }
    }

}

/// A data domain the console refreshes from the backend.
#[derive(Debug, Clone, Copy, PartialEq, Eq, Structural)]
pub enum Domain {
    System,
    Interfaces,
    Sdwan,
    Vpn,
    Routes,
    Routes6,
    Bgp,
    Sessions,
    Policies,
}

/// The domains refreshed for `screen`: only what the screen
/// shows (the Events screen keeps the detection feeds alive; Help and
/// Diagnostics need nothing).
pub open spec fn refresh_domains(screen: Screen) -> Seq<Domain> {
    match screen {
        Screen::Dashboard => seq![Domain::System, Domain::Sdwan, Domain::Vpn, Domain::Routes, Domain::Bgp],
        Screen::System => seq![Domain::System],
        Screen::Interfaces => seq![Domain::Interfaces],
        Screen::Sdwan => seq![Domain::Sdwan],
        Screen::Sessions => seq![Domain::Sessions],
        Screen::Policies => seq![Domain::Policies],
        Screen::Ipsec => seq![Domain::Vpn],
        Screen::Routing => seq![Domain::Routes, Domain::Routes6, Domain::Bgp],
        Screen::Events => seq![Domain::System, Domain::Interfaces, Domain::Sdwan],
        Screen::Help => Seq::empty(),
        Screen::Diagnostics => Seq::empty(),
    }
}

/// The data domains to refresh for the current screen, in order.
pub fn refresh_plan(screen: Screen) -> (v: Vec<Domain>)
    ensures
        v@ == refresh_domains(screen),
{
    let v = match screen {
        Screen::Dashboard => vec![
            Domain::System,
            Domain::Sdwan,
            Domain::Vpn,
            Domain::Routes,
            Domain::Bgp,
        ],
        Screen::System => vec![Domain::System],
        Screen::Interfaces => vec![Domain::Interfaces],
        Screen::Sdwan => vec![Domain::Sdwan],
        Screen::Sessions => vec![Domain::Sessions],
        Screen::Policies => vec![Domain::Policies],
        Screen::Ipsec => vec![Domain::Vpn],
        Screen::Routing => vec![Domain::Routes, Domain::Routes6, Domain::Bgp],
        Screen::Events => vec![Domain::System, Domain::Interfaces, Domain::Sdwan],
        Screen::Help => Vec::new(),
        Screen::Diagnostics => Vec::new(),
    };
    assert(v@ =~= refresh_domains(screen));
    v
}

/// Pressing `?` twice returns to the screen one was on, and help never
/// describes itself.
pub proof fn law_help_toggle_twice(n: Navigation)
    requires
        n.help_subject != Screen::Help,
    ensures
        toggled(toggled(n)).screen == n.screen,
        toggled(toggled(n)).quit == n.quit,
        toggled(n).help_subject != Screen::Help,
        toggled(toggled(n)).help_subject != Screen::Help,
{
}

/// The heavy session table is fetched only to render the Sessions screen;
/// in particular never for the dashboard.
pub proof fn law_sessions_fetched_only_for_sessions(screen: Screen)
    ensures
        refresh_domains(screen).contains(Domain::Sessions) <==> screen == Screen::Sessions,
{
    if screen == Screen::Sessions {
        assert(refresh_domains(screen)[0] == Domain::Sessions);
    }
}

/// Each screen refreshes the data it displays: the interface table on
/// Interfaces, the IPsec tunnels on IPsec, the SD-WAN members on SD-WAN, the
/// system status on System, sessions on Sessions, policies on Policies, the
/// IPv4 and IPv6 routes and BGP neighbours on Routing, the dashboard's status,
/// SD-WAN, VPN, route and BGP summaries on the Dashboard, and the detection
/// feeds (status, interfaces, SD-WAN) on Events; Help and Diagnostics fetch
/// nothing.
pub proof fn law_screen_refreshes_what_it_shows(screen: Screen)
    ensures
        screen == Screen::Interfaces ==> refresh_domains(screen).contains(Domain::Interfaces),
        screen == Screen::Ipsec ==> refresh_domains(screen).contains(Domain::Vpn),
        screen == Screen::Sdwan ==> refresh_domains(screen).contains(Domain::Sdwan),
        screen == Screen::System ==> refresh_domains(screen).contains(Domain::System),
        screen == Screen::Sessions ==> refresh_domains(screen).contains(Domain::Sessions),
        screen == Screen::Policies ==> refresh_domains(screen).contains(Domain::Policies),
        screen == Screen::Routing ==> {
            &&& refresh_domains(screen).contains(Domain::Routes)
            &&& refresh_domains(screen).contains(Domain::Routes6)
            &&& refresh_domains(screen).contains(Domain::Bgp)
        },
        screen == Screen::Dashboard ==> {
            &&& refresh_domains(screen).contains(Domain::System)
            &&& refresh_domains(screen).contains(Domain::Sdwan)
            &&& refresh_domains(screen).contains(Domain::Vpn)
            &&& refresh_domains(screen).contains(Domain::Routes)
            &&& refresh_domains(screen).contains(Domain::Bgp)
        },
        screen == Screen::Events ==> {
            &&& refresh_domains(screen).contains(Domain::System)
            &&& refresh_domains(screen).contains(Domain::Interfaces)
            &&& refresh_domains(screen).contains(Domain::Sdwan)
        },
        (screen == Screen::Help || screen == Screen::Diagnostics) ==> refresh_domains(screen).len()
            == 0,
{
    let d = refresh_domains(screen);
    match screen {
        Screen::Dashboard => {
            assert(d[0] == Domain::System && d[1] == Domain::Sdwan && d[2] == Domain::Vpn);
            assert(d[3] == Domain::Routes && d[4] == Domain::Bgp);
        },
        Screen::Routing => {
            assert(d[0] == Domain::Routes && d[1] == Domain::Routes6 && d[2] == Domain::Bgp);
        },
        Screen::Events => {
            assert(d[0] == Domain::System && d[1] == Domain::Interfaces && d[2] == Domain::Sdwan);
        },
        Screen::Help | Screen::Diagnostics => {},
        _ => {
            assert(d.len() == 1);
            assert(d.contains(d[0]));
        },
    }
}

/// With no palette, search bar or lookup input open, each navigation key
/// switches to its own screen and refreshes it, leaving the console state,
/// the help subject and the quit flag as they were: `i` Interfaces, `o`
/// System, `s` SD-WAN, `f` Sessions, `F` Policies, `v` IPsec, `g` Routing,
/// `e` Events, `d` Diagnostics.
pub proof fn law_navigation_keys(
    n0: Navigation,
    s0: AppState,
    c: char,
    n1: Navigation,
    s1: AppState,
    eff: Effect,
)
    requires
        !s0.palette,
        !s0.search_mode,
        !s0.input_mode,
        key_step(n0, s0, Key::Char(c), true, n1, s1, eff),
    ensures
        c == 'i' ==> n1.screen == Screen::Interfaces,
        c == 'o' ==> n1.screen == Screen::System,
        c == 's' ==> n1.screen == Screen::Sdwan,
        c == 'f' ==> n1.screen == Screen::Sessions,
        c == 'F' ==> n1.screen == Screen::Policies,
        c == 'v' ==> n1.screen == Screen::Ipsec,
        c == 'g' ==> n1.screen == Screen::Routing,
        c == 'e' ==> n1.screen == Screen::Events,
        c == 'd' ==> n1.screen == Screen::Diagnostics,
        (c == 'i' || c == 'o' || c == 's' || c == 'f' || c == 'F' || c == 'v' || c == 'g' || c
            == 'e' || c == 'd') ==> {
            &&& eff == Effect::Refresh
            &&& s1 == s0
            &&& n1.help_subject == n0.help_subject
            &&& n1.quit == n0.quit
        },
{
}

/// Every palette command does what its label says: an `Open ...` command
/// opens the screen it names (`Open Sessions` the Sessions screen, `Open
/// Firewall Policies` the Policies screen, and so on), `Refresh data`
/// refreshes and `Quit` quits.
pub proof fn law_palette_labels(k: int)
    requires
        0 <= k < palette_table().len(),
    ensures
        palette_table()[k].1 == PaletteAction::Navigate(Screen::Dashboard) ==> palette_table()[k].0
            == "Open Dashboard"@,
        palette_table()[k].1 == PaletteAction::Navigate(Screen::System) ==> palette_table()[k].0
            == "Open System"@,
        palette_table()[k].1 == PaletteAction::Navigate(Screen::Interfaces) ==> palette_table()[k].0
            == "Open Interfaces"@,
        palette_table()[k].1 == PaletteAction::Navigate(Screen::Sdwan) ==> palette_table()[k].0
            == "Open SD-WAN"@,
        palette_table()[k].1 == PaletteAction::Navigate(Screen::Ipsec) ==> palette_table()[k].0
            == "Open IPsec VPN"@,
        palette_table()[k].1 == PaletteAction::Navigate(Screen::Routing) ==> palette_table()[k].0
            == "Open Routing / BGP"@,
        palette_table()[k].1 == PaletteAction::Navigate(Screen::Sessions) ==> palette_table()[k].0
            == "Open Sessions"@,
        palette_table()[k].1 == PaletteAction::Navigate(Screen::Policies) ==> palette_table()[k].0
            == "Open Firewall Policies"@,
        palette_table()[k].1 == PaletteAction::Navigate(Screen::Events) ==> palette_table()[k].0
            == "Open Events"@,
        palette_table()[k].1 == PaletteAction::Navigate(Screen::Diagnostics) ==> palette_table()[k].0
            == "Open Diagnostics"@,
        palette_table()[k].1 == PaletteAction::Navigate(Screen::Help) ==> palette_table()[k].0
            == "Open Help"@,
        palette_table()[k].1 == PaletteAction::Refresh ==> palette_table()[k].0 == "Refresh data"@,
        palette_table()[k].1 == PaletteAction::Quit ==> palette_table()[k].0 == "Quit"@,
{
}

/// With no palette, search bar or lookup input open: `q` quits on the same
/// screen, `r` refreshes the current screen and changes nothing else, `:`
/// opens the palette and `/` the search bar with an empty query, and `?`
/// opens help about the current screen (or, on help, returns to its subject).
/// A key release does nothing at all.
pub proof fn law_control_keys(
    n0: Navigation,
    s0: AppState,
    c: char,
    press: bool,
    n1: Navigation,
    s1: AppState,
    eff: Effect,
)
    requires
        !s0.palette,
        !s0.search_mode,
        !s0.input_mode,
        key_step(n0, s0, Key::Char(c), press, n1, s1, eff),
    ensures
        !press ==> n1 == n0 && s1 == s0 && eff == Effect::Nothing,
        press && c == 'q' ==> n1.quit && n1.screen == n0.screen && s1 == s0 && eff
            == Effect::Nothing,
        press && c == 'r' ==> n1 == n0 && s1 == s0 && eff == Effect::Refresh,
        press && c == ':' ==> s1.palette && s1.search@.len() == 0 && s1.palette_sel == 0 && n1
            == n0,
        press && c == '/' ==> s1.search_mode && s1.search@.len() == 0 && n1 == n0,
        press && c == '?' && n0.screen != Screen::Help ==> n1.screen == Screen::Help
            && n1.help_subject == n0.screen,
        press && c == '?' && n0.screen == Screen::Help ==> n1.screen == n0.help_subject,
{
}

/// In the route-lookup input, Enter closes the input and clears it; a
/// destination that is not blank is looked up exactly as typed, a blank one
/// shows an empty result without any lookup.
pub proof fn law_lookup_submits_input(
    n0: Navigation,
    s0: AppState,
    n1: Navigation,
    s1: AppState,
    eff: Effect,
)
    requires
        !s0.palette,
        !s0.search_mode,
        s0.input_mode,
        key_step(n0, s0, Key::Enter, true, n1, s1, eff),
    ensures
        !s1.input_mode,
        s1.input@.len() == 0,
        n1 == n0,
        trim(s0.input@).len() > 0 ==> (eff matches Effect::Lookup(d) && d@ == s0.input@),
        trim(s0.input@).len() == 0 ==> eff == Effect::Nothing && (s1.lookup matches Some(v)
            && v@.len() == 0),
{
}

/// Moving in a list never leaves it: a selection on a row stays on a row.
pub proof fn law_selection_stays_in_list(key: Key, sel: usize, detail: bool, len: nat)
    requires
        sel < len,
    ensures
        list_key(key, sel, detail, len).0 < len,
{
}

/// While the palette is open, a key changes the screen only when Enter runs
/// a navigation command, and the data, lists and lookup are never touched.
pub proof fn law_palette_takes_keys(
    n0: Navigation,
    s0: AppState,
    key: Key,
    n1: Navigation,
    s1: AppState,
    eff: Effect,
)
    requires
        s0.palette,
        key_step(n0, s0, key, true, n1, s1, eff),
    ensures
        key != Key::Enter ==> n1 == n0,
        s1.iface_sel == s0.iface_sel && s1.vpn_sel == s0.vpn_sel,
        s1.iface_detail == s0.iface_detail && s1.vpn_detail == s0.vpn_detail,
        s1.input == s0.input && s1.lookup == s0.lookup && s1.events == s0.events,
{
}

/// An empty (or blank) query offers every palette command.
pub proof fn law_empty_query_lists_all(q: Seq<char>)
    requires
        trim(q).len() == 0,
    ensures
        palette_for(q) == palette_table(),
{
}

} // verus!

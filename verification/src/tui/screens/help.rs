//! Contextual help: the keys of the screen being described and the
//! global keys.

use vstd::prelude::*;
use super::Screen;

verus! {

/// Key/description pairs as characters.
pub open spec fn pairs_view(v: Seq<(&'static str, &'static str)>) -> Seq<(Seq<char>, Seq<char>)> {
    v.map_values(|p: (&'static str, &'static str)| (p.0@, p.1@))
}

/// The keys shown on every help page.
pub open spec fn global_keys_table() -> Seq<(Seq<char>, Seq<char>)> {
    seq![
        ("q"@, "Quit"@),
        ("?"@, "Toggle contextual help"@),
        (":"@, "Command palette"@),
        ("/"@, "Search / filter"@),
        ("Esc"@, "Back / close overlay"@),
        ("r"@, "Refresh data"@),
    ]
}

/// The global key bindings.
pub fn global_keys() -> (v: Vec<(&'static str, &'static str)>)
    ensures
        pairs_view(v@) == global_keys_table(),
{
    let v = vec![
        ("q", "Quit"),
        ("?", "Toggle contextual help"),
        (":", "Command palette"),
        ("/", "Search / filter"),
        ("Esc", "Back / close overlay"),
        ("r", "Refresh data"),
    ];
    assert(pairs_view(v@) =~= global_keys_table());
    v
}

/// The screen-specific key bindings described by contextual help.
pub open spec fn screen_keys_table(screen: Screen) -> Seq<(Seq<char>, Seq<char>)> {
    match screen {
        Screen::Dashboard => seq![
            ("i"@, "Interfaces"@),
            ("o"@, "System"@),
            ("s"@, "SD-WAN"@),
            ("v"@, "IPsec VPN"@),
            ("g"@, "Routing / BGP"@),
            ("f"@, "Sessions"@),
            ("F"@, "Firewall policies"@),
            ("e"@, "Events"@),
            ("d"@, "Diagnostics"@),
        ],
        Screen::Interfaces => seq![
            ("↑/↓"@, "Select interface"@),
            ("Enter"@, "Toggle detail + live graph"@),
            ("/"@, "Filter by name/state"@),
            ("Esc"@, "Close detail / back"@),
        ],
        Screen::System => seq![("/"@, "Filter"@), ("Esc"@, "Back"@)],
        Screen::Sdwan => seq![
            ("↑/↓"@, "Select member"@),
            ("l"@, "Toggle rolling latency/loss/jitter trend"@),
            ("/"@, "Filter members/health checks"@),
            ("Esc"@, "Close trend / back"@),
        ],
        Screen::Sessions => seq![
            ("/"@, "Filter sessions (src/dst/proto/policy)"@),
            ("F"@, "Firewall policies"@),
            ("Esc"@, "Back"@),
        ],
        Screen::Policies => seq![("/"@, "Filter policies"@), ("Esc"@, "Back"@)],
        Screen::Ipsec => seq![
            ("↑/↓"@, "Select tunnel"@),
            ("Enter"@, "Toggle Phase 1/2 + cryptography detail"@),
            ("/"@, "Filter tunnels"@),
            ("Esc"@, "Close detail / back"@),
        ],
        Screen::Routing => seq![
            ("l"@, "Route lookup for a destination"@),
            ("/"@, "Filter routes"@),
            ("Esc"@, "Back"@),
        ],
        Screen::Events => seq![("/"@, "Filter events"@), ("Esc"@, "Back"@)],
        Screen::Help | Screen::Diagnostics => seq![("Esc"@, "Back to previous screen"@)],
    }
}

/// The key bindings specific to `screen`.
pub fn screen_keys(screen: Screen) -> (v: Vec<(&'static str, &'static str)>)
    ensures
        pairs_view(v@) == screen_keys_table(screen),
{
    let v = match screen {
        Screen::Dashboard => vec![
            ("i", "Interfaces"),
            ("o", "System"),
            ("s", "SD-WAN"),
            ("v", "IPsec VPN"),
            ("g", "Routing / BGP"),
            ("f", "Sessions"),
            ("F", "Firewall policies"),
            ("e", "Events"),
            ("d", "Diagnostics"),
        ],
        Screen::Interfaces => vec![
            ("↑/↓", "Select interface"),
            ("Enter", "Toggle detail + live graph"),
            ("/", "Filter by name/state"),
            ("Esc", "Close detail / back"),
        ],
        Screen::System => vec![("/", "Filter"), ("Esc", "Back")],
        Screen::Sdwan => vec![
            ("↑/↓", "Select member"),
            ("l", "Toggle rolling latency/loss/jitter trend"),
            ("/", "Filter members/health checks"),
            ("Esc", "Close trend / back"),
        ],
        Screen::Sessions => vec![
            ("/", "Filter sessions (src/dst/proto/policy)"),
            ("F", "Firewall policies"),
            ("Esc", "Back"),
        ],
        Screen::Policies => vec![("/", "Filter policies"), ("Esc", "Back")],
        Screen::Ipsec => vec![
            ("↑/↓", "Select tunnel"),
            ("Enter", "Toggle Phase 1/2 + cryptography detail"),
            ("/", "Filter tunnels"),
            ("Esc", "Close detail / back"),
        ],
        Screen::Routing => vec![
            ("l", "Route lookup for a destination"),
            ("/", "Filter routes"),
            ("Esc", "Back"),
        ],
        Screen::Events => vec![("/", "Filter events"), ("Esc", "Back")],
        Screen::Help | Screen::Diagnostics => vec![("Esc", "Back to previous screen")],
    };
    assert(pairs_view(v@) =~= screen_keys_table(screen));
    v
}

} // verus!

//! Command-line interface: the parsed arguments, what each command asks the
//! program to do, and the text of the non-interactive views.
//!
//! Subcommands: `profile add / list / remove / test`, `credential set /
//! unset`, and the views `status`, `interfaces`, `sdwan`, `vpn`, `routes`,
//! `sessions`, `policies` and `lookup`. Global flags: `--profile`,
//! `--profile-select`, `--debug`, `--json`, `--insecure`.

use vstd::prelude::*;
use crate::numfmt::{binary_units_text, f64_value, f64_value_of, push_binary_units};
use crate::models::{
    FirewallPolicy, FirewallSession, InterfaceStatus, IpsecTunnel, LinkState, Route, SdwanMember,
    SystemStatus,
};
use crate::text::{
    decimal, decimal_string, pad_left, pad_right, push_decimal, push_padded_left,
    push_padded_right, push_str, string_from_chars,
};

verus! {

/// The command line, as parsed.
#[derive(Debug, PartialEq, Eq)]
pub struct Args {
    /// Profile to connect to.
    pub profile: Option<String>,
    /// Interactive profile selection (not available yet).
    pub profile_select: bool,
    /// Debug logging.
    pub debug: bool,
    /// Machine-readable JSON for the non-interactive views.
    pub json: bool,
    /// Skip TLS certificate verification (lab/testing only).
    pub insecure: bool,
    pub command: Option<Command>,
}

/// A subcommand.
#[derive(Debug, PartialEq, Eq)]
pub enum Command {
    /// Manage connection profiles.
    Profile { action: ProfileAction },
    /// Store or clear a profile's API token in the OS keychain.
    Credential { action: CredentialAction },
    /// System status.
    Status,
    /// Interface overview.
    Interfaces,
    /// SD-WAN overview.
    Sdwan,
    /// IPsec VPN overview.
    Vpn,
    /// Routing table.
    Routes,
    /// Active firewall sessions.
    Sessions,
    /// Firewall policy counters.
    Policies,
    /// Best-route lookup for a destination (IPv4 or IPv6).
    Lookup { destination: String },
}

/// A `profile` subcommand.
#[derive(Debug, PartialEq, Eq)]
pub enum ProfileAction {
    /// Create a new profile (prompts for host, port, token).
    Add,
    /// List configured profiles.
    List,
    /// Remove a profile.
    Remove { name: String },
    /// Test connectivity to a profile.
    Test { name: String },
}

/// A `credential` subcommand.
#[derive(Debug, PartialEq, Eq)]
pub enum CredentialAction {
    /// Store a profile's API token in the OS keychain.
    SetToken { profile: String },
    /// Remove a profile's API token from the OS keychain.
    UnsetToken { profile: String },
}

/// A non-interactive report on one FortiGate.
#[derive(Debug, Clone, Copy, PartialEq, Eq, Structural)]
pub enum Report {
    Status,
    Interfaces,
    Sdwan,
    Vpn,
    Routes,
    Sessions,
    Policies,
}

/// What a command line asks the program to do.
#[derive(Debug, PartialEq, Eq)]
pub enum Action {
    /// Prompt for and save a new profile.
    AddProfile,
    /// Print the configured profile names.
    ListProfiles,
    /// Remove the named profile.
    RemoveProfile { name: String },
    /// Connect with the named profile and print its system identity.
    TestProfile { name: String, insecure: bool },
    /// Connect with the named profile and print a view.
    Show { profile: String, view: Report, insecure: bool, json: bool },
    /// Connect with the named profile and print the best routes to a destination.
    Lookup { profile: String, destination: String, insecure: bool, json: bool },
    /// Open the console, with the named profile or the default one.
    Console { profile: Option<String>, insecure: bool },
}

/// The error for `--profile-select`.
pub open spec fn select_unavailable_message() -> Seq<char> {
    "interactive profile selection is not yet implemented"@
}

/// The error for a view or lookup without `--profile`.
pub open spec fn profile_required_message() -> Seq<char> {
    "--profile <name> is required for this command"@
}

/// The error for a credential command: keychain support is not built in.
pub open spec fn keyring_disabled_message(verb: Seq<char>, profile: Seq<char>) -> Seq<char> {
    "keyring support disabled — rebuild with `cargo build --features keyring` (cannot "@ + verb
        + " a token for profile '"@ + profile + "')"@
}

/// The view a subcommand prints, if it is one of the views.
pub open spec fn view_of(c: Command) -> Option<Report> {
    match c {
        Command::Status => Some(Report::Status),
        Command::Interfaces => Some(Report::Interfaces),
        Command::Sdwan => Some(Report::Sdwan),
        Command::Vpn => Some(Report::Vpn),
        Command::Routes => Some(Report::Routes),
        Command::Sessions => Some(Report::Sessions),
        Command::Policies => Some(Report::Policies),
        _ => None,
    }
}

/// Each view subcommand prints the report of the same name: `status` the
/// Status report, `interfaces` Interfaces, `sdwan` SD-WAN, `vpn` VPN, `routes`
/// Routes, `sessions` Sessions, `policies` Policies; the profile, credential
/// and lookup subcommands are no view.
pub proof fn law_view_names(c: Command)
    ensures
        c is Status ==> view_of(c) == Some(Report::Status),
        c is Interfaces ==> view_of(c) == Some(Report::Interfaces),
        c is Sdwan ==> view_of(c) == Some(Report::Sdwan),
        c is Vpn ==> view_of(c) == Some(Report::Vpn),
        c is Routes ==> view_of(c) == Some(Report::Routes),
        c is Sessions ==> view_of(c) == Some(Report::Sessions),
        c is Policies ==> view_of(c) == Some(Report::Policies),
        (c is Profile || c is Credential || c is Lookup) ==> view_of(c) is None,
{
}

/// What the command line `args` asks for: `--profile-select` is refused;
/// the views and `lookup` need `--profile`; credential commands are refused
/// because keychain support is not built in; no subcommand opens the console.
pub fn plan(args: &Args) -> (r: Result<Action, String>)
    ensures
        args.profile_select ==> (r matches Err(e) && e@ == select_unavailable_message()),
        !args.profile_select ==> match args.command {
            None => r == Ok::<Action, String>(
                Action::Console { profile: args.profile, insecure: args.insecure },
            ),
            Some(Command::Profile { action }) => match action {
                ProfileAction::Add => r == Ok::<Action, String>(Action::AddProfile),
                ProfileAction::List => r == Ok::<Action, String>(Action::ListProfiles),
                ProfileAction::Remove { name } => r matches Ok(Action::RemoveProfile { name: n })
                    && n@ == name@,
                ProfileAction::Test { name } => r matches Ok(
                    Action::TestProfile { name: n, insecure },
                ) && n@ == name@ && insecure == args.insecure,
            },
            Some(Command::Credential { action }) => match action {
                CredentialAction::SetToken { profile } => r matches Err(e) && e@
                    == keyring_disabled_message("set"@, profile@),
                CredentialAction::UnsetToken { profile } => r matches Err(e) && e@
                    == keyring_disabled_message("unset"@, profile@),
            },
            Some(Command::Lookup { destination }) => match args.profile {
                None => r matches Err(e) && e@ == profile_required_message(),
                Some(p) => r matches Ok(Action::Lookup { profile, destination: d, insecure, json })
                    && profile@ == p@ && d@ == destination@ && insecure == args.insecure && json
                    == args.json,
            },
            Some(c) => match args.profile {
                None => r matches Err(e) && e@ == profile_required_message(),
                Some(p) => r matches Ok(Action::Show { profile, view, insecure, json }) && Some(view)
                    == view_of(c) && profile@ == p@ && insecure == args.insecure && json
                    == args.json,
            },
        },
{
    if args.profile_select {
        return Err("interactive profile selection is not yet implemented".to_owned());
    }
    let view = match &args.command {
        None => {
            let profile = match &args.profile {
                Some(p) => Some(p.clone()),
                None => None,
            };
            return Ok(Action::Console { profile, insecure: args.insecure });
        },
        Some(Command::Profile { action }) => {
            return Ok(
                match action {
                    ProfileAction::Add => Action::AddProfile,
                    ProfileAction::List => Action::ListProfiles,
                    ProfileAction::Remove { name } => Action::RemoveProfile { name: name.clone() },
                    ProfileAction::Test { name } => Action::TestProfile {
                        name: name.clone(),
                        insecure: args.insecure,
                    },
                },
            );
        },
        Some(Command::Credential { action }) => {
            let (verb, profile) = match action {
                CredentialAction::SetToken { profile } => ("set", profile),
                CredentialAction::UnsetToken { profile } => ("unset", profile),
            };
            let mut out: Vec<char> = Vec::new();
            push_str(
                &mut out,
                "keyring support disabled — rebuild with `cargo build --features keyring` (cannot ",
            );
            push_str(&mut out, verb);
            push_str(&mut out, " a token for profile '");
            push_str(&mut out, profile.as_str());
            push_str(&mut out, "')");
            return Err(string_from_chars(&out));
        },
        Some(Command::Lookup { destination }) => {
            return match &args.profile {
                None => Err("--profile <name> is required for this command".to_owned()),
                Some(p) => Ok(
                    Action::Lookup {
                        profile: p.clone(),
                        destination: destination.clone(),
                        insecure: args.insecure,
                        json: args.json,
                    },
                ),
            };
        },
        Some(Command::Status) => Report::Status,
        Some(Command::Interfaces) => Report::Interfaces,
        Some(Command::Sdwan) => Report::Sdwan,
        Some(Command::Vpn) => Report::Vpn,
        Some(Command::Routes) => Report::Routes,
        Some(Command::Sessions) => Report::Sessions,
        Some(Command::Policies) => Report::Policies,
    };
    match &args.profile {
        None => Err("--profile <name> is required for this command".to_owned()),
        Some(p) => Ok(
            Action::Show { profile: p.clone(), view, insecure: args.insecure, json: args.json },
        ),
    }
}

/// The error when no profile is configured.
pub open spec fn no_profiles_message() -> Seq<char> {
    "no profiles configured — run `fortitui profile add` first"@
}

/// `names` joined with `, `.
pub open spec fn joined(names: Seq<Seq<char>>) -> Seq<char>
    decreases names.len(),
{
    if names.len() == 0 {
        Seq::empty()
    } else if names.len() == 1 {
        names[0]
    } else {
        joined(names.drop_last()) + ", "@ + names.last()
    }
}

/// The error when several profiles are configured.
pub open spec fn several_profiles_message(names: Seq<Seq<char>>) -> Seq<char> {
    "multiple profiles configured ("@ + joined(names) + ") — pass one with `--profile <name>`"@
}

/// Strings as their characters.
pub open spec fn strings_view(v: Seq<String>) -> Seq<Seq<char>> {
    v.map_values(|s: String| s@)
}

/// The profile to use when none was named: the only configured one; with
/// none or several the user has to act.
pub fn select_default_profile(profiles: &Vec<String>) -> (r: Result<String, String>)
    ensures
        profiles@.len() == 0 ==> (r matches Err(e) && e@ == no_profiles_message()),
        profiles@.len() == 1 ==> (r matches Ok(n) && n@ == profiles@[0]@),
        profiles@.len() > 1 ==> (r matches Err(e) && e@ == several_profiles_message(
            strings_view(profiles@),
        )),
{
    let n = profiles.len();
    if n == 0 {
        return Err("no profiles configured — run `fortitui profile add` first".to_owned());
    }
    if n == 1 {
        return Ok(profiles[0].clone());
    }
    let mut out: Vec<char> = Vec::new();
    push_str(&mut out, "multiple profiles configured (");
    let ghost start = out@;
    let mut i: usize = 0;
    while i < n
        invariant
            n == profiles@.len(),
            i <= n,
            out@ == start + joined(strings_view(profiles@.take(i as int))),
        decreases n - i,
    {
        let ghost before = out@;
        if i > 0 {
            push_str(&mut out, ", ");
        }
        push_str(&mut out, profiles[i].as_str());
        proof {
            let w = strings_view(profiles@.take(i + 1));
            assert(w.drop_last() =~= strings_view(profiles@.take(i as int)));
            if i == 0 {
                assert(w =~= seq![profiles@[0]@]);
            }
        }
        i = i + 1;
    }
    assert(profiles@.take(n as int) =~= profiles@);
    push_str(&mut out, ") — pass one with `--profile <name>`");
    Err(string_from_chars(&out))
}

/// Byte counter text for the views: binary units with one decimal (`G`, `M`,
/// `K`), plain bytes below 1024.
pub open spec fn bytes_text(n: nat) -> Seq<char> {
    binary_units_text(f64_value(n), false, 1)
}

/// Formats a byte counter (e.g. `1.5G`, `12.0K`, `900`).
pub fn fmt_bytes(n: u64) -> (s: String)
    ensures
        s@ == bytes_text(n as nat),
{
    let r = f64_value_of(n);
    let mut out: Vec<char> = Vec::new();
    push_binary_units(&mut out, r, false, 1);
    string_from_chars(&out)
}

/// An optional text, or `--`.
pub open spec fn or_dash(o: Option<String>) -> Seq<char> {
    match o {
        Some(s) => s@,
        None => "--"@,
    }
}

/// An optional text, or `--`, as a `String`.
fn dash_or(o: &Option<String>) -> (s: String)
    ensures
        s@ == or_dash(*o),
{
    match o {
        Some(x) => x.clone(),
        None => "--".to_owned(),
    }
}

/// An optional number, or 0.
pub open spec fn or_zero(o: Option<u32>) -> nat {
    match o {
        Some(n) => n as nat,
        None => 0,
    }
}

/// A line of the `interfaces` report: name, `UP`/`DOWN`, IPv4 address and
/// the receive and transmit byte counters.
pub open spec fn interface_line_text(i: InterfaceStatus) -> Seq<char> {
    pad_right(i.name@, 12) + " "@ + (if i.link_state == LinkState::Up {
        "UP"@
    } else {
        "DOWN"@
    }) + " "@ + pad_left(or_dash(i.ipv4), 12) + " "@ + pad_left(bytes_text(i.rx_bytes as nat), 14)
        + " "@ + pad_left(bytes_text(i.tx_bytes as nat), 14)
}

/// Formats a line of the `interfaces` report.
pub fn interface_line(i: &InterfaceStatus) -> (s: String)
    ensures
        s@ == interface_line_text(*i),
{
    let mut out: Vec<char> = Vec::new();
    push_padded_right(&mut out, i.name.as_str(), 12);
    push_str(&mut out, " ");
    push_str(
        &mut out,
        if i.link_state == LinkState::Up {
            "UP"
        } else {
            "DOWN"
        },
    );
    push_str(&mut out, " ");
    push_padded_left(&mut out, dash_or(&i.ipv4).as_str(), 12);
    push_str(&mut out, " ");
    push_padded_left(&mut out, fmt_bytes(i.rx_bytes).as_str(), 14);
    push_str(&mut out, " ");
    push_padded_left(&mut out, fmt_bytes(i.tx_bytes).as_str(), 14);
    string_from_chars(&out)
}

/// A line of the `vpn` report: name, phase-1 state and IKE version.
pub open spec fn vpn_line_text(t: IpsecTunnel) -> Seq<char> {
    pad_right(t.name@, 20) + " "@ + pad_right(or_dash(t.phase1_state), 8) + " "@ + pad_right(
        or_dash(t.ike_version),
        6,
    )
}

/// Formats a line of the `vpn` report.
pub fn vpn_line(t: &IpsecTunnel) -> (s: String)
    ensures
        s@ == vpn_line_text(*t),
{
    let mut out: Vec<char> = Vec::new();
    push_padded_right(&mut out, t.name.as_str(), 20);
    push_str(&mut out, " ");
    push_padded_right(&mut out, dash_or(&t.phase1_state).as_str(), 8);
    push_str(&mut out, " ");
    push_padded_right(&mut out, dash_or(&t.ike_version).as_str(), 6);
    string_from_chars(&out)
}

/// A line of the `routes` report: prefix, protocol, next hop, interface and
/// distance.
pub open spec fn route_line_text(r: Route) -> Seq<char> {
    pad_right(r.prefix@, 18) + " "@ + pad_right(r.protocol@, 12) + " "@ + pad_right(
        or_dash(r.next_hop),
        16,
    ) + " "@ + pad_right(or_dash(r.interface), 10) + " d="@ + decimal(or_zero(r.distance))
}

/// Formats a line of the `routes` report.
pub fn route_line(r: &Route) -> (s: String)
    ensures
        s@ == route_line_text(*r),
{
    let mut out: Vec<char> = Vec::new();
    push_padded_right(&mut out, r.prefix.as_str(), 18);
    push_str(&mut out, " ");
    push_padded_right(&mut out, r.protocol.as_str(), 12);
    push_str(&mut out, " ");
    push_padded_right(&mut out, dash_or(&r.next_hop).as_str(), 16);
    push_str(&mut out, " ");
    push_padded_right(&mut out, dash_or(&r.interface).as_str(), 10);
    push_str(&mut out, " d=");
    push_decimal(
        &mut out,
        match r.distance {
            Some(d) => d as u128,
            None => 0,
        },
    );
    string_from_chars(&out)
}

/// A line of the `lookup` report: prefix, protocol, next hop, interface,
/// distance and metric.
pub open spec fn lookup_line_text(r: Route) -> Seq<char> {
    pad_right(r.prefix@, 20) + " "@ + pad_right(r.protocol@, 10) + " "@ + pad_right(
        or_dash(r.next_hop),
        16,
    ) + " "@ + pad_right(or_dash(r.interface), 10) + " d="@ + decimal(or_zero(r.distance))
        + " m="@ + decimal(or_zero(r.metric))
}

/// Formats a line of the `lookup` report.
pub fn lookup_line(r: &Route) -> (s: String)
    ensures
        s@ == lookup_line_text(*r),
{
    let mut out: Vec<char> = Vec::new();
    push_padded_right(&mut out, r.prefix.as_str(), 20);
    push_str(&mut out, " ");
    push_padded_right(&mut out, r.protocol.as_str(), 10);
    push_str(&mut out, " ");
    push_padded_right(&mut out, dash_or(&r.next_hop).as_str(), 16);
    push_str(&mut out, " ");
    push_padded_right(&mut out, dash_or(&r.interface).as_str(), 10);
    push_str(&mut out, " d=");
    push_decimal(
        &mut out,
        match r.distance {
            Some(d) => d as u128,
            None => 0,
        },
    );
    push_str(&mut out, " m=");
    push_decimal(
        &mut out,
        match r.metric {
            Some(m) => m as u128,
            None => 0,
        },
    );
    string_from_chars(&out)
}

/// The policy column of a session: its number, or `--`.
pub open spec fn policy_text(p: Option<u32>) -> Seq<char> {
    match p {
        Some(n) => decimal(n as nat),
        None => "--"@,
    }
}

/// A line of the `sessions` report: `src:port -> dst:port`, protocol,
/// policy, bytes, packets and age.
pub open spec fn session_line_text(s: FirewallSession) -> Seq<char> {
    pad_right(s.src@, 15) + ":"@ + pad_right(decimal(s.src_port as nat), 5) + " -> "@ + pad_right(
        s.dst@,
        15,
    ) + ":"@ + pad_right(decimal(s.dst_port as nat), 5) + " "@ + pad_right(s.proto@, 4) + " pol="@
        + pad_right(policy_text(s.policy), 4) + " "@ + pad_right(bytes_text(s.bytes as nat), 6)
        + " "@ + pad_right(bytes_text(s.packets as nat), 8) + " "@ + decimal(s.age_secs as nat)
        + "s"@
}

/// Formats a line of the `sessions` report.
pub fn session_line(s: &FirewallSession) -> (r: String)
    ensures
        r@ == session_line_text(*s),
{
    let mut out: Vec<char> = Vec::new();
    push_padded_right(&mut out, s.src.as_str(), 15);
    push_str(&mut out, ":");
    push_padded_right(&mut out, decimal_string(s.src_port as u64).as_str(), 5);
    push_str(&mut out, " -> ");
    push_padded_right(&mut out, s.dst.as_str(), 15);
    push_str(&mut out, ":");
    push_padded_right(&mut out, decimal_string(s.dst_port as u64).as_str(), 5);
    push_str(&mut out, " ");
    push_padded_right(&mut out, s.proto.as_str(), 4);
    push_str(&mut out, " pol=");
    let pol = match s.policy {
        Some(p) => decimal_string(p as u64),
        None => "--".to_owned(),
    };
    push_padded_right(&mut out, pol.as_str(), 4);
    push_str(&mut out, " ");
    push_padded_right(&mut out, fmt_bytes(s.bytes).as_str(), 6);
    push_str(&mut out, " ");
    push_padded_right(&mut out, fmt_bytes(s.packets).as_str(), 8);
    push_str(&mut out, " ");
    push_decimal(&mut out, s.age_secs as u128);
    push_str(&mut out, "s");
    string_from_chars(&out)
}

/// A line of the `policies` report: id, hit count, bytes and sessions.
pub open spec fn policy_line_text(p: FirewallPolicy) -> Seq<char> {
    pad_right(decimal(p.id as nat), 4) + " hits="@ + pad_right(decimal(p.hit_count as nat), 10)
        + " bytes="@ + pad_right(bytes_text(p.bytes as nat), 12) + " sessions="@ + decimal(
        p.sessions as nat,
    )
}

/// Formats a line of the `policies` report.
pub fn policy_line(p: &FirewallPolicy) -> (s: String)
    ensures
        s@ == policy_line_text(*p),
{
    let mut out: Vec<char> = Vec::new();
    push_padded_right(&mut out, decimal_string(p.id as u64).as_str(), 4);
    push_str(&mut out, " hits=");
    push_padded_right(&mut out, decimal_string(p.hit_count).as_str(), 10);
    push_str(&mut out, " bytes=");
    push_padded_right(&mut out, fmt_bytes(p.bytes).as_str(), 12);
    push_str(&mut out, " sessions=");
    push_decimal(&mut out, p.sessions as u128);
    string_from_chars(&out)
}


/// The first line of the `status` report: `{hostname} — {model} {fortios}`.
pub open spec fn status_head_text(s: SystemStatus) -> Seq<char> {
    s.hostname@ + " — "@ + s.model@ + " "@ + s.fortios@
}

/// Formats the first line of the `status` report.
pub fn status_head(s: &SystemStatus) -> (r: String)
    ensures
        r@ == status_head_text(*s),
{
    let mut out: Vec<char> = Vec::new();
    push_str(&mut out, s.hostname.as_str());
    push_str(&mut out, " — ");
    push_str(&mut out, s.model.as_str());
    push_str(&mut out, " ");
    push_str(&mut out, s.fortios.as_str());
    string_from_chars(&out)
}

/// A field line of the `status` report: two spaces, the label and a colon
/// padded to ten characters, then the value.
pub open spec fn report_field_text(label: Seq<char>, value: Seq<char>) -> Seq<char> {
    "  "@ + pad_right(label + ":"@, 10) + value
}

/// Formats a field line of the `status` report (e.g. `  Serial:   FG…`).
pub fn report_field(label: &str, value: &str) -> (r: String)
    ensures
        r@ == report_field_text(label@, value@),
{
    let mut key: Vec<char> = Vec::new();
    push_str(&mut key, label);
    push_str(&mut key, ":");
    let key = string_from_chars(&key);
    let mut out: Vec<char> = Vec::new();
    push_str(&mut out, "  ");
    push_padded_right(&mut out, key.as_str(), 10);
    push_str(&mut out, value);
    string_from_chars(&out)
}

/// A line of the `sdwan` report: name, state, then the latency, jitter and
/// loss texts (measured in floating point elsewhere) and the SLA.
pub open spec fn sdwan_line_text(
    m: SdwanMember,
    lat: Seq<char>,
    jit: Seq<char>,
    loss: Seq<char>,
) -> Seq<char> {
    pad_right(m.name@, 12) + " "@ + pad_right(m.state@, 8) + " lat="@ + pad_right(lat, 6)
        + " jit="@ + pad_right(jit, 5) + " loss="@ + pad_right(loss, 6) + " sla="@ + or_dash(
        m.sla,
    )
}

/// Formats a line of the `sdwan` report.
pub fn sdwan_line(m: &SdwanMember, lat: &str, jit: &str, loss: &str) -> (r: String)
    ensures
        r@ == sdwan_line_text(*m, lat@, jit@, loss@),
{
    let mut out: Vec<char> = Vec::new();
    push_padded_right(&mut out, m.name.as_str(), 12);
    push_str(&mut out, " ");
    push_padded_right(&mut out, m.state.as_str(), 8);
    push_str(&mut out, " lat=");
    push_padded_right(&mut out, lat, 6);
    push_str(&mut out, " jit=");
    push_padded_right(&mut out, jit, 5);
    push_str(&mut out, " loss=");
    push_padded_right(&mut out, loss, 6);
    push_str(&mut out, " sla=");
    push_str(&mut out, dash_or(&m.sla).as_str());
    string_from_chars(&out)
}

} // verus!

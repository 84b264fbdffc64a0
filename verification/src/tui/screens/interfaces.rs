//! Interfaces screen: byte counters, bit rates, the throughput sparkline,
//! and what the list and the detail pane show of an interface.

use vstd::prelude::*;
use crate::numfmt::{
    binary_units_text, f64_quotient, f64_value, push_binary_units, f64_value_of, fixed_text, push_fixed, quot_exponent,
    quot_significand, round_half_away, round_half_away_u128, two_pow,
};
use crate::models::{InterfaceStatus, LinkState};
use crate::text::{
    decimal, decimal_string, pad_right, push_decimal, push_padded_right, push_str,
    string_from_chars, to_uppercase, uppercase_text,
};
use crate::tui::screens::{
    count_where, lemma_count_where_len, lemma_count_where_push, matches_search, search_matches,
    Tone,
};
use crate::tui::state::IfaceRates;

verus! {

/// Byte counter text: binary units, `G`/`M` with one decimal, `K` and plain
/// bytes with none.
pub open spec fn bytes_text(n: nat) -> Seq<char> {
    binary_units_text(f64_value(n), false, 0)
}

/// Formats a byte counter (e.g. `1.5G`, `12K`, `900`).
pub fn fmt_bytes(n: u64) -> (s: String)
    ensures
        s@ == bytes_text(n as nat),
{
    let r = f64_value_of(n);
    let mut out: Vec<char> = Vec::new();
    push_binary_units(&mut out, r, false, 0);
    string_from_chars(&out)
}

/// Text of `bits / unit` printed as a double with `decimals` decimals.
pub open spec fn rate_value_text(bits: nat, unit: nat, decimals: nat) -> Seq<char> {
    let r = f64_value(bits);
    fixed_text(
        quot_significand(r, unit),
        two_pow(quot_exponent(r, unit, 0)),
        decimals,
    )
}

/// Bit-rate text: decimal units (`Gbps`, `Mbps` with one decimal, `Kbps`
/// with none), plain `bps` below one thousand.
pub open spec fn bps_text(bps: nat) -> Seq<char> {
    if bps >= 1_000_000_000 {
        rate_value_text(bps, 1_000_000_000, 1) + " Gbps"@
    } else if bps >= 1_000_000 {
        rate_value_text(bps, 1_000_000, 1) + " Mbps"@
    } else if bps >= 1_000 {
        rate_value_text(bps, 1_000, 0) + " Kbps"@
    } else {
        decimal(bps) + " bps"@
    }
}

fn push_rate(out: &mut Vec<char>, bps: u64, unit: u128, decimals: u8)
    requires
        bps >= unit,
        1 <= unit <= 1_000_000_000,
        decimals <= 1,
    ensures
        final(out)@ == old(out)@ + rate_value_text(bps as nat, unit as nat, decimals as nat),
{
    let r = f64_value_of(bps);
    assert(r > 0) by {
        assert(f64_value(bps as nat) > 0) by {
            crate::numfmt::lemma_f64_value_pos(bps as nat);
        }
    }
    let (m, den) = f64_quotient(r, unit);
    push_fixed(out, m, den, decimals);
}

/// Formats a bit rate (e.g. `1.2 Gbps`, `640 Kbps`, `12 bps`).
pub fn fmt_bps(bps: u64) -> (s: String)
    ensures
        s@ == bps_text(bps as nat),
{
    let mut out: Vec<char> = Vec::new();
    if bps >= 1_000_000_000 {
        push_rate(&mut out, bps, 1_000_000_000, 1);
        push_str(&mut out, " Gbps");
    } else if bps >= 1_000_000 {
        push_rate(&mut out, bps, 1_000_000, 1);
        push_str(&mut out, " Mbps");
    } else if bps >= 1_000 {
        push_rate(&mut out, bps, 1_000, 0);
        push_str(&mut out, " Kbps");
    } else {
        push_decimal(&mut out, bps as u128);
        push_str(&mut out, " bps");
    }
    string_from_chars(&out)
}

/// The block character for sparkline level `i` (0 = blank, 8 = full block).
pub open spec fn bar_char(i: nat) -> char {
    if i == 0 {
        ' '
    } else if i == 1 {
        '▁'
    } else if i == 2 {
        '▂'
    } else if i == 3 {
        '▃'
    } else if i == 4 {
        '▄'
    } else if i == 5 {
        '▅'
    } else if i == 6 {
        '▆'
    } else if i == 7 {
        '▇'
    } else {
        '█'
    }
}

/// The largest value of the series, and at least 1.
pub open spec fn series_max(s: Seq<u64>) -> nat
    decreases s.len(),
{
    if s.len() == 0 {
        1
    } else {
        let m = series_max(s.drop_last());
        if s.last() > m {
            s.last() as nat
        } else {
            m
        }
    }
}

/// Sparkline level of `v` against `max`: `round(v / max * 8)` computed in
/// double precision (ties away from zero), capped at 8.
pub open spec fn spark_level(v: nat, max: nat) -> nat {
    let rv = f64_value(v);
    let rm = f64_value(max);
    if rv == 0 {
        0
    } else {
        let l = round_half_away(
            8 * quot_significand(rv, rm),
            two_pow(quot_exponent(rv, rm, 0)),
        );
        if l > 8 {
            8
        } else {
            l
        }
    }
}

/// One block character per value, scaled to the series maximum.
pub open spec fn sparkline_text(vals: Seq<u64>) -> Seq<char> {
    Seq::new(vals.len(), |i: int| bar_char(spark_level(vals[i] as nat, series_max(vals))))
}

fn bar(i: u128) -> (c: char)
    ensures
        c == bar_char(i as nat),
{
    if i == 0 {
        ' '
    } else if i == 1 {
        '▁'
    } else if i == 2 {
        '▂'
    } else if i == 3 {
        '▃'
    } else if i == 4 {
        '▄'
    } else if i == 5 {
        '▅'
    } else if i == 6 {
        '▆'
    } else if i == 7 {
        '▇'
    } else {
        '█'
    }
}

fn level(v: u64, max: u64) -> (l: u128)
    requires
        max >= 1,
    ensures
        l == spark_level(v as nat, max as nat),
{
    let rv = f64_value_of(v);
    if rv == 0 {
        return 0;
    }
    let rm = f64_value_of(max);
    proof {
        crate::numfmt::lemma_f64_value_pos(max as nat);
    }
    let (m, den) = f64_quotient(rv, rm);
    let l = round_half_away_u128(8 * m, den);
    if l > 8 {
        8
    } else {
        l
    }
}

/// Renders the series as block bars scaled to its maximum.
pub fn sparkline(vals: Vec<u64>) -> (s: String)
    ensures
        s@ == sparkline_text(vals@),
{
    let mut max: u64 = 1;
    let mut i: usize = 0;
    while i < vals.len()
        invariant
            i <= vals@.len(),
            max == series_max(vals@.subrange(0, i as int)),
            max >= 1,
        decreases vals@.len() - i,
    {
        assert(vals@.subrange(0, i + 1).drop_last() == vals@.subrange(0, i as int));
        if vals[i] > max {
            max = vals[i];
        }
        i = i + 1;
    }
    assert(vals@.subrange(0, vals@.len() as int) == vals@);
    let mut out: Vec<char> = Vec::new();
    let mut j: usize = 0;
    while j < vals.len()
        invariant
            j <= vals@.len(),
            max == series_max(vals@),
            max >= 1,
            out@.len() == j,
            forall|k: int| 0 <= k < j ==> out@[k] == bar_char(spark_level(vals@[k] as nat, max as nat)),
        decreases vals@.len() - j,
    {
        let l = level(vals[j], max);
        out.push(bar(l));
        j = j + 1;
    }
    assert(out@ == sparkline_text(vals@));
    string_from_chars(&out)
}


/// A sparkline has one character per value.
pub proof fn law_sparkline_length(vals: Seq<u64>)
    ensures
        sparkline_text(vals).len() == vals.len(),
{
}

/// The nine characters a sparkline is drawn with, from blank to full.
pub open spec fn spark_levels() -> Seq<char> {
    seq![' ', '▁', '▂', '▃', '▄', '▅', '▆', '▇', '█']
}

/// Every character of a sparkline is one of the nine levels.
pub proof fn law_sparkline_levels(vals: Seq<u64>)
    ensures
        forall|i: int| 0 <= i < vals.len() ==> spark_levels().contains(#[trigger] sparkline_text(vals)[i]),
{
    assert forall|i: int| 0 <= i < vals.len() implies spark_levels().contains(
        #[trigger] sparkline_text(vals)[i],
    ) by {
        let l = spark_level(vals[i] as nat, series_max(vals));
        let c = bar_char(l);
        if l == 0 {
            assert(spark_levels()[0] == c);
        } else if l == 1 {
            assert(spark_levels()[1] == c);
        } else if l == 2 {
            assert(spark_levels()[2] == c);
        } else if l == 3 {
            assert(spark_levels()[3] == c);
        } else if l == 4 {
            assert(spark_levels()[4] == c);
        } else if l == 5 {
            assert(spark_levels()[5] == c);
        } else if l == 6 {
            assert(spark_levels()[6] == c);
        } else if l == 7 {
            assert(spark_levels()[7] == c);
        } else {
            assert(spark_levels()[8] == c);
        }
    }
}

/// The speed column: whole gigabits from 1000 Mb/s, else megabits; `--`
/// when unknown.
pub open spec fn speed_text(speed: Option<u64>) -> Seq<char> {
    match speed {
        Some(s) => if s >= 1000 {
            decimal((s / 1000) as nat) + " Gbps"@
        } else {
            decimal(s as nat) + " Mbps"@
        },
        None => "--"@,
    }
}

/// Formats an interface speed.
pub fn fmt_speed(speed: Option<u64>) -> (r: String)
    ensures
        r@ == speed_text(speed),
{
    let mut out: Vec<char> = Vec::new();
    match speed {
        Some(s) => if s >= 1000 {
            push_decimal(&mut out, (s / 1000) as u128);
            push_str(&mut out, " Gbps");
        } else {
            push_decimal(&mut out, s as u128);
            push_str(&mut out, " Mbps");
        },
        None => push_str(&mut out, "--"),
    }
    string_from_chars(&out)
}

/// The tone of an error counter: yellow when there are errors, else gray.
pub fn errors_tone(errors: u64) -> (t: Tone)
    ensures
        t == (if errors > 0 {
            Tone::Yellow
        } else {
            Tone::Gray
        }),
{
    if errors > 0 {
        Tone::Yellow
    } else {
        Tone::Gray
    }
}

/// An interface is listed when the search matches its name, alias, IPv4 or
/// IPv6 address (a missing one counting as empty).
pub fn interface_matches(needle: &str, i: &InterfaceStatus) -> (b: bool)
    ensures
        b == search_matches(
            needle@,
            seq![i.name@, or_empty(i.alias), or_empty(i.ipv4), or_empty(i.ipv6)],
        ),
{
    let alias = empty_or(&i.alias);
    let v4 = empty_or(&i.ipv4);
    let v6 = empty_or(&i.ipv6);
    let hay = [i.name.as_str(), alias.as_str(), v4.as_str(), v6.as_str()];
    let r = matches_search(needle, &hay);
    proof {
        assert(hay@.map_values(|h: &str| h@) =~= seq![
            i.name@,
            or_empty(i.alias),
            or_empty(i.ipv4),
            or_empty(i.ipv6),
        ]);
    }
    r
}

/// An optional text, or the empty text.
pub open spec fn or_empty(o: Option<String>) -> Seq<char> {
    match o {
        Some(s) => s@,
        None => Seq::empty(),
    }
}

fn empty_or(o: &Option<String>) -> (s: String)
    ensures
        s@ == or_empty(*o),
{
    match o {
        Some(x) => x.clone(),
        None => String::new(),
    }
}

/// An optional text, or `--`.
pub open spec fn or_dash(o: Option<String>) -> Seq<char> {
    match o {
        Some(s) => s@,
        None => "--"@,
    }
}

fn dash_or(o: &Option<String>) -> (s: String)
    ensures
        s@ == or_dash(*o),
{
    match o {
        Some(x) => x.clone(),
        None => "--".to_owned(),
    }
}

/// The title of an interface's detail pane: its name upper-cased, then
/// ` — DETAIL`.
pub fn detail_title(name: &str) -> (r: String)
    ensures
        r@ == uppercase_text(name@) + " — DETAIL"@,
{
    let upper = to_uppercase(name);
    let mut out: Vec<char> = Vec::new();
    push_str(&mut out, upper.as_str());
    push_str(&mut out, " — DETAIL");
    string_from_chars(&out)
}

/// The labelled values of an interface's detail pane, labels padded to ten
/// characters.
pub open spec fn detail_rows(i: InterfaceStatus) -> Seq<(Seq<char>, Seq<char>)> {
    seq![
        (pad_right("State"@, 10), if i.link_state == LinkState::Up {
            "UP"@
        } else {
            "DOWN"@
        }),
        (pad_right("IPv4"@, 10), or_dash(i.ipv4)),
        (pad_right("IPv6"@, 10), or_dash(i.ipv6)),
        (pad_right("Speed"@, 10), speed_text(i.speed_mbps)),
        (pad_right("Duplex"@, 10), or_dash(i.duplex)),
        (pad_right("MTU"@, 10), match i.mtu {
            Some(m) => decimal(m as nat),
            None => "--"@,
        }),
        (pad_right("RX bytes"@, 10), bytes_text(i.rx_bytes as nat)),
        (pad_right("TX bytes"@, 10), bytes_text(i.tx_bytes as nat)),
        (pad_right("Errors"@, 10), decimal(i.errors as nat)),
        (pad_right("Drops"@, 10), decimal(i.drops as nat)),
    ]
}

/// Rows of text as characters.
pub open spec fn rows_view(v: Seq<(String, String)>) -> Seq<(Seq<char>, Seq<char>)> {
    v.map_values(|r: (String, String)| (r.0@, r.1@))
}

fn label(k: &str) -> (s: String)
    ensures
        s@ == pad_right(k@, 10),
{
    let mut out: Vec<char> = Vec::new();
    push_padded_right(&mut out, k, 10);
    string_from_chars(&out)
}

/// The labelled values of an interface's detail pane.
pub fn detail_lines(i: &InterfaceStatus) -> (v: Vec<(String, String)>)
    ensures
        rows_view(v@) == detail_rows(*i),
{
    let mut v: Vec<(String, String)> = Vec::new();
    v.push(
        (
            label("State"),
            if i.link_state == LinkState::Up {
                "UP".to_owned()
            } else {
                "DOWN".to_owned()
            },
        ),
    );
    v.push((label("IPv4"), dash_or(&i.ipv4)));
    v.push((label("IPv6"), dash_or(&i.ipv6)));
    v.push((label("Speed"), fmt_speed(i.speed_mbps)));
    v.push((label("Duplex"), dash_or(&i.duplex)));
    v.push(
        (
            label("MTU"),
            match i.mtu {
                Some(m) => decimal_string(m as u64),
                None => "--".to_owned(),
            },
        ),
    );
    v.push((label("RX bytes"), fmt_bytes(i.rx_bytes)));
    v.push((label("TX bytes"), fmt_bytes(i.tx_bytes)));
    v.push((label("Errors"), decimal_string(i.errors)));
    v.push((label("Drops"), decimal_string(i.drops)));
    assert(rows_view(v@) =~= detail_rows(*i));
    v
}

/// The receive and transmit rate series of an interface's history, and the
/// newest sample of each (0 without history).
pub struct RateSeries {
    pub rx: Vec<u64>,
    pub tx: Vec<u64>,
    pub rx_now: u64,
    pub tx_now: u64,
}

/// The rate series of a history (absent for an interface not yet seen).
pub fn rate_series(rates: Option<&IfaceRates>) -> (r: RateSeries)
    ensures
        match rates {
            Some(x) => {
                let h = x.history@;
                &&& r.rx@ == h.map_values(|s: (u64, u64, u64)| s.1)
                &&& r.tx@ == h.map_values(|s: (u64, u64, u64)| s.2)
                &&& r.rx_now == (if h.len() > 0 {
                    h.last().1
                } else {
                    0
                })
                &&& r.tx_now == (if h.len() > 0 {
                    h.last().2
                } else {
                    0
                })
            },
            None => r.rx@.len() == 0 && r.tx@.len() == 0 && r.rx_now == 0 && r.tx_now == 0,
        },
{
    let mut rx: Vec<u64> = Vec::new();
    let mut tx: Vec<u64> = Vec::new();
    match rates {
        Some(x) => {
            let n = x.history.len();
            let mut i: usize = 0;
            while i < n
                invariant
                    n == x.history@.len(),
                    i <= n,
                    rx@ == x.history@.take(i as int).map_values(|s: (u64, u64, u64)| s.1),
                    tx@ == x.history@.take(i as int).map_values(|s: (u64, u64, u64)| s.2),
                decreases n - i,
            {
                let s = x.history[i];
                rx.push(s.1);
                tx.push(s.2);
                proof {
                    assert(x.history@.take(i + 1).map_values(|s: (u64, u64, u64)| s.1) =~= x.history@.take(
                        i as int,
                    ).map_values(|s: (u64, u64, u64)| s.1).push(s.1));
                    assert(x.history@.take(i + 1).map_values(|s: (u64, u64, u64)| s.2) =~= x.history@.take(
                        i as int,
                    ).map_values(|s: (u64, u64, u64)| s.2).push(s.2));
                }
                i = i + 1;
            }
            assert(x.history@.take(n as int) =~= x.history@);
            let (rx_now, tx_now) = if n > 0 {
                let s = x.history[n - 1];
                (s.1, s.2)
            } else {
                (0, 0)
            };
            RateSeries { rx, tx, rx_now, tx_now }
        },
        None => RateSeries { rx, tx, rx_now: 0, tx_now: 0 },
    }
}


/// An interface whose link is up.
pub open spec fn link_up(i: InterfaceStatus) -> bool {
    i.link_state == LinkState::Up
}

/// The status line of the interfaces screen: how many interfaces, how many
/// up, and the keys.
pub fn interfaces_status(ifs: &Vec<InterfaceStatus>) -> (s: String)
    ensures
        s@ == decimal(ifs@.len()) + " interfaces, "@ + decimal(
            count_where(ifs@, |i: InterfaceStatus| link_up(i)),
        ) + " up  |  ↑/↓ select, Enter detail, Esc back"@,
{
    let ghost p = |i: InterfaceStatus| link_up(i);
    let mut c: usize = 0;
    let mut k: usize = 0;
    while k < ifs.len()
        invariant
            k <= ifs@.len(),
            p == (|i: InterfaceStatus| link_up(i)),
            c == count_where(ifs@.take(k as int), p),
        decreases ifs@.len() - k,
    {
        proof {
            lemma_count_where_push(ifs@, p, k as int);
            lemma_count_where_len(ifs@.take(k as int), p);
        }
        if ifs[k].link_state == LinkState::Up {
            c = c + 1;
        }
        k = k + 1;
    }
    assert(ifs@.take(ifs@.len() as int) =~= ifs@);
    let mut out: Vec<char> = Vec::new();
    push_decimal(&mut out, ifs.len() as u128);
    push_str(&mut out, " interfaces, ");
    push_decimal(&mut out, c as u128);
    push_str(&mut out, " up  |  ↑/↓ select, Enter detail, Esc back");
    string_from_chars(&out)
}


/// Whether the search matches an interface's name, alias, IPv4 or IPv6
/// address (see [`interface_matches`]).
pub open spec fn iface_listed(needle: Seq<char>, i: InterfaceStatus) -> bool {
    search_matches(needle, seq![i.name@, or_empty(i.alias), or_empty(i.ipv4), or_empty(i.ipv6)])
}

/// The position in `ifs` of the `k`-th interface listed by the search,
/// counting from position `start`.
pub open spec fn nth_listed(ifs: Seq<InterfaceStatus>, needle: Seq<char>, k: nat, start: nat) -> Option<
    nat,
>
    decreases ifs.len() - start,
{
    if start >= ifs.len() {
        None
    } else if iface_listed(needle, ifs[start as int]) {
        if k == 0 {
            Some(start)
        } else {
            nth_listed(ifs, needle, (k - 1) as nat, start + 1)
        }
    } else {
        nth_listed(ifs, needle, k, start + 1)
    }
}

/// The interface the detail pane shows: the one highlighted in the filtered
/// list, i.e. the `sel`-th interface the search lists (none when the list is
/// shorter).
pub fn detail_index(ifs: &Vec<InterfaceStatus>, search: &str, sel: usize) -> (r: Option<usize>)
    ensures
        match r {
            Some(i) => nth_listed(ifs@, search@, sel as nat, 0) == Some(i as nat),
            None => nth_listed(ifs@, search@, sel as nat, 0) is None,
        },
{
    let mut k: usize = sel;
    let mut i: usize = 0;
    while i < ifs.len()
        invariant
            i <= ifs@.len(),
            nth_listed(ifs@, search@, sel as nat, 0) == nth_listed(ifs@, search@, k as nat, i as nat),
        decreases ifs@.len() - i,
    {
        if interface_matches(search, &ifs[i]) {
            if k == 0 {
                return Some(i);
            }
            k = k - 1;
        }
        i = i + 1;
    }
    None
}

} // verus!

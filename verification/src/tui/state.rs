//! In-memory application state: the latest normalized data
//! per domain, the rolling event log, per-interface throughput history, and
//! the console's selection and input state. No database.

use vstd::prelude::*;
use std::collections::VecDeque;
use crate::tui::detect::{
    activations, all_at, detect_interfaces_at, detect_sdwan_active_at, detect_sdwan_at,
    events_view, interface_transitions, member_transitions,
};
use crate::models::{
    BgpState, Event, FirewallPolicy, FirewallSession, InterfaceStatus, IpsecTunnel, Route,
    SdwanState, SystemStatus,
};

verus! {

/// How many throughput samples to retain per interface (60 × 2 s ≈ 2 minutes).
pub const MAX_RATE_SAMPLES: usize = 60;

/// Rolling in-memory throughput history for one interface.
pub struct IfaceRates {
    pub last_rx_bytes: u64,
    pub last_tx_bytes: u64,
    pub last_ts: u64,
    /// `(unix_ts, rx_bps, tx_bps)` in arrival order; at most [`MAX_RATE_SAMPLES`].
    pub history: VecDeque<(u64, u64, u64)>,
}

/// The contents of an [`IfaceRates`].
pub struct RatesView {
    pub last_rx_bytes: u64,
    pub last_tx_bytes: u64,
    pub last_ts: u64,
    pub history: Seq<(u64, u64, u64)>,
}

impl View for IfaceRates {
    type V = RatesView;

    open spec fn view(&self) -> RatesView {
        RatesView {
            last_rx_bytes: self.last_rx_bytes,
            last_tx_bytes: self.last_tx_bytes,
            last_ts: self.last_ts,
            history: self.history@,
        }
    }
}

/// The history of an interface seen for the first time: all zero, no samples.
pub open spec fn fresh_rates() -> RatesView {
    RatesView { last_rx_bytes: 0, last_tx_bytes: 0, last_ts: 0, history: Seq::empty() }
}

impl IfaceRates {
    /// An empty history.
    pub fn new() -> (r: Self)
        ensures
            r@ == fresh_rates(),
    {
        IfaceRates { last_rx_bytes: 0, last_tx_bytes: 0, last_ts: 0, history: VecDeque::new() }
    }
}

/// Throughput histories keyed by interface name.
pub struct IfaceRateTable {
    pub entries: Vec<(String, IfaceRates)>,
}

/// The map a list of named histories denotes (a later entry shadows an
/// earlier one of the same name).
pub open spec fn table_map(v: Seq<(String, IfaceRates)>) -> Map<Seq<char>, RatesView>
    decreases v.len(),
{
    if v.len() == 0 {
        Map::empty()
    } else {
        table_map(v.drop_last()).insert(v.last().0@, v.last().1@)
    }
}

/// No two entries share a name.
pub open spec fn unique_names(v: Seq<(String, IfaceRates)>) -> bool {
    forall|i: int, j: int| 0 <= i < j < v.len() ==> v[i].0@ != v[j].0@
}

proof fn lemma_table_dom(v: Seq<(String, IfaceRates)>, name: Seq<char>)
    ensures
        table_map(v).dom().contains(name) <==> exists|k: int| 0 <= k < v.len() && v[k].0@ == name,
    decreases v.len(),
{
    if v.len() > 0 {
        lemma_table_dom(v.drop_last(), name);
        if table_map(v).dom().contains(name) && v.last().0@ != name {
            let k = choose|k: int| 0 <= k < v.drop_last().len() && v.drop_last()[k].0@ == name;
            assert(v[k].0@ == name);
        }
        if exists|k: int| 0 <= k < v.len() && v[k].0@ == name {
            let k = choose|k: int| 0 <= k < v.len() && v[k].0@ == name;
            if k < v.len() - 1 {
                assert(v.drop_last()[k].0@ == name);
            }
        }
    }
}

proof fn lemma_table_get(v: Seq<(String, IfaceRates)>, k: int)
    requires
        unique_names(v),
        0 <= k < v.len(),
    ensures
        table_map(v).dom().contains(v[k].0@),
        table_map(v)[v[k].0@] == v[k].1@,
    decreases v.len(),
{
    if k < v.len() - 1 {
        lemma_table_get(v.drop_last(), k);
    }
}

proof fn lemma_table_update(v: Seq<(String, IfaceRates)>, k: int, r: IfaceRates)
    requires
        unique_names(v),
        0 <= k < v.len(),
    ensures
        table_map(v.update(k, (v[k].0, r))) == table_map(v).insert(v[k].0@, r@),
    decreases v.len(),
{
    let w = v.update(k, (v[k].0, r));
    if k == v.len() - 1 {
        assert(w.drop_last() =~= v.drop_last());
        lemma_table_dom(v.drop_last(), v[k].0@);
        assert(table_map(w) =~= table_map(v).insert(v[k].0@, r@));
    } else {
        lemma_table_update(v.drop_last(), k, r);
        assert(w.drop_last() =~= v.drop_last().update(k, (v[k].0, r)));
        assert(table_map(w) =~= table_map(v).insert(v[k].0@, r@));
    }
}

/// Every history of a table holds at most sixty samples.
pub open spec fn histories_bounded(m: Map<Seq<char>, RatesView>) -> bool {
    forall|n: Seq<char>| m.dom().contains(n) ==> (#[trigger] m[n]).history.len() <= 60
}

/// Some interface of `ifaces` is named `name`.
pub open spec fn names_reading(ifaces: Seq<InterfaceStatus>, name: Seq<char>) -> bool {
    exists|k: int| 0 <= k < ifaces.len() && (#[trigger] ifaces[k]).name@ == name
}

proof fn lemma_table_bounded(v: Seq<(String, IfaceRates)>)
    requires
        unique_names(v),
        forall|k: int| 0 <= k < v.len() ==> (#[trigger] v[k]).1.history@.len() <= 60,
    ensures
        histories_bounded(table_map(v)),
{
    assert forall|n: Seq<char>| table_map(v).dom().contains(n) implies (#[trigger] table_map(
        v,
    )[n]).history.len() <= 60 by {
        lemma_table_dom(v, n);
        let k = choose|k: int| 0 <= k < v.len() && v[k].0@ == n;
        lemma_table_get(v, k);
    }
}

/// Readings keep every history within sixty samples; afterwards the table
/// has the names it had plus those read, and the history of an interface
/// not read is unchanged.
pub proof fn law_readings_keep_bound(
    m: Map<Seq<char>, RatesView>,
    ifaces: Seq<InterfaceStatus>,
    now: u64,
)
    requires
        histories_bounded(m),
    ensures
        histories_bounded(record_readings(m, ifaces, now)),
        forall|n: Seq<char>|
            #[trigger] record_readings(m, ifaces, now).dom().contains(n) <==> (m.dom().contains(n)
                || names_reading(ifaces, n)),
        forall|n: Seq<char>|
            m.dom().contains(n) && !names_reading(ifaces, n) ==> #[trigger] record_readings(
                m,
                ifaces,
                now,
            )[n] == m[n],
    decreases ifaces.len(),
{
    if ifaces.len() > 0 {
        let u = ifaces.drop_last();
        law_readings_keep_bound(m, u, now);
        let m1 = record_readings(m, u, now);
        let i = ifaces.last();
        let prev = if m1.dom().contains(i.name@) {
            Some(m1[i.name@])
        } else {
            None
        };
        law_history_bounded(prev, i.rx_bytes, i.tx_bytes, now);
        assert forall|n: Seq<char>| #[trigger] names_reading(ifaces, n) <==> (names_reading(u, n)
            || i.name@ == n) by {
            if names_reading(ifaces, n) {
                let k = choose|k: int| 0 <= k < ifaces.len() && (#[trigger] ifaces[k]).name@ == n;
                if k < ifaces.len() - 1 {
                    assert(u[k].name@ == n);
                }
            }
            if names_reading(u, n) {
                let k = choose|k: int| 0 <= k < u.len() && (#[trigger] u[k]).name@ == n;
                assert(ifaces[k].name@ == n);
            }
            if i.name@ == n {
                assert(ifaces[ifaces.len() - 1].name@ == n);
            }
        }
    }
}

impl View for IfaceRateTable {
    type V = Map<Seq<char>, RatesView>;

    open spec fn view(&self) -> Map<Seq<char>, RatesView> {
        table_map(self.entries@)
    }
}

impl IfaceRateTable {
    /// Every interface has at most one history, and none holds more than
    /// [`MAX_RATE_SAMPLES`] samples.
    pub open spec fn wf(&self) -> bool {
        &&& unique_names(self.entries@)
        &&& forall|k: int| 0 <= k < self.entries@.len() ==> (#[trigger] self.entries@[k]).1.history@.len() <= 60
    }

    /// No histories.
    pub fn new() -> (t: Self)
        ensures
            t.wf(),
            t@ == Map::<Seq<char>, RatesView>::empty(),
    {
        IfaceRateTable { entries: Vec::new() }
    }

    fn position(&self, name: &String) -> (r: Option<usize>)
        requires
            self.wf(),
        ensures
            match r {
                Some(k) => k < self.entries@.len() && self.entries@[k as int].0@ == name@,
                None => forall|k: int| 0 <= k < self.entries@.len() ==> self.entries@[k].0@ != name@,
            },
    {
        let mut i: usize = 0;
        while i < self.entries.len()
            invariant
                i <= self.entries@.len(),
                forall|k: int| 0 <= k < i ==> self.entries@[k].0@ != name@,
            decreases self.entries@.len() - i,
        {
            if self.entries[i].0 == *name {
                return Some(i);
            }
            i = i + 1;
        }
        None
    }

    /// The history of the named interface, if any.
    pub fn get(&self, name: &String) -> (r: Option<&IfaceRates>)
        requires
            self.wf(),
        ensures
            match r {
                Some(x) => self@.dom().contains(name@) && self@[name@] == x@,
                None => !self@.dom().contains(name@),
            },
    {
        proof {
            lemma_table_dom(self.entries@, name@);
        }
        match self.position(name) {
            Some(k) => {
                proof {
                    lemma_table_get(self.entries@, k as int);
                }
                Some(&self.entries[k].1)
            },
            None => None,
        }
    }
}

/// `a - b`, or 0 when `b` is larger (`u64::saturating_sub`).
pub open spec fn sat_sub(a: u64, b: u64) -> nat {
    if a >= b {
        (a - b) as nat
    } else {
        0
    }
}

/// `8 * x`, or `u64::MAX` when that overflows (`u64::saturating_mul(8)`).
pub open spec fn sat_mul8(x: nat) -> nat {
    if 8 * x > u64::MAX {
        u64::MAX as nat
    } else {
        8 * x
    }
}

/// Bits per second between two byte counter readings `dt` seconds apart (a
/// counter that went backwards counts as no traffic).
pub open spec fn rate_bps(cur: u64, prev: u64, dt: nat) -> u64 {
    (sat_mul8(sat_sub(cur, prev)) / dt) as u64
}

/// An interface's history after a new reading `(rx, tx)` at `now`: a sample
/// is appended when there was a previous reading strictly earlier, dropping
/// the oldest beyond [`MAX_RATE_SAMPLES`]; the reading becomes the last one.
pub open spec fn rates_after(prev: Option<RatesView>, rx: u64, tx: u64, now: u64) -> RatesView {
    let hist = match prev {
        Some(p) => if now > p.last_ts {
            let dt = (now - p.last_ts) as nat;
            let h = p.history.push(
                (now, rate_bps(rx, p.last_rx_bytes, dt), rate_bps(tx, p.last_tx_bytes, dt)),
            );
            if h.len() > 60 {
                h.drop_first()
            } else {
                h
            }
        } else {
            p.history
        },
        None => Seq::empty(),
    };
    RatesView { last_rx_bytes: rx, last_tx_bytes: tx, last_ts: now, history: hist }
}

/// The table after one interface reading.
pub open spec fn record_reading(
    m: Map<Seq<char>, RatesView>,
    name: Seq<char>,
    rx: u64,
    tx: u64,
    now: u64,
) -> Map<Seq<char>, RatesView> {
    let prev = if m.dom().contains(name) {
        Some(m[name])
    } else {
        None
    };
    m.insert(name, rates_after(prev, rx, tx, now))
}

/// The table after the readings of `ifaces`, in order.
pub open spec fn record_readings(
    m: Map<Seq<char>, RatesView>,
    ifaces: Seq<InterfaceStatus>,
    now: u64,
) -> Map<Seq<char>, RatesView>
    decreases ifaces.len(),
{
    if ifaces.len() == 0 {
        m
    } else {
        let i = ifaces.last();
        record_reading(record_readings(m, ifaces.drop_last(), now), i.name@, i.rx_bytes, i.tx_bytes, now)
    }
}

fn rate(cur: u64, prev: u64, dt: u64) -> (r: u64)
    requires
        dt > 0,
    ensures
        r == rate_bps(cur, prev, dt as nat),
{
    let d = cur.saturating_sub(prev);
    let b = if d > u64::MAX / 8 {
        u64::MAX
    } else {
        d * 8
    };
    b / dt
}

impl IfaceRateTable {
    /// Records one interface reading (see [`rates_after`]).
    pub fn record(&mut self, name: &String, rx: u64, tx: u64, now: u64)
        requires
            old(self).wf(),
        ensures
            final(self).wf(),
            final(self)@ == record_reading(old(self)@, name@, rx, tx, now),
    {
        proof {
            lemma_table_dom(self.entries@, name@);
        }
        match self.position(name) {
            Some(k) => {
                let ghost v0 = self.entries@;
                proof {
                    lemma_table_get(v0, k as int);
                }
                let (key, mut r) = self.entries.remove(k);
                let ghost p = r@;
                if now > r.last_ts {
                    let dt = now - r.last_ts;
                    let rx_bps = rate(rx, r.last_rx_bytes, dt);
                    let tx_bps = rate(tx, r.last_tx_bytes, dt);
                    r.history.push_back((now, rx_bps, tx_bps));
                    if r.history.len() > MAX_RATE_SAMPLES {
                        r.history.pop_front();
                    }
                }
                r.last_rx_bytes = rx;
                r.last_tx_bytes = tx;
                r.last_ts = now;
                assert(r@ == rates_after(Some(p), rx, tx, now));
                self.entries.insert(k, (key, r));
                proof {
                    assert(self.entries@ =~= v0.update(k as int, (v0[k as int].0, r)));
                    lemma_table_update(v0, k as int, r);
                    assert forall|k2: int| 0 <= k2 < self.entries@.len() implies (
                    #[trigger] self.entries@[k2]).1.history@.len() <= 60 by {
                        if k2 != k {
                            assert(self.entries@[k2] == v0[k2]);
                        }
                    }
                }
            },
            None => {
                let r = IfaceRates {
                    last_rx_bytes: rx,
                    last_tx_bytes: tx,
                    last_ts: now,
                    history: VecDeque::new(),
                };
                let ghost v0 = self.entries@;
                self.entries.push((name.clone(), r));
                proof {
                    assert(self.entries@.drop_last() =~= v0);
                    assert(r@ == rates_after(None, rx, tx, now));
                }
            },
        }
    }
}

/// Upper bound on the in-memory event log used by the console.
pub const MAX_EVENTS: usize = 200;

/// Latest snapshot per domain, plus the console's own state.
///
/// An `*_err` holds a friendly message when the last refresh of that domain
/// failed.
pub struct AppState {
    pub system: Option<SystemStatus>,
    pub system_err: Option<String>,
    pub interfaces: Option<Vec<InterfaceStatus>>,
    pub interfaces_err: Option<String>,
    pub sdwan: Option<SdwanState>,
    pub sdwan_err: Option<String>,
    pub vpn: Option<Vec<IpsecTunnel>>,
    pub vpn_err: Option<String>,
    pub routes: Option<Vec<Route>>,
    pub routes_err: Option<String>,
    pub routes6: Option<Vec<Route>>,
    pub routes6_err: Option<String>,
    pub bgp: Option<BgpState>,
    pub bgp_err: Option<String>,
    pub sessions: Option<Vec<FirewallSession>>,
    pub sessions_err: Option<String>,
    pub policies: Option<Vec<FirewallPolicy>>,
    pub policies_err: Option<String>,
    /// Route lookup input.
    pub input: String,
    pub input_mode: bool,
    pub lookup: Option<Vec<Route>>,
    pub lookup_err: Option<String>,
    /// Rolling in-memory event/state-transition log.
    pub events: Vec<Event>,
    /// Per-interface throughput history.
    pub iface_rates: IfaceRateTable,
    /// Selected row on the interfaces list and whether its detail is open.
    pub iface_sel: usize,
    pub iface_detail: bool,
    /// Selected row on the IPsec list and whether its detail is open.
    pub vpn_sel: usize,
    pub vpn_detail: bool,
    /// Whether the SD-WAN trend panel is shown.
    pub sdwan_trend: bool,
    /// Search/filter text and whether the filter bar is active.
    pub search: String,
    pub search_mode: bool,
    /// Command palette overlay open, and its selected command.
    pub palette: bool,
    pub palette_sel: usize,
    /// Unix seconds of the last completed refresh.
    pub last_refresh: Option<u64>,
}

/// The event log after appending `e` and keeping only the newest `max`.
pub open spec fn log_after(events: Seq<Event>, e: Event, max: nat) -> Seq<Event> {
    let s = events.push(e);
    if s.len() > max {
        s.subrange(s.len() - max, s.len() as int)
    } else {
        s
    }
}

impl AppState {
    /// The throughput table is well formed, and no selection is at the end
    /// of the index range (selections only ever move one row at a time).
    pub open spec fn wf(&self) -> bool {
        &&& self.iface_rates.wf()
        &&& self.iface_sel < usize::MAX
        &&& self.vpn_sel < usize::MAX
        &&& self.palette_sel < usize::MAX
    }

    /// Nothing loaded, nothing selected, no overlay open.
    pub fn new() -> (s: Self)
        ensures
            s.wf(),
            s.system is None && s.interfaces is None && s.sdwan is None && s.vpn is None,
            s.routes is None && s.routes6 is None && s.bgp is None && s.sessions is None,
            s.policies is None && s.lookup is None,
            s.system_err is None && s.interfaces_err is None && s.sdwan_err is None,
            s.vpn_err is None && s.routes_err is None && s.routes6_err is None,
            s.bgp_err is None && s.sessions_err is None && s.policies_err is None,
            s.lookup_err is None,
            s.input@.len() == 0 && !s.input_mode,
            s.events@.len() == 0,
            s.iface_rates@ == Map::<Seq<char>, RatesView>::empty(),
            s.iface_sel == 0 && !s.iface_detail && s.vpn_sel == 0 && !s.vpn_detail,
            !s.sdwan_trend && s.search@.len() == 0 && !s.search_mode,
            !s.palette && s.palette_sel == 0,
            s.last_refresh is None,
    {
        AppState {
            system: None,
            system_err: None,
            interfaces: None,
            interfaces_err: None,
            sdwan: None,
            sdwan_err: None,
            vpn: None,
            vpn_err: None,
            routes: None,
            routes_err: None,
            routes6: None,
            routes6_err: None,
            bgp: None,
            bgp_err: None,
            sessions: None,
            sessions_err: None,
            policies: None,
            policies_err: None,
            input: String::new(),
            input_mode: false,
            lookup: None,
            lookup_err: None,
            events: Vec::new(),
            iface_rates: IfaceRateTable::new(),
            iface_sel: 0,
            iface_detail: false,
            vpn_sel: 0,
            vpn_detail: false,
            sdwan_trend: false,
            search: String::new(),
            search_mode: false,
            palette: false,
            palette_sel: 0,
            last_refresh: None,
        }
    }

    /// Appends an event, keeping only the newest `max` (a bounded window).
    pub fn push_event(&mut self, event: Event, max: usize)
        ensures
            final(self).events@ == log_after(old(self).events@, event, max as nat),
            *final(self) == (AppState { events: final(self).events, ..*old(self) }),
    {
        self.events.push(event);
        if self.events.len() > max {
            let n = self.events.len() - max;
            let tail = self.events.split_off(n);
            self.events = tail;
        }
    }

    /// Records the byte counters of `ifaces`, read at `now`, into each
    /// interface's throughput history.
    pub fn update_iface_rates_at(&mut self, ifaces: &[InterfaceStatus], now: u64)
        requires
            old(self).wf(),
        ensures
            final(self).wf(),
            final(self).iface_rates@ == record_readings(old(self).iface_rates@, ifaces@, now),
            histories_bounded(final(self).iface_rates@),
            *final(self) == (AppState { iface_rates: final(self).iface_rates, ..*old(self) }),
    {
        let ghost m0 = self.iface_rates@;
        let mut i: usize = 0;
        while i < ifaces.len()
            invariant
                i <= ifaces@.len(),
                self.wf(),
                self.iface_rates@ == record_readings(m0, ifaces@.take(i as int), now),
                *self == (AppState { iface_rates: self.iface_rates, ..*old(self) }),
            decreases ifaces@.len() - i,
        {
            let it = &ifaces[i];
            self.iface_rates.record(&it.name, it.rx_bytes, it.tx_bytes, now);
            assert(ifaces@.take(i + 1).drop_last() =~= ifaces@.take(i as int));
            i = i + 1;
        }
        assert(ifaces@.take(ifaces@.len() as int) =~= ifaces@);
        proof {
            lemma_table_bounded(self.iface_rates.entries@);
        }
    }

    /// Records the byte counters of `ifaces` at the current time.
    pub fn update_iface_rates(&mut self, ifaces: &[InterfaceStatus])
        requires
            old(self).wf(),
        ensures
            final(self).wf(),
            exists|t: u64|
                final(self).iface_rates@ == record_readings(old(self).iface_rates@, ifaces@, t),
            histories_bounded(final(self).iface_rates@),
            *final(self) == (AppState { iface_rates: final(self).iface_rates, ..*old(self) }),
    {
        let t = now();
        self.update_iface_rates_at(ifaces, t);
    }
}

/// The event log after appending each of `new` in turn, keeping only the
/// newest `max`.
pub open spec fn log_after_all(events: Seq<Event>, new: Seq<Event>, max: nat) -> Seq<Event>
    decreases new.len(),
{
    if new.len() == 0 {
        events
    } else {
        log_after(log_after_all(events, new.drop_last(), max), new.last(), max)
    }
}

impl AppState {
    /// Appends events in order, keeping only the newest `max`.
    pub fn push_events(&mut self, evs: Vec<Event>, max: usize)
        ensures
            final(self).events@ == log_after_all(old(self).events@, evs@, max as nat),
            *final(self) == (AppState { events: final(self).events, ..*old(self) }),
    {
        let ghost all = evs@;
        let mut rest = evs;
        let mut k: usize = 0;
        assert(all.len() == rest.len());
        while rest.len() > 0
            invariant
                k <= all.len(),
                all.len() <= usize::MAX,
                rest@ == all.skip(k as int),
                self.events@ == log_after_all(old(self).events@, all.take(k as int), max as nat),
                *self == (AppState { events: self.events, ..*old(self) }),
            decreases rest@.len(),
        {
            let e = rest.remove(0);
            assert(all.take(k + 1).drop_last() =~= all.take(k as int));
            assert(all.take(k + 1).last() == all[k as int]);
            self.push_event(e, max);
            k = k + 1;
            assert(rest@ =~= all.skip(k as int));
        }
        assert(all.take(k as int) =~= all);
    }

    /// Takes in the result of an interfaces refresh read at `now`: on
    /// success, link transitions against the previous list are logged, the
    /// throughput histories are updated and the list replaced; on failure
    /// the error is kept (the previous list stays).
    pub fn apply_interfaces_at(&mut self, r: Result<Vec<InterfaceStatus>, String>, now: u64)
        requires
            old(self).wf(),
        ensures
            final(self).wf(),
            match r {
                Ok(v) => {
                    let prev = match old(self).interfaces {
                        Some(p) => p@,
                        None => Seq::empty(),
                    };
                    &&& final(self).interfaces == Some(v)
                    &&& final(self).iface_rates@ == record_readings(old(self).iface_rates@, v@, now)
                    &&& exists|evs: Seq<Event>|
                        events_view(evs) == interface_transitions(prev, v@) && all_at(evs, now)
                            && final(self).events@ == log_after_all(
                            old(self).events@,
                            evs,
                            MAX_EVENTS as nat,
                        )
                    &&& *final(self) == (AppState {
                        interfaces: final(self).interfaces,
                        iface_rates: final(self).iface_rates,
                        events: final(self).events,
                        ..*old(self)
                    })
                },
                Err(e) => *final(self) == (AppState { interfaces_err: Some(e), ..*old(self) }),
            },
    {
        match r {
            Ok(v) => {
                let evs = match &self.interfaces {
                    Some(p) => detect_interfaces_at(p.as_slice(), v.as_slice(), now),
                    None => {
                        let empty: Vec<InterfaceStatus> = Vec::new();
                        detect_interfaces_at(empty.as_slice(), v.as_slice(), now)
                    },
                };
                let ghost ev = evs@;
                self.push_events(evs, MAX_EVENTS);
                self.update_iface_rates_at(v.as_slice(), now);
                self.interfaces = Some(v);
                assert(events_view(ev) == interface_transitions(
                    match old(self).interfaces {
                        Some(p) => p@,
                        None => Seq::empty(),
                    },
                    self.interfaces->0@,
                ));
            },
            Err(e) => {
                self.interfaces_err = Some(e);
            },
        }
    }

    /// Takes in the result of an SD-WAN refresh read at `now`: on success,
    /// member transitions and then activations against the previous state
    /// are logged (nothing on the first load) and the state replaced; on
    /// failure the error is kept.
    pub fn apply_sdwan_at(&mut self, r: Result<SdwanState, String>, now: u64)
        ensures
            match r {
                Ok(v) => {
                    &&& final(self).sdwan == Some(v)
                    &&& match old(self).sdwan {
                        Some(p) => exists|evs: Seq<Event>|
                            events_view(evs) == member_transitions(p.members@, v.members@)
                                + activations(p.members@, v.members@) && all_at(evs, now)
                                && final(self).events@ == log_after_all(
                                old(self).events@,
                                evs,
                                MAX_EVENTS as nat,
                            ),
                        None => final(self).events@ == old(self).events@,
                    }
                    &&& *final(self) == (AppState {
                        sdwan: final(self).sdwan,
                        events: final(self).events,
                        ..*old(self)
                    })
                },
                Err(e) => *final(self) == (AppState { sdwan_err: Some(e), ..*old(self) }),
            },
    {
        match r {
            Ok(v) => {
                let evs = match &self.sdwan {
                    Some(p) => {
                        let mut e = detect_sdwan_at(p, &v, now);
                        let mut a = detect_sdwan_active_at(p, &v, now);
                        let ghost e0 = e@;
                        let ghost a0 = a@;
                        e.append(&mut a);
                        assert(events_view(e@) =~= events_view(e0) + events_view(a0));
                        assert(all_at(e@, now));
                        e
                    },
                    None => Vec::new(),
                };
                self.push_events(evs, MAX_EVENTS);
                self.sdwan = Some(v);
            },
            Err(e) => {
                self.sdwan_err = Some(e);
            },
        }
    }
}

impl AppState {
    /// Takes in a system refresh: the new status, or the error (the
    /// previous status stays).
    pub fn apply_system(&mut self, r: Result<SystemStatus, String>)
        ensures
            match r {
                Ok(v) => *final(self) == (AppState { system: Some(v), ..*old(self) }),
                Err(e) => *final(self) == (AppState { system_err: Some(e), ..*old(self) }),
            },
    {
        match r {
            Ok(v) => self.system = Some(v),
            Err(e) => self.system_err = Some(e),
        }
    }

    /// Takes in an IPsec refresh.
    pub fn apply_vpn(&mut self, r: Result<Vec<IpsecTunnel>, String>)
        ensures
            match r {
                Ok(v) => *final(self) == (AppState { vpn: Some(v), ..*old(self) }),
                Err(e) => *final(self) == (AppState { vpn_err: Some(e), ..*old(self) }),
            },
    {
        match r {
            Ok(v) => self.vpn = Some(v),
            Err(e) => self.vpn_err = Some(e),
        }
    }

    /// Takes in an IPv4 routing-table refresh.
    pub fn apply_routes(&mut self, r: Result<Vec<Route>, String>)
        ensures
            match r {
                Ok(v) => *final(self) == (AppState { routes: Some(v), ..*old(self) }),
                Err(e) => *final(self) == (AppState { routes_err: Some(e), ..*old(self) }),
            },
    {
        match r {
            Ok(v) => self.routes = Some(v),
            Err(e) => self.routes_err = Some(e),
        }
    }

    /// Takes in an IPv6 routing-table refresh.
    pub fn apply_routes6(&mut self, r: Result<Vec<Route>, String>)
        ensures
            match r {
                Ok(v) => *final(self) == (AppState { routes6: Some(v), ..*old(self) }),
                Err(e) => *final(self) == (AppState { routes6_err: Some(e), ..*old(self) }),
            },
    {
        match r {
            Ok(v) => self.routes6 = Some(v),
            Err(e) => self.routes6_err = Some(e),
        }
    }

    /// Takes in a BGP refresh.
    pub fn apply_bgp(&mut self, r: Result<BgpState, String>)
        ensures
            match r {
                Ok(v) => *final(self) == (AppState { bgp: Some(v), ..*old(self) }),
                Err(e) => *final(self) == (AppState { bgp_err: Some(e), ..*old(self) }),
            },
    {
        match r {
            Ok(v) => self.bgp = Some(v),
            Err(e) => self.bgp_err = Some(e),
        }
    }

    /// Takes in a sessions refresh.
    pub fn apply_sessions(&mut self, r: Result<Vec<FirewallSession>, String>)
        ensures
            match r {
                Ok(v) => *final(self) == (AppState { sessions: Some(v), ..*old(self) }),
                Err(e) => *final(self) == (AppState { sessions_err: Some(e), ..*old(self) }),
            },
    {
        match r {
            Ok(v) => self.sessions = Some(v),
            Err(e) => self.sessions_err = Some(e),
        }
    }

    /// Takes in a policies refresh.
    pub fn apply_policies(&mut self, r: Result<Vec<FirewallPolicy>, String>)
        ensures
            match r {
                Ok(v) => *final(self) == (AppState { policies: Some(v), ..*old(self) }),
                Err(e) => *final(self) == (AppState { policies_err: Some(e), ..*old(self) }),
            },
    {
        match r {
            Ok(v) => self.policies = Some(v),
            Err(e) => self.policies_err = Some(e),
        }
    }

    /// Takes in a route-lookup result: the routes and no error, or no routes
    /// and the error.
    pub fn apply_lookup(&mut self, r: Result<Vec<Route>, String>)
        ensures
            match r {
                Ok(v) => *final(self) == (AppState { lookup: Some(v), lookup_err: None, ..*old(self) }),
                Err(e) => *final(self) == (AppState { lookup: None, lookup_err: Some(e), ..*old(self) }),
            },
    {
        match r {
            Ok(v) => {
                self.lookup = Some(v);
                self.lookup_err = None;
            },
            Err(e) => {
                self.lookup = None;
                self.lookup_err = Some(e);
            },
        }
    }

    /// Notes that a refresh completed at `now`.
    pub fn mark_refreshed(&mut self, now: u64)
        ensures
            *final(self) == (AppState { last_refresh: Some(now), ..*old(self) }),
    {
        self.last_refresh = Some(now);
    }
}

/// Unix seconds now (`SystemTime::now()` since the epoch, 0 if the clock is
/// before it). Nothing is stated of the value: it depends on the clock.
#[verifier::external_body]
pub fn now() -> u64 {
    std::time::SystemTime::now().duration_since(std::time::UNIX_EPOCH).map(|d| d.as_secs()).unwrap_or(0)
}


/// The event log never holds more than `max` events (for `max > 0`); the
/// new event is always the newest one, and nothing is dropped while there
/// is room.
pub proof fn law_event_log_bounded(events: Seq<Event>, e: Event, max: nat)
    requires
        max > 0,
    ensures
        log_after(events, e, max).len() <= max,
        log_after(events, e, max).last() == e,
        events.len() < max ==> log_after(events, e, max) == events.push(e),
{
}

/// An interface's throughput history never exceeds sixty samples, and a new
/// sample (taken when time has moved on) becomes the newest.
pub proof fn law_history_bounded(prev: Option<RatesView>, rx: u64, tx: u64, now: u64)
    requires
        prev matches Some(p) ==> p.history.len() <= 60,
    ensures
        rates_after(prev, rx, tx, now).history.len() <= 60,
        prev matches Some(p) && now > p.last_ts ==> rates_after(prev, rx, tx, now).history.last().0
            == now,
{
}

/// A throughput sample turns byte counter deltas into bits per second: the
/// newest sample's receive rate is eight times the growth of the receive
/// counter divided by the seconds elapsed, its send rate likewise from the send
/// counter, and a counter that went backwards (a reset) reads as no traffic.
/// The new readings become the interface's last counters.
pub proof fn law_rate_sample(prev: RatesView, rx: u64, tx: u64, now: u64)
    requires
        now > prev.last_ts,
        rx >= prev.last_rx_bytes ==> 8 * (rx - prev.last_rx_bytes) <= u64::MAX,
        tx >= prev.last_tx_bytes ==> 8 * (tx - prev.last_tx_bytes) <= u64::MAX,
    ensures
        ({
            let after = rates_after(Some(prev), rx, tx, now);
            let s = after.history.last();
            let dt = now - prev.last_ts;
            &&& after.last_rx_bytes == rx
            &&& after.last_tx_bytes == tx
            &&& after.last_ts == now
            &&& s.0 == now
            &&& rx >= prev.last_rx_bytes ==> s.1 == 8 * (rx - prev.last_rx_bytes) / dt
            &&& rx < prev.last_rx_bytes ==> s.1 == 0
            &&& tx >= prev.last_tx_bytes ==> s.2 == 8 * (tx - prev.last_tx_bytes) / dt
            &&& tx < prev.last_tx_bytes ==> s.2 == 0
        }),
{
    let dt: int = now - prev.last_ts;
    if rx >= prev.last_rx_bytes {
        let a: int = 8 * (rx - prev.last_rx_bytes);
        assert(0 <= a / dt <= a) by (nonlinear_arith)
            requires
                0 <= a,
                dt >= 1,
        ;
    } else {
        assert(0int / dt == 0) by (nonlinear_arith)
            requires
                dt >= 1,
        ;
    }
    if tx >= prev.last_tx_bytes {
        let a: int = 8 * (tx - prev.last_tx_bytes);
        assert(0 <= a / dt <= a) by (nonlinear_arith)
            requires
                0 <= a,
                dt >= 1,
        ;
    } else {
        assert(0int / dt == 0) by (nonlinear_arith)
            requires
                dt >= 1,
        ;
    }
}

} // verus!

//! Profile definitions.
//!
//! A profile is one connection target; `type` distinguishes direct access
//! from future server / FortiManager modes. Credentials are referenced by
//! name, never stored here. Profiles are kept by name in ascending order, as
//! in the YAML file's map.

use vstd::prelude::*;
use crate::text::chars_of;

verus! {

/// One connection target.
#[derive(Debug, PartialEq, Eq)]
pub struct Profile {
    /// The profile's `type`: `direct` (default), later `server` or
    /// `fortimanager`.
    pub profile_type: String,
    /// Hostname or IP address.
    pub host: String,
    pub port: u16,
    pub verify_tls: bool,
    /// Reference to a credential entry (keychain) or env var name.
    pub credential: String,
    /// Token override (usually empty; the token comes from the environment).
    pub token: Option<String>,
}

impl Clone for Profile {
    fn clone(&self) -> (p: Self)
        ensures
            p == *self,
    {
        Profile {
            profile_type: self.profile_type.clone(),
            host: self.host.clone(),
            port: self.port,
            verify_tls: self.verify_tls,
            credential: self.credential.clone(),
            token: match &self.token {
                Some(t) => Some(t.clone()),
                None => None,
            },
        }
    }
}

/// The profile type when none is given: `direct`.
pub fn default_type() -> (s: String)
    ensures
        s@ == "direct"@,
{
    "direct".to_owned()
}

/// The HTTPS port when none is given: 443.
pub fn default_port() -> (p: u16)
    ensures
        p == 443,
{
    443
}

/// TLS verification when not configured: on.
pub fn default_tls() -> (b: bool)
    ensures
        b,
{
    true
}

/// `a` sorts before `b`: lexicographic by character (the order of `String`'s
/// `Ord`, as UTF-8 preserves code point order).
pub open spec fn chars_lt(a: Seq<char>, b: Seq<char>) -> bool
    decreases a.len(),
{
    if a.len() == 0 {
        b.len() > 0
    } else if b.len() == 0 {
        false
    } else if a[0] != b[0] {
        a[0] < b[0]
    } else {
        chars_lt(a.drop_first(), b.drop_first())
    }
}

/// Nothing sorts before itself.
pub proof fn lemma_lt_irreflexive(a: Seq<char>)
    ensures
        !chars_lt(a, a),
    decreases a.len(),
{
    if a.len() > 0 {
        lemma_lt_irreflexive(a.drop_first());
    }
}

/// The order is transitive.
pub proof fn lemma_lt_transitive(a: Seq<char>, b: Seq<char>, c: Seq<char>)
    requires
        chars_lt(a, b),
        chars_lt(b, c),
    ensures
        chars_lt(a, c),
    decreases a.len(),
{
    if a.len() > 0 && b.len() > 0 && c.len() > 0 && a[0] == b[0] && b[0] == c[0] {
        lemma_lt_transitive(a.drop_first(), b.drop_first(), c.drop_first());
    }
}

/// Two different texts are ordered one way or the other.
pub proof fn lemma_lt_total(a: Seq<char>, b: Seq<char>)
    requires
        a != b,
    ensures
        chars_lt(a, b) || chars_lt(b, a),
    decreases a.len(),
{
    if a.len() > 0 && b.len() > 0 && a[0] == b[0] {
        if a.drop_first() == b.drop_first() {
            assert(a =~= seq![a[0]] + a.drop_first());
            assert(b =~= seq![b[0]] + b.drop_first());
        }
        lemma_lt_total(a.drop_first(), b.drop_first());
    } else if a.len() == 0 && b.len() == 0 {
        assert(a =~= b);
    }
}

/// Whether `a` sorts before `b`.
pub fn str_less(a: &str, b: &str) -> (r: bool)
    ensures
        r == chars_lt(a@, b@),
{
    let x = chars_of(a);
    let y = chars_of(b);
    let mut i: usize = 0;
    assert(a@.skip(0) =~= a@);
    assert(b@.skip(0) =~= b@);
    while i < x.len() && i < y.len() && x[i] == y[i]
        invariant
            x@ == a@,
            y@ == b@,
            i <= x@.len(),
            i <= y@.len(),
            chars_lt(a@, b@) == chars_lt(a@.skip(i as int), b@.skip(i as int)),
        decreases x@.len() - i,
    {
        assert(a@.skip(i as int).drop_first() =~= a@.skip(i + 1));
        assert(b@.skip(i as int).drop_first() =~= b@.skip(i + 1));
        i = i + 1;
    }
    if i == x.len() {
        i < y.len()
    } else if i == y.len() {
        false
    } else {
        x[i] < y[i]
    }
}

/// Profiles by name, in ascending name order.
#[derive(Debug, PartialEq, Eq)]
pub struct ProfilesConfig {
    pub profiles: Vec<(String, Profile)>,
}

/// The map a list of named profiles denotes.
pub open spec fn profiles_map(v: Seq<(String, Profile)>) -> Map<Seq<char>, Profile>
    decreases v.len(),
{
    if v.len() == 0 {
        Map::empty()
    } else {
        profiles_map(v.drop_last()).insert(v.last().0@, v.last().1)
    }
}

/// Names strictly ascending (hence unique).
pub open spec fn ascending(v: Seq<(String, Profile)>) -> bool {
    forall|i: int, j: int| 0 <= i < j < v.len() ==> chars_lt(v[i].0@, v[j].0@)
}

impl View for ProfilesConfig {
    type V = Map<Seq<char>, Profile>;

    open spec fn view(&self) -> Map<Seq<char>, Profile> {
        profiles_map(self.profiles@)
    }
}

proof fn lemma_map_dom(v: Seq<(String, Profile)>, name: Seq<char>)
    ensures
        profiles_map(v).dom().contains(name) <==> exists|k: int|
            0 <= k < v.len() && (#[trigger] v[k]).0@ == name,
    decreases v.len(),
{
    if v.len() > 0 {
        lemma_map_dom(v.drop_last(), name);
        if profiles_map(v).dom().contains(name) && v.last().0@ != name {
            let k = choose|k: int| 0 <= k < v.drop_last().len() && (#[trigger] v.drop_last()[k]).0@ == name;
            assert(v[k].0@ == name);
        }
        if exists|k: int| 0 <= k < v.len() && (#[trigger] v[k]).0@ == name {
            let k = choose|k: int| 0 <= k < v.len() && (#[trigger] v[k]).0@ == name;
            if k < v.len() - 1 {
                assert(v.drop_last()[k].0@ == name);
            }
        }
    }
}

proof fn lemma_unique(v: Seq<(String, Profile)>, i: int, j: int)
    requires
        ascending(v),
        0 <= i < v.len(),
        0 <= j < v.len(),
        i != j,
    ensures
        v[i].0@ != v[j].0@,
{
    if i < j {
        if v[i].0@ == v[j].0@ {
            lemma_lt_irreflexive(v[i].0@);
        }
    } else {
        if v[i].0@ == v[j].0@ {
            lemma_lt_irreflexive(v[i].0@);
        }
    }
}

proof fn lemma_map_get(v: Seq<(String, Profile)>, k: int)
    requires
        ascending(v),
        0 <= k < v.len(),
    ensures
        profiles_map(v).dom().contains(v[k].0@),
        profiles_map(v)[v[k].0@] == v[k].1,
    decreases v.len(),
{
    if k < v.len() - 1 {
        assert(ascending(v.drop_last()));
        lemma_map_get(v.drop_last(), k);
        lemma_unique(v, k, v.len() - 1);
    }
}

/// The map of an ascending list: a name is present exactly where some entry
/// carries it, with that entry's profile.
proof fn lemma_map_entry(v: Seq<(String, Profile)>, name: Seq<char>)
    requires
        ascending(v),
    ensures
        profiles_map(v).dom().contains(name) <==> exists|k: int|
            0 <= k < v.len() && (#[trigger] v[k]).0@ == name,
        forall|k: int|
            0 <= k < v.len() && (#[trigger] v[k]).0@ == name ==> profiles_map(v)[name] == v[k].1,
{
    lemma_map_dom(v, name);
    assert forall|k: int| 0 <= k < v.len() && (#[trigger] v[k]).0@ == name implies profiles_map(
        v,
    )[name] == v[k].1 by {
        lemma_map_get(v, k);
    }
}

/// The entries of `v` not named `name`, in their order.
pub open spec fn without(v: Seq<(String, Profile)>, name: Seq<char>) -> Seq<(String, Profile)>
    decreases v.len(),
{
    if v.len() == 0 {
        Seq::empty()
    } else {
        let r = without(v.drop_last(), name);
        if v.last().0@ == name {
            r
        } else {
            r.push(v.last())
        }
    }
}

proof fn lemma_without_absent(v: Seq<(String, Profile)>, name: Seq<char>)
    requires
        forall|j: int| 0 <= j < v.len() ==> (#[trigger] v[j]).0@ != name,
    ensures
        without(v, name) == v,
    decreases v.len(),
{
    if v.len() > 0 {
        lemma_without_absent(v.drop_last(), name);
        assert(v.drop_last().push(v.last()) =~= v);
    }
}

proof fn lemma_without_at(v: Seq<(String, Profile)>, name: Seq<char>, k: int)
    requires
        0 <= k < v.len(),
        v[k].0@ == name,
        forall|j: int| 0 <= j < v.len() && j != k ==> (#[trigger] v[j]).0@ != name,
    ensures
        without(v, name) == v.remove(k),
    decreases v.len(),
{
    if k == v.len() - 1 {
        lemma_without_absent(v.drop_last(), name);
        assert(v.remove(k) =~= v.drop_last());
    } else {
        lemma_without_at(v.drop_last(), name, k);
        assert(v.drop_last().remove(k).push(v.last()) =~= v.remove(k));
    }
}

/// After removing `name`, no entry carries it, and every other entry is
/// still there, in the same order as before.
pub proof fn law_remove_keeps_others(v: Seq<(String, Profile)>, name: Seq<char>)
    ensures
        forall|i: int| 0 <= i < without(v, name).len() ==> (#[trigger] without(v, name)[i]).0@
            != name,
        forall|i: int, j: int|
            0 <= i < j < v.len() && v[i].0@ != name && v[j].0@ != name ==> exists|a: int, b: int|
                0 <= a < b < without(v, name).len() && without(v, name)[a] == v[i] && without(
                    v,
                    name,
                )[b] == v[j],
    decreases v.len(),
{
    if v.len() > 0 {
        let u = v.drop_last();
        law_remove_keeps_others(u, name);
        let w = without(v, name);
        let wu = without(u, name);
        assert forall|i: int, j: int|
            0 <= i < j < v.len() && v[i].0@ != name && v[j].0@ != name implies exists|a: int, b: int|
                0 <= a < b < w.len() && w[a] == v[i] && w[b] == v[j] by {
            if j < v.len() - 1 {
                assert(u[i] == v[i] && u[j] == v[j]);
                let (a, b) = choose|a: int, b: int|
                    0 <= a < b < wu.len() && wu[a] == u[i] && wu[b] == u[j];
                assert(w[a] == v[i] && w[b] == v[j]);
            } else {
                lemma_without_has(u, name, i);
                let a = choose|a: int| 0 <= a < wu.len() && wu[a] == u[i];
                assert(w[a] == v[i]);
                assert(w[wu.len() as int] == v[j]);
            }
        }
    }
}

proof fn lemma_without_has(v: Seq<(String, Profile)>, name: Seq<char>, i: int)
    requires
        0 <= i < v.len(),
        v[i].0@ != name,
    ensures
        exists|a: int| 0 <= a < without(v, name).len() && without(v, name)[a] == v[i],
    decreases v.len(),
{
    let w = without(v, name);
    if i == v.len() - 1 {
        assert(w[w.len() - 1] == v[i]);
    } else {
        lemma_without_has(v.drop_last(), name, i);
        let wu = without(v.drop_last(), name);
        let a = choose|a: int| 0 <= a < wu.len() && wu[a] == v.drop_last()[i];
        assert(w[a] == v[i]);
    }
}

impl ProfilesConfig {
    /// Names are kept in strictly ascending order.
    pub open spec fn wf(&self) -> bool {
        ascending(self.profiles@)
    }

    /// No profiles.
    pub fn new() -> (c: Self)
        ensures
            c.wf(),
            c@ == Map::<Seq<char>, Profile>::empty(),
            c.profiles@.len() == 0,
    {
        ProfilesConfig { profiles: Vec::new() }
    }

    /// Where `name` stands, or would stand: every entry before the index
    /// sorts before `name`; the flag says whether the entry at the index
    /// carries `name`; every entry after it sorts after `name`.
    fn locate(&self, name: &str) -> (r: (usize, bool))
        requires
            self.wf(),
        ensures
            r.0 <= self.profiles@.len(),
            forall|i: int| 0 <= i < r.0 ==> chars_lt(#[trigger] self.profiles@[i].0@, name@),
            r.1 ==> r.0 < self.profiles@.len() && self.profiles@[r.0 as int].0@ == name@,
            forall|i: int|
                r.0 <= i < self.profiles@.len() && !(r.1 && i == r.0) ==> chars_lt(
                    name@,
                    #[trigger] self.profiles@[i].0@,
                ),
    {
        let n = self.profiles.len();
        let mut i: usize = 0;
        while i < n && str_less(self.profiles[i].0.as_str(), name)
            invariant
                n == self.profiles@.len(),
                i <= n,
                self.wf(),
                forall|j: int| 0 <= j < i ==> chars_lt(#[trigger] self.profiles@[j].0@, name@),
            decreases n - i,
        {
            i = i + 1;
        }
        if i == n {
            return (i, false);
        }
        let key = self.profiles[i].0.as_str();
        let after = str_less(name, key);
        proof {
            let v = self.profiles@;
            if !after {
                if v[i as int].0@ != name@ {
                    lemma_lt_total(v[i as int].0@, name@);
                }
            }
            assert forall|j: int| i < j < n implies chars_lt(name@, #[trigger] v[j].0@) by {
                if after {
                    lemma_lt_transitive(name@, v[i as int].0@, v[j].0@);
                }
            }
        }
        (i, !after)
    }

    /// The profile called `name`, if there is one.
    pub fn get(&self, name: &str) -> (r: Option<Profile>)
        requires
            self.wf(),
        ensures
            match r {
                Some(p) => self@.dom().contains(name@) && self@[name@] == p,
                None => !self@.dom().contains(name@),
            },
    {
        let (i, found) = self.locate(name);
        proof {
            lemma_map_entry(self.profiles@, name@);
            assert forall|k: int| 0 <= k < self.profiles@.len() && !(found && k == i) implies (
            #[trigger] self.profiles@[k]).0@ != name@ by {
                if k < i {
                    lemma_lt_irreflexive(name@);
                } else {
                    lemma_lt_irreflexive(name@);
                }
            }
        }
        if found {
            Some(self.profiles[i].1.clone())
        } else {
            None
        }
    }

    /// Adds `profile` under `name`, replacing any profile of that name.
    pub fn insert(&mut self, name: String, profile: Profile)
        requires
            old(self).wf(),
        ensures
            final(self).wf(),
            final(self)@ == old(self)@.insert(name@, profile),
    {
        let ghost ov = self.profiles@;
        let ghost key = name@;
        let (i, found) = self.locate(name.as_str());
        if found {
            self.profiles.set(i, (name, profile));
        } else {
            self.profiles.insert(i, (name, profile));
        }
        proof {
            let nv = self.profiles@;
            if !found {
                ov.insert_ensures(i as int, nv[i as int]);
            }
            assert forall|a: int, b: int| 0 <= a < b < nv.len() implies chars_lt(
                nv[a].0@,
                nv[b].0@,
            ) by {
                if !found && a < i && b > i {
                    lemma_lt_transitive(ov[a].0@, key, ov[b - 1].0@);
                }
            }
            let expected = profiles_map(ov).insert(key, profile);
            assert forall|n: Seq<char>| #[trigger]
                profiles_map(nv).dom().contains(n) <==> expected.dom().contains(n) by {
                lemma_map_entry(nv, n);
                lemma_map_entry(ov, n);
                assert(nv[i as int].0@ == key);
                if n != key {
                    if exists|k: int| 0 <= k < nv.len() && (#[trigger] nv[k]).0@ == n {
                        let k = choose|k: int| 0 <= k < nv.len() && (#[trigger] nv[k]).0@ == n;
                        let k2 = if found || k < i {
                            k
                        } else {
                            k - 1
                        };
                        assert(ov[k2].0@ == n);
                    }
                    if exists|k: int| 0 <= k < ov.len() && (#[trigger] ov[k]).0@ == n {
                        let k = choose|k: int| 0 <= k < ov.len() && (#[trigger] ov[k]).0@ == n;
                        let k2 = if found || k < i {
                            k
                        } else {
                            k + 1
                        };
                        assert(nv[k2].0@ == n);
                    }
                }
            }
            assert forall|n: Seq<char>| #[trigger]
                profiles_map(nv).dom().contains(n) implies profiles_map(nv)[n] == expected[n] by {
                lemma_map_entry(nv, n);
                lemma_map_entry(ov, n);
                assert(nv[i as int].0@ == key);
                if n != key {
                    let k = choose|k: int| 0 <= k < nv.len() && (#[trigger] nv[k]).0@ == n;
                    let k2 = if found || k < i {
                        k
                    } else {
                        k - 1
                    };
                    assert(ov[k2] == nv[k]);
                }
            }
            assert(profiles_map(nv) =~= expected);
        }
    }

    /// Drops the profile called `name`, if there is one.
    pub fn remove(&mut self, name: &str)
        requires
            old(self).wf(),
        ensures
            final(self).wf(),
            final(self)@ == old(self)@.remove(name@),
            final(self).profiles@ == without(old(self).profiles@, name@),
    {
        let ghost ov = self.profiles@;
        let (i, found) = self.locate(name);
        if found {
            let _ = self.profiles.remove(i);
        }
        proof {
            let nv = self.profiles@;
            let key = name@;
            if found {
                ov.remove_ensures(i as int);
            }
            let expected = profiles_map(ov).remove(key);
            assert forall|n: Seq<char>| #[trigger]
                profiles_map(nv).dom().contains(n) <==> expected.dom().contains(n) by {
                lemma_map_entry(nv, n);
                lemma_map_entry(ov, n);
                if exists|k: int| 0 <= k < nv.len() && (#[trigger] nv[k]).0@ == n {
                    let k = choose|k: int| 0 <= k < nv.len() && (#[trigger] nv[k]).0@ == n;
                    let k2 = if !found || k < i {
                        k
                    } else {
                        k + 1
                    };
                    assert(ov[k2].0@ == n);
                    if n == key {
                        lemma_lt_irreflexive(key);
                    }
                }
                if n != key && exists|k: int| 0 <= k < ov.len() && (#[trigger] ov[k]).0@ == n {
                    let k = choose|k: int| 0 <= k < ov.len() && (#[trigger] ov[k]).0@ == n;
                    let k2 = if !found || k < i {
                        k
                    } else {
                        k - 1
                    };
                    assert(nv[k2].0@ == n);
                }
            }
            assert forall|n: Seq<char>| #[trigger]
                profiles_map(nv).dom().contains(n) implies profiles_map(nv)[n] == expected[n] by {
                lemma_map_entry(nv, n);
                lemma_map_entry(ov, n);
                let k = choose|k: int| 0 <= k < nv.len() && (#[trigger] nv[k]).0@ == n;
                let k2 = if !found || k < i {
                    k
                } else {
                    k + 1
                };
                assert(ov[k2] == nv[k]);
                if n == key {
                    lemma_lt_irreflexive(key);
                }
            }
            assert forall|k: int| 0 <= k < ov.len() && !(found && k == i) implies (
            #[trigger] ov[k]).0@ != key by {
                lemma_lt_irreflexive(key);
            }
            if found {
                lemma_without_at(ov, key, i as int);
            } else {
                lemma_without_absent(ov, key);
            }
            assert(profiles_map(nv) =~= expected);
        }
    }

    /// The profile names, in ascending order.
    pub fn names(&self) -> (r: Vec<String>)
        requires
            self.wf(),
        ensures
            r@.len() == self.profiles@.len(),
            forall|i: int| 0 <= i < r@.len() ==> (#[trigger] r@[i])@ == self.profiles@[i].0@,
            forall|i: int| 0 <= i < r@.len() ==> self@.dom().contains(#[trigger] r@[i]@),
            forall|i: int, j: int| 0 <= i < j < r@.len() ==> chars_lt(r@[i]@, r@[j]@),
    {
        let mut r: Vec<String> = Vec::new();
        let mut i: usize = 0;
        while i < self.profiles.len()
            invariant
                i <= self.profiles@.len(),
                r@.len() == i,
                forall|k: int| 0 <= k < i ==> (#[trigger] r@[k])@ == self.profiles@[k].0@,
            decreases self.profiles@.len() - i,
        {
            r.push(self.profiles[i].0.clone());
            i = i + 1;
        }
        proof {
            assert forall|k: int| 0 <= k < r@.len() implies self@.dom().contains(
                #[trigger] r@[k]@,
            ) by {
                lemma_map_get(self.profiles@, k);
            }
        }
        r
    }
}


/// What is read back after `insert(name, p)` is `p`; every other name reads
/// as before.
pub proof fn law_get_after_insert(
    before: Map<Seq<char>, Profile>,
    after: Map<Seq<char>, Profile>,
    name: Seq<char>,
    p: Profile,
)
    requires
        after == before.insert(name, p),
    ensures
        after.dom().contains(name) && after[name] == p,
        forall|other: Seq<char>|
            other != name ==> (#[trigger] after.dom().contains(other) == before.dom().contains(
                other,
            ) && (before.dom().contains(other) ==> after[other] == before[other])),
{
}

/// After `remove(name)` the name is gone; every other name reads as before.
pub proof fn law_get_after_remove(
    before: Map<Seq<char>, Profile>,
    after: Map<Seq<char>, Profile>,
    name: Seq<char>,
)
    requires
        after == before.remove(name),
    ensures
        !after.dom().contains(name),
        forall|other: Seq<char>|
            other != name ==> (#[trigger] after.dom().contains(other) == before.dom().contains(
                other,
            ) && (before.dom().contains(other) ==> after[other] == before[other])),
{
}

} // verus!

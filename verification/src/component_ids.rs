//! The record of which canister id each component got on each network, as
//! kept in `canister_ids.json`.

use vstd::prelude::*;
use crate::assoc::{assoc, distinct_keys, keys, lemma_assoc_lookup, lemma_assoc_absent, lemma_assoc_update, lemma_assoc_insert};
use crate::dfx::{DfxWrapperNetwork, network_path_spec};
use crate::text::{views, text_eq};

verus! {

/// Byte order of UTF-8 text, which is code point order: the order in which
/// the record lists its components.
pub open spec fn key_lt(a: Seq<char>, b: Seq<char>) -> bool
    decreases a.len(),
{
    if a.len() == 0 {
        b.len() > 0
    } else if b.len() == 0 {
        false
    } else if a[0] != b[0] {
        a[0] < b[0]
    } else {
        key_lt(a.skip(1), b.skip(1))
    }
}

pub proof fn lemma_key_lt_irreflexive(a: Seq<char>)
    ensures
        !key_lt(a, a),
    decreases a.len(),
{
    if a.len() > 0 {
        lemma_key_lt_irreflexive(a.skip(1));
    }
}

pub proof fn lemma_key_lt_transitive(a: Seq<char>, b: Seq<char>, c: Seq<char>)
    requires
        key_lt(a, b),
        key_lt(b, c),
    ensures
        key_lt(a, c),
    decreases a.len(),
{
    if a.len() > 0 && b.len() > 0 && c.len() > 0 && a[0] == b[0] && b[0] == c[0] {
        lemma_key_lt_transitive(a.skip(1), b.skip(1), c.skip(1));
    }
}

pub proof fn lemma_key_lt_total(a: Seq<char>, b: Seq<char>)
    requires
        a != b,
    ensures
        key_lt(a, b) || key_lt(b, a),
    decreases a.len(),
{
    if a.len() > 0 && b.len() > 0 && a[0] == b[0] {
        if a.skip(1) == b.skip(1) {
            assert(a =~= seq![a[0]] + a.skip(1));
            assert(b =~= seq![b[0]] + b.skip(1));
        }
        lemma_key_lt_total(a.skip(1), b.skip(1));
    } else if a.len() == 0 && b.len() == 0 {
        assert(a =~= b);
    }
}

/// Whether `a` comes before `b`.
pub fn key_less(a: &str, b: &str) -> (r: bool)
    ensures
        r == key_lt(a@, b@),
{
    let n = a.unicode_len();
    let m = b.unicode_len();
    let mut i: usize = 0;
    assert(a@.skip(0) =~= a@);
    assert(b@.skip(0) =~= b@);
    while i < n && i < m
        invariant
            n == a@.len(),
            m == b@.len(),
            i <= n,
            i <= m,
            key_lt(a@.skip(i as int), b@.skip(i as int)) == key_lt(a@, b@),
        decreases n - i,
    {
        let x = a.get_char(i);
        let y = b.get_char(i);
        if x != y {
            return x < y;
        }
        assert(a@.skip(i as int).skip(1) =~= a@.skip(i + 1));
        assert(b@.skip(i as int).skip(1) =~= b@.skip(i + 1));
        i = i + 1;
    }
    i < m
}

/// The ids of one component, by network directory name.
pub open spec fn ids_pairs(ids: Seq<(String, String)>) -> Seq<(Seq<char>, Seq<char>)> {
    ids.map_values(|p: (String, String)| (p.0@, p.1@))
}

/// The record as entries of component name and its ids by network.
pub open spec fn component_pairs(c: Seq<(String, Vec<(String, String)>)>) -> Seq<(Seq<char>, Map<Seq<char>, Seq<char>>)> {
    c.map_values(|e: (String, Vec<(String, String)>)| (e.0@, assoc(ids_pairs(e.1@))))
}

/// Component names strictly ascending; every component with an id on at
/// least one network, and on no network twice.
pub open spec fn components_wf(c: Seq<(String, Vec<(String, String)>)>) -> bool {
    &&& forall|i: int, j: int| 0 <= i < j < c.len() ==> key_lt(#[trigger] c[i].0@, #[trigger] c[j].0@)
    &&& forall|i: int| 0 <= i < c.len() ==> distinct_keys(ids_pairs(#[trigger] c[i].1@))
    &&& forall|i: int| 0 <= i < c.len() ==> (#[trigger] c[i].1@).len() > 0
}

/// Which canister id each component got on each network, for one network
/// at a time.
pub struct ComponentIdsManager {
    filename: String,
    filepath: Option<String>,
    network: DfxWrapperNetwork,
    components: Vec<(String, Vec<(String, String)>)>,
}

/// The file name of the record, and the directory under the project where it
/// lies: the project root on mainnet, `.dfx/<network>` elsewhere.
pub open spec fn filepath_spec(n: DfxWrapperNetwork) -> (Seq<char>, Option<Seq<char>>) {
    match n {
        DfxWrapperNetwork::IC => ("canister_ids.json"@, None),
        _ => ("canister_ids.json"@, Some(".dfx/"@ + network_path_spec(n))),
    }
}

impl ComponentIdsManager {
    #[verifier::type_invariant]
    closed spec fn wf(self) -> bool {
        components_wf(self.components@)
    }

    /// Every component's ids, by name and network directory name.
    pub closed spec fn ids(self) -> Map<Seq<char>, Map<Seq<char>, Seq<char>>> {
        assoc(component_pairs(self.components@))
    }

    /// The component names, in the order the record keeps them.
    pub closed spec fn names(self) -> Seq<Seq<char>> {
        keys(component_pairs(self.components@))
    }

    /// The network this record is read and written for.
    pub closed spec fn network(self) -> DfxWrapperNetwork {
        self.network
    }

    /// The id of component `name` on the record's network, if it has one.
    pub open spec fn id_on_network(self, name: Seq<char>) -> Option<Seq<char>> {
        if self.ids().contains_key(name) && self.ids()[name].contains_key(network_path_spec(self.network())) {
            Some(self.ids()[name][network_path_spec(self.network())])
        } else {
            None
        }
    }

    pub closed spec fn file(self) -> (Seq<char>, Option<Seq<char>>) {
        (self.filename@, match self.filepath { Some(p) => Some(p@), None => None })
    }

    pub fn filepath(network: &DfxWrapperNetwork) -> (res: (String, Option<String>))
        ensures
            res.0@ == filepath_spec(*network).0,
            match (res.1, filepath_spec(*network).1) {
                (Some(a), Some(b)) => a@ == b,
                (None, None) => true,
                _ => false,
            },
    {
        let filename = String::from_str("canister_ids.json");
        match network {
            DfxWrapperNetwork::IC => (filename, None),
            _ => {
                let mut p = String::from_str(".dfx/");
                let n = network.to_path();
                p.append(n.as_str());
                (filename, Some(p))
            },
        }
    }

    pub fn new(network: &DfxWrapperNetwork) -> (res: Self)
        ensures
            res.ids() == Map::<Seq<char>, Map<Seq<char>, Seq<char>>>::empty(),
            res.network() == *network,
            res.file() == filepath_spec(*network),
    {
        let (filename, filepath) = Self::filepath(network);
        let res = ComponentIdsManager {
            filename,
            filepath,
            network: *network,
            components: Vec::new(),
        };
        assert(component_pairs(res.components@) =~= Seq::empty());
        assert(res.ids() =~= Map::empty());
        res
    }
}


proof fn lemma_sorted_distinct(c: Seq<(String, Vec<(String, String)>)>)
    requires
        components_wf(c),
    ensures
        distinct_keys(component_pairs(c)),
{
    let s = component_pairs(c);
    assert forall|i: int, j: int| 0 <= i < s.len() && 0 <= j < s.len() && i != j implies #[trigger] s[i].0 != #[trigger] s[j].0 by {
        if i < j {
            assert(key_lt(c[i].0@, c[j].0@));
        } else {
            assert(key_lt(c[j].0@, c[i].0@));
        }
        lemma_key_lt_irreflexive(c[i].0@);
    }
}

/// The ids of `net` merged into `old`.
pub open spec fn with_id(old: Option<Map<Seq<char>, Seq<char>>>, net: Seq<char>, id: Seq<char>) -> Map<Seq<char>, Seq<char>> {
    match old {
        Some(m) => m.insert(net, id),
        None => Map::<Seq<char>, Seq<char>>::empty().insert(net, id),
    }
}

/// Sets `net -> id` in a component's ids.
fn set_id(ids: &mut Vec<(String, String)>, net: String, id: String)
    requires
        distinct_keys(ids_pairs(old(ids)@)),
    ensures
        distinct_keys(ids_pairs(final(ids)@)),
        assoc(ids_pairs(final(ids)@)) == assoc(ids_pairs(old(ids)@)).insert(net@, id@),
        final(ids)@.len() > 0,
{
    let ghost before = ids_pairs(ids@);
    let mut j: usize = 0;
    while j < ids.len()
        invariant
            ids_pairs(ids@) == before,
            before == ids_pairs(old(ids)@),
            distinct_keys(before),
            j <= ids.len(),
            forall|k: int| 0 <= k < j ==> #[trigger] before[k].0 != net@,
        decreases ids.len() - j,
    {
        if text_eq(ids[j].0.as_str(), net.as_str()) {
            let ghost x = (net@, id@);
            ids.set(j, (net, id));
            proof {
                lemma_assoc_update(before, j as int, x);
                assert(ids_pairs(ids@) =~= before.update(j as int, x));
                assert(assoc(ids_pairs(ids@)) == assoc(before).insert(net@, id@));
            }
            return;
        }
        j = j + 1;
    }
    let ghost x = (net@, id@);
    ids.push((net, id));
    proof {
        assert(ids_pairs(ids@) =~= before.insert(before.len() as int, x));
        lemma_assoc_insert(before, before.len() as int, x);
        let after = ids_pairs(ids@);
        assert forall|a: int, b: int| 0 <= a < after.len() && 0 <= b < after.len() && a != b implies #[trigger] after[a].0 != #[trigger] after[b].0 by {
            if a < before.len() && b < before.len() {
                assert(after[a] == before[a] && after[b] == before[b]);
            }
        }
    }
}

impl ComponentIdsManager {
    /// Records `id` for component `name` under network directory name `net`.
    fn insert(&mut self, name: String, net: String, id: String)
        ensures
            final(self).ids() == old(self).ids().insert(
                name@,
                with_id(if old(self).ids().contains_key(name@) { Some(old(self).ids()[name@]) } else { None }, net@, id@),
            ),
            final(self).network() == old(self).network(),
            final(self).file() == old(self).file(),
    {
        proof { use_type_invariant(&*self); }
        let mut comps: Vec<(String, Vec<(String, String)>)> = Vec::new();
        std::mem::swap(&mut comps, &mut self.components);
        let ghost c0 = comps@;
        let ghost s0 = component_pairs(c0);
        proof { lemma_sorted_distinct(c0); }
        let mut p: usize = 0;
        while p < comps.len() && key_less(comps[p].0.as_str(), name.as_str())
            invariant
                comps@ == c0,
                p <= comps.len(),
                forall|k: int| 0 <= k < p ==> key_lt(#[trigger] c0[k].0@, name@),
            decreases comps.len() - p,
        {
            p = p + 1;
        }
        if p < comps.len() && text_eq(comps[p].0.as_str(), name.as_str()) {
            let (cname, mut ids) = comps.remove(p);
            proof { lemma_assoc_lookup(s0, p as int); }
            set_id(&mut ids, net, id);
            let ghost x = (cname@, assoc(ids_pairs(ids@)));
            comps.insert(p, (cname, ids));
            proof {
                assert(component_pairs(comps@) =~= s0.update(p as int, x));
                lemma_assoc_update(s0, p as int, x);
                assert forall|i: int, j: int| 0 <= i < j < comps@.len() implies key_lt(#[trigger] comps@[i].0@, #[trigger] comps@[j].0@) by {
                    assert(comps@[i].0@ == c0[i].0@ && comps@[j].0@ == c0[j].0@);
                }
                assert forall|i: int| 0 <= i < comps@.len() implies distinct_keys(ids_pairs(#[trigger] comps@[i].1@)) by {
                    if i != p {
                        assert(comps@[i] == c0[i]);
                    }
                }
                assert forall|i: int| 0 <= i < comps@.len() implies (#[trigger] comps@[i].1@).len() > 0 by {
                    if i != p {
                        assert(comps@[i] == c0[i]);
                    }
                }
            }
        } else {
            let mut ids: Vec<(String, String)> = Vec::new();
            proof { assert(ids_pairs(ids@) =~= Seq::empty()); }
            set_id(&mut ids, net, id);
            proof {
                assert(assoc(ids_pairs(Seq::<(String, String)>::empty())) =~= Map::empty()) by {
                    assert(ids_pairs(Seq::<(String, String)>::empty()) =~= Seq::empty());
                }
                // `name` is new: it is above every earlier name and below every later one
                if p < c0.len() {
                    lemma_key_lt_total(c0[p as int].0@, name@);
                }
                assert forall|i: int| 0 <= i < s0.len() implies #[trigger] s0[i].0 != name@ by {
                    if i < p {
                        assert(key_lt(c0[i].0@, name@));
                        lemma_key_lt_irreflexive(name@);
                    } else {
                        assert(key_lt(name@, c0[p as int].0@));
                        if i > p {
                            assert(key_lt(c0[p as int].0@, c0[i].0@));
                            lemma_key_lt_transitive(name@, c0[p as int].0@, c0[i].0@);
                        }
                        lemma_key_lt_irreflexive(name@);
                    }
                }
                crate::assoc::lemma_assoc_domain(s0, name@);
            }
            let ghost x = (name@, assoc(ids_pairs(ids@)));
            comps.insert(p, (name, ids));
            proof {
                assert(component_pairs(comps@) =~= s0.insert(p as int, x));
                lemma_assoc_insert(s0, p as int, x);
                let c1 = comps@;
                assert forall|i: int, j: int| 0 <= i < j < c1.len() implies key_lt(#[trigger] c1[i].0@, #[trigger] c1[j].0@) by {
                    if j < p {
                        assert(c1[i] == c0[i] && c1[j] == c0[j]);
                    } else if j == p {
                        assert(c1[i] == c0[i]);
                    } else if i == p {
                        assert(c1[j] == c0[j - 1]);
                        if j - 1 > p {
                            assert(key_lt(c0[p as int].0@, c0[j - 1].0@));
                            lemma_key_lt_transitive(x.0, c0[p as int].0@, c0[j - 1].0@);
                        }
                    } else if i < p {
                        assert(c1[i] == c0[i] && c1[j] == c0[j - 1]);
                        if j - 1 >= p {
                            assert(key_lt(c0[i].0@, x.0));
                            assert(key_lt(x.0, c0[j - 1].0@)) by {
                                if j - 1 > p {
                                    assert(key_lt(c0[p as int].0@, c0[j - 1].0@));
                                    lemma_key_lt_transitive(x.0, c0[p as int].0@, c0[j - 1].0@);
                                }
                            }
                            lemma_key_lt_transitive(c0[i].0@, x.0, c0[j - 1].0@);
                        }
                    } else {
                        assert(c1[i] == c0[i - 1] && c1[j] == c0[j - 1]);
                    }
                }
                assert forall|i: int| 0 <= i < c1.len() implies distinct_keys(ids_pairs(#[trigger] c1[i].1@)) by {
                    if i < p {
                        assert(c1[i] == c0[i]);
                    } else if i > p {
                        assert(c1[i] == c0[i - 1]);
                    }
                }
                assert forall|i: int| 0 <= i < c1.len() implies (#[trigger] c1[i].1@).len() > 0 by {
                    if i < p {
                        assert(c1[i] == c0[i]);
                    } else if i > p {
                        assert(c1[i] == c0[i - 1]);
                    }
                }
            }
        }
        self.components = comps;
    }

    /// Records that component `name` has canister id `id` on this record's
    /// network.
    pub fn add(&mut self, name: String, id: String)
        ensures
            final(self).ids() == old(self).ids().insert(
                name@,
                with_id(if old(self).ids().contains_key(name@) { Some(old(self).ids()[name@]) } else { None }, network_path_spec(old(self).network()), id@),
            ),
            final(self).network() == old(self).network(),
            final(self).file() == old(self).file(),
    {
        let net = self.network.to_path();
        self.insert(name, net, id);
    }

    /// Puts back an entry read from a saved record: component `name` has id
    /// `id` on the network whose directory name is `network`.
    pub fn restore(&mut self, name: String, network: String, id: String)
        ensures
            final(self).ids() == old(self).ids().insert(
                name@,
                with_id(if old(self).ids().contains_key(name@) { Some(old(self).ids()[name@]) } else { None }, network@, id@),
            ),
            final(self).network() == old(self).network(),
            final(self).file() == old(self).file(),
    {
        self.insert(name, network, id);
    }

    /// Where the component `name` is among the entries.
    fn position(&self, name: &str) -> (res: Option<usize>)
        ensures
            match res {
                Some(i) => i < self.components@.len() && self.components@[i as int].0@ == name@
                    && self.ids().contains_key(name@)
                    && self.ids()[name@] == assoc(ids_pairs(self.components@[i as int].1@)),
                None => !self.ids().contains_key(name@),
            },
    {
        proof {
            use_type_invariant(self);
            lemma_sorted_distinct(self.components@);
        }
        let ghost s = component_pairs(self.components@);
        let mut i: usize = 0;
        while i < self.components.len()
            invariant
                s == component_pairs(self.components@),
                i <= self.components@.len(),
                forall|k: int| 0 <= k < i ==> #[trigger] s[k].0 != name@,
                distinct_keys(s),
            decreases self.components@.len() - i,
        {
            if text_eq(self.components[i].0.as_str(), name) {
                proof { lemma_assoc_lookup(s, i as int); }
                return Some(i);
            }
            i = i + 1;
        }
        proof { lemma_assoc_absent(s, name@); }
        None
    }

    /// The id of component `name` on this record's network.
    pub fn get(&self, name: &str) -> (res: Option<String>)
        ensures
            match res {
                Some(v) => self.ids().contains_key(name@)
                    && self.ids()[name@].contains_key(network_path_spec(self.network()))
                    && self.ids()[name@][network_path_spec(self.network())] == v@,
                None => !(self.ids().contains_key(name@)
                    && self.ids()[name@].contains_key(network_path_spec(self.network()))),
            },
    {
        proof { use_type_invariant(self); }
        let net = self.network.to_path();
        match self.position(name) {
            None => None,
            Some(i) => {
                let ids = &self.components[i].1;
                let ghost s = ids_pairs(ids@);
                let mut j: usize = 0;
                while j < ids.len()
                    invariant
                        s == ids_pairs(ids@),
                        distinct_keys(s),
                        self.ids().contains_key(name@),
                        self.ids()[name@] == assoc(s),
                        net@ == network_path_spec(self.network),
                        j <= ids@.len(),
                        forall|k: int| 0 <= k < j ==> #[trigger] s[k].0 != net@,
                    decreases ids@.len() - j,
                {
                    if text_eq(ids[j].0.as_str(), net.as_str()) {
                        proof {
                            lemma_assoc_lookup(s, j as int);
                            assert(s[j as int] == (ids@[j as int].0@, ids@[j as int].1@));
                        }
                        let v = ids[j].1.clone();
                        assert(v@ == ids@[j as int].1@);
                        return Some(v);
                    }
                    j = j + 1;
                }
                proof { lemma_assoc_absent(s, net@); }
                None
            },
        }
    }

    /// Whether component `name` has an id on any network.
    pub fn contains_key(&self, name: &str) -> (res: bool)
        ensures
            res == self.ids().contains_key(name@),
    {
        self.position(name).is_some()
    }

    /// Every component with its id on this record's network, in ascending
    /// order of name. Every component must have an id on this network.
    pub fn get_all_entries(&self) -> (res: Vec<(String, String)>)
        requires
            forall|k: Seq<char>| #[trigger] self.ids().contains_key(k) ==> self.ids()[k].contains_key(network_path_spec(self.network())),
        ensures
            forall|i: int, j: int| 0 <= i < j < res@.len() ==> key_lt(#[trigger] res@[i].0@, #[trigger] res@[j].0@),
            forall|k: Seq<char>| self.ids().contains_key(k) <==> exists|i: int| 0 <= i < res@.len() && #[trigger] res@[i].0@ == k,
            forall|i: int| 0 <= i < res@.len() ==> #[trigger] res@[i].1@ == self.ids()[res@[i].0@][network_path_spec(self.network())],
    {
        proof {
            use_type_invariant(self);
            lemma_sorted_distinct(self.components@);
        }
        let net = self.network.to_path();
        let ghost s = component_pairs(self.components@);
        let mut res: Vec<(String, String)> = Vec::new();
        let mut i: usize = 0;
        while i < self.components.len()
            invariant
                s == component_pairs(self.components@),
                distinct_keys(s),
                components_wf(self.components@),
                net@ == network_path_spec(self.network),
                forall|k: Seq<char>| #[trigger] self.ids().contains_key(k) ==> self.ids()[k].contains_key(net@),
                i <= self.components@.len(),
                res@.len() == i,
                forall|k: int| 0 <= k < i ==> #[trigger] res@[k].0@ == s[k].0,
                forall|k: int| 0 <= k < i ==> #[trigger] res@[k].1@ == self.ids()[s[k].0][net@],
            decreases self.components@.len() - i,
        {
            let ids = &self.components[i].1;
            proof { lemma_assoc_lookup(s, i as int); }
            let ghost t = ids_pairs(ids@);
            let mut j: usize = 0;
            while j < ids.len() && !text_eq(ids[j].0.as_str(), net.as_str())
                invariant
                    t == ids_pairs(ids@),
                    j <= ids@.len(),
                    forall|k: int| 0 <= k < j ==> #[trigger] t[k].0 != net@,
                decreases ids@.len() - j,
            {
                j = j + 1;
            }
            proof {
                assert(self.ids()[s[i as int].0] == assoc(t));
                if j == ids.len() {
                    lemma_assoc_absent(t, net@);
                    assert(false);
                }
                assert(distinct_keys(t));
                lemma_assoc_lookup(t, j as int);
            }
            let name = self.components[i].0.clone();
            let id = ids[j].1.clone();
            assert(name@ == s[i as int].0);
            assert(id@ == self.ids()[s[i as int].0][net@]);
            let ghost before = res@;
            res.push((name, id));
            assert forall|k: int| 0 <= k < i + 1 implies #[trigger] res@[k].0@ == s[k].0 by {
                if k < i {
                    assert(res@[k] == before[k]);
                }
            }
            i = i + 1;
        }
        proof {
            assert forall|a: int, b: int| 0 <= a < b < res@.len() implies key_lt(#[trigger] res@[a].0@, #[trigger] res@[b].0@) by {
                assert(res@[a].0@ == self.components@[a].0@);
                assert(res@[b].0@ == self.components@[b].0@);
            }
            assert forall|k: Seq<char>| self.ids().contains_key(k) <==> exists|a: int| 0 <= a < res@.len() && #[trigger] res@[a].0@ == k by {
                crate::assoc::lemma_assoc_domain(s, k);
                if self.ids().contains_key(k) {
                    let a = choose|a: int| 0 <= a < s.len() && #[trigger] s[a].0 == k;
                    assert(res@[a].0@ == k);
                }
                if exists|a: int| 0 <= a < res@.len() && #[trigger] res@[a].0@ == k {
                    let a = choose|a: int| 0 <= a < res@.len() && #[trigger] res@[a].0@ == k;
                    assert(s[a].0 == k);
                }
            }
        }
        res
    }
}

/// The directory under `dir` where the record of a network lies.
pub open spec fn record_dir_spec(n: DfxWrapperNetwork, dir: Seq<char>) -> Seq<char> {
    match filepath_spec(n).1 {
        Some(p) => dir + "/"@ + p,
        None => dir,
    }
}

/// A copy of one component's ids.
fn copy_ids(ids: &Vec<(String, String)>) -> (res: Vec<(String, String)>)
    ensures
        ids_pairs(res@) == ids_pairs(ids@),
{
    let mut res: Vec<(String, String)> = Vec::new();
    let mut i: usize = 0;
    while i < ids.len()
        invariant
            i <= ids@.len(),
            ids_pairs(res@) =~= ids_pairs(ids@.take(i as int)),
        decreases ids@.len() - i,
    {
        let ghost before = res@;
        res.push((ids[i].0.clone(), ids[i].1.clone()));
        assert(ids@.take(i + 1) =~= ids@.take(i as int).push(ids@[i as int]));
        assert(ids_pairs(res@) =~= ids_pairs(before).push((ids@[i as int].0@, ids@[i as int].1@)));
        i = i + 1;
    }
    assert(ids@.take(i as int) =~= ids@);
    res
}

impl ComponentIdsManager {
    /// The directory under `dir_path` where the record of `network` lies,
    /// and the path of the record's file.
    pub fn record_location(network: &DfxWrapperNetwork, dir_path: &str) -> (res: (String, String))
        ensures
            res.0@ == record_dir_spec(*network, dir_path@),
            res.1@ == record_dir_spec(*network, dir_path@) + "/"@ + filepath_spec(*network).0,
    {
        let (filename, filepath) = Self::filepath(network);
        let mut dir = String::from_str(dir_path);
        match filepath {
            Some(p) => {
                dir.append("/");
                dir.append(p.as_str());
            },
            None => {},
        }
        let mut file = dir.clone();
        file.append("/");
        file.append(filename.as_str());
        (dir, file)
    }

    /// Every component with its ids on every network, in ascending order
    /// of name: the whole record, as it is saved.
    pub fn records(&self) -> (res: Vec<(String, Vec<(String, String)>)>)
        ensures
            assoc(component_pairs(res@)) == self.ids(),
            keys(component_pairs(res@)) == self.names(),
            components_wf(res@),
    {
        proof { use_type_invariant(self); }
        let mut res: Vec<(String, Vec<(String, String)>)> = Vec::new();
        let mut i: usize = 0;
        while i < self.components.len()
            invariant
                i <= self.components@.len(),
                components_wf(self.components@),
                res@.len() == i,
                forall|k: int| 0 <= k < i ==> (#[trigger] res@[k]).0@ == self.components@[k].0@
                    && ids_pairs(res@[k].1@) == ids_pairs(self.components@[k].1@),
            decreases self.components@.len() - i,
        {
            let ids = copy_ids(&self.components[i].1);
            res.push((self.components[i].0.clone(), ids));
            i = i + 1;
        }
        assert(component_pairs(res@) =~= component_pairs(self.components@));
        assert forall|a: int, b: int| 0 <= a < b < res@.len() implies key_lt(#[trigger] res@[a].0@, #[trigger] res@[b].0@) by {
            assert(key_lt(self.components@[a].0@, self.components@[b].0@));
        }
        assert forall|a: int| 0 <= a < res@.len() implies distinct_keys(ids_pairs(#[trigger] res@[a].1@)) by {
            assert(distinct_keys(ids_pairs(self.components@[a].1@)));
        }
        assert forall|a: int| 0 <= a < res@.len() implies (#[trigger] res@[a].1@).len() > 0 by {
            assert(self.components@[a].1@.len() > 0);
            assert(ids_pairs(res@[a].1@).len() == ids_pairs(self.components@[a].1@).len());
        }
        res
    }
}

/// Saved records as views: each component's name with its pairs of
/// network directory name and id, in the order saved.
pub open spec fn record_views(r: Seq<(String, Vec<(String, String)>)>) -> Seq<(Seq<char>, Seq<(Seq<char>, Seq<char>)>)> {
    r.map_values(|e: (String, Vec<(String, String)>)| (e.0@, ids_pairs(e.1@)))
}

/// The ids after putting back one component's saved pairs, in order, as
/// `restore` does.
pub open spec fn restore_ids(
    m: Map<Seq<char>, Map<Seq<char>, Seq<char>>>,
    name: Seq<char>,
    ids: Seq<(Seq<char>, Seq<char>)>,
) -> Map<Seq<char>, Map<Seq<char>, Seq<char>>>
    decreases ids.len(),
{
    if ids.len() == 0 {
        m
    } else {
        let m1 = restore_ids(m, name, ids.drop_last());
        m1.insert(name, with_id(if m1.contains_key(name) { Some(m1[name]) } else { None }, ids.last().0, ids.last().1))
    }
}

/// The ids after putting back every saved component, in order, into an
/// empty record.
pub open spec fn restore_all(recs: Seq<(Seq<char>, Seq<(Seq<char>, Seq<char>)>)>) -> Map<Seq<char>, Map<Seq<char>, Seq<char>>>
    decreases recs.len(),
{
    if recs.len() == 0 {
        Map::empty()
    } else {
        restore_ids(restore_all(recs.drop_last()), recs.last().0, recs.last().1)
    }
}

impl ComponentIdsManager {
    /// A record for `network` holding the saved entries, put back in order.
    pub fn from_records(network: &DfxWrapperNetwork, records: &Vec<(String, Vec<(String, String)>)>) -> (res: Self)
        ensures
            res.ids() == restore_all(record_views(records@)),
            res.network() == *network,
            res.file() == filepath_spec(*network),
    {
        let mut res = Self::new(network);
        let ghost rv = record_views(records@);
        let mut i: usize = 0;
        assert(rv.take(0) =~= Seq::<(Seq<char>, Seq<(Seq<char>, Seq<char>)>)>::empty());
        while i < records.len()
            invariant
                rv == record_views(records@),
                i <= records@.len(),
                res.ids() == restore_all(rv.take(i as int)),
                res.network() == *network,
                res.file() == filepath_spec(*network),
            decreases records@.len() - i,
        {
            let name = &records[i].0;
            let ids = &records[i].1;
            let ghost base = res.ids();
            let mut j: usize = 0;
            assert(ids_pairs(ids@).take(0) =~= Seq::<(Seq<char>, Seq<char>)>::empty());
            while j < ids.len()
                invariant
                    rv == record_views(records@),
                    i < records@.len(),
                    ids@ == records@[i as int].1@,
                    name@ == records@[i as int].0@,
                    j <= ids@.len(),
                    res.ids() == restore_ids(base, name@, ids_pairs(ids@).take(j as int)),
                    res.network() == *network,
                    res.file() == filepath_spec(*network),
                decreases ids@.len() - j,
            {
                assert(ids_pairs(ids@).take(j + 1).drop_last() =~= ids_pairs(ids@).take(j as int));
                res.restore(name.clone(), ids[j].0.clone(), ids[j].1.clone());
                j = j + 1;
            }
            assert(ids_pairs(ids@).take(j as int) =~= ids_pairs(ids@));
            assert(rv.take(i + 1).drop_last() =~= rv.take(i as int));
            assert(rv.take(i + 1).last() == (name@, ids_pairs(ids@)));
            i = i + 1;
        }
        assert(rv.take(i as int) =~= rv);
        res
    }
}

proof fn lemma_restore_ids_fresh(
    m: Map<Seq<char>, Map<Seq<char>, Seq<char>>>,
    name: Seq<char>,
    ids: Seq<(Seq<char>, Seq<char>)>,
)
    requires
        !m.contains_key(name),
        ids.len() > 0,
    ensures
        restore_ids(m, name, ids) == m.insert(name, assoc(ids)),
    decreases ids.len(),
{
    if ids.len() == 1 {
        let e = ids.drop_last();
        assert(e =~= Seq::<(Seq<char>, Seq<char>)>::empty());
        assert(assoc(e) == Map::<Seq<char>, Seq<char>>::empty());
        assert(restore_ids(m, name, e) == m);
        assert(assoc(ids) == assoc(e).insert(ids.last().0, ids.last().1));
        assert(restore_ids(m, name, ids) == m.insert(name, with_id(None, ids.last().0, ids.last().1)));
    } else {
        lemma_restore_ids_fresh(m, name, ids.drop_last());
        let m1 = m.insert(name, assoc(ids.drop_last()));
        assert(m1.insert(name, m1[name].insert(ids.last().0, ids.last().1)) =~= m.insert(name, assoc(ids)));
    }
}

/// Putting back a well-formed record gives the ids it holds.
pub proof fn lemma_restore_all(r: Seq<(String, Vec<(String, String)>)>)
    requires
        components_wf(r),
    ensures
        restore_all(record_views(r)) == assoc(component_pairs(r)),
    decreases r.len(),
{
    let rv = record_views(r);
    if r.len() > 0 {
        let t = r.drop_last();
        assert(components_wf(t)) by {
            assert forall|i: int, j: int| 0 <= i < j < t.len() implies key_lt(#[trigger] t[i].0@, #[trigger] t[j].0@) by {
                assert(t[i] == r[i] && t[j] == r[j]);
            }
            assert forall|i: int| 0 <= i < t.len() implies distinct_keys(ids_pairs(#[trigger] t[i].1@)) by {
                assert(t[i] == r[i]);
            }
            assert forall|i: int| 0 <= i < t.len() implies (#[trigger] t[i].1@).len() > 0 by {
                assert(t[i] == r[i]);
            }
        }
        lemma_restore_all(t);
        assert(rv.drop_last() =~= record_views(t));
        assert(component_pairs(r).drop_last() =~= component_pairs(t));
        let last = r.last();
        assert forall|i: int| 0 <= i < component_pairs(t).len() implies #[trigger] component_pairs(t)[i].0 != last.0@ by {
            assert(component_pairs(t)[i].0 == r[i].0@);
            assert(key_lt(r[i].0@, r[r.len() - 1].0@));
            lemma_key_lt_irreflexive(last.0@);
        }
        crate::assoc::lemma_assoc_domain(component_pairs(t), last.0@);
        assert(ids_pairs(last.1@).len() == last.1@.len());
        lemma_restore_ids_fresh(assoc(component_pairs(t)), last.0@, ids_pairs(last.1@));
    } else {
        assert(component_pairs(r) =~= Seq::<(Seq<char>, Map<Seq<char>, Seq<char>>)>::empty());
    }
}

} // verus!

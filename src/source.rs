//! Capture sources and the catalog that maps a daemon index to each of them.
use vstd::prelude::*;

verus! {

/// One capture source as last observed: its name and whether it is muted.
#[derive(Debug, Clone)]
pub struct SourceDatum {
    pub name: String,
    pub mute: bool,
}

/// The mathematical value of a [`SourceDatum`].
pub ghost struct SourceView {
    pub name: Seq<char>,
    pub mute: bool,
}

impl View for SourceDatum {
    type V = SourceView;

    open spec fn view(&self) -> SourceView {
        SourceView { name: self.name@, mute: self.mute }
    }
}

impl SourceDatum {
    pub fn new(name: String, mute: bool) -> (r: Self)
        ensures
            r@ == (SourceView { name: name@, mute }),
    {
        SourceDatum { name, mute }
    }
}

/// The map that a sequence of `(index, source)` pairs describes, a later pair
/// replacing an earlier one with the same index.
pub open spec fn entries_map(s: Seq<(u32, SourceDatum)>) -> Map<u32, SourceView>
    decreases s.len(),
{
    if s.len() == 0 {
        Map::empty()
    } else {
        entries_map(s.drop_last()).insert(s.last().0, s.last().1@)
    }
}

/// No index occurs twice in `s`.
pub open spec fn unique_indices(s: Seq<(u32, SourceDatum)>) -> bool {
    forall|i: int, j: int| 0 <= i < s.len() && 0 <= j < s.len() && i != j ==> s[i].0 != s[j].0
}

/// With unique indices, the map holds exactly the pairs of the sequence.
pub proof fn lemma_entries_map(s: Seq<(u32, SourceDatum)>)
    requires
        unique_indices(s),
    ensures
        forall|k: u32|
            #[trigger] entries_map(s).contains_key(k) <==> exists|p: int|
                0 <= p < s.len() && s[p].0 == k,
        forall|p: int| 0 <= p < s.len() ==> #[trigger] entries_map(s)[s[p].0] == s[p].1@,
    decreases s.len(),
{
    if s.len() > 0 {
        let t = s.drop_last();
        let last = s.last();
        assert(unique_indices(t)) by {
            assert forall|a: int, b: int|
                0 <= a < t.len() && 0 <= b < t.len() && a != b implies t[a].0 != t[b].0 by {
                assert(t[a] == s[a] && t[b] == s[b]);
            }
        }
        lemma_entries_map(t);
        assert(entries_map(s) == entries_map(t).insert(last.0, last.1@));
        assert forall|k: u32|
            #[trigger] entries_map(s).contains_key(k) <==> exists|p: int|
                0 <= p < s.len() && s[p].0 == k by {
            if k == last.0 {
                assert(s[s.len() - 1].0 == k);
            } else {
                if entries_map(s).contains_key(k) {
                    assert(entries_map(t).contains_key(k));
                    let p = choose|p: int| 0 <= p < t.len() && t[p].0 == k;
                    assert(s[p] == t[p]);
                }
                if exists|p: int| 0 <= p < s.len() && s[p].0 == k {
                    let p = choose|p: int| 0 <= p < s.len() && s[p].0 == k;
                    assert(p < t.len());
                    assert(t[p] == s[p]);
                    assert(entries_map(t).contains_key(k));
                }
            }
        }
        assert forall|p: int| 0 <= p < s.len() implies #[trigger] entries_map(s)[s[p].0]
            == s[p].1@ by {
            if p < t.len() {
                assert(t[p] == s[p]);
                assert(s[p].0 != last.0);
                assert(entries_map(t)[t[p].0] == t[p].1@);
            }
        }
    }
}

/// The catalog of capture sources, keyed by the daemon's source index.
///
/// Each index occurs once; the order of the entries carries no meaning.
#[derive(Debug, Clone)]
pub struct Sources {
    entries: Vec<(u32, SourceDatum)>,
}

impl View for Sources {
    type V = Map<u32, SourceView>;

    closed spec fn view(&self) -> Map<u32, SourceView> {
        entries_map(self.entries@)
    }
}

impl Sources {
    /// Each index occurs once among the entries.
    pub closed spec fn wf(&self) -> bool {
        unique_indices(self.entries@)
    }

    /// An empty catalog.
    pub fn new() -> (r: Self)
        ensures
            r.wf(),
            r@ == Map::<u32, SourceView>::empty(),
    {
        Sources { entries: Vec::new() }
    }

    /// Records `datum` under `index`, replacing what the catalog held there.
    pub fn insert(&mut self, index: u32, datum: SourceDatum)
        requires
            old(self).wf(),
        ensures
            final(self).wf(),
            final(self)@ == old(self)@.insert(index, datum@),
    {
        proof {
            lemma_entries_map(self.entries@);
        }
        let n = self.entries.len();
        let mut i: usize = 0;
        while i < n
            invariant
                n == self.entries.len(),
                i <= n,
                self.entries@ == old(self).entries@,
                unique_indices(self.entries@),
                forall|p: int| 0 <= p < i ==> self.entries@[p].0 != index,
            decreases n - i,
        {
            if self.entries[i].0 == index {
                let ghost s = self.entries@;
                assert(s[i as int].0 == index);
                self.entries.set(i, (index, datum));
                proof {
                    let t = self.entries@;
                    assert(t == s.update(i as int, (index, datum)));
                    assert(unique_indices(t)) by {
                        assert forall|a: int, b: int|
                            0 <= a < t.len() && 0 <= b < t.len() && a != b implies t[a].0
                            != t[b].0 by {
                            assert(t[a].0 == s[a].0);
                            assert(t[b].0 == s[b].0);
                        }
                    }
                    lemma_entries_map(t);
                    lemma_entries_map(s);
                    assert(entries_map(t) =~= entries_map(s).insert(index, datum@)) by {
                        assert forall|k: u32| #[trigger]
                            entries_map(t).contains_key(k) implies entries_map(s).insert(
                            index,
                            datum@,
                        )[k] == entries_map(t)[k] by {
                            let p = choose|p: int| 0 <= p < t.len() && t[p].0 == k;
                            assert(entries_map(t)[t[p].0] == t[p].1@);
                            if p != i {
                                assert(entries_map(s)[s[p].0] == s[p].1@);
                            }
                        }
                        assert forall|k: u32| #[trigger]
                            entries_map(s).insert(index, datum@).contains_key(k) implies entries_map(
                            t,
                        ).contains_key(k) by {
                            if k != index {
                                let p = choose|p: int| 0 <= p < s.len() && s[p].0 == k;
                                assert(t[p].0 == k);
                            } else {
                                assert(t[i as int].0 == k);
                            }
                        }
                    }
                }
                return;
            }
            i = i + 1;
        }
        let ghost s = self.entries@;
        self.entries.push((index, datum));
        proof {
            let t = self.entries@;
            assert(t.drop_last() =~= s);
            assert(t.last() == (index, datum));
            assert(entries_map(t) == entries_map(s).insert(index, datum@));
            assert(unique_indices(t)) by {
                assert forall|a: int, b: int|
                    0 <= a < t.len() && 0 <= b < t.len() && a != b implies t[a].0 != t[b].0 by {
                    if a < s.len() {
                        assert(t[a] == s[a]);
                    }
                    if b < s.len() {
                        assert(t[b] == s[b]);
                    }
                }
            }
        }
    }

    /// The source recorded under `index`, if any.
    pub fn get(&self, index: u32) -> (r: Option<&SourceDatum>)
        requires
            self.wf(),
        ensures
            match r {
                Some(d) => self@.contains_key(index) && d@ == self@[index],
                None => !self@.contains_key(index),
            },
    {
        proof {
            lemma_entries_map(self.entries@);
        }
        let n = self.entries.len();
        let mut i: usize = 0;
        while i < n
            invariant
                n == self.entries.len(),
                i <= n,
                unique_indices(self.entries@),
                forall|p: int| 0 <= p < i ==> self.entries@[p].0 != index,
            decreases n - i,
        {
            proof {
                lemma_entries_map(self.entries@);
            }
            if self.entries[i].0 == index {
                assert(self.entries@[i as int].0 == index);
                assert(entries_map(self.entries@)[self.entries@[i as int].0]
                    == self.entries@[i as int].1@);
                return Some(&self.entries[i].1);
            }
            i = i + 1;
        }
        None
    }
}

/// What the resolver yields when the server designates no default source;
/// no real source carries this name.
pub const NO_DEFAULT_SOURCE: &'static str = "No default source";

/// The name of the default source, given what the server reported: the
/// reported name, or [`NO_DEFAULT_SOURCE`] when it reported none.
pub fn default_source_name(reported: Option<String>) -> (r: String)
    ensures
        match reported {
            Some(n) => r@ == n@,
            None => r@ == NO_DEFAULT_SOURCE@,
        },
{
    match reported {
        Some(n) => n,
        None => NO_DEFAULT_SOURCE.to_owned(),
    }
}

/// `index` is the one source of `m` whose name is `name`.
pub open spec fn sole_source_named(m: Map<u32, SourceView>, name: Seq<char>, index: u32) -> bool {
    &&& m.contains_key(index)
    &&& m[index].name == name
    &&& forall|j: u32| #[trigger] m.contains_key(j) && m[j].name == name ==> j == index
}

/// The index of the one source of `m` named `name`, if there is one.
pub open spec fn resolved_index(m: Map<u32, SourceView>, name: Seq<char>) -> Option<u32> {
    if exists|i: u32| sole_source_named(m, name, i) {
        Some(choose|i: u32| sole_source_named(m, name, i))
    } else {
        None
    }
}

/// The index of the source named `default_name`, when exactly one source of
/// the catalog has that name; `None` when none has, or several have.
pub fn get_default_source_index(sources: &Sources, default_name: &String) -> (r: Option<u32>)
    requires
        sources.wf(),
    ensures
        match r {
            Some(i) => sole_source_named(sources@, default_name@, i),
            None => forall|i: u32| !sole_source_named(sources@, default_name@, i),
        },
        r == resolved_index(sources@, default_name@),
{
    let n = sources.entries.len();
    let ghost s = sources.entries@;
    let mut found: Option<usize> = None;
    let mut i: usize = 0;
    while i < n
        invariant
            n == s.len(),
            s == sources.entries@,
            unique_indices(s),
            i <= n,
            match found {
                None => forall|p: int| 0 <= p < i ==> s[p].1.name@ != default_name@,
                Some(q) => q < i && s[q as int].1.name@ == default_name@ && forall|p: int|
                    0 <= p < i && s[p].1.name@ == default_name@ ==> p == q,
            },
        decreases n - i,
    {
        if sources.entries[i].1.name == *default_name {
            match found {
                Some(q) => {
                    proof {
                        lemma_entries_map(s);
                        let m = entries_map(s);
                        assert(m[s[q as int].0] == s[q as int].1@);
                        assert(m[s[i as int].0] == s[i as int].1@);
                        assert(s[q as int].0 != s[i as int].0);
                        assert forall|k: u32| !sole_source_named(m, default_name@, k) by {
                            if sole_source_named(m, default_name@, k) {
                                assert(m.contains_key(s[q as int].0));
                                assert(m.contains_key(s[i as int].0));
                            }
                        }
                    }
                    return None;
                },
                None => {
                    found = Some(i);
                },
            }
        }
        i = i + 1;
    }
    proof {
        lemma_entries_map(s);
    }
    match found {
        None => {
            proof {
                let m = entries_map(s);
                assert forall|k: u32| !sole_source_named(m, default_name@, k) by {
                    if m.contains_key(k) {
                        let p = choose|p: int| 0 <= p < s.len() && s[p].0 == k;
                        assert(m[s[p].0] == s[p].1@);
                    }
                }
            }
            None
        },
        Some(q) => {
            proof {
                let m = entries_map(s);
                let k = s[q as int].0;
                assert(m[s[q as int].0] == s[q as int].1@);
                assert forall|j: u32| #[trigger] m.contains_key(j) && m[j].name
                    == default_name@ implies j == k by {
                    let p = choose|p: int| 0 <= p < s.len() && s[p].0 == j;
                    assert(m[s[p].0] == s[p].1@);
                }
                assert(sole_source_named(m, default_name@, k));
                let c = choose|c: u32| sole_source_named(m, default_name@, c);
                assert(m.contains_key(c) && m[c].name == default_name@);
            }
            Some(sources.entries[q].0)
        },
    }
}

} // verus!

//! Which events a listener decodes: a set of event names and a polarity.
use vstd::prelude::*;

use crate::events::{
    lemma_name_len, lemma_name_of_type, lemma_type_of_name, type_of_name, HyprlandEventType,
};

verus! {

/// A filter on event names. With `inclusive` set, only the listed names pass;
/// without it, every name passes but the listed ones.
#[derive(Clone, Debug)]
pub struct EventFilter {
    filter_set: Vec<HyprlandEventType>,
    inclusive: bool,
}

/// A filter as contracts see it.
pub struct FilterView {
    /// The wire names of the listed kinds.
    pub names: Set<Seq<char>>,
    /// Whether the listed names are the only ones that pass.
    pub inclusive: bool,
}

impl FilterView {
    /// A name passes when its membership agrees with the polarity: listed and
    /// including, or unlisted and excluding.
    pub open spec fn accepts(self, name: Seq<char>) -> bool {
        self.names.contains(name) == self.inclusive
    }

    /// Nothing passes: no name is listed and only listed names would pass.
    pub open spec fn rejects_all(self) -> bool {
        self.names.is_empty() && self.inclusive
    }
}

/// The wire names of the kinds in `ts`.
pub open spec fn names_of(ts: Seq<HyprlandEventType>) -> Set<Seq<char>> {
    ts.to_set().map(|t: HyprlandEventType| t.name())
}

impl View for EventFilter {
    type V = FilterView;

    closed spec fn view(&self) -> FilterView {
        FilterView { names: names_of(self.filter_set@), inclusive: self.inclusive }
    }
}

proof fn lemma_names_of_push(ts: Seq<HyprlandEventType>, t: HyprlandEventType)
    ensures
        names_of(ts.push(t)) == names_of(ts).insert(t.name()),
{
    let s = ts.push(t);
    assert forall|a: HyprlandEventType| s.contains(a) == (ts.contains(a) || a == t) by {
        if ts.contains(a) {
            let i = choose|i: int| 0 <= i < ts.len() && ts[i] == a;
            assert(s[i] == a);
        }
        if a == t {
            assert(s[ts.len() as int] == t);
        }
        if s.contains(a) {
            let i = choose|i: int| 0 <= i < s.len() && s[i] == a;
            if i < ts.len() {
                assert(ts[i] == a);
            }
        }
    }
    assert(s.to_set() =~= ts.to_set().insert(t));
    assert forall|n: Seq<char>| names_of(s).contains(n) == names_of(ts).insert(t.name()).contains(n) by {
        if names_of(ts).contains(n) {
            let u = choose|u: HyprlandEventType| ts.to_set().contains(u) && u.name() == n;
            assert(s.to_set().contains(u));
        }
        if n == t.name() {
            assert(s.to_set().contains(t));
        }
    }
    assert(names_of(s) =~= names_of(ts).insert(t.name()));
}

proof fn lemma_names_of_contains(ts: Seq<HyprlandEventType>, t: HyprlandEventType)
    ensures
        names_of(ts).contains(t.name()) == ts.contains(t),
{
    if names_of(ts).contains(t.name()) {
        let u = choose|u: HyprlandEventType| ts.to_set().contains(u) && u.name() == t.name();
        lemma_type_of_name(u);
        lemma_type_of_name(t);
    }
    if ts.contains(t) {
        assert(ts.to_set().contains(t));
    }
}

impl EventFilter {
    /// A filter that lists nothing, with the given polarity.
    pub fn new(inclusive: bool) -> (r: Self)
        ensures
            r@.names == Set::<Seq<char>>::empty(),
            r@.inclusive == inclusive,
    {
        let r = EventFilter { filter_set: Vec::new(), inclusive };
        assert(names_of(r.filter_set@) =~= Set::<Seq<char>>::empty());
        r
    }

    /// A filter that lets every event pass.
    pub fn new_include_all() -> (r: Self)
        ensures
            r@.names == Set::<Seq<char>>::empty(),
            !r@.inclusive,
            forall|n: Seq<char>| r@.accepts(n),
    {
        Self::new(false)
    }

    /// A filter that lets no event pass.
    pub fn new_exclude_all() -> (r: Self)
        ensures
            r@.names == Set::<Seq<char>>::empty(),
            r@.inclusive,
            forall|n: Seq<char>| !r@.accepts(n),
    {
        Self::new(true)
    }

    /// A filter with the default polarity (every name passes but the listed
    /// ones) that lists the kinds in `types`.
    pub fn from_iter(types: &[HyprlandEventType]) -> (r: Self)
        ensures
            r@.names == names_of(types@),
            !r@.inclusive,
    {
        let mut r = Self::new_include_all();
        let mut i: usize = 0;
        while i < types.len()
            invariant
                i <= types@.len(),
                r@.names == names_of(types@.take(i as int)),
                !r@.inclusive,
            decreases types@.len() - i,
        {
            r.add_event(&types[i]);
            proof {
                lemma_names_of_push(types@.take(i as int), types@[i as int]);
                assert(types@.take(i + 1) =~= types@.take(i as int).push(types@[i as int]));
            }
            i = i + 1;
        }
        assert(types@.take(i as int) =~= types@);
        r
    }

    /// Sets whether the listed names are the only ones that pass (`true`) or
    /// the only ones that do not (`false`).
    pub fn set_include(&mut self, inclusive: bool)
        ensures
            final(self)@.names == old(self)@.names,
            final(self)@.inclusive == inclusive,
    {
        self.inclusive = inclusive;
    }

    fn lists(&self, t: HyprlandEventType) -> (r: bool)
        ensures
            r == self.filter_set@.contains(t),
    {
        let mut i: usize = 0;
        while i < self.filter_set.len()
            invariant
                i <= self.filter_set@.len(),
                forall|j: int| 0 <= j < i ==> self.filter_set@[j] != t,
            decreases self.filter_set@.len() - i,
        {
            if self.filter_set[i] == t {
                return true;
            }
            i = i + 1;
        }
        false
    }

    /// Adds the name of `ev_type` to the listed names.
    pub fn add_event(&mut self, ev_type: &HyprlandEventType)
        ensures
            final(self)@.names == old(self)@.names.insert(ev_type.name()),
            final(self)@.inclusive == old(self)@.inclusive,
    {
        if self.lists(*ev_type) {
            proof {
                lemma_names_of_contains(self.filter_set@, *ev_type);
                assert(self@.names.insert(ev_type.name()) =~= self@.names);
            }
        } else {
            let ghost before = self.filter_set@;
            self.filter_set.push(*ev_type);
            proof {
                lemma_names_of_push(before, *ev_type);
            }
        }
    }

    /// Whether an event named `ev_name` passes the filter.
    pub fn includes(&self, ev_name: &str) -> (r: bool)
        ensures
            r == self@.accepts(ev_name@),
    {
        let listed = match HyprlandEventType::from_name(ev_name) {
            None => false,
            Some(t) => self.lists(t),
        };
        proof {
            lemma_name_of_type(ev_name@);
            if self@.names.contains(ev_name@) {
                let u = choose|u: HyprlandEventType|
                    self.filter_set@.to_set().contains(u) && u.name() == ev_name@;
                lemma_type_of_name(u);
            }
            if let Some(t) = type_of_name(ev_name@) {
                lemma_names_of_contains(self.filter_set@, t);
            }
        }
        listed == self.inclusive
    }

    /// Whether the filter lets no event pass at all.
    pub fn filters_everything(&self) -> (r: bool)
        ensures
            r == self@.rejects_all(),
            r == (forall|n: Seq<char>| !self@.accepts(n)),
    {
        proof {
            // the empty name is never listed: every listed name is a kind's
            if self@.names.contains(Seq::<char>::empty()) {
                let u = choose|u: HyprlandEventType|
                    self.filter_set@.to_set().contains(u) && u.name() == Seq::<char>::empty();
                lemma_name_len(u);
            }
            assert(!self@.names.contains(Seq::<char>::empty()));
            if !self.inclusive {
                assert(self@.accepts(Seq::<char>::empty()));
            }
            if self.filter_set@.len() > 0 {
                assert(self.filter_set@.to_set().contains(self.filter_set@[0]));
                assert(self@.names.contains(self.filter_set@[0].name()));
                if self.inclusive {
                    assert(self@.accepts(self.filter_set@[0].name()));
                }
            } else {
                assert(self@.names =~= Set::<Seq<char>>::empty());
            }
        }
        self.filter_set.len() == 0 && self.inclusive
    }
}

impl Default for EventFilter {
    /// The default polarity: every event passes.
    fn default() -> (r: Self)
        ensures
            r@.names == Set::<Seq<char>>::empty(),
            !r@.inclusive,
    {
        Self::new_include_all()
    }
}

/// A name passes exactly when its membership in the listed names differs from
/// the filter's polarity being exclusive.
pub proof fn lemma_accepts_xor(f: FilterView, name: Seq<char>)
    ensures
        f.accepts(name) == (f.names.contains(name) != !f.inclusive),
{
}

/// A filter built from a list with the default polarity rejects exactly the
/// names of the listed kinds.
pub proof fn lemma_from_iter_rejects_listed(types: Seq<HyprlandEventType>, f: FilterView, name: Seq<char>)
    requires
        f.names == names_of(types),
        !f.inclusive,
    ensures
        !f.accepts(name) <==> exists|i: int| 0 <= i < types.len() && types[i].name() == name,
{
    if !f.accepts(name) {
        let u = choose|u: HyprlandEventType| types.to_set().contains(u) && u.name() == name;
        let i = types.index_of(u);
        assert(types[i].name() == name);
    }
    if exists|i: int| 0 <= i < types.len() && types[i].name() == name {
        let i = choose|i: int| 0 <= i < types.len() && types[i].name() == name;
        assert(types.to_set().contains(types[i]));
    }
}

} // verus!

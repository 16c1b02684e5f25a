//! Turns left before each ability can be used again.
use vstd::prelude::*;
use crate::text::{same_text, texts};

verus! {

/// Turn counter `t` after one more turn has passed.
pub open spec fn ticked(t: u32) -> u32 {
    if t > 0 { (t - 1) as u32 } else { 0 }
}

/// One turn has passed between two cooldown tables: the same abilities, each counter
/// one lower unless it already stood at zero.
pub open spec fn turn_passed(before: Map<Seq<char>, u32>, after: Map<Seq<char>, u32>) -> bool {
    &&& after.dom() == before.dom()
    &&& forall|k: Seq<char>| #[trigger] before.contains_key(k) ==> after[k] == ticked(before[k])
}

/// Remaining cooldown turns, by ability name. Each name occurs at most once.
pub struct Cooldowns {
    entries: Vec<(String, u32)>,
    model: Ghost<Map<Seq<char>, u32>>,
}

impl View for Cooldowns {
    type V = Map<Seq<char>, u32>;

    closed spec fn view(&self) -> Map<Seq<char>, u32> {
        self.model@
    }
}

/// Names of the entries whose counter stands at one, in order.
pub open spec fn expiring(s: Seq<(String, u32)>) -> Seq<Seq<char>>
    decreases s.len(),
{
    if s.len() == 0 {
        Seq::empty()
    } else {
        let rest = expiring(s.drop_last());
        if s.last().1 == 1 { rest.push(s.last().0@) } else { rest }
    }
}

/// A name is expiring exactly when one of its entries stands at one; with distinct
/// names, no name is listed twice.
proof fn lemma_expiring(s: Seq<(String, u32)>)
    requires
        forall|a: int, b: int| 0 <= a < b < s.len() ==> #[trigger] s[a].0@ != #[trigger] s[b].0@,
    ensures
        forall|k: Seq<char>| #[trigger] expiring(s).contains(k) <==> exists|j: int|
            0 <= j < s.len() && s[j].0@ == k && s[j].1 == 1,
        expiring(s).no_duplicates(),
    decreases s.len(),
{
    if s.len() > 0 {
        let p = s.drop_last();
        assert forall|a: int, b: int| 0 <= a < b < p.len() implies #[trigger] p[a].0@ != #[trigger] p[b].0@ by {
            assert(p[a] == s[a] && p[b] == s[b]);
        }
        lemma_expiring(p);
        assert forall|k: Seq<char>| #[trigger] expiring(s).contains(k) <==> exists|j: int|
            0 <= j < s.len() && s[j].0@ == k && s[j].1 == 1 by {
            if exists|j: int| 0 <= j < s.len() && s[j].0@ == k && s[j].1 == 1 {
                let j = choose|j: int| 0 <= j < s.len() && s[j].0@ == k && s[j].1 == 1;
                if j < p.len() {
                    assert(p[j] == s[j]);
                    assert(expiring(p).contains(k));
                    let a = choose|a: int| 0 <= a < expiring(p).len() && expiring(p)[a] == k;
                    if s.last().1 == 1 {
                        assert(expiring(s)[a] == k);
                    }
                } else {
                    assert(expiring(s).last() == k);
                }
            }
            if expiring(s).contains(k) {
                let a = choose|a: int| 0 <= a < expiring(s).len() && expiring(s)[a] == k;
                if a < expiring(p).len() {
                    assert(expiring(p)[a] == k);
                    assert(expiring(p).contains(k));
                    let j = choose|j: int| 0 <= j < p.len() && p[j].0@ == k && p[j].1 == 1;
                    assert(s[j] == p[j]);
                } else {
                    assert(s[s.len() - 1].0@ == k);
                }
            }
        }
        if s.last().1 == 1 {
            assert forall|a: int| 0 <= a < expiring(p).len() implies expiring(p)[a] != s.last().0@ by {
                if expiring(p)[a] == s.last().0@ {
                    assert(expiring(p).contains(s.last().0@));
                    let j = choose|j: int| 0 <= j < p.len() && p[j].0@ == s.last().0@ && p[j].1 == 1;
                    assert(p[j] == s[j]);
                }
            }
        }
    }
}

impl Cooldowns {
    /// The entries and the map agree, and no name occurs twice.
    pub closed spec fn wf(self) -> bool {
        &&& forall|i: int|
            #![trigger self.entries@[i]]
            0 <= i < self.entries@.len() ==> {
                &&& self.model@.contains_key(self.entries@[i].0@)
                &&& self.model@[self.entries@[i].0@] == self.entries@[i].1
            }
        &&& forall|k: Seq<char>|
            #![trigger self.model@.contains_key(k)]
            self.model@.contains_key(k) ==> exists|i: int|
                0 <= i < self.entries@.len() && #[trigger] self.entries@[i].0@ == k
        &&& forall|i: int, j: int|
            0 <= i < j < self.entries@.len() ==> #[trigger] self.entries@[i].0@
                != #[trigger] self.entries@[j].0@
    }

    /// No ability on cooldown.
    pub fn new() -> (c: Self)
        ensures
            c.wf(),
            c@ == Map::<Seq<char>, u32>::empty(),
    {
        Cooldowns { entries: Vec::new(), model: Ghost(Map::empty()) }
    }

    /// Position of `name` among the entries, if it has one.
    fn find(&self, name: &str) -> (r: Option<usize>)
        requires
            self.wf(),
        ensures
            match r {
                Some(i) => i < self.entries@.len() && self.entries@[i as int].0@ == name@,
                None => !self@.contains_key(name@),
            },
    {
        let n: usize = self.entries.len();
        let mut i: usize = 0;
        while i < n
            invariant
                self.wf(),
                n == self.entries@.len(),
                0 <= i <= n,
                forall|j: int| 0 <= j < i ==> self.entries@[j].0@ != name@,
            decreases n - i,
        {
            if same_text(self.entries[i].0.as_str(), name) {
                return Some(i);
            }
            i = i + 1;
        }
        proof {
            if self@.contains_key(name@) {
                let j = choose|j: int| 0 <= j < self.entries@.len() && self.entries@[j].0@ == name@;
                assert(self.entries@[j].0@ == name@);
            }
        }
        None
    }

    /// Turns left for `name`, if it has an entry.
    pub fn get(&self, name: &str) -> (r: Option<u32>)
        requires
            self.wf(),
        ensures
            r == (if self@.contains_key(name@) { Some(self@[name@]) } else { None::<u32> }),
    {
        match self.find(name) {
            Some(i) => {
                assert(self.entries@[i as int].0@ == name@);
                Some(self.entries[i].1)
            },
            None => None,
        }
    }

    /// Sets the cooldown of `name` to `turns`.
    pub fn insert(&mut self, name: String, turns: u32)
        requires
            old(self).wf(),
        ensures
            final(self).wf(),
            final(self)@ == old(self)@.insert(name@, turns),
    {
        let ghost key = name@;
        let ghost old_entries = self.entries@;
        match self.find(name.as_str()) {
            Some(i) => {
                self.entries.set(i, (name, turns));
                self.model = Ghost(self.model@.insert(key, turns));
                assert forall|k: Seq<char>| #[trigger] self.model@.contains_key(k) implies exists|j: int|
                    0 <= j < self.entries@.len() && #[trigger] self.entries@[j].0@ == k by {
                    if k != key {
                        let j = choose|j: int| 0 <= j < old_entries.len() && old_entries[j].0@ == k;
                        assert(self.entries@[j].0@ == k);
                    } else {
                        assert(self.entries@[i as int].0@ == k);
                    }
                }
            },
            None => {
                self.entries.push((name, turns));
                self.model = Ghost(self.model@.insert(key, turns));
                let ghost last = self.entries@.len() - 1;
                assert forall|k: Seq<char>| #[trigger] self.model@.contains_key(k) implies exists|j: int|
                    0 <= j < self.entries@.len() && #[trigger] self.entries@[j].0@ == k by {
                    if k != key {
                        let j = choose|j: int| 0 <= j < old_entries.len() && old_entries[j].0@ == k;
                        assert(self.entries@[j].0@ == k);
                    } else {
                        assert(self.entries@[last].0@ == k);
                    }
                }
                assert forall|a: int, b: int|
                    0 <= a < b < self.entries@.len() implies #[trigger] self.entries@[a].0@
                        != #[trigger] self.entries@[b].0@ by {
                    if b == last {
                        assert(old_entries[a] == self.entries@[a]);
                        assert(self.model@.contains_key(old_entries[a].0@));
                    }
                }
            },
        }
    }

    /// Lets one turn pass: every positive counter drops by one. Returns the names whose
    /// counter reached zero in this turn.
    pub fn tick(&mut self) -> (ready: Vec<String>)
        requires
            old(self).wf(),
        ensures
            final(self).wf(),
            turn_passed(old(self)@, final(self)@),
            forall|k: Seq<char>| texts(ready@).contains(k)
                <==> old(self)@.contains_key(k) && old(self)@[k] == 1,
            texts(ready@).no_duplicates(),
    {
        let ghost old_entries = self.entries@;
        let ghost old_model = self.model@;
        let mut ready: Vec<String> = Vec::new();
        let n: usize = self.entries.len();
        let mut i: usize = 0;
        while i < n
            invariant
                n == self.entries@.len(),
                n == old_entries.len(),
                0 <= i <= n,
                self.model@ == old_model,
                forall|j: int| #![trigger self.entries@[j]] 0 <= j < n ==> self.entries@[j].0 == old_entries[j].0,
                forall|j: int| #![trigger self.entries@[j]] 0 <= j < i ==> self.entries@[j].1 == ticked(old_entries[j].1),
                forall|j: int| #![trigger self.entries@[j]] i <= j < n ==> self.entries@[j].1 == old_entries[j].1,
                texts(ready@) == expiring(old_entries.take(i as int)),
            decreases n - i,
        {
            let t: u32 = self.entries[i].1;
            assert(old_entries.take(i + 1).drop_last() =~= old_entries.take(i as int));
            if t > 0 {
                let name = self.entries[i].0.clone();
                self.entries.set(i, (name, t - 1));
                if t == 1 {
                    let r = self.entries[i].0.clone();
                    ready.push(r);
                    assert(texts(ready@) =~= expiring(old_entries.take(i as int)).push(old_entries[i as int].0@));
                }
            }
            i = i + 1;
        }
        assert(old_entries.take(n as int) =~= old_entries);
        proof { lemma_expiring(old_entries); }
        self.model = Ghost(Map::new(|k: Seq<char>| old_model.contains_key(k), |k: Seq<char>| ticked(old_model[k])));
        assert(self.model@.dom() =~= old_model.dom());
        assert forall|k: Seq<char>| #[trigger] self.model@.contains_key(k) implies exists|j: int|
            0 <= j < self.entries@.len() && #[trigger] self.entries@[j].0@ == k by {
            let j = choose|j: int| 0 <= j < old_entries.len() && #[trigger] old_entries[j].0@ == k;
            assert(self.entries@[j].0@ == k);
        }
        assert forall|k: Seq<char>| old_model.contains_key(k) && old_model[k] == 1
            implies texts(ready@).contains(k) by {
            let j = choose|j: int| 0 <= j < old_entries.len() && #[trigger] old_entries[j].0@ == k;
        }
        assert forall|k: Seq<char>| texts(ready@).contains(k)
            implies old_model.contains_key(k) && old_model[k] == 1 by {
            let j = choose|j: int| 0 <= j < old_entries.len() && old_entries[j].0@ == k && old_entries[j].1 == 1;
        }
        ready
    }

    /// Removes every entry.
    pub fn clear(&mut self)
        ensures
            final(self).wf(),
            final(self)@ == Map::<Seq<char>, u32>::empty(),
    {
        self.entries = Vec::new();
        self.model = Ghost(Map::empty());
    }
}

} // verus!

use vstd::prelude::*;

verus! {

/// The map that a list of `(key, value)` assignments denotes: each key takes
/// the value of its last assignment.
pub open spec fn assignments_map<V>(entries: Seq<(String, V)>) -> Map<Seq<char>, V>
    decreases entries.len(),
{
    if entries.len() == 0 {
        Map::empty()
    } else {
        assignments_map(entries.drop_last()).insert(entries.last().0@, entries.last().1)
    }
}

/// `k` is assigned among the first `n` entries.
pub open spec fn assigned_in<V>(e: Seq<(String, V)>, n: int, k: Seq<char>) -> bool {
    exists|j: int| 0 <= j < n && #[trigger] e[j].0@ == k
}

/// `k` is the view of one of the strings in `ks`.
pub open spec fn listed(ks: Seq<String>, k: Seq<char>) -> bool {
    exists|a: int| 0 <= a < ks.len() && #[trigger] ks[a]@ == k
}

/// A map from strings to values: the last assignment of a key wins.
#[derive(Debug)]
pub struct StrMap<V> {
    entries: Vec<(String, V)>,
}

impl<V> View for StrMap<V> {
    type V = Map<Seq<char>, V>;

    closed spec fn view(&self) -> Map<Seq<char>, V> {
        assignments_map(self.entries@)
    }
}

/// Assignments after position `i` that do not touch `k` leave its entry as
/// it was after the first `i` assignments.
proof fn lemma_untouched_tail<V>(e: Seq<(String, V)>, i: int, k: Seq<char>)
    requires
        0 <= i <= e.len(),
        forall|j: int| i <= j < e.len() ==> #[trigger] e[j].0@ != k,
    ensures
        assignments_map(e).dom().contains(k) == assignments_map(e.take(i)).dom().contains(k),
        assignments_map(e).dom().contains(k) ==> assignments_map(e)[k] == assignments_map(
            e.take(i),
        )[k],
    decreases e.len() - i,
{
    if i < e.len() {
        lemma_untouched_tail(e.drop_last(), i, k);
        assert(e.drop_last().take(i) == e.take(i));
    } else {
        assert(e.take(i) == e);
    }
}

/// The keys of the map are exactly the assigned keys.
proof fn lemma_domain<V>(e: Seq<(String, V)>, k: Seq<char>)
    ensures
        assignments_map(e).dom().contains(k) <==> exists|j: int| 0 <= j < e.len() && #[trigger] e[j].0@ == k,
    decreases e.len(),
{
    if e.len() > 0 {
        lemma_domain(e.drop_last(), k);
        if assignments_map(e.drop_last()).dom().contains(k) {
            let j = choose|j: int| 0 <= j < e.drop_last().len() && #[trigger] e.drop_last()[j].0@ == k;
            assert(e[j].0@ == k);
        }
        if exists|j: int| 0 <= j < e.len() && #[trigger] e[j].0@ == k {
            let j = choose|j: int| 0 <= j < e.len() && #[trigger] e[j].0@ == k;
            if j < e.len() - 1 {
                assert(e.drop_last()[j].0@ == k);
            }
        }
    }
}

impl<V> StrMap<V> {
    /// An empty map.
    pub fn new() -> (m: StrMap<V>)
        ensures
            m@ == Map::<Seq<char>, V>::empty(),
    {
        StrMap { entries: Vec::new() }
    }

    /// Assigns `value` to `key`, replacing any earlier value.
    pub fn insert(&mut self, key: String, value: V)
        ensures
            final(self)@ == old(self)@.insert(key@, value),
    {
        self.entries.push((key, value));
        assert(self.entries@.drop_last() == old(self).entries@);
    }

    /// The value of `key`, if it has one.
    pub fn get(&self, key: &str) -> (res: Option<&V>)
        ensures
            res is Some <==> self@.dom().contains(key@),
            res matches Some(v) ==> *v == self@[key@],
    {
        let k = key.to_owned();
        let mut i = self.entries.len();
        while i > 0
            invariant
                i <= self.entries.len(),
                k@ == key@,
                forall|j: int| i <= j < self.entries@.len() ==> #[trigger] self.entries@[j].0@ != key@,
            decreases i,
        {
            if self.entries[i - 1].0 == k {
                proof {
                    let e = self.entries@;
                    lemma_untouched_tail(e, i as int, key@);
                    assert(e.take(i as int).drop_last() == e.take(i - 1));
                }
                return Some(&self.entries[i - 1].1);
            }
            i = i - 1;
        }
        proof {
            lemma_untouched_tail(self.entries@, 0, key@);
        }
        None
    }

    /// Whether `key` has a value.
    pub fn contains_key(&self, key: &str) -> (res: bool)
        ensures
            res == self@.dom().contains(key@),
    {
        self.get(key).is_some()
    }

    /// The distinct keys, each once, in first-assignment order.
    pub fn keys(&self) -> (ks: Vec<String>)
        ensures
            forall|i: int, j: int| 0 <= i < j < ks@.len() ==> ks@[i]@ != ks@[j]@,
            forall|k: Seq<char>| #[trigger] self@.dom().contains(k) <==> listed(ks@, k),
    {
        let mut ks: Vec<String> = Vec::new();
        let mut i: usize = 0;
        while i < self.entries.len()
            invariant
                i <= self.entries.len(),
                forall|a: int, b: int| 0 <= a < b < ks@.len() ==> ks@[a]@ != ks@[b]@,
                forall|k: Seq<char>| #[trigger] assigned_in(self.entries@, i as int, k) <==> listed(ks@, k),
            decreases self.entries.len() - i,
        {
            let mut seen = false;
            let mut a: usize = 0;
            while a < ks.len()
                invariant
                    a <= ks.len(),
                    i < self.entries.len(),
                    seen <==> exists|b: int| 0 <= b < a && #[trigger] ks@[b]@ == self.entries@[i as int].0@,
                decreases ks.len() - a,
            {
                if ks[a] == self.entries[i].0 {
                    seen = true;
                }
                a = a + 1;
            }
            let ghost before = ks@;
            if !seen {
                ks.push(self.entries[i].0.clone());
            }
            proof {
                assert forall|k: Seq<char>| #[trigger] assigned_in(self.entries@, i + 1, k) <==> listed(ks@, k) by {
                    if assigned_in(self.entries@, i + 1, k) {
                        let j = choose|j: int| 0 <= j < i + 1 && #[trigger] self.entries@[j].0@ == k;
                        if j < i {
                            assert(assigned_in(self.entries@, i as int, k));
                            let a = choose|a: int| 0 <= a < before.len() && #[trigger] before[a]@ == k;
                            assert(ks@[a]@ == k);
                        } else if seen {
                            let a = choose|a: int| 0 <= a < before.len() && #[trigger] before[a]@ == k;
                            assert(ks@[a]@ == k);
                        } else {
                            assert(ks@[before.len() as int]@ == k);
                        }
                    }
                    if listed(ks@, k) {
                        let a = choose|a: int| 0 <= a < ks@.len() && #[trigger] ks@[a]@ == k;
                        if a < before.len() {
                            assert(before[a]@ == k);
                            assert(listed(before, k));
                            assert(assigned_in(self.entries@, i as int, k));
                            let j = choose|j: int| 0 <= j < i && #[trigger] self.entries@[j].0@ == k;
                            assert(self.entries@[j].0@ == k);
                        } else {
                            assert(self.entries@[i as int].0@ == k);
                        }
                    }
                }
            }
            i = i + 1;
        }
        proof {
            assert forall|k: Seq<char>| #[trigger] self@.dom().contains(k) <==> listed(ks@, k) by {
                lemma_domain(self.entries@, k);
                assert(assigned_in(self.entries@, self.entries@.len() as int, k) <==> exists|j: int| 0 <= j < self.entries@.len() && #[trigger] self.entries@[j].0@ == k);
            }
        }
        ks
    }
}

} // verus!

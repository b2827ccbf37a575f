use vstd::prelude::*;

use crate::order::{lemma_lt_asym, lemma_lt_total, lemma_lt_trans, seq_lt, str_less, strictly_sorted};

verus! {

/// The calendar day of an RFC 3339 timestamp, counted in days from the
/// common era (1 January of year 1 is day 1) in the timestamp's own offset;
/// `None` when the text is not an RFC 3339 timestamp.
pub uninterp spec fn rfc3339_day(ts: Seq<char>) -> Option<i64>;

/// The calendar day of an RFC 3339 timestamp.
///
/// Trusted: `chrono::DateTime::parse_from_rfc3339` parses `ts`; on success
/// the date in the parsed offset (`date_naive`) is counted with
/// `Datelike::num_days_from_ce`. The result is named `rfc3339_day`; nothing
/// more is stated of it.
#[verifier::external_body]
fn parse_rfc3339_day(ts: &str) -> (day: Option<i64>)
    ensures
        day == rfc3339_day(ts@),
{
    match chrono::DateTime::parse_from_rfc3339(ts) {
        Ok(dt) => Some(i64::from(chrono::Datelike::num_days_from_ce(&dt.date_naive()))),
        Err(_) => None,
    }
}

/// The days of the timestamps, in order.
pub open spec fn days_of(fetched_at: Seq<String>) -> Seq<Option<i64>> {
    fetched_at.map_values(|s: String| rfc3339_day(s@))
}

/// The calendar day of each snapshot's `fetched_at` timestamp (`None` for
/// one that does not parse).
pub fn snapshot_days(fetched_at: &Vec<String>) -> (days: Vec<Option<i64>>)
    ensures
        days@ == days_of(fetched_at@),
{
    let mut days: Vec<Option<i64>> = Vec::new();
    let mut i: usize = 0;
    while i < fetched_at.len()
        invariant
            i <= fetched_at.len(),
            days@ == days_of(fetched_at@).take(i as int),
        decreases fetched_at.len() - i,
    {
        let d = parse_rfc3339_day(fetched_at[i].as_str());
        days.push(d);
        assert(days_of(fetched_at@).take(i + 1) == days_of(fetched_at@).take(i as int).push(d));
        i = i + 1;
    }
    assert(days_of(fetched_at@).take(fetched_at.len() as int) == days_of(fetched_at@));
    days
}

/// The snapshots grouped by calendar day, as an ordered map from day to
/// snapshots would hold them: the days that some timestamp falls on, each
/// once, in ascending order, each with the positions of its snapshots in
/// order. Snapshots whose timestamp does not parse are left out.
pub fn day_groups(fetched_at: &Vec<String>) -> (groups: Vec<(i64, Vec<usize>)>)
    ensures
        forall|a: int, b: int| 0 <= a < b < groups@.len() ==> #[trigger] groups@[a].0 < #[trigger] groups@[b].0,
        forall|d: i64| (exists|g: int| 0 <= g < groups@.len() && #[trigger] groups@[g].0 == d)
            <==> days_of(fetched_at@).contains(Some(d)),
        forall|g: int| 0 <= g < groups@.len() ==> #[trigger] groups@[g].1@ == positions_of(
            days_of(fetched_at@),
            Some(groups@[g].0),
        ),
{
    let days = snapshot_days(fetched_at);
    let mut known: Vec<i64> = Vec::new();
    let mut i: usize = 0;
    while i < days.len()
        invariant
            i <= days.len(),
            forall|d: i64| #[trigger] known@.contains(d) <==> days@.take(i as int).contains(Some(d)),
        decreases days.len() - i,
    {
        let ghost before = known@;
        assert(days@.take(i + 1) == days@.take(i as int).push(days@[i as int]));
        if let Some(d) = days[i] {
            known.push(d);
            assert forall|x: i64| #[trigger] known@.contains(x) <==> days@.take(i + 1).contains(Some(x)) by {
                if known@.contains(x) && x != d {
                    let k = choose|k: int| 0 <= k < known@.len() && #[trigger] known@[k] == x;
                    assert(before[k] == x);
                    assert(before.contains(x));
                    let q = choose|q: int| 0 <= q < days@.take(i as int).len() && #[trigger] days@.take(i as int)[q] == Some(x);
                    assert(days@.take(i + 1)[q] == Some(x));
                }
                if known@.contains(x) && x == d {
                    assert(days@.take(i + 1)[i as int] == Some(x));
                }
                if days@.take(i + 1).contains(Some(x)) {
                    let q = choose|q: int| 0 <= q < days@.take(i + 1).len() && #[trigger] days@.take(i + 1)[q] == Some(x);
                    if q < i {
                        assert(days@.take(i as int)[q] == Some(x));
                        assert(before.contains(x));
                        let k = choose|k: int| 0 <= k < before.len() && #[trigger] before[k] == x;
                        assert(known@[k] == x);
                    } else {
                        assert(known@[before.len() as int] == x);
                    }
                }
            }
        } else {
            assert forall|x: i64| #[trigger] known@.contains(x) <==> days@.take(i + 1).contains(Some(x)) by {
                if known@.contains(x) {
                    let q = choose|q: int| 0 <= q < days@.take(i as int).len() && #[trigger] days@.take(i as int)[q] == Some(x);
                    assert(days@.take(i + 1)[q] == Some(x));
                }
                if days@.take(i + 1).contains(Some(x)) {
                    let q = choose|q: int| 0 <= q < days@.take(i + 1).len() && #[trigger] days@.take(i + 1)[q] == Some(x);
                    assert(q < i);
                    assert(days@.take(i as int)[q] == Some(x));
                }
            }
        }
        i = i + 1;
    }
    assert(days@.take(days.len() as int) == days@);
    let keys = distinct_days(&known);
    let mut groups: Vec<(i64, Vec<usize>)> = Vec::new();
    let mut g: usize = 0;
    while g < keys.len()
        invariant
            g <= keys.len(),
            days@ == days_of(fetched_at@),
            increasing(keys@),
            groups@.len() == g,
            forall|k: int| 0 <= k < g ==> (#[trigger] groups@[k]).0 == keys@[k],
            forall|k: int| 0 <= k < g ==> (#[trigger] groups@[k]).1@ == positions_of(days@, Some(keys@[k])),
        decreases keys.len() - g,
    {
        let d = keys[g];
        let members = indices_of_known_day(&days, d);
        groups.push((d, members));
        g = g + 1;
    }
    assert forall|d: i64| (exists|k: int| 0 <= k < groups@.len() && #[trigger] groups@[k].0 == d)
        <==> days_of(fetched_at@).contains(Some(d)) by {
        if exists|k: int| 0 <= k < groups@.len() && #[trigger] groups@[k].0 == d {
            let k = choose|k: int| 0 <= k < groups@.len() && #[trigger] groups@[k].0 == d;
            assert(keys@[k] == d);
            assert(keys@.contains(d));
            assert(known@.contains(d));
        }
        if days_of(fetched_at@).contains(Some(d)) {
            assert(known@.contains(d));
            assert(keys@.contains(d));
            let k = choose|k: int| 0 <= k < keys@.len() && #[trigger] keys@[k] == d;
            assert(groups@[k].0 == d);
        }
    }
    groups
}

/// The positions of the snapshots that fall on `day`, in order.
fn indices_of_known_day(days: &Vec<Option<i64>>, day: i64) -> (ix: Vec<usize>)
    ensures
        ix@ == positions_of(days@, Some(day)),
{
    let mut ix: Vec<usize> = Vec::new();
    let mut i: usize = 0;
    while i < days.len()
        invariant
            i <= days.len(),
            ix@ == positions_of(days@.take(i as int), Some(day)),
        decreases days.len() - i,
    {
        assert(days@.take(i + 1).drop_last() == days@.take(i as int));
        if days[i] == Some(day) {
            ix.push(i);
        }
        i = i + 1;
    }
    assert(days@.take(days.len() as int) == days@);
    ix
}

/// The positions, in increasing order, at which `x` occurs in `s`.
pub open spec fn positions_of<T>(s: Seq<T>, x: T) -> Seq<usize>
    decreases s.len(),
{
    if s.len() == 0 {
        Seq::empty()
    } else if s.last() == x {
        positions_of(s.drop_last(), x).push((s.len() - 1) as usize)
    } else {
        positions_of(s.drop_last(), x)
    }
}

/// `s` is strictly increasing.
pub open spec fn increasing(s: Seq<i64>) -> bool {
    forall|a: int, b: int| 0 <= a < b < s.len() ==> #[trigger] s[a] < #[trigger] s[b]
}

/// The days that occur among the snapshots' days, each once, in ascending
/// order (as the keys of an ordered map from day to snapshots).
pub fn distinct_days(days: &Vec<i64>) -> (keys: Vec<i64>)
    ensures
        increasing(keys@),
        forall|d: i64| #[trigger] keys@.contains(d) <==> days@.contains(d),
{
    let mut keys: Vec<i64> = Vec::new();
    let mut i: usize = 0;
    while i < days.len()
        invariant
            i <= days.len(),
            increasing(keys@),
            forall|d: i64| #[trigger] keys@.contains(d) <==> days@.take(i as int).contains(d),
        decreases days.len() - i,
    {
        let d = days[i];
        let ghost before = keys@;
        let mut p: usize = 0;
        while p < keys.len() && keys[p] < d
            invariant
                p <= keys.len(),
                keys@ == before,
                forall|q: int| 0 <= q < p ==> #[trigger] keys@[q] < d,
            decreases keys.len() - p,
        {
            p = p + 1;
        }
        assert(days@.take(i + 1) == days@.take(i as int).push(d));
        if p < keys.len() && keys[p] == d {
            assert(keys@[p as int] == d);
            assert forall|x: i64| #[trigger] keys@.contains(x) <==> days@.take(i + 1).contains(x) by {
                if days@.take(i + 1).contains(x) {
                    let k = choose|k: int| 0 <= k < days@.take(i + 1).len() && #[trigger] days@.take(i + 1)[k] == x;
                    if k < i {
                        assert(days@.take(i as int)[k] == x);
                    }
                }
                if keys@.contains(x) {
                    assert(days@.take(i as int).contains(x));
                    let k = choose|k: int| 0 <= k < days@.take(i as int).len() && #[trigger] days@.take(i as int)[k] == x;
                    assert(days@.take(i + 1)[k] == x);
                }
            }
        } else {
            keys.insert(p, d);
            assert forall|a: int, b: int| 0 <= a < b < keys@.len() implies #[trigger] keys@[a] < #[trigger] keys@[b] by {
                if b < p {
                    assert(keys@[a] == before[a] && keys@[b] == before[b]);
                } else if b == p {
                    assert(keys@[a] == before[a]);
                } else if a == p {
                    assert(keys@[b] == before[b - 1]);
                    assert(before[p as int] >= d);
                    if b - 1 > p {
                        assert(before[p as int] < before[b - 1]);
                    }
                } else if a < p {
                    assert(keys@[a] == before[a] && keys@[b] == before[b - 1]);
                } else {
                    assert(keys@[a] == before[a - 1] && keys@[b] == before[b - 1]);
                }
            }
            assert forall|x: i64| #[trigger] keys@.contains(x) <==> days@.take(i + 1).contains(x) by {
                if keys@.contains(x) {
                    let k = choose|k: int| 0 <= k < keys@.len() && #[trigger] keys@[k] == x;
                    if k < p {
                        assert(before[k] == x);
                        assert(before.contains(x));
                    } else if k > p {
                        assert(before[k - 1] == x);
                        assert(before.contains(x));
                    } else {
                        assert(days@.take(i + 1)[i as int] == x);
                    }
                    if x != d {
                        let k2 = choose|k2: int| 0 <= k2 < days@.take(i as int).len() && #[trigger] days@.take(i as int)[k2] == x;
                        assert(days@.take(i + 1)[k2] == x);
                    }
                }
                if days@.take(i + 1).contains(x) {
                    let k = choose|k: int| 0 <= k < days@.take(i + 1).len() && #[trigger] days@.take(i + 1)[k] == x;
                    if k < i {
                        assert(days@.take(i as int)[k] == x);
                        assert(before.contains(x));
                        let q = choose|q: int| 0 <= q < before.len() && #[trigger] before[q] == x;
                        if q < p {
                            assert(keys@[q] == x);
                        } else {
                            assert(keys@[q + 1] == x);
                        }
                    } else {
                        assert(keys@[p as int] == x);
                    }
                }
            }
        }
        i = i + 1;
    }
    assert(days@.take(days.len() as int) == days@);
    keys
}

/// The text views of a list of strings.
pub open spec fn texts(v: Seq<String>) -> Seq<Seq<char>> {
    v.map_values(|s: String| s@)
}

/// The window keys that occur among `keys`, each once, in ascending order
/// (as the keys of an ordered map from window key to entries).
pub fn distinct_keys(keys: &Vec<String>) -> (out: Vec<String>)
    ensures
        strictly_sorted(texts(out@)),
        forall|k: Seq<char>| #[trigger] texts(out@).contains(k) <==> texts(keys@).contains(k),
{
    let mut out: Vec<String> = Vec::new();
    let mut i: usize = 0;
    while i < keys.len()
        invariant
            i <= keys.len(),
            strictly_sorted(texts(out@)),
            forall|k: Seq<char>| #[trigger] texts(out@).contains(k) <==> texts(keys@).take(i as int).contains(k),
        decreases keys.len() - i,
    {
        let ghost before = texts(out@);
        let k = keys[i].clone();
        let mut p: usize = 0;
        while p < out.len() && str_less(out[p].as_str(), k.as_str())
            invariant
                p <= out.len(),
                texts(out@) == before,
                forall|q: int| 0 <= q < p ==> seq_lt(#[trigger] before[q], k@),
            decreases out.len() - p,
        {
            p = p + 1;
        }
        let ghost tk = texts(keys@);
        assert(tk.take(i + 1) == tk.take(i as int).push(k@));
        let equal = p < out.len() && !str_less(k.as_str(), out[p].as_str());
        if equal {
            proof {
                assert(!seq_lt(before[p as int], k@));
                assert(!seq_lt(k@, before[p as int]));
                if before[p as int] != k@ {
                    lemma_lt_total(before[p as int], k@);
                }
                assert(before[p as int] == k@);
                assert forall|x: Seq<char>| #[trigger] texts(out@).contains(x) <==> tk.take(i + 1).contains(x) by {
                    if tk.take(i + 1).contains(x) {
                        let q = choose|q: int| 0 <= q < tk.take(i + 1).len() && #[trigger] tk.take(i + 1)[q] == x;
                        if q < i {
                            assert(tk.take(i as int)[q] == x);
                        } else {
                            assert(before[p as int] == x);
                        }
                    }
                    if texts(out@).contains(x) {
                        let q = choose|q: int| 0 <= q < tk.take(i as int).len() && #[trigger] tk.take(i as int)[q] == x;
                        assert(tk.take(i + 1)[q] == x);
                    }
                }
            }
        } else {
            proof {
                if p < out.len() {
                    assert(seq_lt(k@, before[p as int]));
                }
            }
            out.insert(p, k);
            proof {
                let nv = texts(out@);
                assert(nv.len() == before.len() + 1);
                assert forall|a: int| 0 <= a < nv.len() implies #[trigger] nv[a] == (if a < p {
                    before[a]
                } else if a == p {
                    k@
                } else {
                    before[a - 1]
                }) by {}
                assert forall|x: int, y: int| 0 <= x < y < nv.len() implies seq_lt(#[trigger] nv[x], #[trigger] nv[y]) by {
                    if y < p {
                    } else if y == p {
                    } else if x == p {
                        if y - 1 > p {
                            lemma_lt_trans(k@, before[p as int], before[y - 1]);
                        }
                    } else if x < p {
                        if y - 1 == p {
                        } else {
                            lemma_lt_trans(before[x], before[p as int], before[y - 1]);
                            assert(seq_lt(before[x], before[y - 1]));
                        }
                    } else {
                    }
                }
                assert forall|x: Seq<char>| #[trigger] nv.contains(x) <==> tk.take(i + 1).contains(x) by {
                    if nv.contains(x) {
                        let q = choose|q: int| 0 <= q < nv.len() && #[trigger] nv[q] == x;
                        if q < p {
                            assert(before.contains(x));
                        } else if q > p {
                            assert(before[q - 1] == x);
                            assert(before.contains(x));
                        } else {
                            assert(tk.take(i + 1)[i as int] == x);
                        }
                        if before.contains(x) {
                            let q2 = choose|q2: int| 0 <= q2 < tk.take(i as int).len() && #[trigger] tk.take(i as int)[q2] == x;
                            assert(tk.take(i + 1)[q2] == x);
                        }
                    }
                    if tk.take(i + 1).contains(x) {
                        let q = choose|q: int| 0 <= q < tk.take(i + 1).len() && #[trigger] tk.take(i + 1)[q] == x;
                        if q < i {
                            assert(tk.take(i as int)[q] == x);
                            assert(before.contains(x));
                            let r = choose|r: int| 0 <= r < before.len() && #[trigger] before[r] == x;
                            if r < p {
                                assert(nv[r] == x);
                            } else {
                                assert(nv[r + 1] == x);
                            }
                        } else {
                            assert(nv[p as int] == x);
                        }
                    }
                }
            }
        }
        i = i + 1;
    }
    assert(texts(keys@).take(keys.len() as int) == texts(keys@));
    out
}

/// The positions of the entries whose window key is `key`, in order.
pub fn indices_with_key(keys: &Vec<String>, key: &str) -> (ix: Vec<usize>)
    ensures
        ix@ == positions_of(texts(keys@), key@),
{
    let ghost tk = texts(keys@);
    let mut ix: Vec<usize> = Vec::new();
    let mut i: usize = 0;
    while i < keys.len()
        invariant
            i <= keys.len(),
            tk == texts(keys@),
            ix@ == positions_of(tk.take(i as int), key@),
        decreases keys.len() - i,
    {
        assert(tk.take(i + 1).drop_last() == tk.take(i as int));
        let same = !str_less(keys[i].as_str(), key) && !str_less(key, keys[i].as_str());
        proof {
            if keys@[i as int]@ != key@ {
                lemma_lt_total(keys@[i as int]@, key@);
            }
            if keys@[i as int]@ == key@ {
                if seq_lt(key@, key@) {
                    lemma_lt_asym(key@, key@);
                }
            }
        }
        if same {
            ix.push(i);
        }
        i = i + 1;
    }
    assert(tk.take(keys.len() as int) == tk);
    ix
}

} // verus!

use vstd::prelude::*;

use crate::order::{lemma_lt_total, lemma_lt_trans, seq_lt, str_less, strictly_sorted};
use crate::strmap::{listed, StrMap};
use crate::text::push_str;

verus! {

/// Connection settings of one named account.
#[derive(Debug)]
pub struct AccountConfig {
    pub api_key_env: Option<String>,
    pub api_base: Option<String>,
}

/// The text views of an optional string.
pub open spec fn opt_text(s: Option<String>) -> Option<Seq<char>> {
    match s {
        Some(t) => Some(t@),
        None => None,
    }
}

impl AccountConfig {
    /// The account's settings as text.
    pub open spec fn text(&self) -> (Option<Seq<char>>, Option<Seq<char>>) {
        (opt_text(self.api_key_env), opt_text(self.api_base))
    }

    /// A copy with the same settings.
    pub fn duplicate(&self) -> (c: AccountConfig)
        ensures
            c.text() == self.text(),
    {
        AccountConfig {
            api_key_env: match &self.api_key_env {
                Some(s) => Some(s.clone()),
                None => None,
            },
            api_base: match &self.api_base {
                Some(s) => Some(s.clone()),
                None => None,
            },
        }
    }
}

/// The accounts file: named accounts.
#[derive(Debug)]
pub struct AccountsConfig {
    pub accounts: StrMap<AccountConfig>,
}

/// The message for an account name that is not configured.
pub open spec fn unknown_account_text(name: Seq<char>) -> Seq<char> {
    "account '"@ + name + "' not found in accounts file"@
}

impl AccountsConfig {
    /// No accounts.
    pub fn new() -> (c: AccountsConfig)
        ensures
            c.accounts@ == Map::<Seq<char>, AccountConfig>::empty(),
    {
        AccountsConfig { accounts: StrMap::new() }
    }

    /// The settings of account `name`; an error naming it when it is not configured.
    pub fn resolve(&self, name: &str) -> (res: Result<AccountConfig, String>)
        ensures
            res is Ok <==> self.accounts@.dom().contains(name@),
            res matches Ok(a) ==> a.text() == self.accounts@[name@].text(),
            res matches Err(e) ==> e@ == unknown_account_text(name@),
    {
        match self.accounts.get(name) {
            Some(a) => Ok(a.duplicate()),
            None => {
                let mut e = String::new();
                push_str(&mut e, "account '");
                push_str(&mut e, name);
                push_str(&mut e, "' not found in accounts file");
                Err(e)
            },
        }
    }

    /// The account names, each once, in ascending order.
    pub fn list_names(&self) -> (names: Vec<String>)
        ensures
            strictly_sorted(names@.map_values(|s: String| s@)),
            forall|k: Seq<char>| #[trigger] self.accounts@.dom().contains(k) <==> listed(names@, k),
    {
        let keys = self.accounts.keys();
        let mut names: Vec<String> = Vec::new();
        let mut i: usize = 0;
        while i < keys.len()
            invariant
                i <= keys.len(),
                forall|a: int, b: int| 0 <= a < b < keys@.len() ==> keys@[a]@ != keys@[b]@,
                forall|k: Seq<char>| #[trigger] self.accounts@.dom().contains(k) <==> listed(keys@, k),
                strictly_sorted(names@.map_values(|s: String| s@)),
                forall|k: Seq<char>| #[trigger] listed(names@, k) <==> listed(keys@.take(i as int), k),
            decreases keys.len() - i,
        {
            let ghost before = names@;
            let ghost bv = before.map_values(|s: String| s@);
            let k = keys[i].clone();
            let mut p: usize = 0;
            while p < names.len() && str_less(names[p].as_str(), k.as_str())
                invariant
                    p <= names.len(),
                    names@ == before,
                    forall|q: int| 0 <= q < p ==> seq_lt(#[trigger] names@[q]@, k@),
                decreases names.len() - p,
            {
                p = p + 1;
            }
            proof {
                assert(!listed(keys@.take(i as int), k@)) by {
                    if listed(keys@.take(i as int), k@) {
                        let a = choose|a: int| 0 <= a < keys@.take(i as int).len() && #[trigger] keys@.take(i as int)[a]@ == k@;
                        assert(keys@[a]@ == keys@[i as int]@);
                    }
                }
                if p < names@.len() {
                    assert(names@[p as int]@ != k@) by {
                        if names@[p as int]@ == k@ {
                            assert(listed(names@, k@));
                        }
                    }
                    lemma_lt_total(names@[p as int]@, k@);
                }
            }
            names.insert(p, k);
            proof {
                let nv = names@.map_values(|s: String| s@);
                assert forall|x: int, y: int| 0 <= x < y < nv.len() implies seq_lt(#[trigger] nv[x], #[trigger] nv[y]) by {
                    if y < p {
                        assert(nv[x] == bv[x] && nv[y] == bv[y]);
                    } else if y == p {
                        assert(nv[x] == before[x]@);
                    } else if x == p {
                        assert(nv[y] == bv[y - 1]);
                        if y - 1 > p {
                            assert(seq_lt(bv[p as int], bv[y - 1]));
                            lemma_lt_trans(k@, bv[p as int], bv[y - 1]);
                        }
                    } else if x < p {
                        assert(nv[x] == bv[x] && nv[y] == bv[y - 1]);
                        assert(seq_lt(before[x]@, k@));
                        if y - 1 >= p {
                            if y - 1 > p {
                                assert(seq_lt(bv[p as int], bv[y - 1]));
                                lemma_lt_trans(k@, bv[p as int], bv[y - 1]);
                            }
                            lemma_lt_trans(bv[x], k@, bv[y - 1]);
                        }
                    } else {
                        assert(nv[x] == bv[x - 1] && nv[y] == bv[y - 1]);
                    }
                }
                assert forall|z: Seq<char>| #[trigger] listed(names@, z) <==> listed(keys@.take(i + 1), z) by {
                    if listed(names@, z) {
                        let a = choose|a: int| 0 <= a < names@.len() && #[trigger] names@[a]@ == z;
                        if a < p {
                            assert(before[a]@ == z);
                            assert(listed(before, z));
                        } else if a == p {
                            assert(keys@.take(i + 1)[i as int]@ == z);
                        } else {
                            assert(before[a - 1]@ == z);
                            assert(listed(before, z));
                        }
                        if a != p {
                            let b = choose|b: int| 0 <= b < keys@.take(i as int).len() && #[trigger] keys@.take(i as int)[b]@ == z;
                            assert(keys@.take(i + 1)[b]@ == z);
                        }
                    }
                    if listed(keys@.take(i + 1), z) {
                        let b = choose|b: int| 0 <= b < keys@.take(i + 1).len() && #[trigger] keys@.take(i + 1)[b]@ == z;
                        if b == i {
                            assert(names@[p as int]@ == z);
                        } else {
                            assert(keys@.take(i as int)[b]@ == z);
                            assert(listed(keys@.take(i as int), z));
                            assert(listed(before, z));
                            let a = choose|a: int| 0 <= a < before.len() && #[trigger] before[a]@ == z;
                            if a < p {
                                assert(names@[a]@ == z);
                            } else {
                                assert(names@[a + 1]@ == z);
                            }
                        }
                    }
                }
            }
            i = i + 1;
        }
        assert(keys@.take(keys@.len() as int) == keys@);
        names
    }
}

} // verus!

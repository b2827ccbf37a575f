use vstd::prelude::*;

use crate::accounts::{opt_text, AccountConfig};
use crate::dotenv::EnvMap;
use crate::router::DEFAULT_API_BASE;
use crate::strmap::StrMap;
use crate::text::{chars_of, matches_at, push_str, seq_starts_with, string_of};

verus! {

/// Default name of the local agent-status binary.
pub const DEFAULT_ABTOP_BIN: &'static str = "abtop";

/// The keys consulted, in order, for a configuration key: the API key and
/// API base each have three spellings (the current one first, the old
/// `NEUROGATE_` one last); any other key stands alone.
pub open spec fn key_aliases(key: Seq<char>) -> Seq<Seq<char>> {
    if key == "NEUROGATE_API_KEY"@ || key == "VIBEMODE_API_KEY"@ || key == "VIBEMOD_API_KEY"@ {
        seq!["VIBEMODE_API_KEY"@, "VIBEMOD_API_KEY"@, "NEUROGATE_API_KEY"@]
    } else if key == "NEUROGATE_API_BASE"@ || key == "VIBEMODE_API_BASE"@ || key
        == "VIBEMOD_API_BASE"@ {
        seq!["VIBEMODE_API_BASE"@, "VIBEMOD_API_BASE"@, "NEUROGATE_API_BASE"@]
    } else {
        seq![key]
    }
}

/// The text of `k` in `m` when it is present and not empty.
pub open spec fn nonempty_value(m: Map<Seq<char>, String>, k: Seq<char>) -> Option<Seq<char>> {
    if m.dom().contains(k) && m[k]@.len() > 0 {
        Some(m[k]@)
    } else {
        None
    }
}

/// The first of `keys` with a non-empty value, the environment winning over
/// the `.env` file for each key; with the key that supplied it.
pub open spec fn lookup_keys(
    keys: Seq<Seq<char>>,
    env: Map<Seq<char>, String>,
    dotenv: Map<Seq<char>, String>,
) -> Option<(Seq<char>, Seq<char>)>
    decreases keys.len(),
{
    if keys.len() == 0 {
        None
    } else {
        match nonempty_value(env, keys[0]) {
            Some(v) => Some((keys[0], v)),
            None => match nonempty_value(dotenv, keys[0]) {
                Some(v) => Some((keys[0], v)),
                None => lookup_keys(keys.drop_first(), env, dotenv),
            },
        }
    }
}

/// Where a configuration value was found.
#[derive(Debug)]
pub struct ConfigHit {
    /// The spelling of the key that supplied the value.
    pub key: String,
    /// The value.
    pub value: String,
}

/// The keys to consult for `key`, in order.
pub fn config_key_aliases(key: &str) -> (keys: Vec<String>)
    ensures
        keys@.map_values(|s: String| s@) == key_aliases(key@),
{
    let k = key.to_owned();
    let mut keys: Vec<String> = Vec::new();
    if k == "NEUROGATE_API_KEY".to_owned() || k == "VIBEMODE_API_KEY".to_owned() || k
        == "VIBEMOD_API_KEY".to_owned() {
        keys.push("VIBEMODE_API_KEY".to_owned());
        keys.push("VIBEMOD_API_KEY".to_owned());
        keys.push("NEUROGATE_API_KEY".to_owned());
    } else if k == "NEUROGATE_API_BASE".to_owned() || k == "VIBEMODE_API_BASE".to_owned() || k
        == "VIBEMOD_API_BASE".to_owned() {
        keys.push("VIBEMODE_API_BASE".to_owned());
        keys.push("VIBEMOD_API_BASE".to_owned());
        keys.push("NEUROGATE_API_BASE".to_owned());
    } else {
        keys.push(k);
    }
    assert(keys@.map_values(|s: String| s@) =~= key_aliases(key@));
    keys
}

/// The value of `key` in `m` when present and not empty.
fn nonempty_get(m: &EnvMap, key: &str) -> (res: Option<String>)
    ensures
        res matches Some(v) ==> nonempty_value(m@, key@) == Some(v@),
        res is None ==> nonempty_value(m@, key@) is None,
{
    match m.get(key) {
        Some(v) => {
            if v.as_str().is_empty() {
                None
            } else {
                Some(v.clone())
            }
        },
        None => None,
    }
}

/// Looks `key` up under each of its spellings, in order, first in the
/// environment and then in the `.env` values; empty values do not count.
pub fn lookup_config(key: &str, env: &EnvMap, dotenv: &EnvMap) -> (hit: Option<ConfigHit>)
    ensures
        hit is Some <==> lookup_keys(key_aliases(key@), env@, dotenv@) is Some,
        hit matches Some(h) ==> lookup_keys(key_aliases(key@), env@, dotenv@) == Some(
            (h.key@, h.value@),
        ),
{
    let keys = config_key_aliases(key);
    let ghost ks = keys@.map_values(|s: String| s@);
    let mut i: usize = 0;
    assert(ks.skip(0) == ks);
    while i < keys.len()
        invariant
            i <= keys.len(),
            ks == keys@.map_values(|s: String| s@),
            ks == key_aliases(key@),
            lookup_keys(ks, env@, dotenv@) == lookup_keys(ks.skip(i as int), env@, dotenv@),
        decreases keys.len() - i,
    {
        let ghost rest = ks.skip(i as int);
        assert(rest[0] == keys@[i as int]@);
        assert(rest.drop_first() == ks.skip(i + 1));
        if let Some(v) = nonempty_get(env, keys[i].as_str()) {
            return Some(ConfigHit { key: keys[i].clone(), value: v });
        }
        if let Some(v) = nonempty_get(dotenv, keys[i].as_str()) {
            return Some(ConfigHit { key: keys[i].clone(), value: v });
        }
        i = i + 1;
    }
    None
}

/// The value for `key` (see `lookup_config`).
pub fn config_value(key: &str, env: &EnvMap, dotenv: &EnvMap) -> (res: Option<String>)
    ensures
        res is Some <==> lookup_keys(key_aliases(key@), env@, dotenv@) is Some,
        res matches Some(v) ==> lookup_keys(key_aliases(key@), env@, dotenv@)->Some_0.1 == v@,
{
    match lookup_config(key, env, dotenv) {
        Some(h) => Some(h.value),
        None => None,
    }
}

/// The part of a key after the deprecated `NEUROGATE_` prefix.
pub open spec fn deprecated_suffix_of(key: Seq<char>) -> Option<Seq<char>> {
    if seq_starts_with(key, "NEUROGATE_"@) {
        Some(key.skip("NEUROGATE_"@.len() as int))
    } else {
        None
    }
}

/// For a deprecated `NEUROGATE_…` key, the part after the prefix.
pub fn deprecated_suffix(key: &str) -> (res: Option<String>)
    ensures
        res is Some <==> deprecated_suffix_of(key@) is Some,
        res matches Some(s) ==> deprecated_suffix_of(key@) == Some(s@),
{
    let v = chars_of(key);
    let prefix = chars_of("NEUROGATE_");
    if matches_at(&v, &prefix, 0) {
        assert(v@.subrange(0, prefix@.len() as int) == v@.take(prefix@.len() as int));
        assert(v@.subrange(prefix@.len() as int, v@.len() as int) == v@.skip(
            prefix@.len() as int,
        ));
        Some(string_of(&v, prefix.len(), v.len()))
    } else {
        assert(v@.subrange(0, prefix@.len() as int) == v@.take(prefix@.len() as int));
        None
    }
}

/// The warning printed when a deprecated key supplied a value.
pub open spec fn deprecation_text(key: Seq<char>, suffix: Seq<char>) -> Seq<char> {
    "warning: "@ + key + " is deprecated, rename to VIBEMODE_"@ + suffix
}

/// The warning for `key` when it is a deprecated spelling.
pub fn deprecation_notice(key: &str) -> (res: Option<String>)
    ensures
        res is Some <==> deprecated_suffix_of(key@) is Some,
        res matches Some(s) ==> s@ == deprecation_text(key@, deprecated_suffix_of(key@)->Some_0),
{
    match deprecated_suffix(key) {
        Some(suffix) => {
            let mut m = String::new();
            push_str(&mut m, "warning: ");
            push_str(&mut m, key);
            push_str(&mut m, " is deprecated, rename to VIBEMODE_");
            push_str(&mut m, suffix.as_str());
            Some(m)
        },
        None => None,
    }
}

/// The deprecated keys already warned about.
#[derive(Debug)]
pub struct WarningLedger {
    seen: StrMap<bool>,
}

impl View for WarningLedger {
    type V = Set<Seq<char>>;

    closed spec fn view(&self) -> Set<Seq<char>> {
        self.seen@.dom()
    }
}

impl WarningLedger {
    /// A ledger with nothing recorded.
    pub fn new() -> (l: WarningLedger)
        ensures
            l@ == Set::<Seq<char>>::empty(),
    {
        WarningLedger { seen: StrMap::new() }
    }
}

/// Records that `key` was warned about; true the first time for a key,
/// false afterwards.
pub fn remember_deprecated_env_warning(ledger: &mut WarningLedger, key: &str) -> (fresh: bool)
    ensures
        fresh == !old(ledger)@.contains(key@),
        final(ledger)@ == old(ledger)@.insert(key@),
{
    if ledger.seen.contains_key(key) {
        proof {
            assert(old(ledger)@.insert(key@) =~= old(ledger)@);
        }
        false
    } else {
        ledger.seen.insert(key.to_owned(), true);
        true
    }
}

/// Connection settings resolved from flags, the environment and `.env`.
#[derive(Debug)]
pub struct RuntimeConfig {
    pub api_base: String,
    pub api_key: String,
    pub abtop_bin: String,
}

/// The value of an optional lookup, or `default`.
pub open spec fn or_default(v: Option<(Seq<char>, Seq<char>)>, default: Seq<char>) -> Seq<char> {
    match v {
        Some(p) => p.1,
        None => default,
    }
}

impl RuntimeConfig {
    /// The API base is the override when given, else the configured base,
    /// else the default; the API key is the value of `api_key_env` (empty
    /// when unset); the agent binary is `ABTOP_BIN` or `abtop`.
    pub fn from_dotenv(
        api_base_override: Option<String>,
        api_key_env: &str,
        env: &EnvMap,
        dotenv: &EnvMap,
    ) -> (c: RuntimeConfig)
        ensures
            api_base_override matches Some(b) ==> c.api_base@ == b@,
            api_base_override is None ==> c.api_base@ == or_default(
                lookup_keys(key_aliases("VIBEMODE_API_BASE"@), env@, dotenv@),
                DEFAULT_API_BASE@,
            ),
            c.api_key@ == or_default(
                lookup_keys(key_aliases(api_key_env@), env@, dotenv@),
                Seq::empty(),
            ),
            c.abtop_bin@ == or_default(
                lookup_keys(key_aliases("ABTOP_BIN"@), env@, dotenv@),
                DEFAULT_ABTOP_BIN@,
            ),
    {
        let api_base = match api_base_override {
            Some(b) => b,
            None => match config_value("VIBEMODE_API_BASE", env, dotenv) {
                Some(v) => v,
                None => DEFAULT_API_BASE.to_owned(),
            },
        };
        let api_key = match config_value(api_key_env, env, dotenv) {
            Some(v) => v,
            None => String::new(),
        };
        let abtop_bin = match config_value("ABTOP_BIN", env, dotenv) {
            Some(v) => v,
            None => DEFAULT_ABTOP_BIN.to_owned(),
        };
        RuntimeConfig { api_base, api_key, abtop_bin }
    }

    /// The settings for a selected account: its key variable (default
    /// `VIBEMODE_API_KEY`) and its base, when it has one, override the
    /// defaults; without an account both defaults apply.
    pub fn for_account(account: Option<&AccountConfig>, env: &EnvMap, dotenv: &EnvMap) -> (c:
        RuntimeConfig)
        ensures
            ({
                let key_env = match account {
                    Some(a) => match opt_text(a.api_key_env) {
                        Some(k) => k,
                        None => "VIBEMODE_API_KEY"@,
                    },
                    None => "VIBEMODE_API_KEY"@,
                };
                let base = match account {
                    Some(a) => opt_text(a.api_base),
                    None => None,
                };
                &&& base matches Some(b) ==> c.api_base@ == b
                &&& base is None ==> c.api_base@ == or_default(
                    lookup_keys(key_aliases("VIBEMODE_API_BASE"@), env@, dotenv@),
                    DEFAULT_API_BASE@,
                )
                &&& c.api_key@ == or_default(
                    lookup_keys(key_aliases(key_env), env@, dotenv@),
                    Seq::empty(),
                )
                &&& c.abtop_bin@ == or_default(
                    lookup_keys(key_aliases("ABTOP_BIN"@), env@, dotenv@),
                    DEFAULT_ABTOP_BIN@,
                )
            }),
    {
        match account {
            Some(a) => {
                let base = match &a.api_base {
                    Some(b) => Some(b.clone()),
                    None => None,
                };
                match &a.api_key_env {
                    Some(k) => RuntimeConfig::from_dotenv(base, k.as_str(), env, dotenv),
                    None => RuntimeConfig::from_dotenv(base, "VIBEMODE_API_KEY", env, dotenv),
                }
            },
            None => RuntimeConfig::from_dotenv(None, "VIBEMODE_API_KEY", env, dotenv),
        }
    }
}

} // verus!

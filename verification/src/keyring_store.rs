//! The per-profile secret map kept in the OS keyring.

use vstd::prelude::*;

use crate::text::{last_value, lookup_last, pair_views, to_owned_string};

verus! {

/// The operating system (and, on Linux, the C library) a build targets.
#[derive(Debug, Clone, Copy, PartialEq, Eq, Structural)]
pub enum TargetPlatform {
    MacOs,
    Windows,
    LinuxGnu,
    LinuxMusl,
    Other,
}

/// True when a real OS keyring backend is compiled into a build for `target`: macOS,
/// Windows and Linux other than musl. Elsewhere the keyring would silently keep secrets
/// in memory only, so `os-store` credential storage would lose them.
pub fn os_keyring_available(target: TargetPlatform) -> (r: bool)
    ensures
        r == (target == TargetPlatform::MacOs || target == TargetPlatform::Windows || target
            == TargetPlatform::LinuxGnu),
{
    match target {
        TargetPlatform::MacOs | TargetPlatform::Windows | TargetPlatform::LinuxGnu => true,
        _ => false,
    }
}

/// The secrets of one profile, by key (`api_key`, `oauth_tokens`). Held as the pairs
/// in the order they were set; a later pair for a key replaces an earlier one.
#[derive(Debug)]
pub struct SecretMap {
    entries: Vec<(String, String)>,
}

impl View for SecretMap {
    type V = Map<Seq<char>, Seq<char>>;

    /// The secrets by key.
    open spec fn view(&self) -> Map<Seq<char>, Seq<char>> {
        Map::new(|k: Seq<char>| self.lookup(k) is Some, |k: Seq<char>| self.lookup(k)->0)
    }
}

/// The secret under `key` in a map of secrets, if any.
pub open spec fn secret_of(m: Map<Seq<char>, Seq<char>>, key: Seq<char>) -> Option<Seq<char>> {
    if m.dom().contains(key) {
        Some(m[key])
    } else {
        None
    }
}

impl SecretMap {
    /// The secret stored under `key`, if any.
    pub closed spec fn lookup(&self, key: Seq<char>) -> Option<Seq<char>> {
        last_value(pair_views(self.entries@), key)
    }

    /// The keys with a secret.
    pub open spec fn has_key(&self, key: Seq<char>) -> bool {
        self.lookup(key) is Some
    }

    pub fn new() -> (r: SecretMap)
        ensures
            forall|k: Seq<char>| #[trigger] r.lookup(k) is None,
    {
        SecretMap { entries: Vec::new() }
    }

    /// A map of the given pairs, as read back from the keyring's JSON.
    pub fn from_pairs(pairs: Vec<(String, String)>) -> (r: SecretMap)
        ensures
            forall|k: Seq<char>| #[trigger] r.lookup(k) == last_value(pair_views(pairs@), k),
    {
        SecretMap { entries: pairs }
    }

    /// The pairs to write back, in order; collected into a map, later pairs win.
    pub fn pairs(&self) -> (r: &Vec<(String, String)>)
        ensures
            forall|k: Seq<char>| #[trigger] last_value(pair_views(r@), k) == self.lookup(k),
    {
        &self.entries
    }

    /// The secret stored under `key`.
    pub fn get(&self, key: &str) -> (r: Option<String>)
        ensures
            (match r {
                Some(x) => Some(x@),
                None => None,
            }) == self.lookup(key@),
    {
        lookup_last(&self.entries, key)
    }

    /// Store `secret` under `key`, replacing any earlier one.
    pub fn insert(&mut self, key: &str, secret: &str)
        ensures
            final(self).lookup(key@) == Some(secret@),
            forall|k: Seq<char>| k != key@ ==> #[trigger] final(self).lookup(k) == old(self).lookup(k),
    {
        let ghost before = pair_views(self.entries@);
        self.entries.push((to_owned_string(key), to_owned_string(secret)));
        proof {
            let after = pair_views(self.entries@);
            assert(after.drop_last() =~= before);
            assert(after.last() == (key@, secret@));
        }
    }

    /// Whether no secret is stored.
    pub fn is_empty(&self) -> (r: bool)
        ensures
            r <==> forall|k: Seq<char>| #[trigger] self.lookup(k) is None,
    {
        let n = self.entries.len();
        if n == 0 {
            assert forall|k: Seq<char>| #[trigger] self.lookup(k) is None by {
                assert(pair_views(self.entries@).len() == 0);
            }
            true
        } else {
            proof {
                let p = pair_views(self.entries@);
                let k = p.last().0;
                assert(self.lookup(k) is Some);
            }
            false
        }
    }
}

/// The keyring backend is missing from this build.
#[derive(Debug)]
pub struct NoKeyringBackend;

impl NoKeyringBackend {
    pub open spec fn message(&self) -> Seq<char> {
        "This build has no OS keyring backend (e.g. static musl Linux binaries ship without one). Use file-based credential storage instead of 'os-store'."@
    }

    pub fn to_string(&self) -> (r: String)
        ensures
            r@ == self.message(),
    {
        to_owned_string(
            "This build has no OS keyring backend (e.g. static musl Linux binaries ship without one). Use file-based credential storage instead of 'os-store'.",
        )
    }
}

/// Store `secret` under `key` in a profile's secret map (as loaded from the keyring,
/// empty if none was stored). Refused when the build has no keyring backend.
pub fn store_secret(backend_available: bool, map: &mut SecretMap, key: &str, secret: &str) -> (r:
    Result<(), NoKeyringBackend>)
    ensures
        r is Ok <==> backend_available,
        r is Ok ==> final(map).lookup(key@) == Some(secret@),
        r is Ok ==> forall|k: Seq<char>|
            k != key@ ==> #[trigger] final(map).lookup(k) == old(map).lookup(k),
        r is Err ==> forall|k: Seq<char>| #[trigger] final(map).lookup(k) == old(map).lookup(k),
        r is Ok ==> final(map)@ == old(map)@.insert(key@, secret@),
        r is Err ==> final(map)@ == old(map)@,
{
    if !backend_available {
        proof {
            assert(map@ =~= old(map)@);
        }
        return Err(NoKeyringBackend);
    }
    map.insert(key, secret);
    proof {
        assert(map@ =~= old(map)@.insert(key@, secret@));
    }
    Ok(())
}

/// The secret stored under `key` in a profile's secret map, if a map was stored.
pub fn get_secret(map: Option<&SecretMap>, key: &str) -> (r: Option<String>)
    ensures
        (match r {
            Some(x) => Some(x@),
            None => None,
        }) == (match map {
            Some(m) => m.lookup(key@),
            None => None,
        }),
        (match r {
            Some(x) => Some(x@),
            None => None,
        }) == (match map {
            Some(m) => secret_of(m@, key@),
            None => None,
        }),
{
    match map {
        Some(m) => m.get(key),
        None => None,
    }
}

/// Storing a secret and reading it back gives the secret; the other keys read as
/// before. (`store_secret` turns the map `m` into `m.insert(key, secret)`, and
/// `get_secret` reads `secret_of`.)
pub proof fn lemma_get_after_store(
    before: Map<Seq<char>, Seq<char>>,
    key: Seq<char>,
    secret: Seq<char>,
    other: Seq<char>,
)
    ensures
        secret_of(before.insert(key, secret), key) == Some(secret),
        other != key ==> secret_of(before.insert(key, secret), other) == secret_of(before, other),
{
}

} // verus!

//! Profiles, the global config and where they live.

use vstd::prelude::*;

use crate::oauth::{opt_view, StoredOAuthTokens, DEFAULT_CLIENT_ID};
use crate::text::{chars_of, is_ascii_alnum, is_ascii_alnum_spec, push_char, push_str, string_from_chars, to_owned_string};

verus! {

#[derive(Debug, Clone, Copy, PartialEq, Eq, Structural)]
pub enum AuthKind {
    OAuth,
    ApiKey,
}

#[derive(Debug, Clone, Copy, PartialEq, Eq, Structural)]
pub enum CredentialStorage {
    File,
    OsStore,
}

#[derive(Debug, Clone, Copy, PartialEq, Eq, Structural)]
pub enum OutputFormat {
    Text,
    Json,
}

impl OutputFormat {
    pub open spec fn name(&self) -> Seq<char> {
        match self {
            OutputFormat::Text => "text"@,
            OutputFormat::Json => "json"@,
        }
    }

    pub fn as_str(&self) -> (r: &'static str)
        ensures
            r@ == self.name(),
    {
        match self {
            OutputFormat::Text => "text",
            OutputFormat::Json => "json",
        }
    }
}

/// A named profile: one identity and one workspace. `host` is the single source of
/// truth for all URLs.
#[derive(Debug, Clone)]
pub struct Profile {
    pub auth: AuthKind,
    pub credential_storage: CredentialStorage,
    /// e.g. "https://app.nestr.io" (prod), "http://localhost:4001" (local dev).
    pub host: String,
    pub workspace_id: String,
    pub api_key: Option<String>,
    pub label: Option<String>,
    pub oauth_client_id: Option<String>,
    pub oauth_token_url: Option<String>,
    pub oauth_authorize_url: Option<String>,
    pub oauth_tokens: Option<StoredOAuthTokens>,
    pub default_output_format: Option<OutputFormat>,
}

/// `s` without its trailing `/` characters (`trim_end_matches('/')`).
pub open spec fn trim_end_slashes(s: Seq<char>) -> Seq<char>
    decreases s.len(),
{
    if s.len() > 0 && s.last() == '/' {
        trim_end_slashes(s.drop_last())
    } else {
        s
    }
}

pub fn trim_end_slashes_of(s: &str) -> (r: String)
    ensures
        r@ == trim_end_slashes(s@),
{
    let mut v = chars_of(s);
    while v.len() > 0 && v[v.len() - 1] == '/'
        invariant
            trim_end_slashes(v@) == trim_end_slashes(s@),
        decreases v.len(),
    {
        let ghost before = v@;
        v.pop();
        assert(v@ =~= before.drop_last());
    }
    string_from_chars(&v)
}

pub open spec fn or_default(o: Option<String>, d: Seq<char>) -> Seq<char> {
    match o {
        Some(s) => s@,
        None => d,
    }
}

impl Profile {
    pub open spec fn host_trimmed_spec(&self) -> Seq<char> {
        trim_end_slashes(self.host@)
    }

    fn host_trimmed(&self) -> (r: String)
        ensures
            r@ == self.host_trimmed_spec(),
    {
        trim_end_slashes_of(self.host.as_str())
    }

    /// `{host}/api`
    pub fn api_base(&self) -> (r: String)
        ensures
            r@ == self.host_trimmed_spec() + "/api"@,
    {
        let mut s = self.host_trimmed();
        push_str(&mut s, "/api");
        s
    }

    /// `{host}/oauth/token` unless overridden.
    pub fn token_url(&self) -> (r: String)
        ensures
            r@ == or_default(self.oauth_token_url, self.host_trimmed_spec() + "/oauth/token"@),
    {
        match &self.oauth_token_url {
            Some(u) => u.clone(),
            None => {
                let mut s = self.host_trimmed();
                push_str(&mut s, "/oauth/token");
                s
            },
        }
    }

    /// `{host}/dialog/oauth` unless overridden.
    pub fn authorize_url(&self) -> (r: String)
        ensures
            r@ == or_default(self.oauth_authorize_url, self.host_trimmed_spec() + "/dialog/oauth"@),
    {
        match &self.oauth_authorize_url {
            Some(u) => u.clone(),
            None => {
                let mut s = self.host_trimmed();
                push_str(&mut s, "/dialog/oauth");
                s
            },
        }
    }

    /// Resolved OAuth client id: profile override, else the built-in default.
    pub fn client_id(&self) -> (r: String)
        ensures
            r@ == or_default(self.oauth_client_id, DEFAULT_CLIENT_ID@),
    {
        match &self.oauth_client_id {
            Some(c) => c.clone(),
            None => to_owned_string(DEFAULT_CLIENT_ID),
        }
    }
}

/// The global config: the default profile and output format.
#[derive(Debug, Clone)]
pub struct Config {
    pub default_profile: String,
    pub default_output_format: OutputFormat,
}

/// The profile used when none is named.
pub fn default_profile() -> (r: String)
    ensures
        r@ == "default"@,
{
    to_owned_string("default")
}

impl Config {
    /// The config in force when no config file exists.
    pub fn default() -> (r: Config)
        ensures
            r.default_profile@ == "default"@,
            r.default_output_format == OutputFormat::Text,
    {
        Config { default_profile: default_profile(), default_output_format: OutputFormat::Text }
    }
}

// ---- where things live ----

/// `Path::join` on Unix: an absolute part replaces the base; otherwise the part is
/// appended after a single `/`.
pub open spec fn path_join(base: Seq<char>, part: Seq<char>) -> Seq<char> {
    if part.len() > 0 && part[0] == '/' {
        part
    } else if base.len() == 0 {
        part
    } else if base.last() == '/' {
        base + part
    } else {
        base + seq!['/'] + part
    }
}

pub fn join_path(base: &str, part: &str) -> (r: String)
    ensures
        r@ == path_join(base@, part@),
{
    let b = chars_of(base);
    let p = chars_of(part);
    if p.len() > 0 && p[0] == '/' {
        to_owned_string(part)
    } else if b.len() == 0 {
        to_owned_string(part)
    } else if b[b.len() - 1] == '/' {
        let mut s = to_owned_string(base);
        push_str(&mut s, part);
        s
    } else {
        let mut s = to_owned_string(base);
        push_char(&mut s, '/');
        push_str(&mut s, part);
        s
    }
}

/// The parts of the environment that decide where the config lives.
#[derive(Debug, Clone)]
pub struct HomeEnv {
    /// `NESTR_HOME`, if set.
    pub nestr_home: Option<String>,
    /// The user's home directory, if known.
    pub user_home: Option<String>,
}

pub open spec fn config_base_spec(nestr_home: Option<String>, env: HomeEnv) -> Seq<char> {
    match nestr_home {
        Some(h) => h@,
        None => match env.nestr_home {
            Some(h) => h@,
            None => match env.user_home {
                Some(h) => h@,
                None => "."@,
            },
        },
    }
}

pub open spec fn config_dir_spec(env: HomeEnv) -> Seq<char> {
    path_join(config_base_spec(None, env), ".nestr"@)
}

/// The config directory under an explicit home, else `NESTR_HOME`, else the user's
/// home, else `.`: `{home}/.nestr`.
pub fn config_dir_in(nestr_home: Option<String>, env: &HomeEnv) -> (r: String)
    ensures
        r@ == path_join(config_base_spec(nestr_home, *env), ".nestr"@),
{
    let base = match nestr_home {
        Some(h) => h,
        None => match &env.nestr_home {
            Some(h) => h.clone(),
            None => match &env.user_home {
                Some(h) => h.clone(),
                None => to_owned_string("."),
            },
        },
    };
    join_path(base.as_str(), ".nestr")
}

pub fn config_dir(env: &HomeEnv) -> (r: String)
    ensures
        r@ == config_dir_spec(*env),
{
    config_dir_in(None, env)
}

pub fn config_file(env: &HomeEnv) -> (r: String)
    ensures
        r@ == path_join(config_dir_spec(*env), "config.toml"@),
{
    join_path(config_dir(env).as_str(), "config.toml")
}

pub open spec fn profiles_dir_spec(env: HomeEnv) -> Seq<char> {
    path_join(config_dir_spec(env), "profiles"@)
}

pub fn profiles_dir(env: &HomeEnv) -> (r: String)
    ensures
        r@ == profiles_dir_spec(*env),
{
    join_path(config_dir(env).as_str(), "profiles")
}

pub fn profile_file(env: &HomeEnv, name: &str) -> (r: String)
    ensures
        r@ == path_join(profiles_dir_spec(*env), name@ + ".toml"@),
{
    let mut file = to_owned_string(name);
    push_str(&mut file, ".toml");
    join_path(profiles_dir(env).as_str(), file.as_str())
}

// ---- profile names ----

/// Characters allowed in a profile name: ASCII letters and digits, `_`, `-`, `.`.
pub open spec fn profile_name_char(c: char) -> bool {
    is_ascii_alnum_spec(c) || c == '_' || c == '-' || c == '.'
}

/// Why a profile name was refused; holds the name.
#[derive(Debug)]
pub enum ProfileNameError {
    /// Empty, `.` or `..`.
    Reserved(String),
    /// A character outside ASCII letters, digits, `_`, `-`, `.`.
    BadCharacters(String),
}

impl ProfileNameError {
    pub open spec fn message(&self) -> Seq<char> {
        match self {
            ProfileNameError::Reserved(n) => "invalid profile name '"@ + n@ + "'"@,
            ProfileNameError::BadCharacters(n) => "invalid profile name '"@ + n@
                + "': use letters, digits, '_', '-', '.' only"@,
        }
    }

    pub fn to_string(&self) -> (r: String)
        ensures
            r@ == self.message(),
    {
        match self {
            ProfileNameError::Reserved(n) => {
                let mut s = to_owned_string("invalid profile name '");
                push_str(&mut s, n.as_str());
                push_str(&mut s, "'");
                s
            },
            ProfileNameError::BadCharacters(n) => {
                let mut s = to_owned_string("invalid profile name '");
                push_str(&mut s, n.as_str());
                push_str(&mut s, "': use letters, digits, '_', '-', '.' only");
                s
            },
        }
    }
}

pub open spec fn reserved_profile_name(name: Seq<char>) -> bool {
    name.len() == 0 || name == "."@ || name == ".."@
}

pub open spec fn valid_profile_name(name: Seq<char>) -> bool {
    !reserved_profile_name(name) && forall|i: int|
        0 <= i < name.len() ==> profile_name_char(#[trigger] name[i])
}

/// Reject profile names that could escape the profiles directory or create stray
/// files. Allowed: ASCII alphanumerics plus `_`, `-`, `.` — no path separators, no `..`.
pub fn validate_profile_name(name: &str) -> (r: Result<(), ProfileNameError>)
    ensures
        r is Ok <==> valid_profile_name(name@),
        r matches Err(e) ==> (if reserved_profile_name(name@) {
            e matches ProfileNameError::Reserved(n) && n@ == name@
        } else {
            e matches ProfileNameError::BadCharacters(n) && n@ == name@
        }),
{
    let v = chars_of(name);
    proof {
        reveal_strlit(".");
        reveal_strlit("..");
    }
    if v.len() == 0 || (v.len() == 1 && v[0] == '.') || (v.len() == 2 && v[0] == '.' && v[1]
        == '.') {
        proof {
            if v.len() == 1 {
                assert(name@ =~= "."@);
            }
            if v.len() == 2 {
                assert(name@ =~= ".."@);
            }
        }
        return Err(ProfileNameError::Reserved(to_owned_string(name)));
    }
    proof {
        if name@ == "."@ {
            assert(name@.len() == 1 && name@[0] == '.');
        }
        if name@ == ".."@ {
            assert(name@.len() == 2 && name@[0] == '.' && name@[1] == '.');
        }
    }
    let mut i: usize = 0;
    while i < v.len()
        invariant
            i <= v.len(),
            v@ == name@,
            !reserved_profile_name(name@),
            forall|j: int| 0 <= j < i ==> profile_name_char(#[trigger] v@[j]),
        decreases v.len() - i,
    {
        let c = v[i];
        if !(is_ascii_alnum(c) || c == '_' || c == '-' || c == '.') {
            return Err(ProfileNameError::BadCharacters(to_owned_string(name)));
        }
        i = i + 1;
    }
    Ok(())
}

/// A profile file never leaves the profiles directory: for a valid name the file is
/// the directory joined with `{name}.toml`, a single component holding no `/`.
pub proof fn lemma_profile_file_stays_in_dir(env: HomeEnv, name: Seq<char>)
    requires
        valid_profile_name(name),
    ensures
        ({
            let dir = profiles_dir_spec(env);
            let leaf = name + ".toml"@;
            let f = path_join(dir, leaf);
            &&& !leaf.contains('/')
            &&& (f == dir + leaf || f == dir + seq!['/'] + leaf)
        }),
{
    reveal_strlit(".toml");
    let leaf = name + ".toml"@;
    let dir = profiles_dir_spec(env);
    assert forall|i: int| 0 <= i < leaf.len() implies leaf[i] != '/' by {
        if i < name.len() {
            assert(leaf[i] == name[i]);
            assert(profile_name_char(name[i]));
        }
    }
    assert(leaf[0] == name[0]);
    assert(profile_name_char(name[0]));
    if dir.len() == 0 {
        assert(dir + leaf =~= leaf);
    }
}

// ---- credentials ----

pub open spec fn first_some(a: Option<&str>, b: Option<&str>, c: Option<&str>) -> Option<Seq<char>> {
    match a {
        Some(x) => Some(x@),
        None => match b {
            Some(x) => Some(x@),
            None => match c {
                Some(x) => Some(x@),
                None => None,
            },
        },
    }
}

/// Bearer precedence: explicit flag > env var > profile value.
pub fn resolve_bearer_precedence(
    flag: Option<&str>,
    env: Option<&str>,
    profile_val: Option<&str>,
) -> (r: Option<String>)
    ensures
        opt_view(r) == first_some(flag, env, profile_val),
{
    match flag {
        Some(x) => Some(to_owned_string(x)),
        None => match env {
            Some(x) => Some(to_owned_string(x)),
            None => match profile_val {
                Some(x) => Some(to_owned_string(x)),
                None => None,
            },
        },
    }
}

/// Whether a token write replaces the stored set: not when the profile already holds a
/// different set that is still valid at `now` (another process refreshed first).
pub open spec fn replaces_tokens(existing: Option<StoredOAuthTokens>, tokens: StoredOAuthTokens, now: u64) -> bool {
    match existing {
        Some(e) => !(crate::oauth::valid_at_spec(e.expiry, now) && e@ != tokens@),
        None => true,
    }
}

/// Update the OAuth token set of the profile `name`, already reloaded from disk under
/// the profiles lock. If the stored set is a different one that is still valid at
/// `now`, it is kept; otherwise `tokens` replaces it. Returns whether the profile
/// changed and must be saved.
pub fn update_profile_oauth_tokens(
    name: &str,
    profile: &mut Profile,
    tokens: &StoredOAuthTokens,
    now: u64,
) -> (r: Result<bool, ProfileNameError>)
    ensures
        r is Ok <==> valid_profile_name(name@),
        r matches Ok(changed) ==> changed == replaces_tokens(old(profile).oauth_tokens, *tokens, now),
        r matches Ok(true) ==> final(profile).oauth_tokens matches Some(t) && t@ == tokens@,
        r matches Ok(true) ==> (Profile { oauth_tokens: old(profile).oauth_tokens, ..*final(profile) })
            == *old(profile),
        !(r matches Ok(true)) ==> *final(profile) == *old(profile),
        final(profile).host == old(profile).host,
        final(profile).workspace_id == old(profile).workspace_id,
        final(profile).auth == old(profile).auth,
        final(profile).credential_storage == old(profile).credential_storage,
{
    match validate_profile_name(name) {
        Err(e) => return Err(e),
        Ok(()) => {},
    }
    let keep = match &profile.oauth_tokens {
        Some(existing) => existing.is_valid_at(now) && !existing.same_as(tokens),
        None => false,
    };
    if keep {
        return Ok(false);
    }
    profile.oauth_tokens = Some(tokens.copy());
    Ok(true)
}

// ---- resolving the active profile ----

/// Profile choice: explicit override, else `NESTR_PROFILE`, else the config default.
pub fn resolve_profile_name(
    profile_override: Option<&str>,
    env_profile: Option<&str>,
    config_default: &str,
) -> (r: String)
    ensures
        Some(r@) == first_some(profile_override, env_profile, Some(config_default)),
{
    match resolve_bearer_precedence(profile_override, env_profile, Some(config_default)) {
        Some(s) => s,
        None => to_owned_string(config_default),
    }
}

/// Output choice: the flag, else the profile's default, else the config default.
pub fn resolve_output_format(
    flag: Option<OutputFormat>,
    profile_default: Option<OutputFormat>,
    config_default: OutputFormat,
) -> (r: OutputFormat)
    ensures
        r == (match flag {
            Some(f) => f,
            None => match profile_default {
                Some(f) => f,
                None => config_default,
            },
        }),
{
    match flag {
        Some(f) => f,
        None => match profile_default {
            Some(f) => f,
            None => config_default,
        },
    }
}

/// No API key could be found for an API-key profile; holds the profile name.
#[derive(Debug)]
pub struct MissingApiKey {
    pub profile: String,
}

impl MissingApiKey {
    pub open spec fn message(&self) -> Seq<char> {
        "No API key for profile '"@ + self.profile@ + "'. Run `nestr profiles add`."@
    }

    pub fn to_string(&self) -> (r: String)
        ensures
            r@ == self.message(),
    {
        let mut s = to_owned_string("No API key for profile '");
        push_str(&mut s, self.profile.as_str());
        push_str(&mut s, "'. Run `nestr profiles add`.");
        s
    }
}

/// The bearer of an API-key profile: flag > env > the stored key, else an error.
pub fn api_key_bearer(
    profile_name: &str,
    flag: Option<&str>,
    env: Option<&str>,
    stored_key: Option<&str>,
) -> (r: Result<String, MissingApiKey>)
    ensures
        r matches Ok(b) ==> Some(b@) == first_some(flag, env, stored_key),
        r is Err <==> first_some(flag, env, stored_key) is None,
        r matches Err(e) ==> e.profile@ == profile_name@,
{
    match resolve_bearer_precedence(flag, env, stored_key) {
        Some(b) => Ok(b),
        None => Err(MissingApiKey { profile: to_owned_string(profile_name) }),
    }
}

// ---- profile files ----

/// The profile a file in the profiles directory holds: the stem of a `*.toml` file
/// name. A name whose only dot leads it (`.toml`) has no extension and holds none.
pub open spec fn profile_name_of_spec(file_name: Seq<char>) -> Option<Seq<char>> {
    if exists|k: int| 0 < k < file_name.len() && file_name[k] == '.' {
        let k = choose|k: int|
            0 < k < file_name.len() && file_name[k] == '.' && forall|j: int|
                k < j < file_name.len() ==> file_name[j] != '.';
        if file_name.skip(k + 1) == "toml"@ {
            Some(file_name.take(k))
        } else {
            None
        }
    } else {
        None
    }
}

/// The profile name of a file in the profiles directory, if it is a profile file.
pub fn profile_name_of(file_name: &str) -> (r: Option<String>)
    ensures
        opt_view(r) == profile_name_of_spec(file_name@),
{
    let v = chars_of(file_name);
    let mut k: usize = v.len();
    while k > 0 && v[k - 1] != '.'
        invariant
            k <= v.len(),
            v@ == file_name@,
            forall|j: int| k <= j < v.len() ==> v@[j] != '.',
        decreases k,
    {
        k = k - 1;
    }
    if k <= 1 {
        proof {
            if exists|i: int| 0 < i < v@.len() && v@[i] == '.' {
                let i = choose|i: int| 0 < i < v@.len() && v@[i] == '.';
                assert(i >= k);
            }
        }
        return None;
    }
    let dot = k - 1;
    proof {
        let w = file_name@;
        assert(0 < dot < w.len() && w[dot as int] == '.');
        let c = choose|c: int| 0 < c < w.len() && w[c] == '.' && forall|j: int| c < j < w.len() ==> w[j] != '.';
        assert(c == dot) by {
            if c < dot {
                assert(w[dot as int] != '.');
            }
            if c > dot {
                assert(w[c] != '.');
            }
        }
    }
    let mut ext: Vec<char> = Vec::new();
    let mut i: usize = k;
    while i < v.len()
        invariant
            k <= i <= v.len(),
            ext@ == v@.subrange(k as int, i as int),
        decreases v.len() - i,
    {
        ext.push(v[i]);
        assert(v@.subrange(k as int, i + 1) =~= v@.subrange(k as int, i as int).push(v@[i as int]));
        i = i + 1;
    }
    assert(ext@ =~= v@.skip(k as int));
    let e = string_from_chars(&ext);
    if !crate::text::str_eq(e.as_str(), "toml") {
        return None;
    }
    let mut stem: Vec<char> = Vec::new();
    let mut j: usize = 0;
    while j < dot
        invariant
            j <= dot < v.len(),
            stem@ == v@.take(j as int),
        decreases dot - j,
    {
        stem.push(v[j]);
        assert(v@.take(j + 1) =~= v@.take(j as int).push(v@[j as int]));
        j = j + 1;
    }
    Some(string_from_chars(&stem))
}

/// The name of the temporary file a profile is first written to, beside its target:
/// `.{file name}.{process id}.tmp`.
pub fn temp_file_name(file_name: &str, pid: u32) -> (r: String)
    ensures
        r@ == "."@ + file_name@ + "."@ + crate::text::decimal(pid as nat) + ".tmp"@,
{
    let mut s = to_owned_string(".");
    push_str(&mut s, file_name);
    push_str(&mut s, ".");
    crate::text::push_decimal(&mut s, pid as u64);
    push_str(&mut s, ".tmp");
    s
}

/// The profile has no active workspace yet.
#[derive(Debug)]
pub struct NoWorkspace {
    pub profile: String,
}

impl NoWorkspace {
    pub open spec fn message(&self) -> Seq<char> {
        "Profile '"@ + self.profile@
            + "' has no active workspace. Run `nestr workspaces use <id>` to pick one."@
    }

    pub fn to_string(&self) -> (r: String)
        ensures
            r@ == self.message(),
    {
        let mut s = to_owned_string("Profile '");
        push_str(&mut s, self.profile.as_str());
        push_str(&mut s, "' has no active workspace. Run `nestr workspaces use <id>` to pick one.");
        s
    }
}

/// The workspace a workspace-scoped command runs in: the profile's, when it has one.
pub fn require_workspace<'a>(profile_name: &str, workspace_id: &'a str) -> (r: Result<&'a str, NoWorkspace>)
    ensures
        r is Ok <==> workspace_id@.len() > 0,
        r matches Ok(w) ==> w@ == workspace_id@,
        r matches Err(e) ==> e.profile@ == profile_name@,
{
    if workspace_id.is_empty() {
        Err(NoWorkspace { profile: to_owned_string(profile_name) })
    } else {
        Ok(workspace_id)
    }
}

} // verus!

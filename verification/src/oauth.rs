//! OAuth token sets, the PKCE browser-login request and the login callback.

use vstd::prelude::*;

use crate::config::CredentialStorage;
use base64::Engine;
use rand::RngExt;
use sha2::Digest;

use crate::text::{last_value, lookup_last, pair_views, chars_of, push_char, push_decimal, push_str, split_chars, split_on, str_eq, string_from_chars, to_owned_string, views, words, words_of, decimal};

verus! {

/// Placeholder public client id; profiles may override it per environment.
pub const DEFAULT_CLIENT_ID: &'static str = "nestr-cli";

/// The scopes a browser login asks for.
pub const SCOPES: &'static str = "user nest";

/// The view of an optional string.
pub open spec fn opt_view(o: Option<String>) -> Option<Seq<char>> {
    match o {
        Some(s) => Some(s@),
        None => None,
    }
}

/// Raw token response from the token endpoint.
#[derive(Debug, Clone)]
pub struct TokenResponse {
    pub access_token: String,
    pub token_type: Option<String>,
    pub expires_in: Option<u64>,
    pub refresh_token: Option<String>,
    pub id_token: Option<String>,
    pub scope: Option<String>,
}

/// Persisted token set (file TOML or keyring).
#[derive(Debug, Clone)]
pub struct StoredOAuthTokens {
    pub access_token: String,
    pub refresh_token: Option<String>,
    pub id_token: Option<String>,
    /// Unix timestamp (seconds) when the access token expires.
    pub expiry: Option<u64>,
}

/// The value a token set stands for.
pub struct TokensView {
    pub access_token: Seq<char>,
    pub refresh_token: Option<Seq<char>>,
    pub id_token: Option<Seq<char>>,
    pub expiry: Option<u64>,
}

impl View for StoredOAuthTokens {
    type V = TokensView;

    open spec fn view(&self) -> TokensView {
        TokensView {
            access_token: self.access_token@,
            refresh_token: opt_view(self.refresh_token),
            id_token: opt_view(self.id_token),
            expiry: self.expiry,
        }
    }
}

/// Valid at `now` if more than 30 seconds of life are left.
pub open spec fn valid_at_spec(expiry: Option<u64>, now: u64) -> bool {
    match expiry {
        Some(exp) => exp > now + 30,
        None => false,
    }
}

/// `Some(a) == Some(b)` on optional strings, by content.
pub fn opt_str_eq(a: &Option<String>, b: &Option<String>) -> (r: bool)
    ensures
        r == (opt_view(*a) == opt_view(*b)),
{
    match (a, b) {
        (Some(x), Some(y)) => str_eq(x.as_str(), y.as_str()),
        (None, None) => true,
        _ => false,
    }
}

/// An optional string, copied.
pub fn opt_clone(a: &Option<String>) -> (r: Option<String>)
    ensures
        opt_view(r) == opt_view(*a),
{
    match a {
        Some(x) => Some(x.clone()),
        None => None,
    }
}

impl StoredOAuthTokens {
    /// Valid at `now` if more than 30 seconds of life are left. Nestr tokens are opaque
    /// (not JWTs), so only the stored expiry counts.
    pub fn is_valid_at(&self, now: u64) -> (r: bool)
        ensures
            r == valid_at_spec(self.expiry, now),
    {
        match self.expiry {
            Some(exp) => exp > 30 && exp - 30 > now,
            None => false,
        }
    }

    /// Valid if more than 30 seconds of life are left, by the system clock: the
    /// result is the validity at the clock reading taken, so a set without an expiry,
    /// or one that expires within the first 30 seconds of the epoch, is never valid.
    pub fn is_valid(&self) -> (r: bool)
        ensures
            exists|now: u64| r == valid_at_spec(self.expiry, now),
            r ==> self.expiry is Some,
    {
        let now = unix_now_secs();
        let r = self.is_valid_at(now);
        assert(r == valid_at_spec(self.expiry, now));
        r
    }

    /// The same token set, field by field.
    pub fn same_as(&self, other: &StoredOAuthTokens) -> (r: bool)
        ensures
            r == (self@ == other@),
    {
        str_eq(self.access_token.as_str(), other.access_token.as_str()) && opt_str_eq(
            &self.refresh_token,
            &other.refresh_token,
        ) && opt_str_eq(&self.id_token, &other.id_token) && self.expiry == other.expiry
    }

    /// A copy of the token set.
    pub fn copy(&self) -> (r: StoredOAuthTokens)
        ensures
            r@ == self@,
    {
        StoredOAuthTokens {
            access_token: self.access_token.clone(),
            refresh_token: opt_clone(&self.refresh_token),
            id_token: opt_clone(&self.id_token),
            expiry: self.expiry,
        }
    }
}

/// Seconds since the Unix epoch, by the system clock (`SystemTime::now`). A clock set
/// before 1970 reads as 0. Nothing is stated of the value: it is the time.
#[verifier::external_body]
pub fn unix_now_secs() -> u64 {
    std::time::SystemTime::now().duration_since(std::time::UNIX_EPOCH).map(|d| d.as_secs()).unwrap_or(
        0,
    )
}

pub open spec fn expiry_from(expires_in: Option<u64>, now: u64) -> Option<u64> {
    match expires_in {
        Some(s) => Some(if now + s > u64::MAX {
            u64::MAX
        } else {
            (now + s) as u64
        }),
        None => None,
    }
}

/// The token set to persist from a token response received at `now`; the expiry is
/// `now + expires_in` (saturating at `u64::MAX`).
pub fn tokens_to_stored_at(t: &TokenResponse, now: u64) -> (r: StoredOAuthTokens)
    ensures
        r.access_token@ == t.access_token@,
        opt_view(r.refresh_token) == opt_view(t.refresh_token),
        opt_view(r.id_token) == opt_view(t.id_token),
        r.expiry == expiry_from(t.expires_in, now),
{
    StoredOAuthTokens {
        access_token: t.access_token.clone(),
        refresh_token: opt_clone(&t.refresh_token),
        id_token: opt_clone(&t.id_token),
        expiry: match t.expires_in {
            Some(s) => Some(now.saturating_add(s)),
            None => None,
        },
    }
}

/// The token set to persist from a token response received now.
pub fn tokens_to_stored(t: &TokenResponse) -> (r: StoredOAuthTokens)
    ensures
        r.access_token@ == t.access_token@,
        opt_view(r.refresh_token) == opt_view(t.refresh_token),
        opt_view(r.id_token) == opt_view(t.id_token),
        r.expiry is Some <==> t.expires_in is Some,
        exists|now: u64| r.expiry == expiry_from(t.expires_in, now),
{
    let now = unix_now_secs();
    let r = tokens_to_stored_at(t, now);
    assert(r.expiry == expiry_from(t.expires_in, now));
    r
}

// ---- percent-encoding and the authorization URL ----

/// RFC 3986 unreserved bytes: ASCII letters, digits, `-`, `_`, `.`, `~`.
pub open spec fn is_unreserved(b: u8) -> bool {
    ||| (0x41 <= b && b <= 0x5a)
    ||| (0x61 <= b && b <= 0x7a)
    ||| (0x30 <= b && b <= 0x39)
    ||| b == 0x2d
    ||| b == 0x5f
    ||| b == 0x2e
    ||| b == 0x7e
}

/// Upper-case hexadecimal digit of `n < 16`.
pub open spec fn hex_upper(n: nat) -> char {
    if n < 10 {
        crate::text::digit_char(n)
    } else if n == 10 {
        'A'
    } else if n == 11 {
        'B'
    } else if n == 12 {
        'C'
    } else if n == 13 {
        'D'
    } else if n == 14 {
        'E'
    } else {
        'F'
    }
}

pub open spec fn pct_byte(b: u8) -> Seq<char> {
    if is_unreserved(b) {
        seq![b as char]
    } else {
        seq!['%', hex_upper((b / 16) as nat), hex_upper((b % 16) as nat)]
    }
}

/// Percent-encoding of a byte string: unreserved bytes as themselves, every other byte
/// as `%XX` in upper-case hex.
pub open spec fn pct_encode_spec(bytes: Seq<u8>) -> Seq<char>
    decreases bytes.len(),
{
    if bytes.len() == 0 {
        seq![]
    } else {
        pct_encode_spec(bytes.drop_last()) + pct_byte(bytes.last())
    }
}

fn hex_digit(n: u8) -> (c: char)
    requires
        n < 16,
    ensures
        c == hex_upper(n as nat),
{
    if n < 10 {
        crate::text::digit_of(n as u64)
    } else if n == 10 {
        'A'
    } else if n == 11 {
        'B'
    } else if n == 12 {
        'C'
    } else if n == 13 {
        'D'
    } else if n == 14 {
        'E'
    } else {
        'F'
    }
}

/// Percent-encode a string for use as a query parameter value: RFC 3986 unreserved
/// bytes stay, every other byte of its UTF-8 encoding becomes `%XX` (space is `%20`).
pub fn pct_encode(s: &str) -> (r: String)
    ensures
        r@ == pct(s@),
{
    let bytes = s.as_bytes();
    let mut out = String::new();
    let mut i: usize = 0;
    while i < bytes.len()
        invariant
            i <= bytes.len(),
            bytes@ == vstd::utf8::encode_utf8(s@),
            out@ == pct_encode_spec(bytes@.take(i as int)),
        decreases bytes.len() - i,
    {
        let b = bytes[i];
        proof {
            let t = bytes@.take(i + 1);
            assert(t.drop_last() =~= bytes@.take(i as int));
            assert(t.last() == b);
        }
        if (0x41 <= b && b <= 0x5a) || (0x61 <= b && b <= 0x7a) || (0x30 <= b && b <= 0x39) || b
            == 0x2d || b == 0x5f || b == 0x2e || b == 0x7e {
            push_char(&mut out, b as char);
        } else {
            push_char(&mut out, '%');
            push_char(&mut out, hex_digit(b / 16));
            push_char(&mut out, hex_digit(b % 16));
        }
        i = i + 1;
    }
    assert(bytes@.take(bytes.len() as int) =~= bytes@);
    out
}

pub open spec fn pct(s: Seq<char>) -> Seq<char> {
    pct_encode_spec(vstd::utf8::encode_utf8(s))
}

pub open spec fn auth_url_spec(
    authorize_url: Seq<char>,
    client_id: Seq<char>,
    redirect_uri: Seq<char>,
    code_challenge: Seq<char>,
    state: Seq<char>,
) -> Seq<char> {
    authorize_url + "?response_type=code&client_id="@ + pct(client_id) + "&redirect_uri="@ + pct(
        redirect_uri,
    ) + "&scope="@ + pct(SCOPES@) + "&code_challenge="@ + pct(code_challenge)
        + "&code_challenge_method=S256&state="@ + pct(state)
}

/// Characters a percent-encoded value is made of: RFC 3986 unreserved ASCII and `%`.
pub open spec fn url_safe_char(c: char) -> bool {
    ((c as u32) < 128 && is_unreserved(c as u8)) || c == '%'
}

/// Percent-encoding yields only unreserved ASCII characters and `%`, whatever the
/// input: the value cannot break out of its query parameter.
pub proof fn lemma_pct_encode_url_safe(bytes: Seq<u8>)
    ensures
        forall|i: int| 0 <= i < pct_encode_spec(bytes).len() ==> url_safe_char(#[trigger] pct_encode_spec(bytes)[i]),
    decreases bytes.len(),
{
    if bytes.len() > 0 {
        let rest = bytes.drop_last();
        let b = bytes.last();
        lemma_pct_encode_url_safe(rest);
        let head = pct_encode_spec(rest);
        let tail = pct_byte(b);
        assert forall|k: int| 0 <= k < tail.len() implies url_safe_char(#[trigger] tail[k]) by {
            if is_unreserved(b) {
                assert(tail[k] == b as char);
                assert((b as char) as u32 == b as u32);
            } else if k > 0 {
                let n: nat = if k == 1 {
                    (b / 16) as nat
                } else {
                    (b % 16) as nat
                };
                assert(tail[k] == hex_upper(n));
            }
        }
        let whole = pct_encode_spec(bytes);
        assert(whole == head + tail);
        assert forall|i: int| 0 <= i < whole.len() implies url_safe_char(#[trigger] whole[i]) by {
            if i < head.len() {
                assert(whole[i] == head[i]);
            } else {
                assert(whole[i] == tail[i - head.len()]);
            }
        }
    }
}

/// A code comes out of the login callback only when the request carries the `state`
/// this login sent: a forged callback without it gets no code.
pub proof fn lemma_code_needs_matching_state(line: Seq<char>, expected_state: Seq<char>)
    ensures
        callback_spec(line, expected_state) is Code ==> ({
            let w = words(line);
            let pairs = form_pairs_spec(split_on(w[1], '?')[1]);
            last_value(pairs, "state"@) == Some(expected_state)
        }),
{
}

/// The browser authorization URL of a PKCE login.
pub fn build_auth_url(
    authorize_url: &str,
    client_id: &str,
    redirect_uri: &str,
    code_challenge: &str,
    state: &str,
) -> (r: String)
    ensures
        r@ == auth_url_spec(authorize_url@, client_id@, redirect_uri@, code_challenge@, state@),
{
    let mut s = to_owned_string(authorize_url);
    push_str(&mut s, "?response_type=code&client_id=");
    push_str(&mut s, pct_encode(client_id).as_str());
    push_str(&mut s, "&redirect_uri=");
    push_str(&mut s, pct_encode(redirect_uri).as_str());
    push_str(&mut s, "&scope=");
    push_str(&mut s, pct_encode(SCOPES).as_str());
    push_str(&mut s, "&code_challenge=");
    push_str(&mut s, pct_encode(code_challenge).as_str());
    push_str(&mut s, "&code_challenge_method=S256&state=");
    push_str(&mut s, pct_encode(state).as_str());
    s
}

/// The refresh token a profile currently holds, from whichever store it uses:
/// the keyring set for `os-store`, the profile file's set for `file`.
pub fn current_refresh_token(
    storage: CredentialStorage,
    file_tokens: Option<&StoredOAuthTokens>,
    keyring_tokens: Option<&StoredOAuthTokens>,
) -> (r: Option<String>)
    ensures
        opt_view(r) == (match (match storage {
            CredentialStorage::OsStore => keyring_tokens,
            CredentialStorage::File => file_tokens,
        }) {
            Some(t) => opt_view(t.refresh_token),
            None => None,
        }),
{
    let tokens = match storage {
        CredentialStorage::OsStore => keyring_tokens,
        CredentialStorage::File => file_tokens,
    };
    match tokens {
        Some(t) => opt_clone(&t.refresh_token),
        None => None,
    }
}


// ---- PKCE ----

/// The URL-safe base64 alphabet (`A-Z a-z 0-9 - _`).
pub open spec fn b64_char(n: nat) -> char {
    if n < 26 {
        ((65 + n) as u32) as char
    } else if n < 52 {
        ((71 + n) as u32) as char
    } else if n < 62 {
        ((n - 4) as u32) as char
    } else if n == 62 {
        '-'
    } else {
        '_'
    }
}

/// URL-safe base64 without padding (RFC 4648 §5): each group of three bytes becomes
/// four characters; a final group of one or two bytes becomes two or three.
pub open spec fn b64url(b: Seq<u8>) -> Seq<char>
    decreases b.len(),
{
    if b.len() == 0 {
        seq![]
    } else if b.len() == 1 {
        seq![b64_char((b[0] / 4) as nat), b64_char(((b[0] % 4) * 16) as nat)]
    } else if b.len() == 2 {
        seq![
            b64_char((b[0] / 4) as nat),
            b64_char(((b[0] % 4) * 16 + b[1] / 16) as nat),
            b64_char(((b[1] % 16) * 4) as nat),
        ]
    } else {
        seq![
            b64_char((b[0] / 4) as nat),
            b64_char(((b[0] % 4) * 16 + b[1] / 16) as nat),
            b64_char(((b[1] % 16) * 4 + b[2] / 64) as nat),
            b64_char((b[2] % 64) as nat),
        ] + b64url(b.subrange(3, b.len() as int))
    }
}

/// Encodes bytes with `base64`'s `URL_SAFE_NO_PAD` engine, which implements
/// URL-safe base64 without padding.
#[verifier::external_body]
fn b64url_encode(bytes: &[u8]) -> (r: String)
    ensures
        r@ == b64url(bytes@),
{
    base64::engine::general_purpose::URL_SAFE_NO_PAD.encode(bytes)
}

/// The SHA-256 digest of a byte string.
pub uninterp spec fn sha256_spec(data: Seq<u8>) -> Seq<u8>;

/// `sha2::Sha256::digest`: the SHA-256 digest of `data`, 32 bytes long.
#[verifier::external_body]
fn sha256(data: &[u8]) -> (r: Vec<u8>)
    ensures
        r@ == sha256_spec(data@),
        r@.len() == 32,
{
    sha2::Sha256::digest(data).to_vec()
}

/// 32 bytes from `rand`'s thread-local generator (`rand::rng().random()`). Nothing
/// is stated of them but their number: they are random.
#[verifier::external_body]
fn random_bytes_32() -> (r: Vec<u8>)
    ensures
        r@.len() == 32,
{
    let mut rng = rand::rng();
    let bytes: [u8; 32] = rng.random();
    bytes.to_vec()
}

/// The S256 code challenge of a PKCE verifier: base64url(SHA-256(verifier)).
pub fn pkce_challenge(verifier: &str) -> (r: String)
    ensures
        r@ == b64url(sha256_spec(vstd::utf8::encode_utf8(verifier@))),
{
    let digest = sha256(verifier.as_bytes());
    b64url_encode(digest.as_slice())
}

/// A fresh PKCE pair `(verifier, challenge)`: the verifier encodes 32 random bytes,
/// the challenge is its S256 transform.
pub fn generate_pkce() -> (r: (String, String))
    ensures
        exists|b: Seq<u8>| b.len() == 32 && r.0@ == b64url(b),
        r.1@ == b64url(sha256_spec(vstd::utf8::encode_utf8(r.0@))),
{
    let bytes = random_bytes_32();
    let verifier = b64url_encode(bytes.as_slice());
    let challenge = pkce_challenge(verifier.as_str());
    (verifier, challenge)
}

/// A fresh OAuth `state`: 32 random bytes, base64url-encoded.
pub fn generate_state() -> (r: String)
    ensures
        exists|b: Seq<u8>| b.len() == 32 && r@ == b64url(b),
{
    let bytes = random_bytes_32();
    b64url_encode(bytes.as_slice())
}

// ---- the login callback ----

/// The `(name, value)` pairs of an `application/x-www-form-urlencoded` query, as
/// `url::form_urlencoded::parse` decodes them.
pub uninterp spec fn form_pairs_spec(query: Seq<char>) -> Seq<(Seq<char>, Seq<char>)>;

/// `url::form_urlencoded::parse(query.as_bytes()).into_owned()`, collected in order.
#[verifier::external_body]
fn form_pairs(query: &str) -> (r: Vec<(String, String)>)
    ensures
        pair_views(r@) == form_pairs_spec(query@),
{
    url::form_urlencoded::parse(query.as_bytes()).into_owned().collect()
}

/// What a request to the login callback comes to.
#[derive(Debug)]
pub enum CallbackOutcome {
    /// The request line has no path.
    Malformed,
    /// No query, or no `code`/`state` in it: answer 204 and keep waiting.
    Ignored,
    /// The `state` differs from the one sent: answer 400 and abort.
    StateMismatch,
    /// The authorization code: answer 200.
    Code(String),
}

pub enum CallbackView {
    Malformed,
    Ignored,
    StateMismatch,
    Code(Seq<char>),
}

impl View for CallbackOutcome {
    type V = CallbackView;

    open spec fn view(&self) -> CallbackView {
        match self {
            CallbackOutcome::Malformed => CallbackView::Malformed,
            CallbackOutcome::Ignored => CallbackView::Ignored,
            CallbackOutcome::StateMismatch => CallbackView::StateMismatch,
            CallbackOutcome::Code(c) => CallbackView::Code(c@),
        }
    }
}

/// The callback rule: the path is the second word of the request line; the query is
/// what follows its first `?` up to the next; `code` and `state` are read from it.
pub open spec fn callback_spec(line: Seq<char>, expected_state: Seq<char>) -> CallbackView {
    let w = words(line);
    if w.len() < 2 {
        CallbackView::Malformed
    } else {
        let parts = split_on(w[1], '?');
        if parts.len() < 2 {
            CallbackView::Ignored
        } else {
            callback_pairs_spec(form_pairs_spec(parts[1]), expected_state)
        }
    }
}

/// What the decoded query pairs of a callback come to: the last `code` and the last
/// `state`; ignored when either is missing, refused when the state differs.
pub open spec fn callback_pairs_spec(pairs: Seq<(Seq<char>, Seq<char>)>, expected_state: Seq<char>) -> CallbackView {
    match (last_value(pairs, "code"@), last_value(pairs, "state"@)) {
        (Some(code), Some(state)) => if state != expected_state {
            CallbackView::StateMismatch
        } else {
            CallbackView::Code(code)
        },
        _ => CallbackView::Ignored,
    }
}

/// Decide what the decoded query pairs of a callback request come to.
pub fn callback_from_pairs(pairs: &Vec<(String, String)>, expected_state: &str) -> (r: CallbackOutcome)
    ensures
        r@ == callback_pairs_spec(pair_views(pairs@), expected_state@),
{
    let code = lookup_last(pairs, "code");
    let state = lookup_last(pairs, "state");
    match (code, state) {
        (Some(c), Some(st)) => {
            if !str_eq(st.as_str(), expected_state) {
                CallbackOutcome::StateMismatch
            } else {
                CallbackOutcome::Code(c)
            }
        },
        _ => CallbackOutcome::Ignored,
    }
}

/// Decide what the first line of an HTTP request to the login callback comes to.
pub fn callback_outcome(request_line: &str, expected_state: &str) -> (r: CallbackOutcome)
    ensures
        r@ == callback_spec(request_line@, expected_state@),
{
    let line = chars_of(request_line);
    let w = words_of(&line);
    if w.len() < 2 {
        return CallbackOutcome::Malformed;
    }
    let parts = split_chars(&w[1], '?');
    proof {
        assert(views(w@)[1] == w@[1]@);
    }
    if parts.len() < 2 {
        return CallbackOutcome::Ignored;
    }
    let query = string_from_chars(&parts[1]);
    proof {
        assert(views(parts@)[1] == parts@[1]@);
    }
    let pairs = form_pairs(query.as_str());
    callback_from_pairs(&pairs, expected_state)
}

/// The page shown in the browser after a successful login.
pub open spec fn success_page() -> Seq<char> {
    "<html><body><h2>Authentication successful</h2><p>You may close this tab.</p></body></html>"@
}

/// The status and body the callback answers with, if any.
pub fn callback_reply(outcome: &CallbackOutcome) -> (r: Option<(u16, &'static str)>)
    ensures
        r == (match outcome@ {
            CallbackView::Malformed => None::<(u16, &'static str)>,
            CallbackView::Ignored => Some((204u16, "")),
            CallbackView::StateMismatch => Some((400u16, "State mismatch.")),
            CallbackView::Code(_) => Some(
                (
                    200u16,
                    "<html><body><h2>Authentication successful</h2><p>You may close this tab.</p></body></html>",
                ),
            ),
        }),
{
    match outcome {
        CallbackOutcome::Malformed => None,
        CallbackOutcome::Ignored => Some((204, "")),
        CallbackOutcome::StateMismatch => Some((400, "State mismatch.")),
        CallbackOutcome::Code(_) => Some(
            (
                200,
                "<html><body><h2>Authentication successful</h2><p>You may close this tab.</p></body></html>",
            ),
        ),
    }
}

pub open spec fn status_line(status: u16) -> Seq<char> {
    if status == 204 {
        "204 No Content"@
    } else if status == 400 {
        "400 Bad Request"@
    } else {
        "200 OK"@
    }
}

pub open spec fn http_response_spec(status: u16, body: Seq<char>, byte_len: nat) -> Seq<char> {
    if body.len() == 0 {
        "HTTP/1.1 "@ + status_line(status) + "\r\nContent-Length: 0\r\nConnection: close\r\n\r\n"@
    } else {
        "HTTP/1.1 "@ + status_line(status) + "\r\nContent-Type: text/html\r\nContent-Length: "@
            + decimal(byte_len) + "\r\nConnection: close\r\n\r\n"@ + body
    }
}

/// The HTTP/1.1 response the callback writes: status line, headers (the length in
/// bytes), and the body if there is one. Statuses other than 204 and 400 read `200 OK`.
pub fn http_response(status: u16, body: &str) -> (r: String)
    ensures
        r@ == http_response_spec(status, body@, body.len() as nat),
{
    let mut s = to_owned_string("HTTP/1.1 ");
    if status == 204 {
        push_str(&mut s, "204 No Content");
    } else if status == 400 {
        push_str(&mut s, "400 Bad Request");
    } else {
        push_str(&mut s, "200 OK");
    }
    if body.is_empty() {
        push_str(&mut s, "\r\nContent-Length: 0\r\nConnection: close\r\n\r\n");
    } else {
        push_str(&mut s, "\r\nContent-Type: text/html\r\nContent-Length: ");
        push_decimal(&mut s, body.len() as u64);
        push_str(&mut s, "\r\nConnection: close\r\n\r\n");
        push_str(&mut s, body);
    }
    s
}

// ---- obtaining a bearer ----

/// What to do to obtain an access token.
#[derive(Debug)]
pub enum TokenPlan {
    /// The stored access token is still valid.
    Use(String),
    /// Refresh with this refresh token.
    Refresh(String),
}

/// Why no access token can be obtained; holds the profile name.
#[derive(Debug)]
pub enum TokenError {
    /// No token set is stored.
    NoSession(String),
    /// The stored set expired and holds no refresh token.
    Expired(String),
}

impl TokenError {
    pub open spec fn message(&self) -> Seq<char> {
        match self {
            TokenError::NoSession(n) => "No OAuth session for '"@ + n@ + "'. Run `nestr auth login`."@,
            TokenError::Expired(n) => "OAuth session expired for '"@ + n@
                + "'. Run `nestr auth login`."@,
        }
    }

    pub fn to_string(&self) -> (r: String)
        ensures
            r@ == self.message(),
    {
        match self {
            TokenError::NoSession(n) => {
                let mut s = to_owned_string("No OAuth session for '");
                push_str(&mut s, n.as_str());
                push_str(&mut s, "'. Run `nestr auth login`.");
                s
            },
            TokenError::Expired(n) => {
                let mut s = to_owned_string("OAuth session expired for '");
                push_str(&mut s, n.as_str());
                push_str(&mut s, "'. Run `nestr auth login`.");
                s
            },
        }
    }
}

/// Decide how to obtain a bearer from the token set of the profile's store (the
/// keyring set for `os-store`, the profile file's for `file`) at time `now`: use a
/// valid access token; refresh an expired one that has a refresh token; else fail.
pub fn token_plan(
    profile_name: &str,
    storage: CredentialStorage,
    file_tokens: Option<&StoredOAuthTokens>,
    keyring_tokens: Option<&StoredOAuthTokens>,
    now: u64,
) -> (r: Result<TokenPlan, TokenError>)
    ensures
        ({
            let current = match storage {
                CredentialStorage::OsStore => keyring_tokens,
                CredentialStorage::File => file_tokens,
            };
            match current {
                None => r matches Err(TokenError::NoSession(n)) && n@ == profile_name@,
                Some(t) => if valid_at_spec(t.expiry, now) {
                    r matches Ok(TokenPlan::Use(a)) && a@ == t.access_token@
                } else {
                    match t.refresh_token {
                        Some(rt) => r matches Ok(TokenPlan::Refresh(x)) && x@ == rt@,
                        None => r matches Err(TokenError::Expired(n)) && n@ == profile_name@,
                    }
                },
            }
        }),
{
    let current = match storage {
        CredentialStorage::OsStore => keyring_tokens,
        CredentialStorage::File => file_tokens,
    };
    match current {
        None => Err(TokenError::NoSession(to_owned_string(profile_name))),
        Some(t) => {
            if t.is_valid_at(now) {
                Ok(TokenPlan::Use(t.access_token.clone()))
            } else {
                match &t.refresh_token {
                    Some(rt) => Ok(TokenPlan::Refresh(rt.clone())),
                    None => Err(TokenError::Expired(to_owned_string(profile_name))),
                }
            }
        },
    }
}

/// After a refresh at `now`: the new bearer, and for `file` storage the token set the
/// caller must persist in the profile (`os-store` persists to the keyring instead).
pub fn after_refresh(storage: CredentialStorage, refreshed: &TokenResponse, now: u64) -> (r: (
    String,
    Option<StoredOAuthTokens>,
))
    ensures
        r.0@ == refreshed.access_token@,
        match storage {
            CredentialStorage::OsStore => r.1 is None,
            CredentialStorage::File => r.1 matches Some(t) && t.access_token@
                == refreshed.access_token@ && opt_view(t.refresh_token) == opt_view(
                refreshed.refresh_token,
            ) && opt_view(t.id_token) == opt_view(refreshed.id_token) && t.expiry == expiry_from(
                refreshed.expires_in,
                now,
            ),
        },
{
    match storage {
        CredentialStorage::OsStore => (refreshed.access_token.clone(), None),
        CredentialStorage::File => {
            let stored = tokens_to_stored_at(refreshed, now);
            (stored.access_token.clone(), Some(stored))
        },
    }
}

// ---- the token endpoint ----

/// The redirect URI of the loopback callback on `port`.
pub fn redirect_uri(port: u16) -> (r: String)
    ensures
        r@ == "http://127.0.0.1:"@ + decimal(port as nat) + "/callback"@,
{
    let mut s = to_owned_string("http://127.0.0.1:");
    push_decimal(&mut s, port as u64);
    push_str(&mut s, "/callback");
    s
}

fn form_pair(k: &str, v: &str) -> (r: (String, String))
    ensures
        r.0@ == k@,
        r.1@ == v@,
{
    (to_owned_string(k), to_owned_string(v))
}

/// The token-endpoint form that exchanges an authorization code (PKCE).
pub fn code_exchange_form(client_id: &str, code: &str, redirect_uri: &str, verifier: &str) -> (r: Vec<
    (String, String),
>)
    ensures
        pair_views(r@) == seq![
            ("grant_type"@, "authorization_code"@),
            ("client_id"@, client_id@),
            ("code"@, code@),
            ("redirect_uri"@, redirect_uri@),
            ("code_verifier"@, verifier@),
        ],
{
    let mut f: Vec<(String, String)> = Vec::new();
    f.push(form_pair("grant_type", "authorization_code"));
    f.push(form_pair("client_id", client_id));
    f.push(form_pair("code", code));
    f.push(form_pair("redirect_uri", redirect_uri));
    f.push(form_pair("code_verifier", verifier));
    assert(pair_views(f@) =~= seq![
        ("grant_type"@, "authorization_code"@),
        ("client_id"@, client_id@),
        ("code"@, code@),
        ("redirect_uri"@, redirect_uri@),
        ("code_verifier"@, verifier@),
    ]);
    f
}

/// The token-endpoint form that refreshes an access token.
pub fn refresh_form(client_id: &str, refresh_token: &str) -> (r: Vec<(String, String)>)
    ensures
        pair_views(r@) == seq![
            ("grant_type"@, "refresh_token"@),
            ("client_id"@, client_id@),
            ("refresh_token"@, refresh_token@),
        ],
{
    let mut f: Vec<(String, String)> = Vec::new();
    f.push(form_pair("grant_type", "refresh_token"));
    f.push(form_pair("client_id", client_id));
    f.push(form_pair("refresh_token", refresh_token));
    assert(pair_views(f@) =~= seq![
        ("grant_type"@, "refresh_token"@),
        ("client_id"@, client_id@),
        ("refresh_token"@, refresh_token@),
    ]);
    f
}

/// The refresh token to keep after a refresh: the rotated one when the endpoint sent
/// one, else the current one.
pub fn rotated_refresh_token(current: &str, resp: &TokenResponse) -> (r: String)
    ensures
        r@ == match resp.refresh_token {
            Some(t) => t@,
            None => current@,
        },
{
    match &resp.refresh_token {
        Some(t) => t.clone(),
        None => to_owned_string(current),
    }
}

} // verus!

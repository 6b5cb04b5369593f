//! OAuth 2.0 with PKCE and a loopback callback: verifier and challenge,
//! state, the authorization URL, reading the callback, and choosing the
//! client id, token bridge and refresh token.

use vstd::prelude::*;
use vstd::string::*;
use vstd::utf8::*;
use rand::Rng;
use base64::Engine;
use sha2::Digest;
use crate::text::{
    chars_of, concat, contains_chars, contains_seq, decimal_spec, decimal_string, digit_char,
    is_white_space, is_whitespace_char, push_char, str_eq, string_of, trim, trim_spec,
};
use crate::model::opt_str;

verus! {

/// The characters that a PKCE verifier is drawn from (RFC 7636 unreserved).
pub open spec fn verifier_charset() -> Seq<char> {
    "ABCDEFGHIJKLMNOPQRSTUVWXYZabcdefghijklmnopqrstuvwxyz0123456789-._~"@
}

/// Draws a uniformly random index below `n` (`rand::thread_rng().gen_range(0..n)`,
/// which panics on an empty range). The contract claims only that the index
/// is below `n`.
#[verifier::external_body]
fn random_below(n: usize) -> (r: usize)
    requires
        n > 0,
    ensures
        r < n,
{
    rand::thread_rng().gen_range(0..n)
}

/// Draws 16 random bytes (`rand::thread_rng().gen::<[u8; 16]>()`). The
/// contract claims only their number.
#[verifier::external_body]
fn random_bytes16() -> (r: Vec<u8>)
    ensures
        r@.len() == 16,
{
    let b: [u8; 16] = rand::thread_rng().gen();
    b.to_vec()
}

/// The verifier whose characters are the unreserved characters at the given
/// indices (`A`–`Z`, `a`–`z`, `0`–`9`, `-`, `.`, `_`, `~`, in that order).
pub fn verifier_from_indices(indices: &Vec<usize>) -> (r: String)
    requires
        forall|i: int| 0 <= i < indices@.len() ==> #[trigger] indices@[i] < 66,
    ensures
        r@.len() == indices@.len(),
        forall|i: int| 0 <= i < indices@.len() ==> #[trigger] r@[i] == verifier_charset()[indices@[i] as int],
{
    let charset = chars_of("ABCDEFGHIJKLMNOPQRSTUVWXYZabcdefghijklmnopqrstuvwxyz0123456789-._~");
    proof {
        reveal_strlit("ABCDEFGHIJKLMNOPQRSTUVWXYZabcdefghijklmnopqrstuvwxyz0123456789-._~");
    }
    let mut out = String::new();
    let mut i: usize = 0;
    while i < indices.len()
        invariant
            i <= indices@.len(),
            forall|k: int| 0 <= k < indices@.len() ==> #[trigger] indices@[k] < 66,
            charset@ == verifier_charset(),
            charset@.len() == 66,
            out@.len() == i,
            forall|k: int| 0 <= k < i ==> #[trigger] out@[k] == verifier_charset()[indices@[k] as int],
        decreases indices@.len() - i,
    {
        let j = indices[i];
        push_char(&mut out, charset[j]);
        i = i + 1;
    }
    out
}

/// A fresh PKCE code verifier: 64 characters drawn from the unreserved set.
pub fn pkce_verifier() -> (r: String)
    ensures
        r@.len() == 64,
        forall|i: int| 0 <= i < 64 ==> verifier_charset().contains(#[trigger] r@[i]),
{
    let mut indices: Vec<usize> = Vec::new();
    while indices.len() < 64
        invariant
            indices@.len() <= 64,
            forall|k: int| 0 <= k < indices@.len() ==> #[trigger] indices@[k] < 66,
        decreases 64 - indices@.len(),
    {
        indices.push(random_below(66));
    }
    let r = verifier_from_indices(&indices);
    proof {
        reveal_strlit("ABCDEFGHIJKLMNOPQRSTUVWXYZabcdefghijklmnopqrstuvwxyz0123456789-._~");
        assert(verifier_charset().len() == 66);
    }
    assert forall|i: int| 0 <= i < 64 implies verifier_charset().contains(#[trigger] r@[i]) by {
        assert(r@[i] == verifier_charset()[indices@[i] as int]);
    }
    r
}

/// The SHA-256 digest of `data`.
pub uninterp spec fn sha256(data: Seq<u8>) -> Seq<u8>;

/// The character of a 6-bit value in the URL-safe Base64 alphabet
/// (`A`–`Z`, `a`–`z`, `0`–`9`, `-`, `_`).
pub open spec fn base64_url_char(v: int) -> char {
    if v < 26 {
        (65 + v) as char
    } else if v < 52 {
        (97 + v - 26) as char
    } else if v < 62 {
        (48 + v - 52) as char
    } else if v == 62 {
        '-'
    } else {
        '_'
    }
}

/// The unpadded URL-safe Base64 encoding of `data`: four characters for each
/// three bytes, three for a final two bytes, two for a final byte.
pub open spec fn base64_url_no_pad(data: Seq<u8>) -> Seq<char>
    decreases data.len(),
{
    let b0 = data[0] as int;
    let b1 = data[1] as int;
    let b2 = data[2] as int;
    if data.len() == 0 {
        Seq::empty()
    } else if data.len() == 1 {
        seq![base64_url_char(b0 / 4), base64_url_char((b0 % 4) * 16)]
    } else if data.len() == 2 {
        seq![
            base64_url_char(b0 / 4),
            base64_url_char((b0 % 4) * 16 + b1 / 16),
            base64_url_char((b1 % 16) * 4),
        ]
    } else {
        seq![
            base64_url_char(b0 / 4),
            base64_url_char((b0 % 4) * 16 + b1 / 16),
            base64_url_char((b1 % 16) * 4 + b2 / 64),
            base64_url_char(b2 % 64),
        ] + base64_url_no_pad(data.subrange(3, data.len() as int))
    }
}

/// Calls `sha2::Sha256::digest`. The contract claims that the digest depends
/// on `data` alone and is 32 bytes long.
#[verifier::external_body]
fn sha256_digest(data: &[u8]) -> (r: Vec<u8>)
    ensures
        r@ == sha256(data@),
        r@.len() == 32,
{
    sha2::Sha256::digest(data).to_vec()
}

/// Calls `base64::engine::general_purpose::URL_SAFE_NO_PAD.encode`: standard
/// Base64 with the URL-safe alphabet and no `=` padding.
#[verifier::external_body]
fn base64_url_encode(data: &[u8]) -> (r: String)
    ensures
        r@ == base64_url_no_pad(data@),
{
    base64::engine::general_purpose::URL_SAFE_NO_PAD.encode(data)
}

/// The S256 PKCE challenge for a verifier: Base64url (no padding) of the
/// SHA-256 of its UTF-8 bytes.
pub fn pkce_challenge_s256(verifier: &str) -> (r: String)
    ensures
        r@ == base64_url_no_pad(sha256(encode_utf8(verifier@))),
{
    let d = sha256_digest(verifier.as_bytes());
    base64_url_encode(d.as_slice())
}

/// Two lower-case hex digits for each byte, high nibble first.
pub open spec fn hex_pairs(bytes: Seq<u8>) -> Seq<char>
    decreases bytes.len(),
{
    if bytes.len() == 0 {
        Seq::empty()
    } else {
        let b = bytes.last();
        hex_pairs(bytes.drop_last()) + seq![digit_char((b / 16) as int), digit_char((b % 16) as int)]
    }
}

/// The bytes in lower-case hex, two digits per byte.
pub fn hex_lower(bytes: &[u8]) -> (s: String)
    ensures
        s@ == hex_pairs(bytes@),
        s@.len() == 2 * bytes@.len(),
{
    let mut out = String::new();
    let mut i: usize = 0;
    while i < bytes.len()
        invariant
            i <= bytes@.len(),
            out@ == hex_pairs(bytes@.take(i as int)),
            out@.len() == 2 * i,
        decreases bytes@.len() - i,
    {
        let b = bytes[i];
        let hi = b / 16;
        let lo = b % 16;
        let ch = if hi < 10 {
            (48 + hi) as char
        } else {
            (87 + hi) as char
        };
        let cl = if lo < 10 {
            (48 + lo) as char
        } else {
            (87 + lo) as char
        };
        push_char(&mut out, ch);
        push_char(&mut out, cl);
        proof {
            let t = bytes@.take(i as int + 1);
            assert(t.drop_last() =~= bytes@.take(i as int));
            assert(t.last() == b);
        }
        i = i + 1;
    }
    proof {
        assert(bytes@.take(bytes@.len() as int) =~= bytes@);
    }
    out
}

/// Whether every character of `s` is a lower-case hex digit.
pub open spec fn is_lower_hex(s: Seq<char>) -> bool {
    forall|i: int| 0 <= i < s.len() ==> ('0' <= #[trigger] s[i] <= '9' || 'a' <= s[i] <= 'f')
}

proof fn lemma_hex_pairs_digits(bytes: Seq<u8>)
    ensures
        is_lower_hex(hex_pairs(bytes)),
        hex_pairs(bytes).len() == 2 * bytes.len(),
    decreases bytes.len(),
{
    if bytes.len() > 0 {
        lemma_hex_pairs_digits(bytes.drop_last());
        let b = bytes.last();
        let p = hex_pairs(bytes.drop_last());
        let q = seq![digit_char((b / 16) as int), digit_char((b % 16) as int)];
        assert forall|i: int| 0 <= i < (p + q).len() implies ('0' <= #[trigger] (p + q)[i] <= '9'
            || 'a' <= (p + q)[i] <= 'f') by {
            if i >= p.len() {
                let d: int = if i == p.len() {
                    (b / 16) as int
                } else {
                    (b % 16) as int
                };
                assert((p + q)[i] == digit_char(d));
            }
        }
    }
}

/// A fresh OAuth `state` value: 16 random bytes in lower-case hex (32 digits).
pub fn random_state() -> (r: String)
    ensures
        r@.len() == 32,
        is_lower_hex(r@),
{
    let b = random_bytes16();
    let r = hex_lower(b.as_slice());
    proof {
        lemma_hex_pairs_digits(b@);
    }
    r
}

/// The prefix of the OAuth `state` parameter of this app.
pub const OAUTH_STATE_PREFIX: &'static str = "agenda_";

/// The `state` for a login: `agenda_` followed by a fresh random state.
pub fn oauth_state() -> (r: String)
    ensures
        exists|h: Seq<char>| r@ == "agenda_"@ + h && h.len() == 32 && is_lower_hex(h),
{
    let h = random_state();
    let r = concat(OAUTH_STATE_PREFIX, h.as_str());
    assert(r@ == "agenda_"@ + h@);
    r
}

/// The loopback redirect URI for a port.
pub open spec fn redirect_uri_spec(port: u16) -> Seq<char> {
    "http://127.0.0.1:"@ + decimal_spec(port as nat) + "/oauth2callback"@
}

/// The loopback redirect URI `http://127.0.0.1:<port>/oauth2callback`.
pub fn loopback_redirect_uri(port: u16) -> (r: String)
    ensures
        r@ == redirect_uri_spec(port),
{
    let p = decimal_string(port as u64);
    let a = concat("http://127.0.0.1:", p.as_str());
    concat(a.as_str(), "/oauth2callback")
}

/// The Google authorization endpoint.
pub const AUTH_URL: &'static str = "https://accounts.google.com/o/oauth2/v2/auth";

/// The scopes asked for: OpenID profile and e-mail, and calendar events.
pub const SCOPE: &'static str = "openid email profile https://www.googleapis.com/auth/calendar.events";

/// What `url::Url::parse(base)` followed by `append_pair` of each pair, in
/// order, serialises to; `Err` with the parse error's message when `base`
/// does not parse.
pub uninterp spec fn url_with_query(base: Seq<char>, pairs: Seq<(Seq<char>, Seq<char>)>) -> Result<Seq<char>, Seq<char>>;

/// The texts of a list of key/value pairs.
pub open spec fn pair_texts(pairs: Seq<(String, String)>) -> Seq<(Seq<char>, Seq<char>)> {
    pairs.map_values(|p: (String, String)| (p.0@, p.1@))
}

/// Calls `url::Url::parse(base)`, then `query_pairs_mut().append_pair(k, v)`
/// for each pair, and returns the URL text. The contract claims only that the
/// result depends on `base` and the pairs alone.
#[verifier::external_body]
pub(crate) fn url_append_pairs(base: &str, pairs: &Vec<(String, String)>) -> (r: Result<String, String>)
    ensures
        match r {
            Ok(s) => url_with_query(base@, pair_texts(pairs@)) == Ok::<Seq<char>, Seq<char>>(s@),
            Err(e) => url_with_query(base@, pair_texts(pairs@)) == Err::<Seq<char>, Seq<char>>(e@),
        },
{
    match url::Url::parse(base) {
        Ok(mut u) => {
            {
                let mut q = u.query_pairs_mut();
                for (k, v) in pairs {
                    q.append_pair(k, v);
                }
            }
            Ok(u.as_str().to_string())
        },
        Err(e) => Err(e.to_string()),
    }
}

/// The query pairs of the authorization request, in order.
pub open spec fn auth_pairs(client_id: Seq<char>, redirect_uri: Seq<char>, challenge: Seq<char>, state: Seq<char>) -> Seq<(Seq<char>, Seq<char>)> {
    seq![
        ("client_id"@, client_id),
        ("redirect_uri"@, redirect_uri),
        ("response_type"@, "code"@),
        ("scope"@, SCOPE@),
        ("code_challenge"@, challenge),
        ("code_challenge_method"@, "S256"@),
        ("state"@, state),
        ("access_type"@, "offline"@),
        ("prompt"@, "consent"@),
    ]
}

fn pair(k: &str, v: &str) -> (p: (String, String))
    ensures
        p.0@ == k@,
        p.1@ == v@,
{
    (k.to_owned(), v.to_owned())
}

/// The URL that the browser opens to log in: code flow with PKCE (S256),
/// offline access and a forced consent prompt.
pub fn authorization_url(client_id: &str, redirect_uri: &str, challenge: &str, state: &str) -> (r: Result<String, String>)
    ensures
        match r {
            Ok(s) => url_with_query(AUTH_URL@, auth_pairs(client_id@, redirect_uri@, challenge@, state@))
                == Ok::<Seq<char>, Seq<char>>(s@),
            Err(e) => url_with_query(AUTH_URL@, auth_pairs(client_id@, redirect_uri@, challenge@, state@))
                == Err::<Seq<char>, Seq<char>>(e@),
        },
{
    let mut pairs: Vec<(String, String)> = Vec::new();
    pairs.push(pair("client_id", client_id));
    pairs.push(pair("redirect_uri", redirect_uri));
    pairs.push(pair("response_type", "code"));
    pairs.push(pair("scope", SCOPE));
    pairs.push(pair("code_challenge", challenge));
    pairs.push(pair("code_challenge_method", "S256"));
    pairs.push(pair("state", state));
    pairs.push(pair("access_type", "offline"));
    pairs.push(pair("prompt", "consent"));
    assert(pair_texts(pairs@) =~= auth_pairs(client_id@, redirect_uri@, challenge@, state@));
    url_append_pairs(AUTH_URL, &pairs)
}

/// The run of non-white-space characters at the start of `s`.
pub open spec fn leading_word(s: Seq<char>) -> Seq<char>
    decreases s.len(),
{
    if s.len() > 0 && !is_white_space(s[0]) {
        seq![s[0]] + leading_word(s.drop_first())
    } else {
        Seq::empty()
    }
}

/// The first white-space separated word of `s` (empty when there is none).
pub open spec fn first_word(s: Seq<char>) -> Seq<char> {
    leading_word(crate::text::trim_start_spec(s))
}

/// What follows the first word of `s`.
pub open spec fn after_first_word(s: Seq<char>) -> Seq<char> {
    let t = crate::text::trim_start_spec(s);
    t.subrange(leading_word(t).len() as int, t.len() as int)
}

/// What `s.split_whitespace().nth(1)` gives: the second word, if any.
pub open spec fn second_word(s: Seq<char>) -> Option<Seq<char>> {
    let w = first_word(after_first_word(s));
    if w.len() == 0 {
        None
    } else {
        Some(w)
    }
}

proof fn lemma_leading_word_len(s: Seq<char>)
    ensures
        leading_word(s).len() <= s.len(),
        forall|i: int| 0 <= i < leading_word(s).len() ==> #[trigger] leading_word(s)[i] == s[i]
            && !is_white_space(s[i]),
        leading_word(s).len() < s.len() ==> is_white_space(s[leading_word(s).len() as int]),
    decreases s.len(),
{
    if s.len() > 0 && !is_white_space(s[0]) {
        lemma_leading_word_len(s.drop_first());
        let w = leading_word(s.drop_first());
        assert forall|i: int| 0 <= i < leading_word(s).len() implies #[trigger] leading_word(s)[i]
            == s[i] && !is_white_space(s[i]) by {
            if i > 0 {
                assert(leading_word(s)[i] == w[i - 1]);
            }
        }
    }
}

/// Index of the first non-white-space character at or after `i`.
fn skip_white(v: &Vec<char>, i: usize) -> (j: usize)
    requires
        i <= v@.len(),
    ensures
        i <= j <= v@.len(),
        crate::text::trim_start_spec(v@.subrange(i as int, v@.len() as int)) == v@.subrange(
            j as int,
            v@.len() as int,
        ),
        j < v@.len() ==> !is_white_space(v@[j as int]),
{
    let mut j = i;
    while j < v.len() && is_whitespace_char(v[j])
        invariant
            i <= j <= v@.len(),
            crate::text::trim_start_spec(v@.subrange(i as int, v@.len() as int))
                == crate::text::trim_start_spec(v@.subrange(j as int, v@.len() as int)),
        decreases v@.len() - j,
    {
        assert(v@.subrange(j as int, v@.len() as int).drop_first() =~= v@.subrange(
            j as int + 1,
            v@.len() as int,
        ));
        j = j + 1;
    }
    j
}

/// Index just after the word that starts at `i`.
fn skip_word(v: &Vec<char>, i: usize) -> (j: usize)
    requires
        i <= v@.len(),
    ensures
        i <= j <= v@.len(),
        leading_word(v@.subrange(i as int, v@.len() as int)) == v@.subrange(i as int, j as int),
{
    let mut j = i;
    while j < v.len() && !is_whitespace_char(v[j])
        invariant
            i <= j <= v@.len(),
            leading_word(v@.subrange(i as int, v@.len() as int)) == v@.subrange(i as int, j as int)
                + leading_word(v@.subrange(j as int, v@.len() as int)),
        decreases v@.len() - j,
    {
        let ghost r = v@.subrange(j as int, v@.len() as int);
        assert(r.drop_first() =~= v@.subrange(j as int + 1, v@.len() as int));
        assert(leading_word(r) == seq![v@[j as int]] + leading_word(r.drop_first()));
        assert(v@.subrange(i as int, j as int + 1) =~= v@.subrange(i as int, j as int) + seq![v@[j as int]]);
        j = j + 1;
    }
    let ghost r = v@.subrange(j as int, v@.len() as int);
    assert(leading_word(r) =~= Seq::<char>::empty());
    assert(v@.subrange(i as int, j as int) + Seq::<char>::empty() =~= v@.subrange(i as int, j as int));
    j
}

/// The second white-space separated word of `s` (`split_whitespace().nth(1)`).
pub fn second_word_of(s: &str) -> (r: Option<String>)
    ensures
        opt_str(r) == second_word(s@),
{
    let v = chars_of(s);
    let a = skip_white(&v, 0);
    let b = skip_word(&v, a);
    let c = skip_white(&v, b);
    let d = skip_word(&v, c);
    proof {
        let n = v@.len() as int;
        assert(v@.subrange(0, n) =~= v@);
        let t = crate::text::trim_start_spec(v@);
        assert(t == v@.subrange(a as int, n));
        assert(leading_word(t) == v@.subrange(a as int, b as int));
        assert(after_first_word(v@) =~= v@.subrange(b as int, n));
        assert(first_word(after_first_word(v@)) == v@.subrange(c as int, d as int));
    }
    if d > c {
        let mut w: Vec<char> = Vec::new();
        let mut k = c;
        while k < d
            invariant
                c <= k <= d <= v@.len(),
                w@ == v@.subrange(c as int, k as int),
            decreases d - k,
        {
            w.push(v[k]);
            assert(v@.subrange(c as int, k as int + 1) =~= v@.subrange(c as int, k as int).push(v@[k as int]));
            k = k + 1;
        }
        Some(string_of(w.as_slice()))
    } else {
        None
    }
}

/// The query pairs (percent-decoded, in order) of what `url::Url::parse`
/// reads from `url`, or the parse error's message.
pub uninterp spec fn url_query_pairs(url: Seq<char>) -> Result<Seq<(Seq<char>, Seq<char>)>, Seq<char>>;

/// Calls `url::Url::parse(url)` and collects `query_pairs()` as owned
/// strings. The contract claims only that the result depends on `url` alone.
#[verifier::external_body]
fn parse_query_pairs(url: &str) -> (r: Result<Vec<(String, String)>, String>)
    ensures
        match r {
            Ok(v) => url_query_pairs(url@) == Ok::<Seq<(Seq<char>, Seq<char>)>, Seq<char>>(pair_texts(v@)),
            Err(e) => url_query_pairs(url@) == Err::<Seq<(Seq<char>, Seq<char>)>, Seq<char>>(e@),
        },
{
    match url::Url::parse(url) {
        Ok(u) => Ok(u.query_pairs().map(|(k, v)| (k.into_owned(), v.into_owned())).collect()),
        Err(e) => Err(e.to_string()),
    }
}

/// The value of the last pair named `key`.
pub open spec fn last_value(pairs: Seq<(Seq<char>, Seq<char>)>, key: Seq<char>) -> Option<Seq<char>>
    decreases pairs.len(),
{
    if pairs.len() == 0 {
        None
    } else if pairs.last().0 == key {
        Some(pairs.last().1)
    } else {
        last_value(pairs.drop_last(), key)
    }
}

fn last_value_of(pairs: &Vec<(String, String)>, key: &str) -> (r: Option<String>)
    ensures
        opt_str(r) == last_value(pair_texts(pairs@), key@),
{
    let mut found: Option<String> = None;
    let mut i: usize = 0;
    while i < pairs.len()
        invariant
            i <= pairs@.len(),
            opt_str(found) == last_value(pair_texts(pairs@).take(i as int), key@),
        decreases pairs@.len() - i,
    {
        proof {
            let t = pair_texts(pairs@).take(i as int + 1);
            assert(t.drop_last() =~= pair_texts(pairs@).take(i as int));
            assert(t.last() == (pairs@[i as int].0@, pairs@[i as int].1@));
        }
        if str_eq(pairs[i].0.as_str(), key) {
            found = Some(pairs[i].1.clone());
        }
        i = i + 1;
    }
    assert(pair_texts(pairs@).take(pairs@.len() as int) =~= pair_texts(pairs@));
    found
}

/// The page shown in the browser after a successful login.
pub const OK_HTML: &'static str = r#"<!doctype html>
<html lang="pt">
<head>
  <meta charset="utf-8" />
  <meta name="viewport" content="width=device-width, initial-scale=1" />
  <title>Agenda — Login concluído</title>
  <style>
    :root { color-scheme: dark light; }
    body {
      margin: 0;
      min-height: 100dvh;
      display: grid;
      place-items: center;
      font-family: Inter, Segoe UI, Roboto, Arial, sans-serif;
      background: radial-gradient(1200px 600px at 20% -10%, #6b8afd22, transparent 60%),
                  radial-gradient(900px 500px at 120% 110%, #41d1ff22, transparent 55%),
                  #0b1020;
      color: #e8ecff;
    }
    .card {
      width: min(560px, 92vw);
      background: #121936;
      border: 1px solid #2a356a;
      border-radius: 16px;
      box-shadow: 0 10px 40px #00000055;
      padding: 28px 24px;
      text-align: center;
    }
    .ok {
      width: 52px; height: 52px; margin: 0 auto 14px;
      border-radius: 50%;
      display: grid; place-items: center;
      background: #1f8f4e33; border: 1px solid #41d17d66;
      color: #7dffb2; font-size: 28px; font-weight: 700;
    }
    h1 { margin: 0 0 10px; font-size: 22px; line-height: 1.3; }
    p { margin: 0; color: #b7c0ea; line-height: 1.5; }
    .muted { margin-top: 10px; font-size: 13px; opacity: 0.9; }
    button {
      margin-top: 18px;
      border: 1px solid #3a4c95;
      background: #1a2550;
      color: #e8ecff;
      border-radius: 10px;
      padding: 10px 14px;
      cursor: pointer;
      font-weight: 600;
    }
    button:hover { background: #22306a; }
  </style>
</head>
<body>
  <main class="card" role="main" aria-live="polite">
    <div class="ok">✓</div>
    <h1>Login com Google concluído</h1>
    <p>Podes voltar para a app Agenda. Esta aba pode ser fechada.</p>
    <p class="muted">Se a app não atualizar automaticamente, clica em “Sincronizar”.</p>
    <button type="button" onclick="window.close()">Fechar aba</button>
  </main>
  <script>setTimeout(function(){ try{ window.close(); }catch(_){} }, 1200);</script>
</body>
</html>"#;

/// The page shown in the browser after a failed login.
pub const FAIL_HTML: &'static str = r#"<!doctype html>
<html lang="pt">
<head>
  <meta charset="utf-8" />
  <meta name="viewport" content="width=device-width, initial-scale=1" />
  <title>Agenda — Falha no login</title>
  <style>
    body {
      margin: 0; min-height: 100dvh; display: grid; place-items: center;
      font-family: Inter, Segoe UI, Roboto, Arial, sans-serif;
      background: #120d1a; color: #f8e9ee;
    }
    .card {
      width: min(560px, 92vw);
      background: #231126;
      border: 1px solid #5a2b56;
      border-radius: 16px;
      padding: 24px;
      text-align: center;
    }
    h1 { margin: 0 0 10px; font-size: 22px; }
    p { margin: 0; color: #f3cdd8; line-height: 1.5; }
  </style>
</head>
<body>
  <main class="card" role="main" aria-live="polite">
    <h1>Falha no login Google</h1>
    <p>Volta para a app Agenda e tenta novamente.</p>
  </main>
</body>
</html>"#;

/// The HTTP answer written back on the callback connection.
pub open spec fn http_answer(status_line: Seq<char>, body: Seq<char>) -> Seq<char> {
    status_line + "Content-Type: text/html; charset=utf-8\r\nContent-Length: "@ + decimal_spec(
        encode_utf8(body).len(),
    ) + "\r\nConnection: close\r\n\r\n"@ + body
}

fn http_answer_text(status_line: &str, body: &str) -> (r: String)
    ensures
        r@ == http_answer(status_line@, body@),
{
    let n = body.as_bytes().len();
    let len = decimal_string(n as u64);
    let a = concat(status_line, "Content-Type: text/html; charset=utf-8\r\nContent-Length: ");
    let b = concat(a.as_str(), len.as_str());
    let c = concat(b.as_str(), "\r\nConnection: close\r\n\r\n");
    concat(c.as_str(), body)
}

/// How the browser's request on the loopback callback ends the login: the
/// answer to write back (none when the request line does not make a URL) and
/// the authorization code or the error.
#[derive(Debug, PartialEq)]
pub struct CallbackOutcome {
    pub response: Option<String>,
    pub result: Result<String, String>,
}

/// The path of the request line: its second word, else `/`.
pub open spec fn request_path(first_line: Seq<char>) -> Seq<char> {
    match second_word(first_line) {
        Some(p) => p,
        None => "/"@,
    }
}

/// The outcome of a callback request as (answer, result), given the query
/// pairs of its URL: a reported error is refused (with its description when
/// there is one); a state other than the expected one is refused; a code is
/// accepted; otherwise the code is missing.
pub open spec fn callback_spec(pairs: Seq<(Seq<char>, Seq<char>)>, expected_state: Seq<char>) -> (Seq<char>, Result<Seq<char>, Seq<char>>) {
    let bad = "HTTP/1.1 400 Bad Request\r\n"@;
    match last_value(pairs, "error"@) {
        Some(err) => {
            let detail = match last_value(pairs, "error_description"@) {
                Some(d) => d,
                None => Seq::empty(),
            };
            let msg = if detail.len() == 0 {
                err
            } else {
                err + ": "@ + detail
            };
            (http_answer(bad, FAIL_HTML@), Err("OAuth recusado: "@ + msg))
        },
        None => if last_value(pairs, "state"@) != Some(expected_state) {
            (http_answer(bad, FAIL_HTML@), Err("OAuth: estado inválido no callback local."@))
        } else {
            match last_value(pairs, "code"@) {
                Some(c) => (http_answer("HTTP/1.1 200 OK\r\n"@, OK_HTML@), Ok(c)),
                None => (
                    http_answer(bad, FAIL_HTML@),
                    Err("OAuth: código em falta no callback local."@),
                ),
            }
        },
    }
}

/// A callback is accepted only when it reports no error and carries the
/// expected state and a code; the accepted value is that code, and the
/// browser is then told 200 OK, and otherwise 400.
pub proof fn callback_accepts_only_expected_state(pairs: Seq<(Seq<char>, Seq<char>)>, expected: Seq<char>)
    ensures
        callback_spec(pairs, expected).1 matches Ok(c) ==> {
            &&& last_value(pairs, "error"@) is None
            &&& last_value(pairs, "state"@) == Some(expected)
            &&& last_value(pairs, "code"@) == Some(c)
        },
        (callback_spec(pairs, expected).1 is Ok) == (callback_spec(pairs, expected).0 == http_answer(
            "HTTP/1.1 200 OK\r\n"@,
            OK_HTML@,
        )),
{
    reveal_strlit("HTTP/1.1 200 OK\r\n");
    reveal_strlit("HTTP/1.1 400 Bad Request\r\n");
    let ok = http_answer("HTTP/1.1 200 OK\r\n"@, OK_HTML@);
    let bad = http_answer("HTTP/1.1 400 Bad Request\r\n"@, FAIL_HTML@);
    assert(ok[9] == '2');
    assert(bad[9] == '4');
}

/// Reads the first line of the browser's request on the loopback callback and
/// decides the answer and the outcome of the login.
pub fn oauth_callback_outcome(first_line: &str, expected_state: &str) -> (r: CallbackOutcome)
    ensures
        ({
            let url = "http://127.0.0.1"@ + request_path(first_line@);
            match url_query_pairs(url) {
                Err(e) => r.response is None && (r.result matches Err(m) && m@
                    == "OAuth: callback inválido: "@ + e),
                Ok(pairs) => {
                    let (answer, res) = callback_spec(pairs, expected_state@);
                    &&& r.response matches Some(a) && a@ == answer
                    &&& match r.result {
                        Ok(c) => res == Ok::<Seq<char>, Seq<char>>(c@),
                        Err(m) => res == Err::<Seq<char>, Seq<char>>(m@),
                    }
                },
            }
        }),
{
    let path = match second_word_of(first_line) {
        Some(p) => p,
        None => "/".to_owned(),
    };
    let url = concat("http://127.0.0.1", path.as_str());
    let pairs = match parse_query_pairs(url.as_str()) {
        Ok(p) => p,
        Err(e) => {
            return CallbackOutcome {
                response: None,
                result: Err(concat("OAuth: callback inválido: ", e.as_str())),
            };
        },
    };
    let bad = "HTTP/1.1 400 Bad Request\r\n";
    match last_value_of(&pairs, "error") {
        Some(err) => {
            let detail = match last_value_of(&pairs, "error_description") {
                Some(d) => d,
                None => String::new(),
            };
            let msg = if detail.as_str().unicode_len() == 0 {
                err
            } else {
                let a = concat(err.as_str(), ": ");
                concat(a.as_str(), detail.as_str())
            };
            CallbackOutcome {
                response: Some(http_answer_text(bad, FAIL_HTML)),
                result: Err(concat("OAuth recusado: ", msg.as_str())),
            }
        },
        None => {
            let state_ok = match last_value_of(&pairs, "state") {
                Some(s) => str_eq(s.as_str(), expected_state),
                None => false,
            };
            if !state_ok {
                CallbackOutcome {
                    response: Some(http_answer_text(bad, FAIL_HTML)),
                    result: Err("OAuth: estado inválido no callback local.".to_owned()),
                }
            } else {
                match last_value_of(&pairs, "code") {
                    Some(c) => CallbackOutcome {
                        response: Some(http_answer_text("HTTP/1.1 200 OK\r\n", OK_HTML)),
                        result: Ok(c),
                    },
                    None => CallbackOutcome {
                        response: Some(http_answer_text(bad, FAIL_HTML)),
                        result: Err("OAuth: código em falta no callback local.".to_owned()),
                    },
                }
            }
        },
    }
}

/// The OAuth client id built into the app (a public value).
pub const EMBEDDED_GOOGLE_OAUTH_CLIENT_ID: &'static str = "996263499952-5tdh2d08f0hril3o78bqt5dvg06pop7o.apps.googleusercontent.com";

/// The message when no client id is configured anywhere.
pub const MISSING_CLIENT_ID: &'static str = "OAuth: preenche EMBEDDED_GOOGLE_OAUTH_CLIENT_ID em google_calendar.rs, ou define GOOGLE_OAUTH_CLIENT_ID na build, ou cria google_oauth_client_id.txt na pasta de configuração da app.";

/// The client id from the first source that gives a non-blank one, trimmed:
/// the built-in id, the build-time variable, the run-time variable, the
/// `google_oauth_client_id.txt` file (its read error is returned as such).
pub open spec fn client_id_spec(
    embedded: Seq<char>,
    build_env: Option<Seq<char>>,
    runtime_env: Option<Seq<char>>,
    file: Option<Result<Seq<char>, Seq<char>>>,
) -> Result<Seq<char>, Seq<char>> {
    if trim_spec(embedded).len() > 0 {
        Ok(trim_spec(embedded))
    } else if build_env is Some && trim_spec(build_env->0).len() > 0 {
        Ok(trim_spec(build_env->0))
    } else if runtime_env is Some && trim_spec(runtime_env->0).len() > 0 {
        Ok(trim_spec(runtime_env->0))
    } else {
        match file {
            Some(Err(e)) => Err("ler client id: "@ + e),
            Some(Ok(t)) => if trim_spec(t).len() > 0 {
                Ok(trim_spec(t))
            } else {
                Err(MISSING_CLIENT_ID@)
            },
            None => Err(MISSING_CLIENT_ID@),
        }
    }
}

/// The texts of a file read: its contents or the error message.
pub open spec fn read_texts(f: Option<Result<String, String>>) -> Option<Result<Seq<char>, Seq<char>>> {
    match f {
        Some(Ok(t)) => Some(Ok(t@)),
        Some(Err(e)) => Some(Err(e@)),
        None => None,
    }
}

/// The OAuth client id: the built-in one, else `GOOGLE_OAUTH_CLIENT_ID` at
/// build time, else at run time, else the config file (`file` is `None` when
/// the file does not exist).
pub fn choose_client_id(
    embedded: &str,
    build_env: Option<&str>,
    runtime_env: &Option<String>,
    file: &Option<Result<String, String>>,
) -> (r: Result<String, String>)
    ensures
        match r {
            Ok(s) => client_id_spec(
                embedded@,
                match build_env {
                    Some(b) => Some(b@),
                    None => None,
                },
                opt_str(*runtime_env),
                read_texts(*file),
            ) == Ok::<Seq<char>, Seq<char>>(s@),
            Err(e) => client_id_spec(
                embedded@,
                match build_env {
                    Some(b) => Some(b@),
                    None => None,
                },
                opt_str(*runtime_env),
                read_texts(*file),
            ) == Err::<Seq<char>, Seq<char>>(e@),
        },
{
    let e = trim(embedded);
    if e.as_str().unicode_len() > 0 {
        return Ok(e);
    }
    match build_env {
        Some(b) => {
            let t = trim(b);
            if t.as_str().unicode_len() > 0 {
                return Ok(t);
            }
        },
        None => {},
    }
    match runtime_env {
        Some(v) => {
            let t = trim(v.as_str());
            if t.as_str().unicode_len() > 0 {
                return Ok(t);
            }
        },
        None => {},
    }
    match file {
        Some(Err(err)) => Err(concat("ler client id: ", err.as_str())),
        Some(Ok(text)) => {
            let t = trim(text.as_str());
            if t.as_str().unicode_len() > 0 {
                Ok(t)
            } else {
                Err(MISSING_CLIENT_ID.to_owned())
            }
        },
        None => Err(MISSING_CLIENT_ID.to_owned()),
    }
}

/// The server that exchanges and refreshes tokens with the protected secret.
pub const OAUTH_TOKEN_BRIDGE_DEFAULT: &'static str = "https://www.alemsys.digital/api/auth/google/token";

/// The token bridge URL: `GOOGLE_OAUTH_TOKEN_BRIDGE_URL` at run time, else at
/// build time (each trimmed and used only when not blank), else the default.
pub open spec fn bridge_url_spec(runtime_env: Option<Seq<char>>, build_env: Option<Seq<char>>) -> Seq<char> {
    if runtime_env is Some && trim_spec(runtime_env->0).len() > 0 {
        trim_spec(runtime_env->0)
    } else if build_env is Some && trim_spec(build_env->0).len() > 0 {
        trim_spec(build_env->0)
    } else {
        OAUTH_TOKEN_BRIDGE_DEFAULT@
    }
}

/// The token bridge URL to use.
pub fn resolve_oauth_token_bridge_url(runtime_env: &Option<String>, build_env: Option<&str>) -> (r: String)
    ensures
        r@ == bridge_url_spec(
            opt_str(*runtime_env),
            match build_env {
                Some(b) => Some(b@),
                None => None,
            },
        ),
{
    match runtime_env {
        Some(v) => {
            let t = trim(v.as_str());
            if t.as_str().unicode_len() > 0 {
                return t;
            }
        },
        None => {},
    }
    match build_env {
        Some(b) => {
            let t = trim(b);
            if t.as_str().unicode_len() > 0 {
                return t;
            }
        },
        None => {},
    }
    OAUTH_TOKEN_BRIDGE_DEFAULT.to_owned()
}

/// The refresh token kept in the token file: its contents trimmed, when not blank.
pub open spec fn stored_token_spec(contents: Option<Seq<char>>) -> Option<Seq<char>> {
    match contents {
        Some(c) => if trim_spec(c).len() > 0 {
            Some(trim_spec(c))
        } else {
            None
        },
        None => None,
    }
}

/// The refresh token that a token file holds (`None` when unreadable or blank).
pub fn stored_refresh_token(contents: &Option<String>) -> (r: Option<String>)
    ensures
        opt_str(r) == stored_token_spec(opt_str(*contents)),
{
    match contents {
        Some(c) => {
            let t = trim(c.as_str());
            if t.as_str().unicode_len() > 0 {
                Some(t)
            } else {
                None
            }
        },
        None => None,
    }
}

/// Whether the app holds a refresh token: in the token file, or a non-empty
/// one in the system keyring.
pub fn has_refresh_token(file_token: &Option<String>, keyring_token: &Option<String>) -> (b: bool)
    ensures
        b == (file_token is Some || (keyring_token is Some && keyring_token->0@.len() > 0)),
{
    if file_token.is_some() {
        return true;
    }
    match keyring_token {
        Some(t) => t.as_str().unicode_len() > 0,
        None => false,
    }
}

/// Which refresh token to use, and whether to copy it back to the token file.
#[derive(Debug, PartialEq)]
pub struct RefreshTokenChoice {
    pub token: Result<String, String>,
    pub write_back: bool,
}

/// The refresh token: the token file's, else the keyring's trimmed (then also
/// written back to the file). `keyring` is the keyring entry (or its error),
/// holding the stored password (or its error).
pub fn choose_refresh_token(file_token: Option<String>, keyring: Result<Result<String, String>, String>) -> (r: RefreshTokenChoice)
    ensures
        match file_token {
            Some(t) => (r.token matches Ok(x) && x@ == t@) && !r.write_back,
            None => match keyring {
                Err(e) => (r.token matches Err(m) && m@ == e@) && !r.write_back,
                Ok(Err(e)) => (r.token matches Err(m) && m@ == "Token OAuth em falta: "@ + e@
                    + ". Volta a ligar a conta Google."@) && !r.write_back,
                Ok(Ok(p)) => if trim_spec(p@).len() == 0 {
                    (r.token matches Err(m) && m@ == "Token OAuth em falta. Volta a ligar a conta Google."@)
                        && !r.write_back
                } else {
                    (r.token matches Ok(x) && x@ == trim_spec(p@)) && r.write_back
                },
            },
        },
{
    match file_token {
        Some(t) => RefreshTokenChoice { token: Ok(t), write_back: false },
        None => match keyring {
            Err(e) => RefreshTokenChoice { token: Err(e), write_back: false },
            Ok(Err(e)) => {
                let a = concat("Token OAuth em falta: ", e.as_str());
                RefreshTokenChoice {
                    token: Err(concat(a.as_str(), ". Volta a ligar a conta Google.")),
                    write_back: false,
                }
            },
            Ok(Ok(p)) => {
                let t = trim(p.as_str());
                if t.as_str().unicode_len() == 0 {
                    RefreshTokenChoice {
                        token: Err("Token OAuth em falta. Volta a ligar a conta Google.".to_owned()),
                        write_back: false,
                    }
                } else {
                    RefreshTokenChoice { token: Ok(t), write_back: true }
                }
            },
        },
    }
}

/// The error when the token exchange is refused: the server's answer, with a
/// hint when it reports a redirect URI mismatch.
pub open spec fn token_exchange_error_spec(body: Seq<char>) -> Seq<char> {
    "OAuth: troca de token falhou: "@ + body + (if contains_seq(body, "redirect_uri_mismatch"@) {
        " Confirma no Google Cloud que callbacks loopback locais estão permitidos."@
    } else {
        Seq::empty()
    })
}

/// The error for a refused token exchange.
pub fn token_exchange_error(body: &str) -> (r: String)
    ensures
        r@ == token_exchange_error_spec(body@),
{
    let bv = chars_of(body);
    let pat = chars_of("redirect_uri_mismatch");
    let hint = if contains_chars(&bv, &pat) {
        " Confirma no Google Cloud que callbacks loopback locais estão permitidos."
    } else {
        ""
    };
    let a = concat("OAuth: troca de token falhou: ", body);
    let r = concat(a.as_str(), hint);
    proof {
        reveal_strlit("");
    }
    r
}

/// The refresh token of a token answer, or the error when Google sent none.
pub fn refresh_token_of_answer(refresh_token: Option<String>) -> (r: Result<String, String>)
    ensures
        match refresh_token {
            Some(t) => r matches Ok(x) && x@ == t@,
            None => r matches Err(m) && m@ == "OAuth: Google não devolveu refresh_token. Tenta de novo com prompt=consent ou revoga o acesso à app nas definições Google."@,
        },
{
    match refresh_token {
        Some(t) => Ok(t),
        None => Err(
            "OAuth: Google não devolveu refresh_token. Tenta de novo com prompt=consent ou revoga o acesso à app nas definições Google.".to_owned(),
        ),
    }
}

/// Kept for callers of the old deep-link login; the login now completes on
/// the loopback callback, so this does nothing.
pub fn try_complete_oauth_from_deep_link(_url_str: &str) {
}

} // verus!

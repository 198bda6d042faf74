//! Signature validation: an inbound request is authentic exactly when its
//! signature header equals the lowercase-hex HMAC-SHA256 of the exact,
//! fully-buffered body bytes under the named client's secret. An absent
//! signature disqualifies the credential from even being looked up, and an
//! unknown name surfaces no error, so unsigned or unknown requests cannot
//! probe which clients exist.

use vstd::prelude::*;
use vstd::string::*;
use vstd::utf8::encode_utf8;

use crate::registry::{ClientConfig, ClientEntry, Config, lookup};
use crate::text::str_eq;

verus! {

/// What HMAC-SHA256 computes: a 32-byte tag, a function of key and message
/// alone.
pub uninterp spec fn hmac_sha256_of(key: Seq<u8>, msg: Seq<u8>) -> Seq<u8>;

/// Relies on hmac_sha256::HMAC::mac: the HMAC-SHA256 tag of `msg` under
/// `key`, 32 bytes, depending on the two arguments alone.
#[verifier::external_body]
fn hmac_sha256_tag(msg: &[u8], key: &[u8]) -> (r: Vec<u8>)
    ensures
        r@ == hmac_sha256_of(key@, msg@),
        r@.len() == 32,
{
    hmac_sha256::HMAC::mac(msg, key).to_vec()
}

/// What standard-alphabet base64 decoding yields for a string, if anything:
/// a function of the input alone.
pub uninterp spec fn base64_decoded(s: Seq<char>) -> Option<Seq<u8>>;

/// Relies on base64::decode: standard-alphabet base64 decoding; the outside
/// error carries nothing the caller reads, so failure maps to `None`.
#[verifier::external_body]
fn base64_decode(s: &str) -> (r: Option<Vec<u8>>)
    ensures
        (match r {
            Some(v) => base64_decoded(s@) == Some(v@),
            None => base64_decoded(s@) is None,
        }),
{
    base64::decode(s).ok()
}

/// What reading a byte sequence as UTF-8 yields, if anything: a function of
/// the bytes alone.
pub uninterp spec fn utf8_decoded(b: Seq<u8>) -> Option<Seq<char>>;

/// Relies on String::from_utf8: the string the bytes spell in UTF-8, or
/// failure on invalid input; the outside error maps to `None`.
#[verifier::external_body]
fn utf8_string(b: Vec<u8>) -> (r: Option<String>)
    ensures
        (match r {
            Some(s) => utf8_decoded(b@) == Some(s@),
            None => utf8_decoded(b@) is None,
        }),
{
    String::from_utf8(b).ok()
}

/// The lowercase hex digit for a nibble.
pub open spec fn hex_digit(n: int) -> char {
    if n == 0 { '0' }
    else if n == 1 { '1' }
    else if n == 2 { '2' }
    else if n == 3 { '3' }
    else if n == 4 { '4' }
    else if n == 5 { '5' }
    else if n == 6 { '6' }
    else if n == 7 { '7' }
    else if n == 8 { '8' }
    else if n == 9 { '9' }
    else if n == 10 { 'a' }
    else if n == 11 { 'b' }
    else if n == 12 { 'c' }
    else if n == 13 { 'd' }
    else if n == 14 { 'e' }
    else { 'f' }
}

/// Lowercase hex rendering of bytes, two digits per byte, high nibble first.
pub open spec fn hex_chars(b: Seq<u8>) -> Seq<char>
    decreases b.len(),
{
    if b.len() == 0 {
        Seq::empty()
    } else {
        seq![hex_digit(b[0] as int / 16), hex_digit(b[0] as int % 16)] + hex_chars(b.drop_first())
    }
}

fn hex_digit_str(n: u8) -> (r: &'static str)
    requires
        n < 16,
    ensures
        r@.len() == 1,
        r@[0] == hex_digit(n as int),
{
    proof {
        reveal_strlit("0");
        reveal_strlit("1");
        reveal_strlit("2");
        reveal_strlit("3");
        reveal_strlit("4");
        reveal_strlit("5");
        reveal_strlit("6");
        reveal_strlit("7");
        reveal_strlit("8");
        reveal_strlit("9");
        reveal_strlit("a");
        reveal_strlit("b");
        reveal_strlit("c");
        reveal_strlit("d");
        reveal_strlit("e");
        reveal_strlit("f");
    }
    if n == 0 { "0" }
    else if n == 1 { "1" }
    else if n == 2 { "2" }
    else if n == 3 { "3" }
    else if n == 4 { "4" }
    else if n == 5 { "5" }
    else if n == 6 { "6" }
    else if n == 7 { "7" }
    else if n == 8 { "8" }
    else if n == 9 { "9" }
    else if n == 10 { "a" }
    else if n == 11 { "b" }
    else if n == 12 { "c" }
    else if n == 13 { "d" }
    else if n == 14 { "e" }
    else { "f" }
}

proof fn lemma_hex_chars_append(a: Seq<u8>, b: Seq<u8>)
    ensures
        hex_chars(a + b) =~= hex_chars(a) + hex_chars(b),
    decreases a.len(),
{
    if a.len() == 0 {
        assert(a + b =~= b);
    } else {
        assert((a + b).drop_first() =~= a.drop_first() + b);
        lemma_hex_chars_append(a.drop_first(), b);
    }
}

/// Render bytes as lowercase hex.
fn hex_string(b: &Vec<u8>) -> (r: String)
    ensures
        r@ == hex_chars(b@),
{
    let mut out = String::new();
    let n = b.len();
    let mut i: usize = 0;
    while i < n
        invariant
            i <= n,
            n == b@.len(),
            out@ == hex_chars(b@.take(i as int)),
        decreases n - i,
    {
        let byte = b[i];
        assert(byte / 16 < 16);
        let hi = hex_digit_str(byte / 16);
        let lo = hex_digit_str(byte % 16);
        out.append(hi);
        out.append(lo);
        proof {
            let pre = b@.take(i as int);
            let one = seq![b@[i as int]];
            assert(b@.take(i + 1) =~= pre + one);
            lemma_hex_chars_append(pre, one);
            assert(one.drop_first() =~= Seq::<u8>::empty());
            reveal_with_fuel(hex_chars, 2);
            assert(hex_chars(one) =~= seq![
                hex_digit(one[0] as int / 16),
                hex_digit(one[0] as int % 16),
            ]);
            assert(out@ =~= hex_chars(b@.take(i + 1)));
        }
        i += 1;
    }
    proof {
        assert(b@.take(n as int) =~= b@);
    }
    out
}

/// The exact signature header value a client's secret owes for a body:
/// `"sha256="` followed by the lowercase-hex HMAC-SHA256 tag of the body
/// under the secret's UTF-8 bytes.
pub open spec fn expected_signature(secret: Seq<char>, body: Seq<u8>) -> Seq<char> {
    "sha256="@ + hex_chars(hmac_sha256_of(encode_utf8(secret), body))
}

/// Constant-time comparison of a provided signature with the expected one:
/// after the length check every position is visited and the verdict is
/// accumulated, never short-circuited at the first differing character, so
/// observable timing does not reveal where a forgery diverges.
pub fn constant_time_str_eq(a: &str, b: &str) -> (r: bool)
    ensures
        r == (a@ == b@),
{
    let an = a.unicode_len();
    let bn = b.unicode_len();
    if an != bn {
        return false;
    }
    let mut diff: bool = false;
    let mut i: usize = 0;
    while i < an
        invariant
            i <= an,
            an == a@.len(),
            bn == b@.len(),
            an == bn,
            diff == exists|j: int| 0 <= j < i && a@[j] != b@[j],
        decreases an - i,
    {
        let ne = a.get_char(i) != b.get_char(i);
        if ne {
            diff = true;
        }
        i += 1;
    }
    if diff {
        false
    } else {
        proof {
            assert(a@ =~= b@);
        }
        true
    }
}

/// Acceptance of a provided signature: holds exactly when it equals the
/// expected rendering of HMAC-SHA256(body, secret); compared in constant
/// time.
pub fn signature_matches(secret: &str, body: &[u8], provided: &str) -> (r: bool)
    ensures
        r == (provided@ == expected_signature(secret@, body@)),
{
    let tag = hmac_sha256_tag(body, secret.as_bytes());
    let hex = hex_string(&tag);
    let mut expected = String::from_str("sha256=");
    expected.append(hex.as_str());
    proof {
        assert(expected@ =~= expected_signature(secret@, body@));
    }
    constant_time_str_eq(provided, expected.as_str())
}

/// One trailing `':'` of a decoded basic credential is dropped; anything
/// else is kept as given.
pub open spec fn strip_one_trailing_colon(s: Seq<char>) -> Seq<char> {
    if s.len() > 0 && s[s.len() - 1] == ':' {
        s.take(s.len() - 1)
    } else {
        s
    }
}

/// The credential name an Authorization header value carries: the text after
/// `"Basic "`, base64-decoded, read as UTF-8, with one trailing `':'`
/// removed; nothing if any step fails.
pub open spec fn credential_key(auth: Seq<char>) -> Option<Seq<char>> {
    if auth.len() >= 6 && auth.subrange(0, 6) == "Basic "@ {
        match base64_decoded(auth.subrange(6, auth.len() as int)) {
            Some(bytes) => match utf8_decoded(bytes) {
                Some(name) => Some(strip_one_trailing_colon(name)),
                None => None,
            },
            None => None,
        }
    } else {
        None
    }
}

fn credential_key_of(auth: &str) -> (r: Option<String>)
    ensures
        (match r {
            Some(s) => credential_key(auth@) == Some(s@),
            None => credential_key(auth@) is None,
        }),
{
    let n = auth.unicode_len();
    if n < 6 {
        return None;
    }
    let prefix = auth.substring_char(0, 6);
    if !str_eq(prefix, "Basic ") {
        return None;
    }
    let rest = auth.substring_char(6, n);
    let bytes = match base64_decode(rest) {
        Some(b) => b,
        None => {
            return None;
        },
    };
    let name = match utf8_string(bytes) {
        Some(s) => s,
        None => {
            return None;
        },
    };
    let m = name.as_str().unicode_len();
    if m > 0 && name.as_str().get_char(m - 1) == ':' {
        let stripped = name.as_str().substring_char(0, m - 1).to_owned();
        proof {
            assert(stripped@ =~= strip_one_trailing_colon(name@));
        }
        Some(stripped)
    } else {
        Some(name)
    }
}

/// The whole authentication decision. No signature header: unauthenticated,
/// unconditionally, before any credential is read. Otherwise the credential
/// names a client, and the request is authentic exactly when the provided
/// signature equals the one the client's secret owes for the body. Every
/// failure looks the same from outside: no client.
pub open spec fn authenticated_client(
    clients: Seq<ClientEntry>,
    authorization: Option<Seq<char>>,
    signature: Option<Seq<char>>,
    body: Seq<u8>,
) -> Option<ClientConfig> {
    match signature {
        None => None,
        Some(sig) => match authorization {
            None => None,
            Some(auth) => match credential_key(auth) {
                None => None,
                Some(key) => match lookup(clients, key) {
                    None => None,
                    Some(c) => if sig == expected_signature(c.secret@, body) {
                        Some(c)
                    } else {
                        None
                    },
                },
            },
        },
    }
}

/// The view of an optional header value.
pub open spec fn header_view(h: Option<&str>) -> Option<Seq<char>> {
    match h {
        Some(s) => Some(s@),
        None => None,
    }
}

impl Config {
    /// Validate one request against the registry: either the authenticated
    /// client comes back, or nothing — the request is never rejected here,
    /// and an absent signature yields nothing before any lookup happens.
    pub fn authenticate<'a>(
        &'a self,
        authorization: Option<&str>,
        signature: Option<&str>,
        body: &[u8],
    ) -> (r: Option<&'a ClientConfig>)
        ensures
            (match r {
                Some(c) => authenticated_client(
                    self.clients@,
                    header_view(authorization),
                    header_view(signature),
                    body@,
                ) == Some(*c),
                None => authenticated_client(
                    self.clients@,
                    header_view(authorization),
                    header_view(signature),
                    body@,
                ) is None,
            }),
            signature is None ==> r is None,
    {
        let sig = match signature {
            Some(s) => s,
            None => {
                return None;
            },
        };
        let auth = match authorization {
            Some(a) => a,
            None => {
                return None;
            },
        };
        let key = match credential_key_of(auth) {
            Some(k) => k,
            None => {
                return None;
            },
        };
        let client = match self.client_for(key.as_str()) {
            Some(c) => c,
            None => {
                return None;
            },
        };
        if signature_matches(client.secret.as_str(), body, sig) {
            Some(client)
        } else {
            None
        }
    }
}

} // verus!

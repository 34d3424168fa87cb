//! Encodings: Base64, percent signs, forms, addresses, digests and random text.

use vstd::prelude::*;

use crate::session::{both, CommandError, ErrorData};
use crate::text::byte_length;

verus! {

// ---------------------------------------------------------------------------
// Base64
// ---------------------------------------------------------------------------

/// What `base64`'s `STANDARD` engine writes for the bytes.
pub uninterp spec fn base64_of(bytes: Seq<u8>) -> Seq<char>;

/// What `base64`'s `URL_SAFE_NO_PAD` engine writes for the bytes.
pub uninterp spec fn url_base64_of(bytes: Seq<u8>) -> Seq<char>;

/// `base64::engine::general_purpose::STANDARD.encode`: the bytes in Base64, with padding.
#[verifier::external_body]
fn standard_base64(bytes: &[u8]) -> (r: String)
    ensures
        r@ == base64_of(bytes@),
{
    base64::Engine::encode(&base64::engine::general_purpose::STANDARD, bytes)
}

/// `base64::engine::general_purpose::URL_SAFE_NO_PAD.encode`: the bytes in the URL-safe alphabet of
/// Base64, without padding.
#[verifier::external_body]
fn url_safe_base64(bytes: &[u8]) -> (r: String)
    ensures
        r@ == url_base64_of(bytes@),
{
    base64::Engine::encode(&base64::engine::general_purpose::URL_SAFE_NO_PAD, bytes)
}

/// Bytes as Base64 text.
pub fn encode_base64(bytes: &Vec<u8>) -> (r: String)
    ensures
        r@ == base64_of(bytes@),
{
    standard_base64(bytes.as_slice())
}

/// The credentials of HTTP basic authentication.
pub open spec fn basic_credentials(user: Seq<char>, password: Seq<char>) -> Seq<char> {
    "Basic "@ + base64_of(vstd::utf8::encode_utf8(user + ":"@ + password))
}

pub fn basic_authorization(user: &str, password: &str) -> (r: String)
    ensures
        r@ == basic_credentials(user@, password@),
{
    let both = crate::text::cat3(user, ":", password);
    crate::text::cat2("Basic ", standard_base64(both.as_str().as_bytes()).as_str())
}

// ---------------------------------------------------------------------------
// Digests and random text
// ---------------------------------------------------------------------------

/// The SHA-256 digest of the bytes, as `ring::digest::digest` computes it.
pub uninterp spec fn sha256_of(bytes: Seq<u8>) -> Seq<u8>;

/// `ring::digest::digest` with `SHA256`: the digest of the bytes, which is 32 bytes long. Input of
/// 2^61 bytes or more is beyond the algorithm.
#[verifier::external_body]
fn sha256(bytes: &[u8]) -> (r: Vec<u8>)
    requires
        bytes@.len() < 0x2000_0000_0000_0000,
    ensures
        r@ == sha256_of(bytes@),
        r@.len() == 32,
{
    ring::digest::digest(&ring::digest::SHA256, bytes).as_ref().to_vec()
}

/// `ring::rand::SystemRandom`'s `fill`: so many random bytes, where the system gives them.
#[verifier::external_body]
fn random_bytes(len: usize) -> (r: Option<Vec<u8>>)
    ensures
        r matches Some(v) ==> v@.len() == len,
{
    let mut bytes = vec![0u8; len];
    ring::rand::SecureRandom::fill(&ring::rand::SystemRandom::new(), &mut bytes).ok()?;
    Some(bytes)
}

/// Bytes as URL-safe text, where the system gave them.
pub fn token_from(bytes: Option<Vec<u8>>) -> (r: Result<String, CommandError>)
    ensures
        both(r) == (match bytes {
            Some(b) => Ok(url_base64_of(b@)),
            None => Err(ErrorData::Other("Failed to generate secure random bytes"@)),
        }),
{
    match bytes {
        Some(bytes) => Ok(url_safe_base64(bytes.as_slice())),
        None => Err(CommandError::Other("Failed to generate secure random bytes".to_owned())),
    }
}

/// Random bytes, so many, as URL-safe text.
pub fn random_urlsafe_token(len: usize) -> (r: Result<String, CommandError>)
    ensures
        match both(r) {
            Ok(s) => exists|b: Seq<u8>| b.len() == len && s == #[trigger] url_base64_of(b),
            Err(e) => e == ErrorData::Other("Failed to generate secure random bytes"@),
        },
{
    token_from(random_bytes(len))
}

/// The challenge that goes with a code verifier: its SHA-256 digest as URL-safe text.
pub open spec fn code_challenge(verifier: Seq<char>) -> Seq<char> {
    url_base64_of(sha256_of(vstd::utf8::encode_utf8(verifier)))
}

pub fn pkce_s256_challenge(code_verifier: &str) -> (r: String)
    requires
        byte_length(code_verifier@) < 0x2000_0000_0000_0000,
    ensures
        r@ == code_challenge(code_verifier@),
{
    let hash = sha256(code_verifier.as_bytes());
    url_safe_base64(hash.as_slice())
}

// ---------------------------------------------------------------------------
// Forms and addresses
// ---------------------------------------------------------------------------

/// The pairs that `serde_urlencoded::from_str` reads, or the words of its error.
pub uninterp spec fn form_pairs(text: Seq<char>) -> Result<
    Seq<(Seq<char>, Seq<char>)>,
    Seq<char>,
>;

/// What `serde_urlencoded::to_string` writes for the pairs.
pub uninterp spec fn form_text(pairs: Seq<(Seq<char>, Seq<char>)>) -> Seq<char>;

/// The query pairs of the address that `reqwest::Url::parse` reads, if it reads one.
pub uninterp spec fn query_of(address: Seq<char>) -> Option<Seq<(Seq<char>, Seq<char>)>>;

/// The address with query pairs behind it, as `reqwest::Url` writes it, or the words of its error.
pub uninterp spec fn address_with(
    address: Seq<char>,
    pairs: Seq<(Seq<char>, Seq<char>)>,
) -> Result<Seq<char>, Seq<char>>;

/// `serde_urlencoded::from_str`: the pairs of a form, in order.
#[verifier::external_body]
pub(crate) fn read_form(text: &str) -> (r: Result<Vec<(String, String)>, String>)
    ensures
        crate::session::both(r) == form_pairs(text@),
{
    serde_urlencoded::from_str::<Vec<(String, String)>>(text).map_err(|e| e.to_string())
}

/// `serde_urlencoded::to_string`: the pairs as a form; empty where it fails, which it does not for
/// text.
#[verifier::external_body]
pub(crate) fn write_form(pairs: &Vec<(String, String)>) -> (r: String)
    ensures
        r@ == form_text(pairs.deep_view()),
{
    serde_urlencoded::to_string(pairs).unwrap_or_default()
}

/// `reqwest::Url::parse` and `query_pairs`: the decoded query pairs of an address, in order;
/// nothing where the text is no address.
#[verifier::external_body]
pub(crate) fn read_query(address: &str) -> (r: Option<Vec<(String, String)>>)
    ensures
        r.deep_view() == query_of(address@),
{
    let url = reqwest::Url::parse(address).ok()?;
    Some(url.query_pairs().map(|(k, v)| (k.into_owned(), v.into_owned())).collect())
}

/// `reqwest::Url::parse` and `query_pairs_mut`: the address with the pairs appended to its query.
/// An address so long that its query might start beyond 32 bits, or with a fragment, is left out:
/// the place of either is kept in 32 bits, and `query_pairs_mut` panics where it does not fit.
#[verifier::external_body]
pub(crate) fn append_query(address: &str, pairs: &Vec<(String, String)>) -> (r: Result<
    String,
    String,
>)
    requires
        address@.len() < 0x1_0000,
        !address@.contains('#'),
    ensures
        crate::session::both(r) == address_with(address@, pairs.deep_view()),
{
    let mut url = reqwest::Url::parse(address).map_err(|e| e.to_string())?;
    url.query_pairs_mut().extend_pairs(pairs);
    Ok(url.to_string())
}

// ---------------------------------------------------------------------------
// Percent signs
// ---------------------------------------------------------------------------

/// The bytes that stand for themselves in an address: letters, digits and `-`, `.`, `_`, `~`.
pub open spec fn is_unreserved(b: u8) -> bool {
    ||| 48 <= b <= 57
    ||| 65 <= b <= 90
    ||| 97 <= b <= 122
    ||| b == 45
    ||| b == 46
    ||| b == 95
    ||| b == 126
}

pub open spec fn hex_digit(n: int) -> char {
    if n < 10 {
        (48 + n) as char
    } else {
        (55 + n) as char
    }
}

pub open spec fn percent_byte(b: u8) -> Seq<char> {
    if is_unreserved(b) {
        seq![b as char]
    } else {
        seq!['%', hex_digit(b as int / 16), hex_digit(b as int % 16)]
    }
}

pub open spec fn percent_bytes(bytes: Seq<u8>) -> Seq<char>
    decreases bytes.len(),
{
    if bytes.len() == 0 {
        Seq::empty()
    } else {
        percent_bytes(bytes.drop_last()) + percent_byte(bytes.last())
    }
}

/// The text with all but unreserved bytes percent-encoded.
pub open spec fn percent_encoded(s: Seq<char>) -> Seq<char> {
    percent_bytes(vstd::utf8::encode_utf8(s))
}

fn hex_char(n: u8) -> (r: char)
    requires
        n < 16,
    ensures
        r == hex_digit(n as int),
{
    let b: u8 = if n < 10 {
        48 + n
    } else {
        55 + n
    };
    b as char
}

pub fn percent_encode(s: &str) -> (r: String)
    ensures
        r@ == percent_encoded(s@),
{
    let bytes = s.as_bytes();
    let mut out = String::new();
    let mut i: usize = 0;
    assert(out@ =~= percent_bytes(bytes@.take(0)));
    while i < bytes.len()
        invariant
            i <= bytes@.len(),
            out@ == percent_bytes(bytes@.take(i as int)),
        decreases bytes@.len() - i,
    {
        let ghost before = out@;
        assert(bytes@.take(i + 1).drop_last() =~= bytes@.take(i as int));
        assert(bytes@.take(i + 1).last() == bytes@[i as int]);
        let b: u8 = bytes[i];
        if (48 <= b && b <= 57) || (65 <= b && b <= 90) || (97 <= b && b <= 122) || b == 45 || b
            == 46 || b == 95 || b == 126 {
            out.push(b as char);
        } else {
            out.push('%');
            out.push(hex_char(b / 16));
            out.push(hex_char(b % 16));
        }
        assert(out@ =~= before + percent_byte(b));
        i += 1;
    }
    assert(bytes@.take(i as int) =~= bytes@);
    out
}

/// The characters that percent-encoded text is made of.
pub open spec fn is_plain_char(c: char) -> bool {
    ||| c == '%'
    ||| '0' <= c <= '9'
    ||| 'A' <= c <= 'Z'
    ||| 'a' <= c <= 'z'
    ||| c == '-'
    ||| c == '.'
    ||| c == '_'
    ||| c == '~'
}

proof fn lemma_percent_byte(b: u8)
    ensures
        forall|i: int|
            0 <= i < percent_byte(b).len() ==> is_plain_char(#[trigger] percent_byte(b)[i]),
{
    if !is_unreserved(b) {
        assert(0 <= b as int / 16 < 16);
        assert(0 <= b as int % 16 < 16);
    }
}

proof fn lemma_percent_bytes(bytes: Seq<u8>)
    ensures
        forall|i: int|
            0 <= i < percent_bytes(bytes).len() ==> is_plain_char(#[trigger] percent_bytes(bytes)[i]),
    decreases bytes.len(),
{
    if bytes.len() > 0 {
        lemma_percent_bytes(bytes.drop_last());
        lemma_percent_byte(bytes.last());
        let front = percent_bytes(bytes.drop_last());
        let back = percent_byte(bytes.last());
        let all = percent_bytes(bytes);
        assert forall|i: int| 0 <= i < all.len() implies is_plain_char(#[trigger] all[i]) by {
            if i < front.len() {
                assert(all[i] == front[i]);
            } else {
                assert(all[i] == back[i - front.len()]);
            }
        }
    }
}

/// Percent-encoded text holds nothing that has a meaning in an address but the percent sign.
pub proof fn law_percent_encoded_is_plain(s: Seq<char>, i: int)
    requires
        0 <= i < percent_encoded(s).len(),
    ensures
        is_plain_char(percent_encoded(s)[i]),
{
    lemma_percent_bytes(vstd::utf8::encode_utf8(s));
}

} // verus!

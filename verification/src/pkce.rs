//! PKCE values for the OAuth login: the code verifier (also used as the
//! `state` value) and its S256 challenge.

use vstd::prelude::*;
use vstd::string::StringSliceAdditionalSpecFns;

verus! {

/// The base64url symbol for a 6-bit value.
pub open spec fn b64_symbol(n: int) -> char {
    if n < 26 {
        (65 + n) as char
    } else if n < 52 {
        (97 + n - 26) as char
    } else if n < 62 {
        (48 + n - 52) as char
    } else if n == 62 {
        '-'
    } else {
        '_'
    }
}

/// Base64 with the URL-safe alphabet (`A-Z a-z 0-9 - _`) and no padding:
/// every 3 bytes become 4 symbols, a trailing 1 or 2 bytes become 2 or 3.
pub open spec fn base64_url_no_pad(b: Seq<u8>) -> Seq<char>
    decreases b.len(),
{
    let b0 = b[0] as int;
    let b1 = b[1] as int;
    let b2 = b[2] as int;
    if b.len() == 0 {
        Seq::<char>::empty()
    } else if b.len() == 1 {
        seq![b64_symbol(b0 / 4), b64_symbol((b0 % 4) * 16)]
    } else if b.len() == 2 {
        seq![
            b64_symbol(b0 / 4),
            b64_symbol((b0 % 4) * 16 + b1 / 16),
            b64_symbol((b1 % 16) * 4),
        ]
    } else {
        seq![
            b64_symbol(b0 / 4),
            b64_symbol((b0 % 4) * 16 + b1 / 16),
            b64_symbol((b1 % 16) * 4 + b2 / 64),
            b64_symbol(b2 % 64),
        ] + base64_url_no_pad(b.subrange(3, b.len() as int))
    }
}

/// A character that may appear in a PKCE code verifier made by this module
/// (the base64url alphabet, a subset of RFC 7636's unreserved characters).
pub open spec fn is_url_safe_char(c: char) -> bool {
    (65 <= c as int <= 90) || (97 <= c as int <= 122) || (48 <= c as int <= 57) || c == '-' || c
        == '_'
}

/// The SHA-256 digest of `data`.
pub uninterp spec fn sha256_of(data: Seq<u8>) -> Seq<u8>;

/// Base64url-encodes `bytes` without padding: calls `Engine::encode` of the
/// `base64` crate with `URL_SAFE_NO_PAD`, which produces exactly
/// [`base64_url_no_pad`].
#[verifier::external_body]
fn encode_base64_url_no_pad(bytes: &[u8]) -> (r: String)
    requires
        bytes@.len() <= 1_000_000,
    ensures
        r@ == base64_url_no_pad(bytes@),
{
    base64::Engine::encode(&base64::engine::general_purpose::URL_SAFE_NO_PAD, bytes)
}

/// SHA-256 of `data`: calls `Digest::digest` of `sha2::Sha256`; the digest
/// is 32 bytes long.
#[verifier::external_body]
fn sha256_digest(data: &[u8]) -> (r: Vec<u8>)
    ensures
        r@ == sha256_of(data@),
        r@.len() == 32,
{
    <sha2::Sha256 as sha2::Digest>::digest(data).to_vec()
}

/// One random byte from the thread-local generator: calls
/// `rand::random::<u8>`. Nothing is stated of it.
#[verifier::external_body]
fn random_byte() -> (b: u8) {
    rand::random::<u8>()
}

/// A fresh code verifier: 32 random bytes, base64url-encoded without
/// padding. The same generator makes the `state` value of the login.
pub fn generate_code_verifier() -> (r: String)
    ensures
        exists|b: Seq<u8>| b.len() == 32 && r@ == base64_url_no_pad(b),
{
    let mut bytes: Vec<u8> = Vec::new();
    let mut i: usize = 0;
    while i < 32
        invariant
            i <= 32,
            bytes@.len() == i,
        decreases 32 - i,
    {
        bytes.push(random_byte());
        i = i + 1;
    }
    let r = encode_base64_url_no_pad(bytes.as_slice());
    assert(bytes@.len() == 32 && r@ == base64_url_no_pad(bytes@));
    r
}

/// The S256 challenge for `verifier`: the base64url (no padding) encoding of
/// the SHA-256 digest of its UTF-8 bytes.
pub fn generate_code_challenge(verifier: &str) -> (r: String)
    ensures
        r@ == base64_url_no_pad(sha256_of(verifier.spec_bytes())),
{
    let hash = sha256_digest(verifier.as_bytes());
    encode_base64_url_no_pad(hash.as_slice())
}

proof fn lemma_symbol_url_safe(n: int)
    requires
        0 <= n < 64,
    ensures
        is_url_safe_char(b64_symbol(n)),
{
}

/// The encoding of `n` bytes is `ceil(4n/3)` symbols long, all from the
/// base64url alphabet.
pub proof fn law_base64_shape(b: Seq<u8>)
    ensures
        base64_url_no_pad(b).len() == (4 * b.len() + 2) / 3,
        forall|i: int|
            0 <= i < base64_url_no_pad(b).len() ==> is_url_safe_char(#[trigger] base64_url_no_pad(b)[i]),
    decreases b.len(),
{
    let b0 = b[0] as int;
    let b1 = b[1] as int;
    let b2 = b[2] as int;
    if b.len() == 0 {
    } else if b.len() == 1 {
        lemma_symbol_url_safe(b0 / 4);
        lemma_symbol_url_safe((b0 % 4) * 16);
    } else if b.len() == 2 {
        lemma_symbol_url_safe(b0 / 4);
        lemma_symbol_url_safe((b0 % 4) * 16 + b1 / 16);
        lemma_symbol_url_safe((b1 % 16) * 4);
    } else {
        let rest = b.subrange(3, b.len() as int);
        law_base64_shape(rest);
        let head = seq![
            b64_symbol(b0 / 4),
            b64_symbol((b0 % 4) * 16 + b1 / 16),
            b64_symbol((b1 % 16) * 4 + b2 / 64),
            b64_symbol(b2 % 64),
        ];
        lemma_symbol_url_safe(b0 / 4);
        lemma_symbol_url_safe((b0 % 4) * 16 + b1 / 16);
        lemma_symbol_url_safe((b1 % 16) * 4 + b2 / 64);
        lemma_symbol_url_safe(b2 % 64);
        assert(base64_url_no_pad(b) == head + base64_url_no_pad(rest));
        assert forall|i: int| 0 <= i < base64_url_no_pad(b).len() implies is_url_safe_char(
            #[trigger] base64_url_no_pad(b)[i],
        ) by {
            if i >= 4 {
                assert(base64_url_no_pad(b)[i] == base64_url_no_pad(rest)[i - 4]);
            }
        }
    }
}

/// A code verifier is 43 characters from the base64url alphabet, inside
/// the 43 to 128 unreserved characters that RFC 7636 asks of a verifier.
pub proof fn law_code_verifier_shape(b: Seq<u8>)
    requires
        b.len() == 32,
    ensures
        base64_url_no_pad(b).len() == 43,
        forall|i: int|
            0 <= i < 43 ==> is_url_safe_char(#[trigger] base64_url_no_pad(b)[i]),
{
    law_base64_shape(b);
}

} // verus!

//! Signature computation: the keyed digest of a payload under a shared
//! secret, rendered as `sha1=` followed by the lowercase hex digest.

use vstd::prelude::*;

use hmac::Hmac;
use hmac::KeyInit;
use hmac::Mac;
use sha1::Sha1;

verus! {

/// The sixteen lowercase hexadecimal digit characters, by value.
pub open spec fn hex_digit(n: u8) -> char
    recommends
        n < 16,
{
    if n == 0 {
        '0'
    } else if n == 1 {
        '1'
    } else if n == 2 {
        '2'
    } else if n == 3 {
        '3'
    } else if n == 4 {
        '4'
    } else if n == 5 {
        '5'
    } else if n == 6 {
        '6'
    } else if n == 7 {
        '7'
    } else if n == 8 {
        '8'
    } else if n == 9 {
        '9'
    } else if n == 10 {
        'a'
    } else if n == 11 {
        'b'
    } else if n == 12 {
        'c'
    } else if n == 13 {
        'd'
    } else if n == 14 {
        'e'
    } else {
        'f'
    }
}

/// A character that can appear in a lowercase hexadecimal encoding.
pub open spec fn is_lower_hex_char(c: char) -> bool {
    ('0' <= c && c <= '9') || ('a' <= c && c <= 'f')
}

/// Lowercase hexadecimal encoding of a byte sequence: two digits per byte,
/// high nibble first.
pub open spec fn spec_hex_lower(bytes: Seq<u8>) -> Seq<char>
    decreases bytes.len(),
{
    if bytes.len() == 0 {
        Seq::empty()
    } else {
        seq![hex_digit(bytes.first() / 16), hex_digit(bytes.first() % 16)]
            + spec_hex_lower(bytes.drop_first())
    }
}

/// The hex encoding of `bytes` has two characters per byte, all of them
/// lowercase hexadecimal digits.
pub proof fn lemma_hex_lower_shape(bytes: Seq<u8>)
    ensures
        spec_hex_lower(bytes).len() == 2 * bytes.len(),
        forall|i: int|
            0 <= i < spec_hex_lower(bytes).len() ==> is_lower_hex_char(
                #[trigger] spec_hex_lower(bytes)[i],
            ),
    decreases bytes.len(),
{
    if bytes.len() > 0 {
        lemma_hex_lower_shape(bytes.drop_first());
    }
}

/// The HMAC-SHA1 digest of `msg` under `key`: a pure function of the two
/// byte sequences, never of anything ambient.
pub uninterp spec fn hmac_sha1(key: Seq<u8>, msg: Seq<u8>) -> Seq<u8>;

/// Relies on hmac::Hmac<sha1::Sha1>: the HMAC-SHA1 digest is a function of
/// the key and message bytes alone and is always 20 bytes long.
/// `new_from_slice` accepts a key of any length (a long key is first hashed),
/// so this never panics.
#[verifier::external_body]
fn hmac_sha1_bytes(payload: &[u8], key: &[u8]) -> (r: Vec<u8>)
    ensures
        r@ == hmac_sha1(key@, payload@),
        r@.len() == 20,
{
    let mut mac = Hmac::<Sha1>::new_from_slice(key).expect("HMAC accepts keys of any length");
    mac.update(payload);
    mac.finalize().into_bytes().to_vec()
}

/// Relies on hex::encode: two lowercase hexadecimal digits per byte, high
/// nibble first.
#[verifier::external_body]
fn encode_hex_lower(bytes: &Vec<u8>) -> (r: String)
    ensures
        r@ == spec_hex_lower(bytes@),
{
    hex::encode(bytes)
}

/// The signature string for a payload under a key: the fixed prefix `sha1=`
/// followed by the lowercase hex encoding of the HMAC-SHA1 digest.
pub open spec fn spec_sign(payload: Seq<u8>, key: Seq<u8>) -> Seq<char> {
    "sha1="@ + spec_hex_lower(hmac_sha1(key, payload))
}

/// Compute the signature to attach to a delivery: `sha1=` followed by the
/// 40-digit lowercase hex HMAC-SHA1 digest of `payload` under `key`.
/// Defined for payloads and keys of any length, the empty ones included.
pub fn sign_payload(payload: &[u8], key: &[u8]) -> (r: String)
    ensures
        r@ == spec_sign(payload@, key@),
        r@.len() == 45,
        r@.subrange(0, 5) == "sha1="@,
        forall|i: int| 5 <= i < 45 ==> is_lower_hex_char(#[trigger] r@[i]),
{
    let digest = hmac_sha1_bytes(payload, key);
    let hex = encode_hex_lower(&digest);
    let mut signature = String::from_str("sha1=");
    signature.append(hex.as_str());
    proof {
        reveal_strlit("sha1=");
        lemma_hex_lower_shape(digest@);
        assert(signature@.subrange(0, 5) =~= "sha1="@);
    }
    signature
}

/// Determinism: the signature is a function of the payload and key bytes
/// alone, so any two signatures of the same pair are equal.
pub proof fn lemma_sign_deterministic(payload: Seq<u8>, key: Seq<u8>, r1: Seq<char>, r2: Seq<char>)
    requires
        r1 == spec_sign(payload, key),
        r2 == spec_sign(payload, key),
    ensures
        r1 == r2,
{
}

} // verus!

//! Reversible obfuscation of short secrets kept in the configuration file.
//!
//! Every byte of the UTF-8 text is XORed with a repeating key, and the result
//! is written as padded standard base64. This hides credentials from a casual
//! reader of the file; it is not encryption.
use vstd::prelude::*;
use vstd::utf8::{decode_utf8, encode_utf8, valid_utf8, encode_utf8_valid_utf8, encode_utf8_decode_utf8, decode_utf8_encode_utf8};
use base64::Engine;

verus! {

/// The padded standard base64 text of a byte sequence (RFC 4648, section 4).
pub uninterp spec fn base64_text(bytes: Seq<u8>) -> Seq<char>;

/// Relies on base64's `general_purpose::STANDARD.encode`: the padded standard
/// base64 text of `bytes`. (It panics only when the encoded length overflows
/// `usize`, which no slice that fits in memory reaches.)
#[verifier::external_body]
pub(crate) fn base64_of_bytes(bytes: &[u8]) -> (r: String)
    ensures
        r@ == base64_text(bytes@),
{
    base64::engine::general_purpose::STANDARD.encode(bytes)
}

/// Relies on base64's `general_purpose::STANDARD.decode`. Its configuration
/// requires canonical padding and rejects non-zero trailing bits, so it accepts
/// exactly the texts that `encode` produces and gives back their bytes.
#[verifier::external_body]
fn base64_decode(text: &str) -> (r: Option<Vec<u8>>)
    ensures
        r is Some <==> exists|b: Seq<u8>| base64_text(b) == text@,
        r is Some ==> base64_text(r->0@) == text@,
        forall|b: Seq<u8>| base64_text(b) == text@ ==> (r is Some && r->0@ == b),
{
    base64::engine::general_purpose::STANDARD.decode(text).ok()
}

/// Relies on `String::from_utf8`: it succeeds exactly on valid UTF-8 and then
/// holds the characters that the bytes encode.
#[verifier::external_body]
fn utf8_to_string(bytes: Vec<u8>) -> (r: Option<String>)
    ensures
        r is Some <==> valid_utf8(bytes@),
        r is Some ==> r->0@ == decode_utf8(bytes@),
{
    String::from_utf8(bytes).ok()
}

/// The key that this application obfuscates its stored credentials with.
pub open spec fn builtin_key_bytes() -> Seq<u8> {
    seq![
        116u8, 45, 99, 111, 117, 110, 116, 100, 111, 119, 110, 45, 50, 48, 50, 52,
        45, 101, 110, 99, 114, 121, 112, 116, 45, 107, 101, 121, 33, 64, 35, 36,
    ]
}

/// `data` with each byte XORed against the key byte at the same position,
/// the key repeating from its start.
pub open spec fn xor_bytes(key: Seq<u8>, data: Seq<u8>) -> Seq<u8>
    recommends
        key.len() > 0,
{
    Seq::new(data.len(), |i: int| data[i] ^ key[i % (key.len() as int)])
}

/// The stored form of a secret: its UTF-8 bytes XORed with the key, in base64.
pub open spec fn obfuscated(key: Seq<u8>, plain: Seq<char>) -> Seq<char> {
    base64_text(xor_bytes(key, encode_utf8(plain)))
}

/// A stored text can be revealed: it is the stored form of some text.
pub open spec fn revealable(key: Seq<u8>, encoded: Seq<char>) -> bool {
    exists|plain: Seq<char>| encoded == #[trigger] obfuscated(key, plain)
}

/// The text whose stored form is `encoded`, where there is one.
pub open spec fn revealed(key: Seq<u8>, encoded: Seq<char>) -> Seq<char> {
    choose|plain: Seq<char>| encoded == #[trigger] obfuscated(key, plain)
}

proof fn lemma_xor_byte_twice(x: u8, k: u8)
    ensures
        (x ^ k) ^ k == x,
{
    assert((x ^ k) ^ k == x) by (bit_vector);
}

/// XOR with the same key undoes itself.
pub proof fn lemma_xor_involutive(key: Seq<u8>, data: Seq<u8>)
    requires
        key.len() > 0,
    ensures
        xor_bytes(key, xor_bytes(key, data)) == data,
{
    let once = xor_bytes(key, data);
    let twice = xor_bytes(key, once);
    assert forall|i: int| 0 <= i < data.len() implies twice[i] == data[i] by {
        lemma_xor_byte_twice(data[i], key[i % (key.len() as int)]);
    }
    assert(twice =~= data);
}

/// The application's built-in obfuscation key.
pub fn builtin_key() -> (r: Vec<u8>)
    ensures
        r@ == builtin_key_bytes(),
        r@.len() > 0,
{
    let r: Vec<u8> = vec![
        116u8, 45, 99, 111, 117, 110, 116, 100, 111, 119, 110, 45, 50, 48, 50, 52,
        45, 101, 110, 99, 114, 121, 112, 116, 45, 107, 101, 121, 33, 64, 35, 36,
    ];
    assert(r@ =~= builtin_key_bytes());
    r
}

/// XORs every byte of `data` with `key`, cycling through the key.
pub fn xor_cipher(key: &[u8], data: &[u8]) -> (r: Vec<u8>)
    requires
        key@.len() > 0,
    ensures
        r@ == xor_bytes(key@, data@),
{
    let mut out: Vec<u8> = Vec::with_capacity(data.len());
    let mut i: usize = 0;
    while i < data.len()
        invariant
            key@.len() > 0,
            i <= data@.len(),
            out@.len() == i,
            forall|j: int| 0 <= j < i ==> out@[j] == data@[j] ^ key@[j % (key@.len() as int)],
        decreases data@.len() - i,
    {
        out.push(data[i] ^ key[i % key.len()]);
        i = i + 1;
    }
    assert(out@ =~= xor_bytes(key@, data@));
    out
}

/// Obfuscates a secret for storage.
pub fn encrypt_str(key: &[u8], plain: &str) -> (r: String)
    requires
        key@.len() > 0,
    ensures
        r@ == obfuscated(key@, plain@),
{
    base64_of_bytes(xor_cipher(key, plain.as_bytes()).as_slice())
}

/// Recovers a secret from its stored form. Fails on text that is not padded
/// standard base64, or whose bytes, once XORed with the key, are not UTF-8.
/// Whatever `encrypt_str` produced with the same key comes back unchanged.
pub fn decrypt_str(key: &[u8], encoded: &str) -> (r: Option<String>)
    requires
        key@.len() > 0,
    ensures
        r is Some <==> revealable(key@, encoded@),
        r is Some ==> encoded@ == obfuscated(key@, r->0@),
        r is Some ==> r->0@ == revealed(key@, encoded@),
        forall|plain: Seq<char>| encoded@ == obfuscated(key@, plain) ==> (r is Some && r->0@ == plain),
{
    match base64_decode(encoded) {
        None => None,
        Some(bytes) => {
            let plain = xor_cipher(key, bytes.as_slice());
            let r = utf8_to_string(plain);
            proof {
                assert forall|p: Seq<char>| encoded@ == obfuscated(key@, p) implies (r is Some && r->0@ == p) by {
                    lemma_xor_involutive(key@, encode_utf8(p));
                    encode_utf8_valid_utf8(p);
                    encode_utf8_decode_utf8(p);
                }
                if r is Some {
                    let p = r->0@;
                    decode_utf8_encode_utf8(plain@);
                    lemma_xor_involutive(key@, bytes@);
                    assert(encoded@ == obfuscated(key@, p));
                }
            }
            r
        }
    }
}

} // verus!

//! The cryptographic and encoding primitives the hub and nodes rely on, each a thin
//! trusted wrapper over its crate, and the verified compositions built from them.

use vstd::prelude::*;
use vstd::string::*;
use vstd::utf8::{valid_utf8, decode_utf8, encode_utf8};
use crate::text::concat;

use aes_gcm::{Aes256Gcm, KeyInit, Nonce, aead::Aead};
use base64::{Engine, engine::general_purpose::STANDARD as BASE64};
use ed25519_dalek::{Signature, Signer, SigningKey, Verifier, VerifyingKey};
use rand_core::{OsRng, RngCore};
use sha2::{Digest, Sha256};

verus! {

/// The SHA-256 digest of `data`.
pub uninterp spec fn sha256_digest(data: Seq<u8>) -> Seq<u8>;

/// The standard, padded base64 text of `data`.
pub uninterp spec fn base64_text(data: Seq<u8>) -> Seq<char>;

/// The AES-256-GCM sealing of `plaintext` under `key` and `nonce` (ciphertext followed by tag).
pub uninterp spec fn aes_gcm_seal(key: Seq<u8>, nonce: Seq<u8>, plaintext: Seq<u8>) -> Seq<u8>;

/// Whether `signature` is a valid Ed25519 signature of `message` under `public_key`.
pub uninterp spec fn ed25519_valid(public_key: Seq<u8>, message: Seq<u8>, signature: Seq<u8>) -> bool;

/// The Ed25519 signature of `message` under the secret key `secret`.
pub uninterp spec fn ed25519_signature(secret: Seq<u8>, message: Seq<u8>) -> Seq<u8>;

/// The Ed25519 public key of the secret key `secret`.
pub uninterp spec fn ed25519_public(secret: Seq<u8>) -> Seq<u8>;

/// The public key whose base64 text is `public_key` accepts the signature whose base64 text is
/// `signature` for the challenge `nonce` (signed as its UTF-8 bytes).
pub open spec fn key_accepts(public_key: Seq<char>, nonce: Seq<char>, signature: Seq<char>) -> bool {
    exists|k: Seq<u8>, s: Seq<u8>|
        base64_text(k) == public_key && k.len() == 32 && base64_text(s) == signature
            && #[trigger] ed25519_valid(k, encode_utf8(nonce), s)
}

/// A lowercase hexadecimal digit.
pub open spec fn hex_digit(n: int) -> char {
    if n < 10 {
        (('0' as u32) + n) as char
    } else {
        (('a' as u32) + n - 10) as char
    }
}

/// Lowercase hexadecimal text of `data`, two digits per byte, high nibble first.
pub open spec fn hex_text(data: Seq<u8>) -> Seq<char>
    decreases data.len(),
{
    if data.len() == 0 {
        Seq::empty()
    } else {
        hex_text(data.drop_last()) + seq![hex_digit(data.last() as int / 16), hex_digit(data.last() as int % 16)]
    }
}

/// SHA-256 of `data` (`sha2::Sha256::digest`); a digest is 32 bytes long.
#[verifier::external_body]
pub(crate) fn sha256(data: &[u8]) -> (r: Vec<u8>)
    ensures
        r@ == sha256_digest(data@),
        r@.len() == 32,
{
    Sha256::digest(data).to_vec()
}

/// Lowercase hexadecimal encoding (`hex::encode`): two lowercase digits per byte.
#[verifier::external_body]
pub(crate) fn hex_encode(data: &[u8]) -> (r: String)
    ensures
        r@ == hex_text(data@),
{
    hex::encode(data)
}

/// Standard base64 encoding with padding (`STANDARD.encode`); distinct bytes have distinct texts.
#[verifier::external_body]
pub(crate) fn base64_encode(data: &[u8]) -> (r: String)
    ensures
        r@ == base64_text(data@),
        forall|b: Seq<u8>| base64_text(b) == r@ ==> b == data@,
{
    BASE64.encode(data)
}

/// Standard base64 decoding (`STANDARD.decode`), which accepts only the canonical padded text of
/// some bytes and gives those bytes back.
#[verifier::external_body]
pub(crate) fn base64_decode(text: &str) -> (r: Result<Vec<u8>, String>)
    ensures
        r matches Ok(b) ==> base64_text(b@) == text@,
        forall|b: Seq<u8>| base64_text(b) == text@ ==> (r is Ok && r->Ok_0@ == b),
{
    BASE64.decode(text).map_err(|e| e.to_string())
}

/// 32 bytes from the operating system's random source (`OsRng`).
#[verifier::external_body]
pub(crate) fn random_bytes_32() -> (r: [u8; 32]) {
    let mut b = [0u8; 32];
    OsRng.fill_bytes(&mut b);
    b
}

/// 12 bytes from the operating system's random source (`OsRng`).
#[verifier::external_body]
pub(crate) fn random_bytes_12() -> (r: [u8; 12]) {
    let mut b = [0u8; 12];
    OsRng.fill_bytes(&mut b);
    b
}

/// A fresh random (version 4) UUID in its simple form (`Uuid::new_v4().simple()`):
/// 32 lowercase hexadecimal digits.
#[verifier::external_body]
pub(crate) fn new_uuid_simple() -> (r: String)
    ensures
        r@.len() == 32,
{
    uuid::Uuid::new_v4().simple().to_string()
}

/// A fresh random (version 4) UUID in its hyphenated form (`Uuid::new_v4().to_string()`).
#[verifier::external_body]
pub(crate) fn new_uuid_text() -> (r: String) {
    uuid::Uuid::new_v4().to_string()
}

/// The longest plaintext AES-256-GCM seals: 2^36 bytes.
pub open spec fn aes_gcm_plaintext_limit() -> int {
    0x10_0000_0000
}

/// AES-256-GCM encryption (`Aes256Gcm::encrypt`) of `plaintext` under `key` and `nonce`; it
/// refuses exactly the plaintexts longer than 2^36 bytes.
#[verifier::external_body]
pub(crate) fn aes_gcm_encrypt(key: &[u8; 32], nonce: &[u8; 12], plaintext: &[u8]) -> (r: Result<Vec<u8>, ()>)
    ensures
        r matches Ok(c) ==> c@ == aes_gcm_seal(key@, nonce@, plaintext@),
        r is Ok <==> plaintext@.len() <= aes_gcm_plaintext_limit(),
{
    let cipher = Aes256Gcm::new(key.into());
    cipher.encrypt(Nonce::from_slice(nonce), plaintext).map_err(|_| ())
}

/// AES-256-GCM decryption (`Aes256Gcm::decrypt`): succeeds only on an authentic sealing under
/// `key` and `nonce`, and on every sealing of a plaintext of at most 2^36 bytes, giving back
/// its plaintext.
#[verifier::external_body]
pub(crate) fn aes_gcm_decrypt(key: &[u8; 32], nonce: &[u8], ciphertext: &[u8]) -> (r: Result<Vec<u8>, ()>)
    requires
        nonce@.len() == 12,
    ensures
        r matches Ok(p) ==> aes_gcm_seal(key@, nonce@, p@) == ciphertext@,
        forall|p: Seq<u8>|
            p.len() <= aes_gcm_plaintext_limit() && aes_gcm_seal(key@, nonce@, p) == ciphertext@
                ==> (r is Ok && r->Ok_0@ == p),
{
    let cipher = Aes256Gcm::new(key.into());
    cipher.decrypt(Nonce::from_slice(nonce), ciphertext).map_err(|_| ())
}

/// Ed25519 verification (`VerifyingKey::from_bytes`, `Signature::from_slice`, `verify`).
#[verifier::external_body]
pub(crate) fn ed25519_verify(public_key: &[u8], message: &[u8], signature: &[u8]) -> (r: Result<(), String>)
    requires
        public_key@.len() == 32,
    ensures
        r is Ok <==> ed25519_valid(public_key@, message@, signature@),
{
    let bytes: [u8; 32] = public_key.try_into().unwrap();
    let key = VerifyingKey::from_bytes(&bytes).map_err(|e| e.to_string())?;
    let sig = Signature::from_slice(signature).map_err(|e| e.to_string())?;
    key.verify(message, &sig).map_err(|e| e.to_string())
}

/// Ed25519 signing (`SigningKey::from_bytes`, `sign`).
#[verifier::external_body]
pub(crate) fn ed25519_sign(secret: &[u8; 32], message: &[u8]) -> (r: Vec<u8>)
    ensures
        r@ == ed25519_signature(secret@, message@),
{
    SigningKey::from_bytes(secret).sign(message).to_bytes().to_vec()
}

/// The 32-byte Ed25519 public key of a secret key (`SigningKey::from_bytes`, `verifying_key`,
/// `to_bytes`); every signature the secret key makes verifies under it.
#[verifier::external_body]
pub(crate) fn ed25519_public_key(secret: &[u8; 32]) -> (r: Vec<u8>)
    ensures
        r@ == ed25519_public(secret@),
        r@.len() == 32,
        forall|m: Seq<u8>| #[trigger] ed25519_valid(r@, m, ed25519_signature(secret@, m)),
{
    SigningKey::from_bytes(secret).verifying_key().to_bytes().to_vec()
}

/// UTF-8 decoding of bytes into a string (`String::from_utf8`): succeeds exactly on valid UTF-8.
#[verifier::external_body]
pub(crate) fn utf8_text(bytes: Vec<u8>) -> (r: Result<String, String>)
    ensures
        r is Ok <==> valid_utf8(bytes@),
        r matches Ok(s) ==> s@ == decode_utf8(bytes@),
{
    String::from_utf8(bytes).map_err(|e| e.to_string())
}

/// A copy of a byte slice as a vector.
pub fn bytes_of(data: &[u8]) -> (r: Vec<u8>)
    ensures
        r@ == data@,
{
    let mut out: Vec<u8> = Vec::new();
    let mut i: usize = 0;
    while i < data.len()
        invariant
            i <= data@.len(),
            out@ == data@.subrange(0, i as int),
        decreases data@.len() - i,
    {
        out.push(data[i]);
        i = i + 1;
        assert(out@ =~= data@.subrange(0, i as int));
    }
    assert(data@.subrange(0, data@.len() as int) =~= data@);
    out
}

/// The lowercase hex SHA-256 of a text's UTF-8 bytes: how the hub stores tokens and setup keys.
pub open spec fn text_hash(v: Seq<char>) -> Seq<char> {
    hex_text(sha256_digest(vstd::utf8::encode_utf8(v)))
}

/// Hashes a secret for storage.
pub fn hash(v: &str) -> (r: String)
    ensures
        r@ == text_hash(v@),
{
    let digest = sha256(v.as_bytes());
    hex_encode(digest.as_slice())
}

/// `s` without the characters `+`, `/` and `=`.
pub open spec fn without_base64_marks(s: Seq<char>) -> Seq<char> {
    s.filter(|c: char| c != '+' && c != '/' && c != '=')
}

/// A fresh secret: `prefix`, an underscore, and the base64 text of 32 random bytes with its
/// `+`, `/` and `=` removed.
pub fn secret(prefix: &str) -> (r: String)
    ensures
        exists|b: Seq<u8>| b.len() == 32 && r@ == prefix@ + seq!['_'] + without_base64_marks(#[trigger] base64_text(b)),
{
    let bytes = random_bytes_32();
    let encoded = base64_encode(&bytes);
    let n = encoded.as_str().unicode_len();
    let mut out = concat(prefix, "_");
    proof {
        reveal_strlit("_");
    }
    let ghost e = encoded@;
    let mut i: usize = 0;
    assert(e.subrange(0, 0).filter(|c: char| c != '+' && c != '/' && c != '=') =~= Seq::<char>::empty());
    while i < n
        invariant
            i <= n,
            n == e.len(),
            e == encoded@,
            out@ == prefix@ + seq!['_'] + without_base64_marks(e.subrange(0, i as int)),
        decreases n - i,
    {
        let c = encoded.as_str().get_char(i);
        proof {
            e.subrange(0, i as int).lemma_filter_push(c, |c: char| c != '+' && c != '/' && c != '=');
            assert(e.subrange(0, i as int).push(c) =~= e.subrange(0, i + 1));
        }
        if c != '+' && c != '/' && c != '=' {
            let piece = encoded.as_str().substring_char(i, i + 1);
            assert(piece@ =~= seq![c]);
            out.append(piece);
        }
        i = i + 1;
    }
    assert(e.subrange(0, n as int) =~= e);
    assert(bytes@.len() == 32);
    out
}

} // verus!

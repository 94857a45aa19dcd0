//! The calls this library makes into outside crates: hashing, hex coding,
//! Ed25519 keys and signatures, UUID text, the clock, randomness, key
//! derivation, authenticated encryption and JSON string quoting; and lossy
//! UTF-8 decoding from std, which vstd does not specify.
//!
//! Every item here is trusted: Verus believes its contract and does not read
//! its body. Where an outside function's result takes more than a few lines
//! to state and depends on its arguments alone, the result has a name (an
//! uninterpreted spec function); where it depends on chance or the clock,
//! only what holds of every outcome is stated.
use aes_gcm::aead::{Aead, KeyInit};
use crate::text::{hex_bytes, hex_digit, hex_lower, is_hex_text};
use vstd::arithmetic::power::pow;
use vstd::prelude::*;
use vstd::utf8::{decode_utf8, encode_utf8, valid_utf8};

verus! {

// ---------------------------------------------------------------------------
// SHA-256 (sha2)
// ---------------------------------------------------------------------------

/// The SHA-256 digest of a byte sequence.
pub uninterp spec fn sha256_of(data: Seq<u8>) -> Seq<u8>;

/// `sha2::Sha256::digest`: the 32-byte SHA-256 digest of `data`.
#[verifier::external_body]
pub(crate) fn sha256(data: &[u8]) -> (r: Vec<u8>)
    ensures
        r@ == sha256_of(data@),
        r@.len() == 32,
{
    <sha2::Sha256 as sha2::Digest>::digest(data).to_vec()
}

// ---------------------------------------------------------------------------
// Hex coding (hex)
// ---------------------------------------------------------------------------

/// `hex::encode`: two lower-case hexadecimal digits per byte, high nibble first.
#[verifier::external_body]
pub(crate) fn hex_encode(data: &[u8]) -> (r: String)
    ensures
        r@ == hex_lower(data@),
{
    hex::encode(data)
}

/// The text of the error `hex::decode` reports for a text it rejects.
pub uninterp spec fn hex_error_text(text: Seq<char>) -> Seq<char>;

/// `hex::decode`, with its error rendered as text: it accepts exactly the
/// texts made of an even number of hexadecimal digits (either case), and
/// gives the bytes they stand for; a text of odd byte length is refused as
/// `Odd number of digits`.
#[verifier::external_body]
pub(crate) fn hex_decode(text: &str) -> (r: Result<Vec<u8>, String>)
    ensures
        r is Ok <==> is_hex_text(text@),
        r matches Ok(v) ==> v@ == hex_bytes(text@),
        r matches Err(m) ==> m@ == hex_error_text(text@),
        r is Err && encode_utf8(text@).len() % 2 != 0 ==> r->Err_0@ == "Odd number of digits"@,
{
    match hex::decode(text) {
        Ok(v) => Ok(v),
        Err(e) => Err(e.to_string()),
    }
}

// ---------------------------------------------------------------------------
// Ed25519 (ed25519_dalek)
// ---------------------------------------------------------------------------

/// The verifying (public) key of an Ed25519 secret key.
pub uninterp spec fn ed25519_public_of(secret: Seq<u8>) -> Seq<u8>;

/// The Ed25519 signature of `message` under `secret` (Ed25519 signing is deterministic).
pub uninterp spec fn ed25519_signature_of(secret: Seq<u8>, message: Seq<u8>) -> Seq<u8>;

/// Whether 32 bytes decode to a curve point, so that they form a verifying key.
pub uninterp spec fn ed25519_key_decodes(public: Seq<u8>) -> bool;

/// Whether the verifying key `public` accepts `signature` on `message`.
pub uninterp spec fn ed25519_accepts(public: Seq<u8>, message: Seq<u8>, signature: Seq<u8>) -> bool;

/// The text of the error `VerifyingKey::from_bytes` reports for bytes it rejects.
pub uninterp spec fn ed25519_key_error_text(public: Seq<u8>) -> Seq<char>;

/// The text of the error `Verifier::verify` reports for a signature it rejects.
pub uninterp spec fn ed25519_verify_error_text(
    public: Seq<u8>,
    message: Seq<u8>,
    signature: Seq<u8>,
) -> Seq<char>;

/// `SigningKey::generate` over the operating system's randomness: fresh
/// secret-key bytes. Nothing is promised of their value.
#[verifier::external_body]
pub(crate) fn generate_secret_key() -> [u8; 32] {
    ed25519_dalek::SigningKey::generate(&mut rand::rngs::OsRng).to_bytes()
}

/// `SigningKey::verifying_key`: the verifying key of a secret key, which
/// always decodes (it is the compression of a curve point).
#[verifier::external_body]
pub(crate) fn derive_public_key(secret: &[u8; 32]) -> (r: [u8; 32])
    ensures
        r@ == ed25519_public_of(secret@),
        ed25519_key_decodes(r@),
{
    ed25519_dalek::SigningKey::from_bytes(secret).verifying_key().to_bytes()
}

/// `Signer::sign`: the signature of `message` under `secret`, which the
/// verifying key of `secret` accepts.
#[verifier::external_body]
pub(crate) fn sign_bytes(secret: &[u8; 32], message: &[u8]) -> (r: [u8; 64])
    ensures
        r@ == ed25519_signature_of(secret@, message@),
        ed25519_accepts(ed25519_public_of(secret@), message@, r@),
{
    <ed25519_dalek::SigningKey as ed25519_dalek::Signer<ed25519_dalek::Signature>>::sign(
        &ed25519_dalek::SigningKey::from_bytes(secret),
        message,
    ).to_bytes()
}

/// `VerifyingKey::from_bytes`, for its verdict alone: whether `public`
/// decodes to a verifying key, with the error rendered as text.
#[verifier::external_body]
pub(crate) fn check_public_key(public: &[u8; 32]) -> (r: Result<(), String>)
    ensures
        r is Ok <==> ed25519_key_decodes(public@),
        r matches Err(m) ==> m@ == ed25519_key_error_text(public@),
{
    match ed25519_dalek::VerifyingKey::from_bytes(public) {
        Ok(_) => Ok(()),
        Err(e) => Err(e.to_string()),
    }
}

/// `Verifier::verify` with the verifying key decoded from `public`: whether
/// it accepts `signature` on `message`, with the error rendered as text.
#[verifier::external_body]
pub(crate) fn verify_bytes(public: &[u8; 32], message: &[u8], signature: &[u8; 64]) -> (r: Result<
    (),
    String,
>)
    requires
        ed25519_key_decodes(public@),
    ensures
        r is Ok <==> ed25519_accepts(public@, message@, signature@),
        r matches Err(m) ==> m@ == ed25519_verify_error_text(public@, message@, signature@),
{
    let sig = ed25519_dalek::Signature::from_bytes(signature);
    match ed25519_dalek::VerifyingKey::from_bytes(public) {
        Ok(vk) => match <ed25519_dalek::VerifyingKey as ed25519_dalek::Verifier<
            ed25519_dalek::Signature,
        >>::verify(&vk, message, &sig) {
            Ok(()) => Ok(()),
            Err(e) => Err(e.to_string()),
        },
        Err(e) => Err(e.to_string()),
    }
}

// ---------------------------------------------------------------------------
// UUIDs (uuid)
// ---------------------------------------------------------------------------

/// The 32 lower-case hexadecimal digits of a 128-bit value, most significant first.
pub open spec fn hex32(id: u128) -> Seq<char> {
    Seq::new(32, |i: int| hex_digit(((id as int / pow(16, (31 - i) as nat)) % 16) as nat))
}

/// The hyphenated text of the UUID with value `id`: its 32 hexadecimal
/// digits in groups of 8, 4, 4, 4 and 12.
pub open spec fn uuid_text(id: u128) -> Seq<char> {
    let h = hex32(id);
    h.subrange(0, 8) + seq!['-'] + h.subrange(8, 12) + seq!['-'] + h.subrange(12, 16) + seq!['-']
        + h.subrange(16, 20) + seq!['-'] + h.subrange(20, 32)
}

/// `Uuid::from_u128(id).to_string()`: the hyphenated lower-case text of the UUID.
#[verifier::external_body]
pub(crate) fn uuid_to_string(id: u128) -> (r: String)
    ensures
        r@ == uuid_text(id),
{
    uuid::Uuid::from_u128(id).to_string()
}

/// Whether a 128-bit UUID value is a version-4 UUID of the RFC 4122
/// variant: its version nibble (bits 76 to 79) is 4 and its two variant
/// bits (62 and 63) are `10`.
pub open spec fn is_uuid_v4(id: u128) -> bool {
    (id >> 76u128) & 0xfu128 == 4u128 && (id >> 62u128) & 3u128 == 2u128
}

/// `Uuid::new_v4`: a fresh random UUID, as its 128-bit value. Only its
/// version and variant bits are promised; the other 122 bits are random.
#[verifier::external_body]
pub(crate) fn new_uuid_v4() -> (r: u128)
    ensures
        is_uuid_v4(r),
{
    uuid::Uuid::new_v4().as_u128()
}

// ---------------------------------------------------------------------------
// The clock (chrono)
// ---------------------------------------------------------------------------

/// The last instant a chrono `DateTime<Utc>` can hold (the end of year
/// 262143), in whole seconds since the Unix epoch.
pub open spec fn max_utc_seconds() -> int {
    8_210_298_412_799
}

/// The same instant, in whole microseconds since the Unix epoch.
pub open spec fn max_utc_micros() -> int {
    8_210_298_412_799_999_999
}

/// `Utc::now().timestamp()`: the current time in whole seconds since the
/// Unix epoch. `Utc::now` returns only times after the epoch (it panics
/// otherwise) and within `DateTime`'s range; nothing more is promised.
#[verifier::external_body]
pub(crate) fn now_unix_seconds() -> (r: i64)
    ensures
        0 <= r <= max_utc_seconds(),
{
    chrono::Utc::now().timestamp()
}

/// `Utc::now().timestamp_micros()`: the current time in microseconds since
/// the Unix epoch. `Utc::now` returns only times after the epoch (it panics
/// otherwise) and within `DateTime`'s range; nothing more is promised.
#[verifier::external_body]
pub(crate) fn now_unix_micros() -> (r: i64)
    ensures
        0 <= r <= max_utc_micros(),
{
    chrono::Utc::now().timestamp_micros()
}

// ---------------------------------------------------------------------------
// Randomness (rand)
// ---------------------------------------------------------------------------

/// `RngCore::fill_bytes` on the thread-local generator: `n` random bytes.
/// Only their number is promised.
#[verifier::external_body]
pub(crate) fn random_bytes(n: usize) -> (r: Vec<u8>)
    ensures
        r@.len() == n,
{
    let mut v = vec![0u8; n];
    rand::RngCore::fill_bytes(&mut rand::thread_rng(), &mut v);
    v
}

// ---------------------------------------------------------------------------
// Key derivation (pbkdf2, sha2)
// ---------------------------------------------------------------------------

/// The 32-byte PBKDF2-HMAC-SHA256 key of a password and a salt.
pub uninterp spec fn pbkdf2_sha256_key(password: Seq<u8>, salt: Seq<u8>, rounds: u32) -> Seq<u8>;

/// `pbkdf2::pbkdf2_hmac::<Sha256>` into a 32-byte buffer.
#[verifier::external_body]
pub(crate) fn pbkdf2_sha256(password: &[u8], salt: &[u8], rounds: u32) -> (r: [u8; 32])
    ensures
        r@ == pbkdf2_sha256_key(password@, salt@, rounds),
{
    let mut key = [0u8; 32];
    pbkdf2::pbkdf2_hmac::<sha2::Sha256>(password, salt, rounds, &mut key);
    key
}

// ---------------------------------------------------------------------------
// Authenticated encryption (aes_gcm)
// ---------------------------------------------------------------------------

/// The longest plaintext AES-GCM encrypts, in bytes.
pub open spec fn aes_gcm_max_plaintext() -> nat {
    0x10_0000_0000
}

/// The AES-256-GCM ciphertext (with its tag) of `plaintext` under `key` and `nonce`.
pub uninterp spec fn aes256gcm_sealed(key: Seq<u8>, nonce: Seq<u8>, plaintext: Seq<u8>) -> Seq<u8>;

/// What AES-256-GCM decryption gives for `ciphertext` under `key` and
/// `nonce`: the plaintext, or nothing when the tag does not authenticate.
pub uninterp spec fn aes256gcm_opened(key: Seq<u8>, nonce: Seq<u8>, ciphertext: Seq<u8>) -> Option<
    Seq<u8>,
>;

/// `Aes256Gcm::encrypt` without associated data: it fails (with the error
/// text `aead::Error`) only for plaintexts longer than the AES-GCM limit;
/// the ciphertext is as long as the plaintext, followed by a 16-byte tag;
/// and decrypting it, under the same key and nonce, gives the plaintext
/// back.
#[verifier::external_body]
pub(crate) fn aes256gcm_encrypt(key: &[u8; 32], nonce: &[u8; 12], plaintext: &[u8]) -> (r: Result<
    Vec<u8>,
    String,
>)
    ensures
        plaintext@.len() <= aes_gcm_max_plaintext() ==> r is Ok,
        r matches Ok(c) ==> c@ == aes256gcm_sealed(key@, nonce@, plaintext@) && aes256gcm_opened(
            key@,
            nonce@,
            c@,
        ) == Some(plaintext@),
        r matches Ok(c) ==> c@.len() == plaintext@.len() + 16,
        r matches Err(m) ==> m@ == "aead::Error"@,
{
    let cipher = aes_gcm::Aes256Gcm::new(aes_gcm::Key::<aes_gcm::Aes256Gcm>::from_slice(key));
    match cipher.encrypt(aes_gcm::Nonce::from_slice(nonce), plaintext) {
        Ok(c) => Ok(c),
        Err(e) => Err(e.to_string()),
    }
}

/// `Aes256Gcm::decrypt` without associated data.
#[verifier::external_body]
pub(crate) fn aes256gcm_decrypt(key: &[u8; 32], nonce: &[u8; 12], ciphertext: &[u8]) -> (r: Option<
    Vec<u8>,
>)
    ensures
        r matches Some(p) ==> aes256gcm_opened(key@, nonce@, ciphertext@) == Some(p@),
        r is None ==> aes256gcm_opened(key@, nonce@, ciphertext@) is None,
{
    let cipher = aes_gcm::Aes256Gcm::new(aes_gcm::Key::<aes_gcm::Aes256Gcm>::from_slice(key));
    match cipher.decrypt(aes_gcm::Nonce::from_slice(nonce), ciphertext) {
        Ok(p) => Some(p),
        Err(_) => None,
    }
}

// ---------------------------------------------------------------------------
// JSON (serde_json)
// ---------------------------------------------------------------------------

#[verifier::external_type_specification]
#[verifier::external_body]
pub struct ExJsonError(serde_json::Error);

/// How serde_json writes one character inside a JSON string: `"` and `\\`
/// and the controls with a short escape are escaped with a backslash, the
/// other characters below U+0020 as `\\u00` and two lower-case hex digits,
/// and everything else as it is.
pub open spec fn json_char_escape(c: char) -> Seq<char> {
    if c == '"' {
        seq!['\\', '"']
    } else if c == '\\' {
        seq!['\\', '\\']
    } else if c == '\u{8}' {
        seq!['\\', 'b']
    } else if c == '\t' {
        seq!['\\', 't']
    } else if c == '\n' {
        seq!['\\', 'n']
    } else if c == '\u{c}' {
        seq!['\\', 'f']
    } else if c == '\r' {
        seq!['\\', 'r']
    } else if (c as nat) < 32 {
        let hi = hex_digit((c as nat) / 16);
        let lo = hex_digit((c as nat) % 16);
        seq!['\\', 'u', '0', '0', hi, lo]
    } else {
        seq![c]
    }
}

/// The characters of a text, each escaped as inside a JSON string.
pub open spec fn json_escaped(s: Seq<char>) -> Seq<char>
    decreases s.len(),
{
    if s.len() == 0 {
        Seq::empty()
    } else {
        json_escaped(s.drop_last()) + json_char_escape(s.last())
    }
}

/// The JSON string literal of a text: quoted, with its special characters escaped.
pub open spec fn json_quoted(s: Seq<char>) -> Seq<char> {
    seq!['"'] + json_escaped(s) + seq!['"']
}

/// `serde_json::to_string` of a string slice: its JSON string literal. It
/// succeeds: a string serializes without error into the in-memory buffer,
/// whose writes never fail.
#[verifier::external_body]
pub(crate) fn json_string(s: &str) -> (r: Result<String, serde_json::Error>)
    ensures
        r is Ok,
        r matches Ok(t) ==> t@ == json_quoted(s@),
{
    serde_json::to_string(s)
}

/// The `Display` text of a `serde_json::Error`. Nothing is promised of it.
#[verifier::external_body]
pub(crate) fn json_error_text(e: &serde_json::Error) -> String {
    e.to_string()
}

// ---------------------------------------------------------------------------
// Lossy UTF-8 decoding (std)
// ---------------------------------------------------------------------------

/// The text `String::from_utf8_lossy` makes of some bytes: their UTF-8
/// decoding, with each invalid sequence replaced by U+FFFD.
pub uninterp spec fn utf8_lossy_text(bytes: Seq<u8>) -> Seq<char>;

/// `String::from_utf8_lossy`, owned: valid UTF-8 is decoded as it is.
#[verifier::external_body]
pub(crate) fn utf8_lossy(bytes: &[u8]) -> (r: String)
    ensures
        r@ == utf8_lossy_text(bytes@),
        valid_utf8(bytes@) ==> r@ == decode_utf8(bytes@),
{
    String::from_utf8_lossy(bytes).into_owned()
}

} // verus!

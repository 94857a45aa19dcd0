//! Sealing and opening of key pairs for storage: the secret key is
//! encrypted with AES-256-GCM under a key derived from a passphrase with
//! PBKDF2-HMAC-SHA256 (100 000 rounds). Reading and writing key files is the
//! caller's part; this module turns key pairs into keystore records and back.
use crate::error::{result_view, HiveError, HiveErrorView};
use crate::primitives::{
    aes256gcm_decrypt, aes256gcm_encrypt, aes256gcm_opened, aes_gcm_max_plaintext, hex_decode,
    hex_encode, hex_error_text, pbkdf2_sha256, pbkdf2_sha256_key, random_bytes,
};
use crate::receipt::{lemma_hex_round_trip, AgentKeypair};
use crate::text::{chars_to_string, hex_bytes, hex_lower, is_hex_text, lemma_hex_lower_len, push_str};
use crate::types::PublicKeyHex;
use vstd::prelude::*;
use vstd::utf8::encode_utf8;

verus! {

broadcast use vstd::string::group_string_axioms;

/// A stored key pair.
#[derive(Debug, Clone)]
pub struct KeystoreData {
    pub agent_id: String,
    pub public_key: PublicKeyHex,
    pub encrypted: bool,
    pub kdf: String,
    pub salt_hex: Option<String>,
    pub nonce_hex: Option<String>,
    pub ciphertext_hex: String,
}

/// A keystore record, with its texts as character sequences.
pub struct KeystoreView {
    pub agent_id: Seq<char>,
    pub public_key: Seq<char>,
    pub encrypted: bool,
    pub kdf: Seq<char>,
    pub salt_hex: Option<Seq<char>>,
    pub nonce_hex: Option<Seq<char>>,
    pub ciphertext_hex: Seq<char>,
}

pub open spec fn opt_view(o: Option<String>) -> Option<Seq<char>> {
    match o {
        Some(s) => Some(s@),
        None => None,
    }
}

impl View for KeystoreData {
    type V = KeystoreView;

    open spec fn view(&self) -> KeystoreView {
        KeystoreView {
            agent_id: self.agent_id@,
            public_key: self.public_key@,
            encrypted: self.encrypted,
            kdf: self.kdf@,
            salt_hex: opt_view(self.salt_hex),
            nonce_hex: opt_view(self.nonce_hex),
            ciphertext_hex: self.ciphertext_hex@,
        }
    }
}

/// Seals and opens keystore records.
pub struct KeystoreManager;

/// The PBKDF2 rounds used for key derivation.
pub open spec fn kdf_rounds() -> u32 {
    100_000
}

/// The encryption key a passphrase and a salt give.
pub open spec fn passphrase_key(passphrase: Seq<char>, salt: Seq<u8>) -> Seq<u8> {
    pbkdf2_sha256_key(encode_utf8(passphrase), salt, kdf_rounds())
}

/// The record of a key pair sealed under `passphrase` with `salt` and `nonce`.
pub open spec fn sealed_record(
    agent_id: Seq<char>,
    keypair: AgentKeypair,
    passphrase: Seq<char>,
    salt: Seq<u8>,
    nonce: Seq<u8>,
    ciphertext: Seq<u8>,
) -> KeystoreView {
    KeystoreView {
        agent_id,
        public_key: hex_lower(keypair.verifying_key@),
        encrypted: true,
        kdf: "PBKDF2-HMAC-SHA256-100k-AES256GCM"@,
        salt_hex: Some(hex_lower(salt)),
        nonce_hex: Some(hex_lower(nonce)),
        ciphertext_hex: hex_lower(ciphertext),
    }
}

/// The record of a key pair stored without encryption: the secret key in
/// hex, with no salt, nonce or key derivation.
pub open spec fn plain_record(agent_id: Seq<char>, keypair: AgentKeypair) -> KeystoreView {
    KeystoreView {
        agent_id,
        public_key: hex_lower(keypair.verifying_key@),
        encrypted: false,
        kdf: "none"@,
        salt_hex: None,
        nonce_hex: None,
        ciphertext_hex: hex_lower(keypair.signing_key@),
    }
}

/// Opening a record would reach the nonce with a nonce that is not 12
/// bytes long (which the cipher cannot take).
pub open spec fn bad_nonce(d: KeystoreView) -> bool {
    &&& d.encrypted
    &&& d.salt_hex is Some
    &&& d.nonce_hex is Some
    &&& is_hex_text(d.salt_hex->0)
    &&& is_hex_text(d.nonce_hex->0)
    &&& hex_bytes(d.nonce_hex->0).len() != 12
}

pub open spec fn agent_err(m: Seq<char>) -> Result<Seq<u8>, HiveErrorView> {
    Err(HiveErrorView::Agent(m))
}

/// What opening a record with `passphrase` gives: the secret key, or why not.
pub open spec fn opened_secret(d: KeystoreView, passphrase: Seq<char>) -> Result<
    Seq<u8>,
    HiveErrorView,
> {
    if !d.encrypted {
        if !is_hex_text(d.ciphertext_hex) {
            agent_err("Invalid secret key hex: "@ + hex_error_text(d.ciphertext_hex))
        } else if hex_bytes(d.ciphertext_hex).len() != 32 {
            agent_err("Secret key must be 32 bytes"@)
        } else {
            Ok(hex_bytes(d.ciphertext_hex))
        }
    } else if d.salt_hex is None {
        agent_err("Missing salt in encrypted keystore"@)
    } else if d.nonce_hex is None {
        agent_err("Missing nonce in encrypted keystore"@)
    } else if !is_hex_text(d.salt_hex->0) {
        agent_err("Invalid salt hex: "@ + hex_error_text(d.salt_hex->0))
    } else if !is_hex_text(d.nonce_hex->0) {
        agent_err("Invalid nonce hex: "@ + hex_error_text(d.nonce_hex->0))
    } else if !is_hex_text(d.ciphertext_hex) {
        agent_err("Invalid ciphertext hex: "@ + hex_error_text(d.ciphertext_hex))
    } else {
        let key = passphrase_key(passphrase, hex_bytes(d.salt_hex->0));
        match aes256gcm_opened(key, hex_bytes(d.nonce_hex->0), hex_bytes(d.ciphertext_hex)) {
            None => agent_err("Decryption failed: Incorrect passphrase"@),
            Some(p) => if p.len() != 32 {
                agent_err("Decrypted key must be 32 bytes"@)
            } else {
                Ok(p)
            },
        }
    }
}

fn to_array12(v: &Vec<u8>) -> (a: [u8; 12])
    requires
        v@.len() == 12,
    ensures
        a@ == v@,
{
    let mut a = [0u8; 12];
    let mut i: usize = 0;
    while i < 12
        invariant
            v@.len() == 12,
            i <= 12,
            forall|j: int| 0 <= j < i ==> a@[j] == v@[j],
        decreases 12 - i,
    {
        a[i] = v[i];
        i = i + 1;
    }
    assert(a@ =~= v@);
    a
}

fn to_array32(v: &Vec<u8>) -> (a: [u8; 32])
    requires
        v@.len() == 32,
    ensures
        a@ == v@,
{
    let mut a = [0u8; 32];
    let mut i: usize = 0;
    while i < 32
        invariant
            v@.len() == 32,
            i <= 32,
            forall|j: int| 0 <= j < i ==> a@[j] == v@[j],
        decreases 32 - i,
    {
        a[i] = v[i];
        i = i + 1;
    }
    assert(a@ =~= v@);
    a
}

fn agent_error(prefix: &str, detail: &String) -> (r: HiveError)
    ensures
        r@ == HiveErrorView::Agent(prefix@ + detail@),
{
    let mut v: Vec<char> = Vec::new();
    push_str(&mut v, prefix);
    push_str(&mut v, detail.as_str());
    HiveError::AgentError(chars_to_string(&v))
}

fn decode_field(text: &String, prefix: &str) -> (r: Result<Vec<u8>, HiveError>)
    ensures
        r is Ok <==> is_hex_text(text@),
        r matches Ok(v) ==> v@ == hex_bytes(text@),
        r matches Err(e) ==> e@ == HiveErrorView::Agent(prefix@ + hex_error_text(text@)),
{
    match hex_decode(text.as_str()) {
        Ok(v) => Ok(v),
        Err(m) => Err(agent_error(prefix, &m)),
    }
}

impl KeystoreManager {
    /// Seals `keypair` under `passphrase`, with the given salt and nonce.
    /// Opening the record with the same passphrase gives the secret key back.
    pub fn seal_keypair_with(
        agent_id: &str,
        keypair: &AgentKeypair,
        passphrase: &str,
        salt: &Vec<u8>,
        nonce: &[u8; 12],
    ) -> (r: KeystoreData)
        ensures
            r@ == sealed_record(
                agent_id@,
                *keypair,
                passphrase@,
                salt@,
                nonce@,
                hex_bytes(r@.ciphertext_hex),
            ),
            is_hex_text(r@.ciphertext_hex),
            aes256gcm_opened(
                passphrase_key(passphrase@, salt@),
                nonce@,
                hex_bytes(r@.ciphertext_hex),
            ) == Some(keypair.signing_key@),
            opened_secret(r@, passphrase@) == Ok::<Seq<u8>, HiveErrorView>(keypair.signing_key@),
            !bad_nonce(r@),
            hex_bytes(r@.ciphertext_hex).len() == 48,
            r@.ciphertext_hex.len() == 96,
            r@.salt_hex == Some(hex_lower(salt@)),
            r@.salt_hex->0.len() == 2 * salt@.len(),
            r@.nonce_hex->0.len() == 24,
    {
        let key = pbkdf2_sha256(passphrase.as_bytes(), salt.as_slice(), 100_000);
        let sealed = aes256gcm_encrypt(&key, nonce, keypair.signing_key.as_slice());
        let ciphertext = match sealed {
            Ok(c) => c,
            Err(_) => {
                // Unreachable: a 32-byte secret is far below the AES-GCM
                // plaintext limit, so encryption succeeds.
                proof {
                    assert(keypair.signing_key@.len() <= aes_gcm_max_plaintext());
                }
                Vec::new()
            },
        };
        let r = KeystoreData {
            agent_id: String::from_str(agent_id),
            public_key: keypair.public_key_hex(),
            encrypted: true,
            kdf: String::from_str("PBKDF2-HMAC-SHA256-100k-AES256GCM"),
            salt_hex: Some(hex_encode(salt.as_slice())),
            nonce_hex: Some(hex_encode(nonce.as_slice())),
            ciphertext_hex: hex_encode(ciphertext.as_slice()),
        };
        proof {
            lemma_hex_round_trip(salt@);
            lemma_hex_round_trip(nonce@);
            lemma_hex_round_trip(ciphertext@);
            lemma_hex_lower_len(salt@);
            lemma_hex_lower_len(nonce@);
            lemma_hex_lower_len(ciphertext@);
        }
        r
    }

    /// Seals `keypair` under `passphrase`, with a fresh random 16-byte salt
    /// and 12-byte nonce.
    pub fn seal_keypair(agent_id: &str, keypair: &AgentKeypair, passphrase: &str) -> (r:
        KeystoreData)
        ensures
            exists|salt: Seq<u8>, nonce: Seq<u8>, ciphertext: Seq<u8>|
                {
                    &&& salt.len() == 16
                    &&& nonce.len() == 12
                    &&& r@ == #[trigger] sealed_record(
                        agent_id@,
                        *keypair,
                        passphrase@,
                        salt,
                        nonce,
                        ciphertext,
                    )
                    &&& aes256gcm_opened(passphrase_key(passphrase@, salt), nonce, ciphertext)
                        == Some(keypair.signing_key@)
                },
            opened_secret(r@, passphrase@) == Ok::<Seq<u8>, HiveErrorView>(keypair.signing_key@),
            !bad_nonce(r@),
            r@.salt_hex matches Some(h) && h.len() == 32,
            r@.nonce_hex matches Some(h) && h.len() == 24,
            r@.ciphertext_hex.len() == 96,
            hex_bytes(r@.ciphertext_hex).len() == 48,
    {
        let salt = random_bytes(16);
        let nonce_bytes = random_bytes(12);
        let nonce = to_array12(&nonce_bytes);
        let r = Self::seal_keypair_with(agent_id, keypair, passphrase, &salt, &nonce);
        assert(r@ == sealed_record(
            agent_id@,
            *keypair,
            passphrase@,
            salt@,
            nonce@,
            hex_bytes(r@.ciphertext_hex),
        ));
        r
    }

    /// The unencrypted record of `keypair`: its secret key in hex. Opening
    /// it gives the secret back, whatever the passphrase.
    pub fn plain_keypair_record(agent_id: &str, keypair: &AgentKeypair) -> (r: KeystoreData)
        ensures
            r@ == plain_record(agent_id@, *keypair),
            r@.ciphertext_hex.len() == 64,
            forall|passphrase: Seq<char>|
                #[trigger] opened_secret(r@, passphrase) == Ok::<Seq<u8>, HiveErrorView>(
                    keypair.signing_key@,
                ),
            !bad_nonce(r@),
    {
        let r = KeystoreData {
            agent_id: String::from_str(agent_id),
            public_key: keypair.public_key_hex(),
            encrypted: false,
            kdf: String::from_str("none"),
            salt_hex: None,
            nonce_hex: None,
            ciphertext_hex: hex_encode(keypair.signing_key.as_slice()),
        };
        proof {
            lemma_hex_round_trip(keypair.signing_key@);
            lemma_hex_lower_len(keypair.signing_key@);
        }
        r
    }

    /// Opens a record with `passphrase`: a plain record holds the secret key
    /// in hex, an encrypted one is decrypted under the key the passphrase and
    /// the stored salt give.
    pub fn open_keypair(data: &KeystoreData, passphrase: &str) -> (r: Result<
        AgentKeypair,
        HiveError,
    >)
        requires
            !bad_nonce(data@),
        ensures
            match (r, opened_secret(data@, passphrase@)) {
                (Ok(kp), Ok(s)) => kp.signing_key@ == s && kp.is_consistent(),
                (Err(e), Err(v)) => e@ == v,
                _ => false,
            },
    {
        if !data.encrypted {
            let secret = decode_field(&data.ciphertext_hex, "Invalid secret key hex: ")?;
            if secret.len() != 32 {
                return Err(HiveError::AgentError(String::from_str("Secret key must be 32 bytes")));
            }
            let arr = to_array32(&secret);
            return Ok(AgentKeypair::from_signing_key(arr));
        }
        let salt_hex = match &data.salt_hex {
            Some(s) => s,
            None => {
                return Err(
                    HiveError::AgentError(String::from_str("Missing salt in encrypted keystore")),
                );
            },
        };
        let nonce_hex = match &data.nonce_hex {
            Some(s) => s,
            None => {
                return Err(
                    HiveError::AgentError(String::from_str("Missing nonce in encrypted keystore")),
                );
            },
        };
        let salt = decode_field(salt_hex, "Invalid salt hex: ")?;
        let nonce_bytes = decode_field(nonce_hex, "Invalid nonce hex: ")?;
        let key = pbkdf2_sha256(passphrase.as_bytes(), salt.as_slice(), 100_000);
        let nonce = to_array12(&nonce_bytes);
        let ciphertext = decode_field(&data.ciphertext_hex, "Invalid ciphertext hex: ")?;
        let decrypted = match aes256gcm_decrypt(&key, &nonce, ciphertext.as_slice()) {
            Some(p) => p,
            None => {
                return Err(
                    HiveError::AgentError(String::from_str("Decryption failed: Incorrect passphrase")),
                );
            },
        };
        if decrypted.len() != 32 {
            return Err(HiveError::AgentError(String::from_str("Decrypted key must be 32 bytes")));
        }
        let arr = to_array32(&decrypted);
        Ok(AgentKeypair::from_signing_key(arr))
    }
}

// ---------------------------------------------------------------------------
// Laws
// ---------------------------------------------------------------------------

/// Sealing then opening with the same passphrase gives the same secret key
/// back, whatever the salt and nonce.
pub proof fn lemma_seal_open_round_trip(
    agent_id: Seq<char>,
    keypair: AgentKeypair,
    passphrase: Seq<char>,
    salt: Seq<u8>,
    nonce: Seq<u8>,
    ciphertext: Seq<u8>,
)
    requires
        nonce.len() == 12,
        keypair.signing_key@.len() == 32,
        aes256gcm_opened(passphrase_key(passphrase, salt), nonce, ciphertext) == Some(
            keypair.signing_key@,
        ),
    ensures
        opened_secret(
            sealed_record(agent_id, keypair, passphrase, salt, nonce, ciphertext),
            passphrase,
        ) == Ok::<Seq<u8>, HiveErrorView>(keypair.signing_key@),
{
    lemma_hex_round_trip(salt);
    lemma_hex_round_trip(nonce);
    lemma_hex_round_trip(ciphertext);
}

} // verus!

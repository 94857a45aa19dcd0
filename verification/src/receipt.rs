//! Agent key pairs and cryptographically bound task receipts.
//!
//! A receipt binds a task, a worker, and the exact input and output payloads:
//! the input and output hashes are the hex SHA-256 digests of the payloads,
//! and the execution digest is the hex SHA-256 digest of
//! `task_id:worker_id:input_hash:output_hash:timestamp`. The worker signs the
//! execution digest with Ed25519.
use crate::error::{result_view, HiveError, HiveErrorView};
use crate::primitives::{
    check_public_key, derive_public_key, ed25519_accepts, ed25519_key_decodes,
    ed25519_key_error_text, ed25519_public_of, ed25519_signature_of, ed25519_verify_error_text,
    generate_secret_key, hex_decode, max_utc_seconds, hex_encode, hex_error_text, now_unix_seconds, sha256,
    sha256_of, sign_bytes, uuid_text, uuid_to_string, verify_bytes,
};
use crate::text::{
    chars_to_string, hex_bytes, hex_digit, hex_lower, hex_value, is_hex_char, is_hex_text,
    lemma_hex_lower_len, push_str, signed_decimal, signed_decimal_exec, push_chars, str_chars,
};
use crate::types::{ExecutionDigest, PublicKeyHex, SignatureHex, TaskId};
use vstd::prelude::*;
use vstd::utf8::encode_utf8;

verus! {

broadcast use vstd::string::group_string_axioms;

// ---------------------------------------------------------------------------
// Hex round trip
// ---------------------------------------------------------------------------

proof fn lemma_hex_digit(d: nat)
    requires
        d < 16,
    ensures
        is_hex_char(hex_digit(d)),
        hex_value(hex_digit(d)) == d,
{
}

proof fn lemma_hex_lower_index(b: Seq<u8>, i: int)
    requires
        0 <= i < b.len(),
    ensures
        hex_lower(b).len() == 2 * b.len(),
        hex_lower(b)[2 * i] == hex_digit((b[i] / 16) as nat),
        hex_lower(b)[2 * i + 1] == hex_digit((b[i] % 16) as nat),
    decreases b.len(),
{
    lemma_hex_lower_len(b);
    lemma_hex_lower_len(b.drop_first());
    if i > 0 {
        lemma_hex_lower_index(b.drop_first(), i - 1);
    }
}

/// Hex-encoding bytes gives a hex text that decodes back to the same bytes.
pub proof fn lemma_hex_round_trip(b: Seq<u8>)
    ensures
        is_hex_text(hex_lower(b)),
        hex_bytes(hex_lower(b)) == b,
{
    let h = hex_lower(b);
    lemma_hex_lower_len(b);
    assert forall|k: int| 0 <= k < h.len() implies is_hex_char(#[trigger] h[k]) by {
        let i = k / 2;
        lemma_hex_lower_index(b, i);
        lemma_hex_digit((b[i] / 16) as nat);
        lemma_hex_digit((b[i] % 16) as nat);
    }
    assert forall|i: int| 0 <= i < b.len() implies #[trigger] hex_bytes(h)[i] == b[i] by {
        lemma_hex_lower_index(b, i);
        lemma_hex_digit((b[i] / 16) as nat);
        lemma_hex_digit((b[i] % 16) as nat);
    }
    assert(hex_bytes(h) =~= b);
}

fn to_array32(v: &Vec<u8>) -> (a: [u8; 32])
    requires
        v@.len() == 32,
    ensures
        a@ == v@,
{
    let mut a = [0u8; 32];
    let mut i: usize = 0;
    while i < 32
        invariant
            v@.len() == 32,
            i <= 32,
            forall|j: int| 0 <= j < i ==> a@[j] == v@[j],
        decreases 32 - i,
    {
        a[i] = v[i];
        i = i + 1;
    }
    assert(a@ =~= v@);
    a
}

fn to_array64(v: &Vec<u8>) -> (a: [u8; 64])
    requires
        v@.len() == 64,
    ensures
        a@ == v@,
{
    let mut a = [0u8; 64];
    let mut i: usize = 0;
    while i < 64
        invariant
            v@.len() == 64,
            i <= 64,
            forall|j: int| 0 <= j < i ==> a@[j] == v@[j],
        decreases 64 - i,
    {
        a[i] = v[i];
        i = i + 1;
    }
    assert(a@ =~= v@);
    a
}

// ---------------------------------------------------------------------------
// Key pairs
// ---------------------------------------------------------------------------

/// An Ed25519 key pair, as raw key bytes.
#[derive(Debug, Clone)]
pub struct AgentKeypair {
    pub signing_key: [u8; 32],
    pub verifying_key: [u8; 32],
}

impl AgentKeypair {
    /// The verifying key belongs to the signing key and is a valid key.
    pub open spec fn is_consistent(&self) -> bool {
        &&& self.verifying_key@ == ed25519_public_of(self.signing_key@)
        &&& ed25519_key_decodes(self.verifying_key@)
    }

    /// A fresh key pair from the operating system's randomness.
    pub fn generate() -> (r: Self)
        ensures
            r.is_consistent(),
    {
        let secret = generate_secret_key();
        Self::from_signing_key(secret)
    }

    /// The key pair of a secret key.
    pub fn from_signing_key(secret: [u8; 32]) -> (r: Self)
        ensures
            r.signing_key@ == secret@,
            r.is_consistent(),
    {
        let verifying_key = derive_public_key(&secret);
        AgentKeypair { signing_key: secret, verifying_key }
    }

    /// The verifying key, hex-encoded.
    pub fn public_key_hex(&self) -> (r: PublicKeyHex)
        ensures
            r@ == hex_lower(self.verifying_key@),
            r@.len() == 64,
    {
        proof {
            lemma_hex_lower_len(self.verifying_key@);
        }
        hex_encode(self.verifying_key.as_slice())
    }

    /// The Ed25519 signature of `message`, hex-encoded; with a consistent key
    /// pair, the verifying key accepts it.
    pub fn sign(&self, message: &[u8]) -> (r: SignatureHex)
        ensures
            r@ == hex_lower(ed25519_signature_of(self.signing_key@, message@)),
            r@.len() == 128,
            self.is_consistent() ==> ed25519_accepts(self.verifying_key@, message@, hex_bytes(r@)),
    {
        let sig = sign_bytes(&self.signing_key, message);
        proof {
            lemma_hex_lower_len(sig@);
            lemma_hex_round_trip(sig@);
        }
        hex_encode(sig.as_slice())
    }

    /// The same as `sign`.
    pub fn sign_message(&self, message: &[u8]) -> (r: SignatureHex)
        ensures
            r@ == hex_lower(ed25519_signature_of(self.signing_key@, message@)),
            r@.len() == 128,
            self.is_consistent() ==> ed25519_accepts(self.verifying_key@, message@, hex_bytes(r@)),
    {
        self.sign(message)
    }
}

// ---------------------------------------------------------------------------
// Receipts
// ---------------------------------------------------------------------------

/// A worker's signed statement that it produced `output_payload` for a task.
#[derive(Debug, Clone, PartialEq, Eq)]
pub struct TaskReceipt {
    pub task_id: TaskId,
    pub worker_id: String,
    pub worker_pubkey: PublicKeyHex,
    pub input_hash: String,
    pub output_hash: String,
    pub output_payload: String,
    pub execution_duration_ms: u64,
    pub timestamp: i64,
    pub execution_digest: ExecutionDigest,
    pub signature: SignatureHex,
}

/// A receipt, with its texts as character sequences.
pub struct TaskReceiptView {
    pub task_id: TaskId,
    pub worker_id: Seq<char>,
    pub worker_pubkey: Seq<char>,
    pub input_hash: Seq<char>,
    pub output_hash: Seq<char>,
    pub output_payload: Seq<char>,
    pub execution_duration_ms: u64,
    pub timestamp: i64,
    pub execution_digest: Seq<char>,
    pub signature: Seq<char>,
}

impl View for TaskReceipt {
    type V = TaskReceiptView;

    open spec fn view(&self) -> TaskReceiptView {
        TaskReceiptView {
            task_id: self.task_id,
            worker_id: self.worker_id@,
            worker_pubkey: self.worker_pubkey@,
            input_hash: self.input_hash@,
            output_hash: self.output_hash@,
            output_payload: self.output_payload@,
            execution_duration_ms: self.execution_duration_ms,
            timestamp: self.timestamp,
            execution_digest: self.execution_digest@,
            signature: self.signature@,
        }
    }
}

/// The hex SHA-256 digest of a text's UTF-8 bytes.
pub open spec fn text_hash(t: Seq<char>) -> Seq<char> {
    hex_lower(sha256_of(encode_utf8(t)))
}

/// The text the execution digest hashes: task, worker, both hashes and the
/// timestamp, separated by colons.
pub open spec fn binding_message(
    task_id: TaskId,
    worker_id: Seq<char>,
    input_hash: Seq<char>,
    output_hash: Seq<char>,
    timestamp: i64,
) -> Seq<char> {
    uuid_text(task_id) + ":"@ + worker_id + ":"@ + input_hash + ":"@ + output_hash + ":"@
        + signed_decimal(timestamp as int)
}

/// The input hash, output hash and execution digest of a receipt's contents.
pub open spec fn receipt_digests(
    task_id: TaskId,
    worker_id: Seq<char>,
    input_payload: Seq<char>,
    output_payload: Seq<char>,
    timestamp: i64,
) -> (Seq<char>, Seq<char>, Seq<char>) {
    let ih = text_hash(input_payload);
    let oh = text_hash(output_payload);
    (ih, oh, text_hash(binding_message(task_id, worker_id, ih, oh, timestamp)))
}

/// The receipt a worker with key pair (`secret`, `public`) signs.
pub open spec fn signed_receipt(
    task_id: TaskId,
    worker_id: Seq<char>,
    secret: Seq<u8>,
    public: Seq<u8>,
    input_payload: Seq<char>,
    output_payload: Seq<char>,
    execution_duration_ms: u64,
    timestamp: i64,
) -> TaskReceiptView {
    let (ih, oh, d) = receipt_digests(task_id, worker_id, input_payload, output_payload, timestamp);
    TaskReceiptView {
        task_id,
        worker_id,
        worker_pubkey: hex_lower(public),
        input_hash: ih,
        output_hash: oh,
        output_payload,
        execution_duration_ms,
        timestamp,
        execution_digest: d,
        signature: hex_lower(ed25519_signature_of(secret, encode_utf8(d))),
    }
}

/// What checking a receipt's signature gives: the key and signature texts
/// must decode to 32 and 64 bytes, the key must be valid, and it must accept
/// the signature on the execution digest's UTF-8 bytes.
pub open spec fn signature_check(r: TaskReceiptView) -> Result<bool, HiveErrorView> {
    let pk = hex_bytes(r.worker_pubkey);
    let sig = hex_bytes(r.signature);
    let msg = encode_utf8(r.execution_digest);
    if !is_hex_text(r.worker_pubkey) {
        Err(HiveErrorView::Signature("Invalid pubkey hex: "@ + hex_error_text(r.worker_pubkey)))
    } else if pk.len() != 32 {
        Err(HiveErrorView::Signature("Public key must be 32 bytes"@))
    } else if !ed25519_key_decodes(pk) {
        Err(HiveErrorView::Signature("Invalid verifying key: "@ + ed25519_key_error_text(pk)))
    } else if !is_hex_text(r.signature) {
        Err(HiveErrorView::Signature("Invalid signature hex: "@ + hex_error_text(r.signature)))
    } else if sig.len() != 64 {
        Err(HiveErrorView::Signature("Signature must be 64 bytes"@))
    } else if !ed25519_accepts(pk, msg, sig) {
        Err(
            HiveErrorView::Signature(
                "Signature verification failed: "@ + ed25519_verify_error_text(pk, msg, sig),
            ),
        )
    } else {
        Ok(true)
    }
}

/// What checking a receipt against an input payload gives: its input hash,
/// output hash and execution digest must be those of its contents with that
/// input, checked in that order.
pub open spec fn content_check(r: TaskReceiptView, input_payload: Seq<char>) -> Result<
    bool,
    HiveErrorView,
> {
    let (ih, oh, d) = receipt_digests(
        r.task_id,
        r.worker_id,
        input_payload,
        r.output_payload,
        r.timestamp,
    );
    if r.input_hash != ih {
        Err(
            HiveErrorView::TaskExecution(
                "Receipt input_hash mismatch: expected "@ + ih + ", got "@ + r.input_hash,
            ),
        )
    } else if r.output_hash != oh {
        Err(
            HiveErrorView::TaskExecution(
                "Receipt output_hash mismatch: expected "@ + oh + ", got "@ + r.output_hash,
            ),
        )
    } else if r.execution_digest != d {
        Err(
            HiveErrorView::TaskExecution(
                "Receipt execution_digest mismatch: expected "@ + d + ", got "@ + r.execution_digest,
            ),
        )
    } else {
        Ok(true)
    }
}

/// Content binding: a receipt passes the content check against an input
/// exactly when its input hash, output hash and execution digest are the
/// digests of that input, of its own output payload and of its task, worker
/// and timestamp; and a passing check always answers `Ok(true)`.
pub proof fn lemma_content_check_binds(r: TaskReceiptView, input_payload: Seq<char>)
    ensures
        content_check(r, input_payload) is Ok <==> (r.input_hash, r.output_hash, r.execution_digest)
            == receipt_digests(r.task_id, r.worker_id, input_payload, r.output_payload, r.timestamp),
        content_check(r, input_payload) is Ok ==> content_check(r, input_payload) == Ok::<
            bool,
            HiveErrorView,
        >(true),
{
}

fn text_hash_exec(t: &str) -> (r: String)
    ensures
        r@ == text_hash(t@),
        r@.len() == 64,
{
    let digest = sha256(t.as_bytes());
    proof {
        lemma_hex_lower_len(digest@);
    }
    hex_encode(digest.as_slice())
}

fn mismatch_error(prefix: &str, expected: &String, got: &String) -> (r: HiveError)
    ensures
        r@ == HiveErrorView::TaskExecution(prefix@ + expected@ + ", got "@ + got@),
{
    let mut v: Vec<char> = Vec::new();
    push_str(&mut v, prefix);
    push_str(&mut v, expected.as_str());
    push_str(&mut v, ", got ");
    push_str(&mut v, got.as_str());
    HiveError::TaskExecutionError(chars_to_string(&v))
}

fn signature_error(prefix: &str, detail: &String) -> (r: HiveError)
    ensures
        r@ == HiveErrorView::Signature(prefix@ + detail@),
{
    let mut v: Vec<char> = Vec::new();
    push_str(&mut v, prefix);
    push_str(&mut v, detail.as_str());
    HiveError::SignatureError(chars_to_string(&v))
}

impl TaskReceipt {
    /// The input hash, output hash and execution digest of the given contents.
    pub fn compute_digests(
        task_id: TaskId,
        worker_id: &str,
        input_payload: &str,
        output_payload: &str,
        timestamp: i64,
    ) -> (r: (String, String, ExecutionDigest))
        ensures
            (r.0@, r.1@, r.2@) == receipt_digests(
                task_id,
                worker_id@,
                input_payload@,
                output_payload@,
                timestamp,
            ),
            r.0@.len() == 64,
            r.1@.len() == 64,
            r.2@.len() == 64,
    {
        let input_hash = text_hash_exec(input_payload);
        let output_hash = text_hash_exec(output_payload);
        let id_text = uuid_to_string(task_id);
        let mut m: Vec<char> = Vec::new();
        push_str(&mut m, id_text.as_str());
        push_str(&mut m, ":");
        push_str(&mut m, worker_id);
        push_str(&mut m, ":");
        push_str(&mut m, input_hash.as_str());
        push_str(&mut m, ":");
        push_str(&mut m, output_hash.as_str());
        push_str(&mut m, ":");
        let ts = signed_decimal_exec(timestamp);
        push_chars(&mut m, &ts);
        let message = chars_to_string(&m);
        assert(message@ == binding_message(
            task_id,
            worker_id@,
            input_hash@,
            output_hash@,
            timestamp,
        ));
        let execution_digest = text_hash_exec(message.as_str());
        (input_hash, output_hash, execution_digest)
    }

    /// The receipt a worker signs at `timestamp` (seconds since the Unix
    /// epoch). With a consistent key pair, the receipt's signature checks out
    /// and its contents bind to `input_payload`.
    pub fn create_and_sign_at(
        task_id: TaskId,
        worker_id: &str,
        keypair: &AgentKeypair,
        input_payload: &str,
        output_payload: &str,
        execution_duration_ms: u64,
        timestamp: i64,
    ) -> (r: Self)
        ensures
            r@ == signed_receipt(
                task_id,
                worker_id@,
                keypair.signing_key@,
                keypair.verifying_key@,
                input_payload@,
                output_payload@,
                execution_duration_ms,
                timestamp,
            ),
            keypair.is_consistent() ==> signature_check(r@) == Ok::<bool, HiveErrorView>(true),
            content_check(r@, input_payload@) == Ok::<bool, HiveErrorView>(true),
    {
        let (input_hash, output_hash, execution_digest) = Self::compute_digests(
            task_id,
            worker_id,
            input_payload,
            output_payload,
            timestamp,
        );
        let sig = sign_bytes(&keypair.signing_key, execution_digest.as_str().as_bytes());
        let signature = hex_encode(sig.as_slice());
        let r = TaskReceipt {
            task_id,
            worker_id: String::from_str(worker_id),
            worker_pubkey: keypair.public_key_hex(),
            input_hash,
            output_hash,
            output_payload: String::from_str(output_payload),
            execution_duration_ms,
            timestamp,
            execution_digest,
            signature,
        };
        proof {
            lemma_hex_round_trip(keypair.verifying_key@);
            lemma_hex_round_trip(sig@);
        }
        r
    }

    /// The receipt a worker signs now.
    pub fn create_and_sign(
        task_id: TaskId,
        worker_id: &str,
        keypair: &AgentKeypair,
        input_payload: &str,
        output_payload: &str,
        execution_duration_ms: u64,
    ) -> (r: Self)
        ensures
            r@ == signed_receipt(
                task_id,
                worker_id@,
                keypair.signing_key@,
                keypair.verifying_key@,
                input_payload@,
                output_payload@,
                execution_duration_ms,
                r.timestamp,
            ),
            keypair.is_consistent() ==> signature_check(r@) == Ok::<bool, HiveErrorView>(true),
            content_check(r@, input_payload@) == Ok::<bool, HiveErrorView>(true),
            0 <= r.timestamp <= max_utc_seconds(),
    {
        let timestamp = now_unix_seconds();
        Self::create_and_sign_at(
            task_id,
            worker_id,
            keypair,
            input_payload,
            output_payload,
            execution_duration_ms,
            timestamp,
        )
    }

    /// Checks the Ed25519 signature on the execution digest against the
    /// receipt's own worker key.
    pub fn verify_signature(&self) -> (r: Result<bool, HiveError>)
        ensures
            result_view(r) == signature_check(self@),
    {
        let pk = match hex_decode(self.worker_pubkey.as_str()) {
            Ok(v) => v,
            Err(m) => {
                return Err(signature_error("Invalid pubkey hex: ", &m));
            },
        };
        if pk.len() != 32 {
            return Err(HiveError::SignatureError(String::from_str("Public key must be 32 bytes")));
        }
        let pk_arr = to_array32(&pk);
        match check_public_key(&pk_arr) {
            Ok(()) => {},
            Err(m) => {
                return Err(signature_error("Invalid verifying key: ", &m));
            },
        }
        let sig = match hex_decode(self.signature.as_str()) {
            Ok(v) => v,
            Err(m) => {
                return Err(signature_error("Invalid signature hex: ", &m));
            },
        };
        if sig.len() != 64 {
            return Err(HiveError::SignatureError(String::from_str("Signature must be 64 bytes")));
        }
        let sig_arr = to_array64(&sig);
        match verify_bytes(&pk_arr, self.execution_digest.as_str().as_bytes(), &sig_arr) {
            Ok(()) => Ok(true),
            Err(m) => Err(signature_error("Signature verification failed: ", &m)),
        }
    }

    /// Checks that the receipt's hashes and digest are those of its contents
    /// with `expected_input_payload` as the input.
    pub fn verify_content_integrity(&self, expected_input_payload: &str) -> (r: Result<
        bool,
        HiveError,
    >)
        ensures
            result_view(r) == content_check(self@, expected_input_payload@),
    {
        let (expected_input_hash, expected_output_hash, expected_digest) = Self::compute_digests(
            self.task_id,
            self.worker_id.as_str(),
            expected_input_payload,
            self.output_payload.as_str(),
            self.timestamp,
        );
        if !(self.input_hash == expected_input_hash) {
            return Err(mismatch_error("Receipt input_hash mismatch: expected ", &expected_input_hash, &self.input_hash));
        }
        if !(self.output_hash == expected_output_hash) {
            return Err(mismatch_error("Receipt output_hash mismatch: expected ", &expected_output_hash, &self.output_hash));
        }
        if !(self.execution_digest == expected_digest) {
            return Err(mismatch_error(
                "Receipt execution_digest mismatch: expected ",
                &expected_digest, &self.execution_digest));
        }
        Ok(true)
    }
}

} // verus!

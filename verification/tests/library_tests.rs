use hive_kernel::agent::SwarmAgentNode;
use hive_kernel::auction::{AuctionMatcher, CandidateBid};
use hive_kernel::auditor::ContractAuditor;
use hive_kernel::error::HiveError;
use hive_kernel::escrow::EscrowManager;
use hive_kernel::keystore::{KeystoreData, KeystoreManager};
use hive_kernel::receipt::{AgentKeypair, TaskReceipt};
use hive_kernel::registry::AgentRegistry;
use hive_kernel::settlement::SwarmLedger;
use hive_kernel::types::{AgentCapability, TaskSpec, TaskStatus};
use hive_kernel::validation::{audit_outcome, FraudProof, SwarmVerifier};

const SECOND: i64 = 1_000_000;

fn s(x: &str) -> String {
    x.to_string()
}

// ---------------------------------------------------------------- auditor

#[test]
fn audit_reports_each_rule_with_its_penalty() {
    let code = "contract C {\n  function a() public { require(tx.origin == owner); }\n  function b() public { target.call(data); }\n  function c() public { selfdestruct(owner); }\n  function d() public { impl.delegatecall(data); }\n}\n";
    let r = ContractAuditor::audit_source("C.sol", code);
    let titles: Vec<&str> = r.findings.iter().map(|f| f.title.as_str()).collect();
    assert_eq!(
        titles,
        vec![
            "Insecure Use of tx.origin for Authorization",
            "Unchecked Low-Level Call Return Value",
            "Deprecated selfdestruct Opcode Usage",
            "Unrestricted delegatecall Execution"
        ]
    );
    let lines: Vec<usize> = r.findings.iter().map(|f| f.line_number).collect();
    assert_eq!(lines, vec![2, 3, 4, 5]);
    // 100 - 30 - 15 - 20 - 50 < 0, clamped
    assert_eq!(r.security_score, 0);
    assert_eq!(r.total_lines, 6);
    assert_eq!(r.total_vulnerabilities, 4);
    assert_eq!(
        r.summary,
        "Audit for [C.sol]: 4 security issue(s) identified across 6 lines. Security Score: 0/100."
    );
    assert_eq!(r.findings[0].code_snippet, "function a() public { require(tx.origin == owner); }");
}

#[test]
fn audit_score_and_line_order_follow_findings() {
    let code = "contract C {\n  if (tx.origin == a) { selfdestruct(a); }\n  x.call(d);\n}";
    let r = ContractAuditor::audit_source("C.sol", code);
    let lines: Vec<usize> = r.findings.iter().map(|f| f.line_number).collect();
    assert_eq!(lines, vec![2, 2, 3]);
    assert!(lines.iter().all(|&n| 1 <= n && n <= r.total_lines));
    assert_eq!(r.total_vulnerabilities, r.findings.len());
    // 100 - 30 - 20 - 15
    assert_eq!(r.security_score, 35);
    let one = ContractAuditor::audit_source("D.sol", "x.call(d);");
    assert_eq!(one.security_score, 85);
}

#[test]
fn audit_skips_comment_lines() {
    let code = "// tx.origin\n/* selfdestruct( */\n * .delegatecall(\ncontract C {}";
    let r = ContractAuditor::audit_source("C.sol", code);
    assert_eq!(r.total_vulnerabilities, 0);
    assert_eq!(r.security_score, 100);
    assert_eq!(r.total_lines, 4);
}

#[test]
fn audit_clean_summary_and_gas_grades() {
    let r = ContractAuditor::audit_source("A.sol", "contract A {}\n");
    assert_eq!(r.gas_efficiency_grade, "A+ (Optimized EVM word alignment and storage layout)");
    assert_eq!(
        r.summary,
        "Audit Clean for [A.sol]: 0 vulnerabilities found across 1 lines. Security Score: 100/100. Gas Grade: A+ (Optimized EVM word alignment and storage layout)"
    );
    let r = ContractAuditor::audit_source("B.sol", "function f(bytes memory d) external {}");
    assert!(r.gas_efficiency_grade.starts_with("B- "));
    let r = ContractAuditor::audit_source("B.sol", "function f(bytes memory d, bytes calldata e) {}");
    assert!(r.gas_efficiency_grade.starts_with("A+ "));
    let r = ContractAuditor::audit_source("B.sol", "uint8 x;");
    assert!(r.gas_efficiency_grade.starts_with("B+ "));
}

#[test]
fn audit_multi_line_reentrancy_snippet_and_crlf_lines() {
    let code = "function w() public {\r\n  (bool ok, ) = to.call{value: v}(\"\");\r\n  paid = true;\r\n}\r\n";
    let r = ContractAuditor::audit_source("W.sol", code);
    assert_eq!(r.total_lines, 4);
    assert_eq!(r.findings.len(), 1);
    let f = &r.findings[0];
    assert_eq!(f.line_number, 3);
    assert_eq!(
        f.code_snippet,
        "Call at line 2: (bool ok, ) = to.call{value: v}(\"\");\nMutation at line 3: paid = true;"
    );
    assert_eq!(r.security_score, 55);
}

#[test]
fn audit_function_boundary_resets_pending_call() {
    let code = "function a() public {\n  (bool ok, ) = to.call{value: v}(\"\");\n}\nfunction b() public {\n  paid = true;\n}\n";
    let r = ContractAuditor::audit_source("W.sol", code);
    assert_eq!(r.total_vulnerabilities, 0);
}

#[test]
fn audit_empty_source() {
    let r = ContractAuditor::audit_source("E.sol", "");
    assert_eq!(r.total_lines, 0);
    assert_eq!(r.security_score, 100);
}

// ---------------------------------------------------------------- receipts

fn sha256_hex(text: &str) -> String {
    hex::encode(<sha2::Sha256 as sha2::Digest>::digest(text.as_bytes()))
}

#[test]
fn digest_binds_hyphenated_task_id() {
    let id: u128 = 0xa1a2a3a4b1b2c1c2d1d2d3d4d5d6d7d8;
    let (ih, oh, d) = TaskReceipt::compute_digests(id, "w", "abc", "", -7);
    let message = format!("a1a2a3a4-b1b2-c1c2-d1d2-d3d4d5d6d7d8:w:{}:{}:-7", ih, oh);
    assert_eq!(d, sha256_hex(&message));
}

#[test]
fn digests_are_sha256_hex() {
    let (ih, oh, d) = TaskReceipt::compute_digests(0, "w", "abc", "", 7);
    assert_eq!(ih, "ba7816bf8f01cfea414140de5dae2223b00361a396177a9cb410ff61f20015ad");
    assert_eq!(oh, "e3b0c44298fc1c149afbf4c8996fb92427ae41e4649b934ca495991b7852b855");
    assert_eq!(d.len(), 64);
    // the digest depends on the timestamp, the worker and the task
    let (_, _, d2) = TaskReceipt::compute_digests(0, "w", "abc", "", -7);
    let (_, _, d3) = TaskReceipt::compute_digests(0, "v", "abc", "", 7);
    let (_, _, d4) = TaskReceipt::compute_digests(1, "w", "abc", "", 7);
    assert_ne!(d, d2);
    assert_ne!(d, d3);
    assert_ne!(d, d4);
}

#[test]
fn signed_receipt_round_trip_and_tampering() {
    let kp = AgentKeypair::generate();
    let r = TaskReceipt::create_and_sign_at(42, "w", &kp, "in", "out", 5, 1_700_000_000);
    assert_eq!(r.timestamp, 1_700_000_000);
    assert_eq!(r.worker_pubkey, kp.public_key_hex());
    assert!(r.verify_signature().unwrap());
    assert!(r.verify_content_integrity("in").unwrap());

    let mut forged = r.clone();
    forged.output_payload = s("other");
    let e = forged.verify_content_integrity("in").unwrap_err();
    assert!(e.message().starts_with("Task execution failed: Receipt output_hash mismatch: expected "));

    let mut bad_digest = r.clone();
    bad_digest.execution_digest = s("00");
    let e = bad_digest.verify_signature().unwrap_err();
    assert!(e
        .message()
        .starts_with("Cryptographic signature verification failed: Signature verification failed: "));

    let mut bad_hex = r.clone();
    bad_hex.worker_pubkey = s("zz");
    let e = bad_hex.verify_signature().unwrap_err();
    assert_eq!(
        e.message(),
        "Cryptographic signature verification failed: Invalid pubkey hex: Invalid character 'z' at position 0"
    );

    let mut short = r.clone();
    short.worker_pubkey = s("0011");
    let e = short.verify_signature().unwrap_err();
    assert_eq!(
        e.message(),
        "Cryptographic signature verification failed: Public key must be 32 bytes"
    );

    let mut short_sig = r.clone();
    short_sig.signature = s("00");
    let e = short_sig.verify_signature().unwrap_err();
    assert_eq!(
        e.message(),
        "Cryptographic signature verification failed: Signature must be 64 bytes"
    );
}

#[test]
fn keypair_from_signing_key_is_deterministic() {
    let a = AgentKeypair::from_signing_key([7u8; 32]);
    let b = AgentKeypair::from_signing_key([7u8; 32]);
    assert_eq!(a.public_key_hex(), b.public_key_hex());
    assert_eq!(a.sign(b"m"), b.sign_message(b"m"));
    assert!(a.public_key_hex().chars().all(|c| c.is_ascii_hexdigit() && !c.is_ascii_uppercase()));
}

// ---------------------------------------------------------------- registry

#[test]
fn registry_reputation_and_first_registration() {
    let mut reg = AgentRegistry::new();
    assert_eq!(reg.get_reputation("nobody"), 50);
    reg.register_agent("a", "k1");
    reg.register_agent("a", "k2");
    assert_eq!(reg.get_public_key("a").unwrap(), "k1");
    assert!(reg.get_public_key("b").is_none());
    assert_eq!(reg.get_reputation("a"), 80);
    for _ in 0..20 {
        reg.record_settlement("a", true);
    }
    assert_eq!(reg.get_reputation("a"), 100);
    reg.record_settlement("a", false);
    assert_eq!(reg.get_reputation("a"), 75);
    for _ in 0..5 {
        reg.record_settlement("a", false);
    }
    assert_eq!(reg.get_reputation("a"), 0);
    reg.record_settlement("ghost", true);
    assert_eq!(reg.get_reputation("ghost"), 50);
}

#[test]
fn registry_identity_errors() {
    let mut reg = AgentRegistry::new();
    reg.register_agent("a", "k1");
    let e = reg.verify_agent_identity("a", "k2").unwrap_err();
    assert_eq!(
        e.message(),
        "Agent error: Public key spoofing detected: Agent 'a' registered with pubkey 'k1', but provided 'k2'"
    );
    let e = reg.verify_agent_identity("b", "k1").unwrap_err();
    assert_eq!(
        e.message(),
        "Agent error: Agent 'b' is not registered in the Swarm identity registry"
    );
}

#[test]
fn agent_node_base_reputation() {
    let n = SwarmAgentNode::new("n", "k", vec![AgentCapability::GasOptimizer]);
    assert_eq!(n.reputation_score, 80);
    assert_eq!(n.capabilities, vec![AgentCapability::GasOptimizer]);
}

// ---------------------------------------------------------------- ledger

#[test]
fn ledger_transfer_conserves_balances() {
    let mut l = SwarmLedger::new();
    let (a, b, c) = (s("a"), s("b"), s("c"));
    l.deposit(&a, 100);
    l.deposit(&c, 7);
    assert!(l.transfer(&a, &b, 60));
    assert_eq!(l.balance_of(&a), 40);
    assert_eq!(l.balance_of(&b), 60);
    assert_eq!(l.balance_of(&c), 7);
    assert!(!l.transfer(&a, &b, 41));
    assert_eq!(l.balance_of(&a), 40);
    assert_eq!(l.balance_of(&b), 60);
    assert!(l.transfer(&a, &a, 40));
    assert_eq!(l.balance_of(&a), 40);
    assert!(!l.withdraw(&s("nobody"), 1));
    assert_eq!(l.balance_of(&s("nobody")), 0);
    assert!(l.withdraw(&s("nobody"), 0));
}

// ---------------------------------------------------------------- auction

#[test]
fn auction_no_bids_and_ties() {
    let e = AuctionMatcher::select_best_bid(&[], 100).unwrap_err();
    assert_eq!(e.message(), "Task execution failed: No bids received for RFQ");
    let mk = |id: &str, bounty: u64| CandidateBid {
        worker_id: id.to_string(),
        bid_bounty: bounty,
        estimated_duration_ms: 100,
        reputation_score: 90,
    };
    let w = AuctionMatcher::select_best_bid(&[mk("first", 100), mk("second", 100)], 100).unwrap();
    assert_eq!(w.worker_id, "first");
    let w = AuctionMatcher::select_best_bid(&[mk("dear", 100), mk("cheap", 50)], 100).unwrap();
    assert_eq!(w.worker_id, "cheap");
    // a zero bid counts as a price factor of 100
    let w = AuctionMatcher::select_best_bid(&[mk("zero", 0), mk("cheap", 50)], 100).unwrap();
    assert_eq!(w.worker_id, "cheap");
}

#[test]
fn dynamic_bid_discount_is_capped() {
    let mut reg = AgentRegistry::new();
    reg.register_agent("w", "k");
    let b = CandidateBid::create_dynamic_bid("w", 200, 10, 77, &reg);
    assert_eq!(b.bid_bounty, 180);
    assert_eq!(b.reputation_score, 80);
    assert_eq!(b.estimated_duration_ms, 77);
    let b = CandidateBid::create_dynamic_bid("x", 200, 90, 1, &reg);
    assert_eq!(b.bid_bounty, 100);
    assert_eq!(b.reputation_score, 50);
    let b = CandidateBid::create_dynamic_bid("x", 1, 50, 1, &reg);
    assert_eq!(b.bid_bounty, 1);
    let b = CandidateBid::create_dynamic_bid("x", 0, 50, 1, &reg);
    assert_eq!(b.bid_bounty, 1);
}

// ---------------------------------------------------------------- escrow

fn receipt_for(id: u128) -> TaskReceipt {
    let kp = AgentKeypair::from_signing_key([1u8; 32]);
    TaskReceipt::create_and_sign_at(id, "w", &kp, "in", "out", 1, 0)
}

#[test]
fn escrow_refusals_and_life_cycle() {
    let mut e = EscrowManager::new();
    let err = e.assign_worker(9, s("w")).unwrap_err();
    assert_eq!(err.message(), "Escrow violation: Escrow record not found");
    e.lock_escrow(9, s("d"), 10).unwrap();
    let err = e.submit_receipt_at(receipt_for(9), 5, 0).unwrap_err();
    assert_eq!(err.message(), "Escrow violation: Cannot submit receipt: Task is not in Assigned state");
    let err = e.finalize_settlement_at(9, 0).unwrap_err();
    assert_eq!(
        err.message(),
        "Escrow violation: Cannot finalize settlement: Task not in AwaitingOptimisticValidation state"
    );
    let err = e.raise_dispute_at(9, s("r"), 0).unwrap_err();
    assert_eq!(
        err.message(),
        "Escrow violation: Cannot dispute task: Not in AwaitingOptimisticValidation state"
    );
    e.assign_worker(9, s("w")).unwrap();
    let err = e.assign_worker(9, s("w")).unwrap_err();
    assert_eq!(err.message(), "Escrow violation: Task is not in PendingAuction state");
    e.submit_receipt_at(receipt_for(9), 5, 1_000).unwrap();
    let rec = e.get_record(&9).unwrap();
    assert_eq!(rec.status, TaskStatus::AwaitingOptimisticValidation);
    assert_eq!(rec.challenge_deadline, Some(1_000 + 5 * SECOND));
    assert_eq!(rec.assigned_worker, Some(s("w")));
    // the deadline itself still belongs to the challenge window
    let err = e.finalize_settlement_at(9, 1_000 + 5 * SECOND).unwrap_err();
    assert_eq!(
        err.message(),
        "Escrow violation: Challenge window active. Cannot settle before deadline expires."
    );
    let err = e.raise_dispute_at(9, s("late"), 1_001 + 5 * SECOND).unwrap_err();
    assert_eq!(err.message(), "Escrow violation: Challenge window expired. Dispute rejected.");
    assert_eq!(e.finalize_settlement_at(9, 1_001 + 5 * SECOND).unwrap(), TaskStatus::Settled);
    // settled is final
    assert!(e.finalize_settlement_at(9, i64::MAX).is_err());
    assert!(e.raise_dispute_at(9, s("r"), 0).is_err());
}

#[test]
fn escrow_dispute_at_deadline_then_slash() {
    let mut e = EscrowManager::new();
    e.lock_escrow(3, s("d"), 10).unwrap();
    e.assign_worker(3, s("w")).unwrap();
    e.submit_receipt_at(receipt_for(3), 1, 0).unwrap();
    e.raise_dispute_at(3, s("bad"), SECOND).unwrap();
    assert_eq!(e.get_record(&3).unwrap().dispute_reason, Some(s("bad")));
    assert_eq!(e.finalize_settlement_at(3, 0).unwrap(), TaskStatus::Slashed);
    assert_eq!(e.get_record(&3).unwrap().status, TaskStatus::Slashed);
}

#[test]
fn escrow_now_variants() {
    let mut e = EscrowManager::new();
    e.lock_escrow(4, s("d"), 10).unwrap();
    e.assign_worker(4, s("w")).unwrap();
    e.submit_receipt(receipt_for(4), 0).unwrap();
    // a zero-second window has closed one second later
    assert_eq!(e.finalize_settlement(4).unwrap(), TaskStatus::Settled);
    let mut e = EscrowManager::new();
    e.lock_escrow(5, s("d"), 10).unwrap();
    e.assign_worker(5, s("w")).unwrap();
    e.submit_receipt(receipt_for(5), 3600).unwrap();
    e.raise_dispute(5, s("r")).unwrap();
    assert_eq!(e.finalize_settlement(5).unwrap(), TaskStatus::Slashed);
    // a window too long to represent is refused
    let mut e = EscrowManager::new();
    e.lock_escrow(6, s("d"), 10).unwrap();
    e.assign_worker(6, s("w")).unwrap();
    let err = e.submit_receipt(receipt_for(6), u64::MAX / 2).unwrap_err();
    assert_eq!(err.message(), "Escrow violation: Challenge window out of range");
}

#[test]
fn escrow_bounty_locked_then_released_to_worker_once() {
    let mut ledger = SwarmLedger::new();
    let mut e = EscrowManager::new();
    ledger.deposit(&s("d"), 50);
    let err = e.lock_bounty(&mut ledger, 7, &s("d"), 100).unwrap_err();
    assert_eq!(
        err.message(),
        "Escrow violation: Insufficient funds: Delegator has 50 USDC, but bounty requires 100 USDC"
    );
    assert!(e.get_record(&7).is_none());
    assert_eq!(ledger.balance_of(&s("d")), 50);

    e.lock_bounty(&mut ledger, 7, &s("d"), 30).unwrap();
    assert_eq!(ledger.balance_of(&s("d")), 20);
    let rec = e.get_record(&7).unwrap();
    assert_eq!(rec.status, TaskStatus::PendingAuction);
    assert_eq!(rec.bounty_amount, 30);

    e.assign_worker(7, s("w")).unwrap();
    e.submit_receipt_at(receipt_for(7), 5, 0).unwrap();
    // inside the window nothing is released
    assert!(e.finalize_and_release(&mut ledger, 7, 5 * SECOND).is_err());
    assert_eq!(ledger.balance_of(&s("w")), 0);
    let status = e.finalize_and_release(&mut ledger, 7, 5 * SECOND + 1).unwrap();
    assert_eq!(status, TaskStatus::Settled);
    assert_eq!(ledger.balance_of(&s("w")), 30);
    assert_eq!(ledger.balance_of(&s("d")), 20);
    // a second finalization releases nothing
    assert!(e.finalize_and_release(&mut ledger, 7, i64::MAX).is_err());
    assert_eq!(ledger.balance_of(&s("w")), 30);
}

#[test]
fn escrow_slashed_bounty_refunds_delegator() {
    let mut ledger = SwarmLedger::new();
    let mut e = EscrowManager::new();
    ledger.deposit(&s("d"), 100);
    e.lock_bounty(&mut ledger, 8, &s("d"), 40).unwrap();
    e.assign_worker(8, s("w")).unwrap();
    e.submit_receipt_at(receipt_for(8), 5, 0).unwrap();
    e.raise_dispute_at(8, s("forged"), SECOND).unwrap();
    assert_eq!(e.finalize_and_release(&mut ledger, 8, 2 * SECOND).unwrap(), TaskStatus::Slashed);
    assert_eq!(ledger.balance_of(&s("d")), 100);
    assert_eq!(ledger.balance_of(&s("w")), 0);
    let err = e.finalize_and_release(&mut ledger, 99, 0).unwrap_err();
    assert_eq!(err.message(), "Escrow violation: Escrow record not found");
}

// ---------------------------------------------------------------- verifier

fn task(code: &str) -> TaskSpec {
    TaskSpec::new("D", "00", AgentCapability::SmartContractAuditor, "T.sol", code, 10)
}

#[test]
fn verifier_rejections_in_order() {
    let kp = AgentKeypair::generate();
    let t = task("contract A {}");
    let report = ContractAuditor::audit_source("T.sol", "contract A {}");
    let r = TaskReceipt::create_and_sign(t.id, "w", &kp, "contract A {}", "payload", 1);

    let other = task("contract A {}");
    let e = SwarmVerifier::verify_work(&other, &r, Ok(report.clone())).unwrap_err();
    assert_eq!(
        e.message(),
        "Task execution failed: Task ID mismatch between specification and receipt"
    );

    let e = SwarmVerifier::verify_work(&t, &r, Err(s("expected value at line 1 column 1"))).unwrap_err();
    assert_eq!(
        e.message(),
        "Task execution failed: Worker returned invalid JSON schema: expected value at line 1 column 1"
    );

    let mut forged = report.clone();
    forged.security_score = 99;
    let e = SwarmVerifier::verify_work(&t, &r, Ok(forged)).unwrap_err();
    let msg = e.message();
    assert!(msg.starts_with("Task execution failed: {\"task_id\":\""));
    assert!(msg.contains("\"reason\":\"Security score forged: Worker reported 99/100, Validator calculated 100/100\""));
    assert!(msg.ends_with(",\"validator_findings_count\":0,\"worker_findings_count\":0,\"validator_score\":100,\"worker_score\":99}"));
    assert!(msg.contains(&uuid::Uuid::from_u128(t.id).to_string()));

    let tampered = task("contract B {}");
    let mut t2 = tampered.clone();
    t2.id = t.id;
    let e = SwarmVerifier::verify_work(&t2, &r, Ok(report.clone())).unwrap_err();
    assert!(e.message().starts_with("Task execution failed: Receipt input_hash mismatch"));

    assert!(SwarmVerifier::verify_work(&t, &r, Ok(report)).unwrap());
}

#[test]
fn fraud_proof_json_escapes_texts() {
    let p = FraudProof {
        task_id: s("t"),
        worker_id: s("w\"x"),
        reason: s("a\nb"),
        validator_findings_count: 1,
        worker_findings_count: 2,
        validator_score: 3,
        worker_score: 4,
    };
    assert_eq!(
        p.to_json().unwrap(),
        "{\"task_id\":\"t\",\"worker_id\":\"w\\\"x\",\"reason\":\"a\\nb\",\"validator_findings_count\":1,\"worker_findings_count\":2,\"validator_score\":3,\"worker_score\":4}"
    );
    let q = FraudProof { task_id: s("\u{1}\\é\u{7f}"), ..p };
    assert!(q.to_json().unwrap().starts_with("{\"task_id\":\"\\u0001\\\\é\u{7f}\","));
}

// ---------------------------------------------------------------- keystore

#[test]
fn keystore_records() {
    let kp = AgentKeypair::from_signing_key([9u8; 32]);
    let d = KeystoreManager::seal_keypair_with("a", &kp, "pw", &vec![1u8; 16], &[2u8; 12]);
    assert_eq!(d.kdf, "PBKDF2-HMAC-SHA256-100k-AES256GCM");
    assert_eq!(d.salt_hex, Some("01".repeat(16)));
    assert_eq!(d.nonce_hex, Some("02".repeat(12)));
    assert_eq!(d.ciphertext_hex.len(), 2 * (32 + 16));
    let back = KeystoreManager::open_keypair(&d, "pw").unwrap();
    assert_eq!(back.signing_key, [9u8; 32]);

    let plain = KeystoreData {
        agent_id: s("a"),
        public_key: kp.public_key_hex(),
        encrypted: false,
        kdf: s("none"),
        salt_hex: None,
        nonce_hex: None,
        ciphertext_hex: "09".repeat(32),
    };
    assert_eq!(KeystoreManager::open_keypair(&plain, "x").unwrap().public_key_hex(), kp.public_key_hex());
    let mut short = plain.clone();
    short.ciphertext_hex = s("0909");
    assert_eq!(
        KeystoreManager::open_keypair(&short, "x").unwrap_err().message(),
        "Agent error: Secret key must be 32 bytes"
    );
    let mut no_salt = d.clone();
    no_salt.salt_hex = None;
    assert_eq!(
        KeystoreManager::open_keypair(&no_salt, "pw").unwrap_err().message(),
        "Agent error: Missing salt in encrypted keystore"
    );
    let mut no_nonce = d.clone();
    no_nonce.nonce_hex = None;
    assert_eq!(
        KeystoreManager::open_keypair(&no_nonce, "pw").unwrap_err().message(),
        "Agent error: Missing nonce in encrypted keystore"
    );
    let mut bad_ct = d.clone();
    bad_ct.ciphertext_hex = s("0");
    assert_eq!(
        KeystoreManager::open_keypair(&bad_ct, "pw").unwrap_err().message(),
        "Agent error: Invalid ciphertext hex: Odd number of digits"
    );
}

#[test]
fn error_messages_carry_their_kind() {
    assert_eq!(HiveError::StateError(s("x")).message(), "Invalid state transition: x");
    assert_eq!(HiveError::TimeoutError(s("y")).message(), "Timeout or deadline expired: y");
    let e = serde_json::from_str::<u8>("nope").unwrap_err();
    let m = HiveError::SerializationError(e).message();
    assert!(m.starts_with("Serialization error: "));
    let converted: HiveError = serde_json::from_str::<u8>("nope").unwrap_err().into();
    assert!(matches!(converted, HiveError::SerializationError(_)));
    assert_eq!(converted.message(), m);
}

// ---------------------------------------------------------------- closing tasks

#[test]
fn forged_report_claims_a_clean_audit() {
    let r = hive_kernel::auditor::forged_report("V.sol", "a\nb\r\nc\n");
    assert_eq!(r.target_name, "V.sol");
    assert_eq!(r.total_lines, 3);
    assert_eq!(r.total_vulnerabilities, 0);
    assert_eq!(r.security_score, 100);
    assert!(r.findings.is_empty());
    assert_eq!(r.gas_efficiency_grade, "A+");
    assert_eq!(r.summary, "Forged clean audit report: 0 vulnerabilities found");
}

#[test]
fn audit_outcome_reports_disputes() {
    assert_eq!(audit_outcome(&Ok(true)), (true, false, None));
    let e: Result<bool, HiveError> = Err(HiveError::TaskExecutionError(s("bad")));
    assert_eq!(
        audit_outcome(&e),
        (false, true, Some(s("Task execution failed: bad")))
    );
}

#[test]
fn settle_or_dispute_pays_worker_or_refunds_delegator() {
    let mut ledger = SwarmLedger::new();
    let mut e = EscrowManager::new();
    ledger.deposit(&s("d"), 100);
    e.lock_bounty(&mut ledger, 11, &s("d"), 40).unwrap();
    e.assign_worker(11, s("w")).unwrap();
    e.submit_receipt_at(receipt_for(11), 5, 0).unwrap();
    let st = e.settle_or_dispute(&mut ledger, 11, None, 0, 6 * SECOND).unwrap();
    assert_eq!(st, TaskStatus::Settled);
    assert_eq!(ledger.balance_of(&s("w")), 40);

    e.lock_bounty(&mut ledger, 12, &s("d"), 30).unwrap();
    e.assign_worker(12, s("w")).unwrap();
    e.submit_receipt_at(receipt_for(12), 5, 0).unwrap();
    // a dispute after the deadline is refused and nothing moves
    let err = e
        .settle_or_dispute(&mut ledger, 12, Some(s("late")), 6 * SECOND, 7 * SECOND)
        .unwrap_err();
    assert_eq!(err.message(), "Escrow violation: Challenge window expired. Dispute rejected.");
    assert_eq!(ledger.balance_of(&s("d")), 30);
    let st = e
        .settle_or_dispute(&mut ledger, 12, Some(s("forged")), SECOND, 2 * SECOND)
        .unwrap();
    assert_eq!(st, TaskStatus::Slashed);
    assert_eq!(ledger.balance_of(&s("d")), 60);
    assert_eq!(e.get_record(&12).unwrap().dispute_reason, Some(s("forged")));
}

#[test]
fn sealed_and_plain_record_sizes() {
    let kp = AgentKeypair::generate();
    let sealed = KeystoreManager::seal_keypair("a", &kp, "pw");
    assert_eq!(sealed.ciphertext_hex.len(), 96);
    assert_eq!(sealed.salt_hex.as_ref().unwrap().len(), 32);
    assert_eq!(sealed.nonce_hex.as_ref().unwrap().len(), 24);
    let plain = KeystoreManager::plain_keypair_record("a", &kp);
    assert!(!plain.encrypted);
    assert_eq!(plain.kdf, "none");
    assert_eq!(plain.ciphertext_hex.len(), 64);
    assert!(plain.salt_hex.is_none() && plain.nonce_hex.is_none());
    let opened = KeystoreManager::open_keypair(&plain, "anything").unwrap();
    assert_eq!(opened.public_key_hex(), kp.public_key_hex());
}

#[test]
fn digests_are_64_hex_chars_and_task_ids_are_v4() {
    let (ih, oh, d) = TaskReceipt::compute_digests(5, "w", "x", "y", 0);
    assert_eq!((ih.len(), oh.len(), d.len()), (64, 64, 64));
    let t = TaskSpec::new("D", "00", AgentCapability::GasOptimizer, "T", "c", 1);
    assert_eq!((t.id >> 76) & 0xf, 4);
    assert_eq!((t.id >> 62) & 3, 2);
    assert_eq!(uuid::Uuid::from_u128(t.id).get_version_num(), 4);
}

#[test]
fn balances_stay_within_the_total() {
    let mut ledger = SwarmLedger::new();
    ledger.deposit(&s("a"), 70);
    ledger.deposit(&s("b"), 30);
    assert!(ledger.transfer(&s("a"), &s("b"), 50));
    let (a, b) = (ledger.balance_of(&s("a")), ledger.balance_of(&s("b")));
    assert_eq!(a + b, 100);
    assert!(a <= 100 && b <= 100);
    assert_eq!(ledger.balance_of(&s("c")), 0);
}

#[test]
fn submit_receipt_opens_long_windows_now() {
    let mut e = EscrowManager::new();
    e.lock_escrow(13, s("d"), 10).unwrap();
    e.assign_worker(13, s("w")).unwrap();
    let before = chrono::Utc::now().timestamp_micros();
    e.submit_receipt(receipt_for(13), 900_000_000_000).unwrap();
    let rec = e.get_record(&13).unwrap();
    assert_eq!(rec.status, TaskStatus::AwaitingOptimisticValidation);
    let d = rec.challenge_deadline.unwrap();
    assert!(d >= before + 900_000_000_000 * SECOND);
}

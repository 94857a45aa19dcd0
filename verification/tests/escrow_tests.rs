use hive_kernel::auditor::ContractAuditor;
use hive_kernel::escrow::EscrowManager;
use hive_kernel::receipt::{AgentKeypair, TaskReceipt};
use hive_kernel::settlement::SwarmLedger;
use hive_kernel::types::{AgentCapability, TaskSpec, TaskStatus};
use hive_kernel::validation::SwarmVerifier;

const SECOND: i64 = 1_000_000;

#[test]
fn test_escrow_settlement_and_challenge_window() {
    let mut escrow = EscrowManager::new();
    let mut ledger = SwarmLedger::new();
    let keypair = AgentKeypair::generate();

    let task = TaskSpec::new(
        "Delegator_Alpha",
        "0000000000",
        AgentCapability::SmartContractAuditor,
        "Audit Smart Contract",
        "contract A {}",
        100,
    );

    ledger.deposit(&"Delegator_Alpha".to_string(), 500);
    assert!(ledger.withdraw(&"Delegator_Alpha".to_string(), 100));

    escrow
        .lock_escrow(task.id, "Delegator_Alpha".to_string(), 100)
        .unwrap();
    escrow
        .assign_worker(task.id, "Worker_Beta".to_string())
        .unwrap();

    let audit_report = ContractAuditor::audit_source(&task.description, &task.input_payload);
    let output_payload = format!("{:?}", audit_report);

    let receipt = TaskReceipt::create_and_sign(
        task.id,
        "Worker_Beta",
        &keypair,
        &task.input_payload,
        &output_payload,
        150,
    );

    escrow.submit_receipt(receipt.clone(), 30).unwrap();
    assert!(SwarmVerifier::verify_work(&task, &receipt, Ok(audit_report.clone())).unwrap());

    // 1. Attempting to settle before deadline should fail
    let now = chrono::Utc::now().timestamp_micros();
    assert!(escrow.finalize_settlement_at(task.id, now).is_err());

    // 2. Settling after deadline expires should succeed
    let after_deadline = now + 35 * SECOND;
    let status = escrow
        .finalize_settlement_at(task.id, after_deadline)
        .unwrap();
    assert_eq!(status, TaskStatus::Settled);

    ledger.deposit(&"Worker_Beta".to_string(), 100);
    assert_eq!(ledger.balance_of(&"Worker_Beta".to_string()), 100);
}

#[test]
fn test_dispute_deadline_enforcement() {
    let mut escrow = EscrowManager::new();
    let keypair = AgentKeypair::generate();

    let task = TaskSpec::new(
        "Delegator_Alpha",
        "0000000000",
        AgentCapability::SmartContractAuditor,
        "Audit Contract",
        "contract A {}",
        100,
    );

    escrow
        .lock_escrow(task.id, "Delegator_Alpha".to_string(), 100)
        .unwrap();
    escrow
        .assign_worker(task.id, "Worker_Beta".to_string())
        .unwrap();

    let receipt = TaskReceipt::create_and_sign(
        task.id,
        "Worker_Beta",
        &keypair,
        &task.input_payload,
        "{}",
        100,
    );

    escrow.submit_receipt(receipt, 30).unwrap();
    let now = chrono::Utc::now().timestamp_micros();

    // 1. Raising dispute within window succeeds
    assert!(escrow
        .raise_dispute_at(task.id, "Fraud detected".to_string(), now + 10 * SECOND)
        .is_ok());

    let record = escrow.get_record(&task.id).unwrap();
    assert_eq!(record.status, TaskStatus::Disputed);

    // 2. Finalizing a disputed task slashes the worker
    let status = escrow
        .finalize_settlement_at(task.id, now + 35 * SECOND)
        .unwrap();
    assert_eq!(status, TaskStatus::Slashed);
}

//! The optimistic verifier: a validator re-checks a worker's receipt and
//! re-runs the deterministic audit to catch forged reports.
//!
//! The worker's output payload is JSON; turning it into an `AuditReport` is
//! the caller's part, and the verifier takes the outcome of that parse (the
//! report, or the parser's error text).
use crate::auditor::{audit_report, AuditReport, ContractAuditor, ReportView};
use crate::error::{error_message, result_view, HiveError, HiveErrorView};
use crate::primitives::{json_quoted, json_string, uuid_text, uuid_to_string};
use crate::receipt::{content_check, signature_check, TaskReceipt, TaskReceiptView};
use crate::registry::{identity_check, AgentRegistry, ProfileView};
use crate::text::{chars_to_string, decimal, decimal_exec, push_chars, push_str, starts_with};
use crate::types::TaskSpec;
use vstd::prelude::*;

verus! {

/// The evidence a validator publishes when a worker's report is forged.
#[derive(Debug, Clone)]
pub struct FraudProof {
    pub task_id: String,
    pub worker_id: String,
    pub reason: String,
    pub validator_findings_count: usize,
    pub worker_findings_count: usize,
    pub validator_score: u32,
    pub worker_score: u32,
}

/// A fraud proof, with its texts as character sequences.
pub struct FraudProofView {
    pub task_id: Seq<char>,
    pub worker_id: Seq<char>,
    pub reason: Seq<char>,
    pub validator_findings_count: nat,
    pub worker_findings_count: nat,
    pub validator_score: nat,
    pub worker_score: nat,
}

impl View for FraudProof {
    type V = FraudProofView;

    open spec fn view(&self) -> FraudProofView {
        FraudProofView {
            task_id: self.task_id@,
            worker_id: self.worker_id@,
            reason: self.reason@,
            validator_findings_count: self.validator_findings_count as nat,
            worker_findings_count: self.worker_findings_count as nat,
            validator_score: self.validator_score as nat,
            worker_score: self.worker_score as nat,
        }
    }
}

/// The compact JSON object of a fraud proof, its fields in declaration order.
pub open spec fn fraud_proof_json(p: FraudProofView) -> Seq<char> {
    "{\"task_id\":"@ + json_quoted(p.task_id) + ",\"worker_id\":"@ + json_quoted(p.worker_id)
        + ",\"reason\":"@ + json_quoted(p.reason) + ",\"validator_findings_count\":"@ + decimal(
        p.validator_findings_count,
    ) + ",\"worker_findings_count\":"@ + decimal(p.worker_findings_count)
        + ",\"validator_score\":"@ + decimal(p.validator_score) + ",\"worker_score\":"@ + decimal(
        p.worker_score,
    ) + "}"@
}

/// The validator's judgement of a receipt.
pub enum Verdict {
    /// The work checks out.
    Accepted,
    /// The receipt is refused for the given reason.
    Rejected(HiveErrorView),
    /// The worker's report disagrees with the validator's; the proof says how.
    Fraud(FraudProofView),
}

/// The fraud proof of a report that disagrees with the validator's.
pub open spec fn fraud_proof(
    spec: TaskSpec,
    receipt: TaskReceiptView,
    reason: Seq<char>,
    worker: ReportView,
    validator: ReportView,
) -> FraudProofView {
    FraudProofView {
        task_id: uuid_text(spec.id),
        worker_id: receipt.worker_id,
        reason,
        validator_findings_count: validator.total_vulnerabilities,
        worker_findings_count: worker.total_vulnerabilities,
        validator_score: validator.security_score,
        worker_score: worker.security_score,
    }
}

/// How the validator judges `receipt` for the task `spec`, with the worker's
/// payload parsed into `worker_report` and, optionally, a registry to check
/// the worker's identity against. The checks run in this order: signature,
/// task identifier, content binding, identity, payload schema, finding
/// count, security score.
pub open spec fn verdict(
    spec: TaskSpec,
    receipt: TaskReceiptView,
    registry: Option<Map<Seq<char>, ProfileView>>,
    worker_report: Result<ReportView, Seq<char>>,
) -> Verdict {
    if signature_check(receipt) is Err {
        Verdict::Rejected(signature_check(receipt)->Err_0)
    } else if receipt.task_id != spec.id {
        Verdict::Rejected(
            HiveErrorView::TaskExecution("Task ID mismatch between specification and receipt"@),
        )
    } else if content_check(receipt, spec.input_payload@) is Err {
        Verdict::Rejected(content_check(receipt, spec.input_payload@)->Err_0)
    } else if registry is Some && identity_check(
        registry->0,
        receipt.worker_id,
        receipt.worker_pubkey,
    ) is Err {
        Verdict::Rejected(
            identity_check(registry->0, receipt.worker_id, receipt.worker_pubkey)->Err_0,
        )
    } else {
        match worker_report {
            Err(e) => Verdict::Rejected(
                HiveErrorView::TaskExecution("Worker returned invalid JSON schema: "@ + e),
            ),
            Ok(w) => {
                let v = audit_report(spec.description@, spec.input_payload@);
                if w.total_vulnerabilities != v.total_vulnerabilities {
                    Verdict::Fraud(
                        fraud_proof(
                            spec,
                            receipt,
                            "Vulnerability count mismatch: Worker reported "@ + decimal(
                                w.total_vulnerabilities,
                            ) + " issues, Validator identified "@ + decimal(
                                v.total_vulnerabilities,
                            ),
                            w,
                            v,
                        ),
                    )
                } else if w.security_score != v.security_score {
                    Verdict::Fraud(
                        fraud_proof(
                            spec,
                            receipt,
                            "Security score forged: Worker reported "@ + decimal(w.security_score)
                                + "/100, Validator calculated "@ + decimal(v.security_score)
                                + "/100"@,
                            w,
                            v,
                        ),
                    )
                } else {
                    Verdict::Accepted
                }
            },
        }
    }
}

/// What a call returns for each judgement: `Ok(true)` on acceptance, the
/// reason on rejection, and on fraud a task-execution error carrying the
/// proof's JSON.
pub open spec fn matches_verdict(r: Result<bool, HiveError>, v: Verdict) -> bool {
    match v {
        Verdict::Accepted => r matches Ok(b) && b,
        Verdict::Rejected(e) => result_view(r) == Err::<bool, HiveErrorView>(e),
        Verdict::Fraud(p) => result_view(r) == Err::<bool, HiveErrorView>(
            HiveErrorView::TaskExecution(fraud_proof_json(p)),
        ),
    }
}

pub open spec fn report_result_view(r: Result<AuditReport, String>) -> Result<
    ReportView,
    Seq<char>,
> {
    match r {
        Ok(w) => Ok(w@),
        Err(e) => Err(e@),
    }
}

pub open spec fn registry_view(r: Option<&AgentRegistry>) -> Option<Map<Seq<char>, ProfileView>> {
    match r {
        Some(reg) => Some(reg@),
        None => None,
    }
}

/// The validator node.
pub struct SwarmVerifier;

fn push_json_string(v: &mut Vec<char>, s: &String) -> (r: Result<(), serde_json::Error>)
    ensures
        r is Ok,
        final(v)@ == old(v)@ + json_quoted(s@),
{
    let q = json_string(s.as_str())?;
    push_str(v, q.as_str());
    Ok(())
}

fn push_decimal(v: &mut Vec<char>, n: u64)
    ensures
        final(v)@ == old(v)@ + decimal(n as nat),
{
    let d = decimal_exec(n);
    push_chars(v, &d);
}

impl FraudProof {
    /// The proof as a compact JSON object.
    pub fn to_json(&self) -> (r: Result<String, serde_json::Error>)
        ensures
            r is Ok,
            r matches Ok(t) ==> t@ == fraud_proof_json(self@),
    {
        let mut v: Vec<char> = Vec::new();
        push_str(&mut v, "{\"task_id\":");
        push_json_string(&mut v, &self.task_id)?;
        push_str(&mut v, ",\"worker_id\":");
        push_json_string(&mut v, &self.worker_id)?;
        push_str(&mut v, ",\"reason\":");
        push_json_string(&mut v, &self.reason)?;
        push_str(&mut v, ",\"validator_findings_count\":");
        push_decimal(&mut v, self.validator_findings_count as u64);
        push_str(&mut v, ",\"worker_findings_count\":");
        push_decimal(&mut v, self.worker_findings_count as u64);
        push_str(&mut v, ",\"validator_score\":");
        push_decimal(&mut v, self.validator_score as u64);
        push_str(&mut v, ",\"worker_score\":");
        push_decimal(&mut v, self.worker_score as u64);
        push_str(&mut v, "}");
        Ok(chars_to_string(&v))
    }
}

fn fraud_error(proof: FraudProof) -> (r: HiveError)
    ensures
        r@ == HiveErrorView::TaskExecution(fraud_proof_json(proof@)),
{
    match proof.to_json() {
        Ok(t) => HiveError::TaskExecutionError(t),
        Err(e) => HiveError::SerializationError(e),
    }
}

impl SwarmVerifier {
    /// Verifies a worker's receipt for `spec`: the Ed25519 signature, the
    /// task identifier, the binding of the digests to the task's input and
    /// the receipt's output, the worker's identity in `registry` (when one is
    /// given), and finally that `worker_report` (the worker's output payload
    /// parsed as a report) agrees with the validator's own audit of the input
    /// in finding count and security score.
    pub fn verify_work_with_registry(
        spec: &TaskSpec,
        receipt: &TaskReceipt,
        registry: Option<&AgentRegistry>,
        worker_report: Result<AuditReport, String>,
    ) -> (r: Result<bool, HiveError>)
        requires
            registry matches Some(reg) ==> reg.wf(),
        ensures
            matches_verdict(
                r,
                verdict(*spec, receipt@, registry_view(registry), report_result_view(worker_report)),
            ),
    {
        match receipt.verify_signature() {
            Err(e) => {
                return Err(e);
            },
            Ok(valid) => {
                if !valid {
                    return Err(
                        HiveError::SignatureError(
                            String::from_str("Invalid Ed25519 cryptographic signature on TaskReceipt"),
                        ),
                    );
                }
            },
        }
        if receipt.task_id != spec.id {
            return Err(
                HiveError::TaskExecutionError(
                    String::from_str("Task ID mismatch between specification and receipt"),
                ),
            );
        }
        match receipt.verify_content_integrity(spec.input_payload.as_str()) {
            Err(e) => {
                return Err(e);
            },
            Ok(_) => {},
        }
        match registry {
            Some(reg) => {
                match reg.verify_agent_identity(
                    receipt.worker_id.as_str(),
                    receipt.worker_pubkey.as_str(),
                ) {
                    Err(e) => {
                        return Err(e);
                    },
                    Ok(()) => {},
                }
            },
            None => {},
        }
        let worker = match worker_report {
            Ok(w) => w,
            Err(e) => {
                let mut v: Vec<char> = Vec::new();
                push_str(&mut v, "Worker returned invalid JSON schema: ");
                push_str(&mut v, e.as_str());
                return Err(HiveError::TaskExecutionError(chars_to_string(&v)));
            },
        };
        let validator = ContractAuditor::audit_source(
            spec.description.as_str(),
            spec.input_payload.as_str(),
        );
        if worker.total_vulnerabilities != validator.total_vulnerabilities {
            let mut v: Vec<char> = Vec::new();
            push_str(&mut v, "Vulnerability count mismatch: Worker reported ");
            push_decimal(&mut v, worker.total_vulnerabilities as u64);
            push_str(&mut v, " issues, Validator identified ");
            push_decimal(&mut v, validator.total_vulnerabilities as u64);
            let proof = FraudProof {
                task_id: uuid_to_string(spec.id),
                worker_id: receipt.worker_id.clone(),
                reason: chars_to_string(&v),
                validator_findings_count: validator.total_vulnerabilities,
                worker_findings_count: worker.total_vulnerabilities,
                validator_score: validator.security_score,
                worker_score: worker.security_score,
            };
            return Err(fraud_error(proof));
        }
        if worker.security_score != validator.security_score {
            let mut v: Vec<char> = Vec::new();
            push_str(&mut v, "Security score forged: Worker reported ");
            push_decimal(&mut v, worker.security_score as u64);
            push_str(&mut v, "/100, Validator calculated ");
            push_decimal(&mut v, validator.security_score as u64);
            push_str(&mut v, "/100");
            let proof = FraudProof {
                task_id: uuid_to_string(spec.id),
                worker_id: receipt.worker_id.clone(),
                reason: chars_to_string(&v),
                validator_findings_count: validator.total_vulnerabilities,
                worker_findings_count: worker.total_vulnerabilities,
                validator_score: validator.security_score,
                worker_score: worker.security_score,
            };
            return Err(fraud_error(proof));
        }
        Ok(true)
    }

    /// `verify_work_with_registry` without an identity registry.
    pub fn verify_work(
        spec: &TaskSpec,
        receipt: &TaskReceipt,
        worker_report: Result<AuditReport, String>,
    ) -> (r: Result<bool, HiveError>)
        ensures
            matches_verdict(r, verdict(*spec, receipt@, None, report_result_view(worker_report))),
    {
        Self::verify_work_with_registry(spec, receipt, None, worker_report)
    }
}

/// What the dashboard reports of a verification result: whether the work
/// verified, whether a dispute was raised, and the dispute's reason (the
/// error's message).
pub fn audit_outcome(v: &Result<bool, HiveError>) -> (r: (bool, bool, Option<String>))
    ensures
        v matches Ok(b) ==> r.0 == b && !r.1 && r.2 is None,
        v is Err ==> !r.0 && r.1 && r.2 is Some,
        v matches Err(e) ==> (r.2 matches Some(m) && (if e is SerializationError {
            starts_with(m@, error_message(e@))
        } else {
            m@ == error_message(e@)
        })),
{
    match v {
        Ok(b) => (*b, false, None),
        Err(e) => (false, true, Some(e.message())),
    }
}

// ---------------------------------------------------------------------------
// Laws
// ---------------------------------------------------------------------------

/// Honest work is accepted: a receipt for the task whose signature and
/// content binding check out, from a worker registered with the receipt's
/// key, whose payload is the validator's own report.
pub proof fn lemma_honest_work_accepted(
    spec: TaskSpec,
    receipt: TaskReceiptView,
    registry: Option<Map<Seq<char>, ProfileView>>,
)
    requires
        signature_check(receipt) is Ok,
        receipt.task_id == spec.id,
        content_check(receipt, spec.input_payload@) is Ok,
        registry matches Some(m) ==> m.contains_key(receipt.worker_id) && m[receipt.worker_id].public_key
            == receipt.worker_pubkey,
    ensures
        verdict(
            spec,
            receipt,
            registry,
            Ok::<ReportView, Seq<char>>(audit_report(spec.description@, spec.input_payload@)),
        ) == Verdict::Accepted,
{
}

/// A report that misstates the number of findings is caught as fraud,
/// whatever else it claims, once the receipt itself checks out.
pub proof fn lemma_forged_count_is_fraud(
    spec: TaskSpec,
    receipt: TaskReceiptView,
    registry: Option<Map<Seq<char>, ProfileView>>,
    worker: ReportView,
)
    requires
        signature_check(receipt) is Ok,
        receipt.task_id == spec.id,
        content_check(receipt, spec.input_payload@) is Ok,
        registry matches Some(m) ==> identity_check(m, receipt.worker_id, receipt.worker_pubkey)
            is Ok,
        worker.total_vulnerabilities != audit_report(
            spec.description@,
            spec.input_payload@,
        ).total_vulnerabilities,
    ensures
        verdict(spec, receipt, registry, Ok::<ReportView, Seq<char>>(worker)) is Fraud,
{
}

/// A report with the right number of findings but another security score
/// is caught as fraud too, once the receipt itself checks out.
pub proof fn lemma_forged_score_is_fraud(
    spec: TaskSpec,
    receipt: TaskReceiptView,
    registry: Option<Map<Seq<char>, ProfileView>>,
    worker: ReportView,
)
    requires
        signature_check(receipt) is Ok,
        receipt.task_id == spec.id,
        content_check(receipt, spec.input_payload@) is Ok,
        registry matches Some(m) ==> identity_check(m, receipt.worker_id, receipt.worker_pubkey)
            is Ok,
        worker.security_score != audit_report(spec.description@, spec.input_payload@).security_score,
    ensures
        verdict(spec, receipt, registry, Ok::<ReportView, Seq<char>>(worker)) is Fraud,
{
}

/// A receipt signed under a key other than the one registered for its
/// worker is refused as spoofing before its report is even read.
pub proof fn lemma_spoofed_identity_rejected(
    spec: TaskSpec,
    receipt: TaskReceiptView,
    m: Map<Seq<char>, ProfileView>,
    worker_report: Result<ReportView, Seq<char>>,
)
    requires
        signature_check(receipt) is Ok,
        receipt.task_id == spec.id,
        content_check(receipt, spec.input_payload@) is Ok,
        m.contains_key(receipt.worker_id),
        m[receipt.worker_id].public_key != receipt.worker_pubkey,
    ensures
        verdict(spec, receipt, Some(m), worker_report) == Verdict::Rejected(
            identity_check(m, receipt.worker_id, receipt.worker_pubkey)->Err_0,
        ),
{
}

/// A receipt from a worker the given registry does not know is refused,
/// with the registry's error naming the worker, before its report is read.
pub proof fn lemma_unregistered_worker_rejected(
    spec: TaskSpec,
    receipt: TaskReceiptView,
    m: Map<Seq<char>, ProfileView>,
    worker_report: Result<ReportView, Seq<char>>,
)
    requires
        signature_check(receipt) is Ok,
        receipt.task_id == spec.id,
        content_check(receipt, spec.input_payload@) is Ok,
        !m.contains_key(receipt.worker_id),
    ensures
        verdict(spec, receipt, Some(m), worker_report) == Verdict::Rejected(
            HiveErrorView::Agent(
                "Agent '"@ + receipt.worker_id + "' is not registered in the Swarm identity registry"@,
            ),
        ),
{
}

/// Acceptance under a registry vouches for the worker: whenever a receipt is
/// accepted with a registry, its worker is registered there, with exactly
/// the key the receipt carries.
pub proof fn lemma_accepted_worker_is_registered(
    spec: TaskSpec,
    receipt: TaskReceiptView,
    m: Map<Seq<char>, ProfileView>,
    worker_report: Result<ReportView, Seq<char>>,
)
    requires
        verdict(spec, receipt, Some(m), worker_report) == Verdict::Accepted,
    ensures
        m.contains_key(receipt.worker_id),
        m[receipt.worker_id].public_key == receipt.worker_pubkey,
{
}

} // verus!

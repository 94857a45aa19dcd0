//! The optimistic escrow: bounties are locked per task, a worker is
//! assigned, its receipt opens a challenge window, and the task is then
//! either disputed and slashed, or settled once the window has closed. A
//! bounty taken from the ledger goes to the worker of a settled task, or
//! back to the delegator of a slashed one.
//!
//! Times are microseconds since the Unix epoch. Each operation is described
//! by an `*_outcome` spec function from the records before the call to the
//! records after it and the result.
use crate::error::{result_view, HiveError, HiveErrorView};
use crate::primitives::{max_utc_micros, now_unix_micros};
use crate::receipt::{TaskReceipt, TaskReceiptView};
use crate::settlement::{after_deposit, after_withdraw, balance, SwarmLedger};
use crate::text::{chars_to_string, decimal, decimal_exec, push_chars, push_str};
use crate::types::{AgentId, TaskId, TaskStatus, Timestamp};
use std::collections::HashMap;
use vstd::prelude::*;

verus! {

broadcast use vstd::std_specs::hash::group_hash_axioms;

/// The escrow record of one task.
#[derive(Debug, Clone)]
pub struct EscrowRecord {
    pub task_id: TaskId,
    pub delegator: AgentId,
    pub assigned_worker: Option<AgentId>,
    pub bounty_amount: u64,
    pub status: TaskStatus,
    pub challenge_deadline: Option<Timestamp>,
    pub receipt: Option<TaskReceipt>,
    pub dispute_reason: Option<String>,
}

/// A record, with its texts as character sequences.
pub struct RecordView {
    pub task_id: TaskId,
    pub delegator: Seq<char>,
    pub assigned_worker: Option<Seq<char>>,
    pub bounty_amount: u64,
    pub status: TaskStatus,
    pub challenge_deadline: Option<Timestamp>,
    pub receipt: Option<TaskReceiptView>,
    pub dispute_reason: Option<Seq<char>>,
}

pub open spec fn opt_text(o: Option<String>) -> Option<Seq<char>> {
    match o {
        Some(s) => Some(s@),
        None => None,
    }
}

pub open spec fn opt_receipt(o: Option<TaskReceipt>) -> Option<TaskReceiptView> {
    match o {
        Some(r) => Some(r@),
        None => None,
    }
}

impl View for EscrowRecord {
    type V = RecordView;

    open spec fn view(&self) -> RecordView {
        RecordView {
            task_id: self.task_id,
            delegator: self.delegator@,
            assigned_worker: opt_text(self.assigned_worker),
            bounty_amount: self.bounty_amount,
            status: self.status,
            challenge_deadline: self.challenge_deadline,
            receipt: opt_receipt(self.receipt),
            dispute_reason: opt_text(self.dispute_reason),
        }
    }
}

/// The escrow records of all tasks, by task.
#[derive(Debug)]
pub struct EscrowManager {
    records: HashMap<TaskId, EscrowRecord>,
}

impl View for EscrowManager {
    type V = Map<TaskId, RecordView>;

    closed spec fn view(&self) -> Map<TaskId, RecordView> {
        self.records@.map_values(|r: EscrowRecord| r@)
    }
}

/// Records, by task.
pub type Records = Map<TaskId, RecordView>;

pub open spec fn escrow_err<T>(msg: Seq<char>) -> Result<T, HiveErrorView> {
    Err(HiveErrorView::Escrow(msg))
}

/// A freshly locked record, awaiting its auction.
pub open spec fn locked_record(task_id: TaskId, delegator: Seq<char>, bounty: u64) -> RecordView {
    RecordView {
        task_id,
        delegator,
        assigned_worker: None,
        bounty_amount: bounty,
        status: TaskStatus::PendingAuction,
        challenge_deadline: None,
        receipt: None,
        dispute_reason: None,
    }
}

/// Assigning a worker: only a task awaiting its auction can be assigned.
pub open spec fn assign_outcome(m: Records, task_id: TaskId, worker: Seq<char>) -> (
    Records,
    Result<(), HiveErrorView>,
) {
    if !m.contains_key(task_id) {
        (m, escrow_err("Escrow record not found"@))
    } else if m[task_id].status != TaskStatus::PendingAuction {
        (m, escrow_err("Task is not in PendingAuction state"@))
    } else {
        (
            m.insert(
                task_id,
                RecordView {
                    assigned_worker: Some(worker),
                    status: TaskStatus::Assigned,
                    ..m[task_id]
                },
            ),
            Ok(()),
        )
    }
}

/// The end of a challenge window of `window` seconds opened at `now`, the
/// window taken as a signed count of seconds (`window as i64`, which wraps
/// for windows beyond `i64::MAX`).
pub open spec fn deadline_after(now: Timestamp, window: u64) -> int {
    now + (window as i64) * 1_000_000
}

/// Whether a challenge window of `window` seconds opened at `now` ends at a
/// representable instant.
pub open spec fn deadline_fits(now: Timestamp, window: u64) -> bool {
    &&& i64::MIN <= (window as i64) * 1_000_000 <= i64::MAX
    &&& i64::MIN <= deadline_after(now, window) <= i64::MAX
}

/// The end of a challenge window opened at `now`, when representable.
pub open spec fn window_deadline(now: Timestamp, window: u64) -> Option<Timestamp> {
    if deadline_fits(now, window) {
        Some(deadline_after(now, window) as i64)
    } else {
        None
    }
}

/// Submitting a receipt: only an assigned task takes one; its challenge
/// window closes at `deadline` (none: the window could not be computed).
pub open spec fn submit_outcome(
    m: Records,
    receipt: TaskReceiptView,
    deadline: Option<Timestamp>,
) -> (Records, Result<(), HiveErrorView>) {
    let id = receipt.task_id;
    if !m.contains_key(id) {
        (m, escrow_err("Escrow record not found"@))
    } else if m[id].status != TaskStatus::Assigned {
        (m, escrow_err("Cannot submit receipt: Task is not in Assigned state"@))
    } else {
        match deadline {
            Some(d) => (
                m.insert(
                    id,
                    RecordView {
                        receipt: Some(receipt),
                        challenge_deadline: Some(d),
                        status: TaskStatus::AwaitingOptimisticValidation,
                        ..m[id]
                    },
                ),
                Ok(()),
            ),
            None => (m, escrow_err("Challenge window out of range"@)),
        }
    }
}

/// Raising a dispute at time `t`: only a task awaiting validation, and only
/// until its deadline (inclusive).
pub open spec fn dispute_outcome(m: Records, task_id: TaskId, reason: Seq<char>, t: Timestamp) -> (
    Records,
    Result<(), HiveErrorView>,
) {
    if !m.contains_key(task_id) {
        (m, escrow_err("Escrow record not found"@))
    } else if m[task_id].status != TaskStatus::AwaitingOptimisticValidation {
        (m, escrow_err("Cannot dispute task: Not in AwaitingOptimisticValidation state"@))
    } else if m[task_id].challenge_deadline matches Some(d) && t > d {
        (m, escrow_err("Challenge window expired. Dispute rejected."@))
    } else {
        (
            m.insert(
                task_id,
                RecordView {
                    status: TaskStatus::Disputed,
                    dispute_reason: Some(reason),
                    ..m[task_id]
                },
            ),
            Ok(()),
        )
    }
}

/// Finalizing at time `t`: a disputed task is slashed; a task awaiting
/// validation is settled once its deadline has passed.
pub open spec fn finalize_outcome(m: Records, task_id: TaskId, t: Timestamp) -> (
    Records,
    Result<TaskStatus, HiveErrorView>,
) {
    if !m.contains_key(task_id) {
        (m, escrow_err("Escrow record not found"@))
    } else if m[task_id].status == TaskStatus::Disputed {
        (
            m.insert(task_id, RecordView { status: TaskStatus::Slashed, ..m[task_id] }),
            Ok(TaskStatus::Slashed),
        )
    } else if m[task_id].status != TaskStatus::AwaitingOptimisticValidation {
        (
            m,
            escrow_err(
                "Cannot finalize settlement: Task not in AwaitingOptimisticValidation state"@,
            ),
        )
    } else if m[task_id].challenge_deadline matches Some(d) && t <= d {
        (m, escrow_err("Challenge window active. Cannot settle before deadline expires."@))
    } else {
        (
            m.insert(task_id, RecordView { status: TaskStatus::Settled, ..m[task_id] }),
            Ok(TaskStatus::Settled),
        )
    }
}

/// The refusal of a bounty the delegator's balance does not cover.
pub open spec fn insufficient_funds_text(has: nat, bounty: u64) -> Seq<char> {
    "Insufficient funds: Delegator has "@ + decimal(has) + " USDC, but bounty requires "@ + decimal(
        bounty as nat,
    ) + " USDC"@
}

/// Who a finalized task pays its bounty to: the assigned worker when it is
/// settled, the delegator when the worker is slashed.
pub open spec fn payee(rec: RecordView, status: TaskStatus) -> Option<Seq<char>> {
    if status == TaskStatus::Settled {
        rec.assigned_worker
    } else if status == TaskStatus::Slashed {
        Some(rec.delegator)
    } else {
        None
    }
}

/// The balances after a task finalized with `status` paid out its bounty.
pub open spec fn after_release(
    m: Map<Seq<char>, u64>,
    rec: RecordView,
    status: TaskStatus,
) -> Map<Seq<char>, u64> {
    match payee(rec, status) {
        Some(a) => after_deposit(m, a, rec.bounty_amount),
        None => m,
    }
}

/// Whether paying out a task finalized at `t` stays within 64-bit balances.
pub open spec fn release_fits(ledger: Map<Seq<char>, u64>, m: Records, task_id: TaskId, t: Timestamp) -> bool {
    finalize_outcome(m, task_id, t).1 matches Ok(s) ==> (payee(m[task_id], s) matches Some(a)
        ==> balance(ledger, a) + m[task_id].bounty_amount <= u64::MAX)
}

/// Closing a task after its verification: with no dispute reason it is
/// finalized at `settle_time`; with one, a dispute is first raised at
/// `dispute_time`, and the task is finalized only if the dispute is taken.
pub open spec fn close_outcome(
    m: Records,
    task_id: TaskId,
    reason: Option<Seq<char>>,
    dispute_time: Timestamp,
    settle_time: Timestamp,
) -> (Records, Result<TaskStatus, HiveErrorView>) {
    match reason {
        None => finalize_outcome(m, task_id, settle_time),
        Some(rs) => {
            let d = dispute_outcome(m, task_id, rs, dispute_time);
            match d.1 {
                Err(e) => (d.0, Err(e)),
                Ok(_) => finalize_outcome(d.0, task_id, settle_time),
            }
        },
    }
}

/// The records `close_outcome` finalizes from.
pub open spec fn close_basis(
    m: Records,
    task_id: TaskId,
    reason: Option<Seq<char>>,
    dispute_time: Timestamp,
) -> Records {
    match reason {
        None => m,
        Some(rs) => dispute_outcome(m, task_id, rs, dispute_time).0,
    }
}

fn escrow_error(msg: &str) -> (r: HiveError)
    ensures
        r@ == HiveErrorView::Escrow(msg@),
{
    HiveError::EscrowError(String::from_str(msg))
}

impl EscrowManager {
    /// An escrow without records.
    pub fn new() -> (r: Self)
        ensures
            r@ == Map::<TaskId, RecordView>::empty(),
    {
        let r = EscrowManager { records: HashMap::new() };
        assert(r@ =~= Map::<TaskId, RecordView>::empty());
        r
    }

    proof fn lemma_insert_view(m: Map<TaskId, EscrowRecord>, k: TaskId, v: EscrowRecord)
        ensures
            m.insert(k, v).map_values(|r: EscrowRecord| r@) == m.map_values(
                |r: EscrowRecord| r@,
            ).insert(k, v@),
    {
        assert(m.insert(k, v).map_values(|r: EscrowRecord| r@) =~= m.map_values(
            |r: EscrowRecord| r@,
        ).insert(k, v@));
    }

    /// Locks `bounty` for a task, awaiting its auction. A record already held
    /// for the task is replaced.
    pub fn lock_escrow(&mut self, task_id: TaskId, delegator: AgentId, bounty: u64) -> (r: Result<
        (),
        HiveError,
    >)
        ensures
            r is Ok,
            final(self)@ == old(self)@.insert(task_id, locked_record(task_id, delegator@, bounty)),
    {
        let record = EscrowRecord {
            task_id,
            delegator,
            assigned_worker: None,
            bounty_amount: bounty,
            status: TaskStatus::PendingAuction,
            challenge_deadline: None,
            receipt: None,
            dispute_reason: None,
        };
        proof {
            Self::lemma_insert_view(self.records@, task_id, record);
        }
        self.records.insert(task_id, record);
        Ok(())
    }

    /// Assigns `worker` to a task awaiting its auction.
    pub fn assign_worker(&mut self, task_id: TaskId, worker: AgentId) -> (r: Result<(), HiveError>)
        ensures
            (final(self)@, result_view(r)) == assign_outcome(old(self)@, task_id, worker@),
    {
        match self.records.get(&task_id) {
            None => {
                return Err(escrow_error("Escrow record not found"));
            },
            Some(rec) => {
                if rec.status != TaskStatus::PendingAuction {
                    return Err(escrow_error("Task is not in PendingAuction state"));
                }
            },
        }
        let ghost before = self.records@;
        let mut rec = self.records.remove(&task_id).unwrap();
        rec.assigned_worker = Some(worker);
        rec.status = TaskStatus::Assigned;
        proof {
            Self::lemma_insert_view(self.records@, task_id, rec);
            assert(self.records@.insert(task_id, rec) =~= before.insert(task_id, rec));
            Self::lemma_insert_view(before, task_id, rec);
        }
        self.records.insert(task_id, rec);
        Ok(())
    }

    fn submit_with_deadline(&mut self, receipt: TaskReceipt, deadline: Option<Timestamp>) -> (r:
        Result<(), HiveError>)
        ensures
            (final(self)@, result_view(r)) == submit_outcome(old(self)@, receipt@, deadline),
    {
        let task_id = receipt.task_id;
        match self.records.get(&task_id) {
            None => {
                return Err(escrow_error("Escrow record not found"));
            },
            Some(rec) => {
                if rec.status != TaskStatus::Assigned {
                    return Err(escrow_error("Cannot submit receipt: Task is not in Assigned state"));
                }
            },
        }
        let d = match deadline {
            Some(d) => d,
            None => {
                return Err(escrow_error("Challenge window out of range"));
            },
        };
        let ghost before = self.records@;
        let mut rec = self.records.remove(&task_id).unwrap();
        rec.receipt = Some(receipt);
        rec.challenge_deadline = Some(d);
        rec.status = TaskStatus::AwaitingOptimisticValidation;
        proof {
            assert(self.records@.insert(task_id, rec) =~= before.insert(task_id, rec));
            Self::lemma_insert_view(before, task_id, rec);
        }
        self.records.insert(task_id, rec);
        Ok(())
    }

    /// Records a receipt submitted at `now` for an assigned task and opens a
    /// challenge window of `challenge_window_seconds`.
    pub fn submit_receipt_at(
        &mut self,
        receipt: TaskReceipt,
        challenge_window_seconds: u64,
        now: Timestamp,
    ) -> (r: Result<(), HiveError>)
        requires
            deadline_fits(now, challenge_window_seconds),
        ensures
            (final(self)@, result_view(r)) == submit_outcome(
                old(self)@,
                receipt@,
                Some(deadline_after(now, challenge_window_seconds) as i64),
            ),
    {
        let secs = challenge_window_seconds as i64;
        let deadline = now + secs * 1_000_000;
        self.submit_with_deadline(receipt, Some(deadline))
    }

    /// Records a receipt submitted now for an assigned task and opens a
    /// challenge window of `challenge_window_seconds`. A window that ends
    /// beyond the representable instants is refused; one of up to 900 000 000
    /// 000 seconds (about 28 500 years) always fits, since the clock reads no
    /// later than the end of year 262143.
    pub fn submit_receipt(&mut self, receipt: TaskReceipt, challenge_window_seconds: u64) -> (r:
        Result<(), HiveError>)
        ensures
            exists|now: Timestamp|
                0 <= now <= max_utc_micros() && (final(self)@, result_view(r)) == submit_outcome(
                    old(self)@,
                    receipt@,
                    #[trigger] window_deadline(now, challenge_window_seconds),
                ),
            challenge_window_seconds <= 900_000_000_000 ==> exists|now: Timestamp|
                0 <= now <= max_utc_micros() && (final(self)@, result_view(r)) == submit_outcome(
                    old(self)@,
                    receipt@,
                    Some(#[trigger] deadline_after(now, challenge_window_seconds) as i64),
                ),
            old(self)@.contains_key(receipt.task_id) && old(self)@[receipt.task_id].status
                == TaskStatus::Assigned && challenge_window_seconds <= 900_000_000_000 ==> r is Ok,
    {
        let now = now_unix_micros();
        let secs = challenge_window_seconds as i64;
        let deadline = match secs.checked_mul(1_000_000) {
            Some(span) => now.checked_add(span),
            None => None,
        };
        let r = self.submit_with_deadline(receipt, deadline);
        assert(deadline == window_deadline(now, challenge_window_seconds));
        assert(challenge_window_seconds <= 900_000_000_000 ==> deadline_fits(
            now,
            challenge_window_seconds,
        ));
        r
    }

    /// Raises a dispute at `current_time` against a task awaiting validation.
    pub fn raise_dispute_at(&mut self, task_id: TaskId, reason: String, current_time: Timestamp) -> (r:
        Result<(), HiveError>)
        ensures
            (final(self)@, result_view(r)) == dispute_outcome(
                old(self)@,
                task_id,
                reason@,
                current_time,
            ),
    {
        match self.records.get(&task_id) {
            None => {
                return Err(escrow_error("Escrow record not found"));
            },
            Some(rec) => {
                if rec.status != TaskStatus::AwaitingOptimisticValidation {
                    return Err(
                        escrow_error(
                            "Cannot dispute task: Not in AwaitingOptimisticValidation state",
                        ),
                    );
                }
                match rec.challenge_deadline {
                    Some(d) => {
                        if current_time > d {
                            return Err(escrow_error("Challenge window expired. Dispute rejected."));
                        }
                    },
                    None => {},
                }
            },
        }
        let ghost before = self.records@;
        let mut rec = self.records.remove(&task_id).unwrap();
        rec.status = TaskStatus::Disputed;
        rec.dispute_reason = Some(reason);
        proof {
            assert(self.records@.insert(task_id, rec) =~= before.insert(task_id, rec));
            Self::lemma_insert_view(before, task_id, rec);
        }
        self.records.insert(task_id, rec);
        Ok(())
    }

    /// Raises a dispute now against a task awaiting validation.
    pub fn raise_dispute(&mut self, task_id: TaskId, reason: String) -> (r: Result<(), HiveError>)
        ensures
            exists|t: Timestamp|
                0 <= t <= max_utc_micros() && (final(self)@, result_view(r))
                    == #[trigger] dispute_outcome(
                    old(self)@,
                    task_id,
                    reason@,
                    t,
                ),
    {
        let now = now_unix_micros();
        self.raise_dispute_at(task_id, reason, now)
    }

    /// Finalizes a task at `current_time`: a disputed task is slashed, and a
    /// task awaiting validation is settled once its challenge window closed.
    pub fn finalize_settlement_at(&mut self, task_id: TaskId, current_time: Timestamp) -> (r:
        Result<TaskStatus, HiveError>)
        ensures
            (final(self)@, result_view(r)) == finalize_outcome(old(self)@, task_id, current_time),
    {
        let next = match self.records.get(&task_id) {
            None => {
                return Err(escrow_error("Escrow record not found"));
            },
            Some(rec) => {
                if rec.status == TaskStatus::Disputed {
                    TaskStatus::Slashed
                } else if rec.status != TaskStatus::AwaitingOptimisticValidation {
                    return Err(
                        escrow_error(
                            "Cannot finalize settlement: Task not in AwaitingOptimisticValidation state",
                        ),
                    );
                } else {
                    match rec.challenge_deadline {
                        Some(d) => {
                            if current_time <= d {
                                return Err(
                                    escrow_error(
                                        "Challenge window active. Cannot settle before deadline expires.",
                                    ),
                                );
                            }
                        },
                        None => {},
                    }
                    TaskStatus::Settled
                }
            },
        };
        let ghost before = self.records@;
        let mut rec = self.records.remove(&task_id).unwrap();
        rec.status = next;
        proof {
            assert(self.records@.insert(task_id, rec) =~= before.insert(task_id, rec));
            Self::lemma_insert_view(before, task_id, rec);
        }
        self.records.insert(task_id, rec);
        Ok(next)
    }

    /// Finalizes a task one second from now.
    pub fn finalize_settlement(&mut self, task_id: TaskId) -> (r: Result<TaskStatus, HiveError>)
        ensures
            exists|t: Timestamp|
                1_000_000 <= t <= max_utc_micros() + 1_000_000 && (final(self)@, result_view(r))
                    == #[trigger] finalize_outcome(old(self)@, task_id, t),
    {
        let now = now_unix_micros();
        let t = now + 1_000_000;
        self.finalize_settlement_at(task_id, t)
    }

    /// Locks a bounty paid by `delegator` for a task: the bounty leaves the
    /// delegator's balance and the task's record is locked, awaiting its
    /// auction. A bounty the balance does not cover is refused, and nothing
    /// is locked.
    pub fn lock_bounty(
        &mut self,
        ledger: &mut SwarmLedger,
        task_id: TaskId,
        delegator: &AgentId,
        bounty: u64,
    ) -> (r: Result<(), HiveError>)
        requires
            old(ledger).wf(),
        ensures
            final(ledger).wf(),
            final(ledger)@ == after_withdraw(old(ledger)@, delegator@, bounty),
            r is Ok <==> balance(old(ledger)@, delegator@) >= bounty,
            r is Ok ==> final(self)@ == old(self)@.insert(
                task_id,
                locked_record(task_id, delegator@, bounty),
            ),
            r is Ok ==> final(ledger).total() == old(ledger).total() - bounty,
            r is Err ==> final(self)@ == old(self)@,
            r is Err ==> final(ledger).total() == old(ledger).total(),
            r is Err ==> result_view(r) == Err::<(), HiveErrorView>(
                HiveErrorView::Escrow(
                    insufficient_funds_text(balance(old(ledger)@, delegator@), bounty),
                ),
            ),
    {
        let has = ledger.balance_of(delegator);
        if ledger.withdraw(delegator, bounty) {
            self.lock_escrow(task_id, delegator.clone(), bounty)
        } else {
            let mut v: Vec<char> = Vec::new();
            push_str(&mut v, "Insufficient funds: Delegator has ");
            let d = decimal_exec(has);
            push_chars(&mut v, &d);
            push_str(&mut v, " USDC, but bounty requires ");
            let d = decimal_exec(bounty);
            push_chars(&mut v, &d);
            push_str(&mut v, " USDC");
            Err(HiveError::EscrowError(chars_to_string(&v)))
        }
    }

    /// Finalizes a task at `current_time`, as `finalize_settlement_at` does,
    /// and releases its bounty: to the assigned worker when the task is
    /// settled, back to the delegator when the worker is slashed. A refused
    /// finalization releases nothing.
    pub fn finalize_and_release(
        &mut self,
        ledger: &mut SwarmLedger,
        task_id: TaskId,
        current_time: Timestamp,
    ) -> (r: Result<TaskStatus, HiveError>)
        requires
            old(ledger).wf(),
            release_fits(old(ledger)@, old(self)@, task_id, current_time),
        ensures
            final(ledger).wf(),
            (final(self)@, result_view(r)) == finalize_outcome(old(self)@, task_id, current_time),
            r matches Ok(s) ==> final(ledger)@ == after_release(
                old(ledger)@,
                old(self)@[task_id],
                s,
            ),
            r matches Ok(s) ==> final(ledger).total() == old(ledger).total() + (if payee(
                old(self)@[task_id],
                s,
            ) is Some {
                old(self)@[task_id].bounty_amount as int
            } else {
                0
            }),
            r is Err ==> final(ledger)@ == old(ledger)@,
            r is Err ==> final(ledger).total() == old(ledger).total(),
    {
        let (delegator, worker, bounty) = match self.records.get(&task_id) {
            Some(rec) => (rec.delegator.clone(), rec.assigned_worker.clone(), rec.bounty_amount),
            None => {
                return Err(escrow_error("Escrow record not found"));
            },
        };
        let ghost rec = old(self)@[task_id];
        assert(delegator@ == rec.delegator);
        assert(opt_text(worker) == rec.assigned_worker);
        let status = self.finalize_settlement_at(task_id, current_time)?;
        match status {
            TaskStatus::Settled => {
                match worker {
                    Some(w) => {
                        ledger.deposit(&w, bounty);
                    },
                    None => {},
                }
            },
            TaskStatus::Slashed => {
                ledger.deposit(&delegator, bounty);
            },
            _ => {},
        }
        Ok(status)
    }

    /// Closes a task once its receipt has been verified: with no dispute
    /// reason (the work verified) it is finalized at `settle_time` and the
    /// worker is paid once the window has closed; with a reason, a dispute
    /// is raised at `dispute_time` and the task is then finalized, which
    /// slashes the worker and refunds the delegator.
    pub fn settle_or_dispute(
        &mut self,
        ledger: &mut SwarmLedger,
        task_id: TaskId,
        dispute_reason: Option<String>,
        dispute_time: Timestamp,
        settle_time: Timestamp,
    ) -> (r: Result<TaskStatus, HiveError>)
        requires
            old(ledger).wf(),
            release_fits(
                old(ledger)@,
                close_basis(old(self)@, task_id, opt_text(dispute_reason), dispute_time),
                task_id,
                settle_time,
            ),
        ensures
            final(ledger).wf(),
            (final(self)@, result_view(r)) == close_outcome(
                old(self)@,
                task_id,
                opt_text(dispute_reason),
                dispute_time,
                settle_time,
            ),
            r matches Ok(s) ==> final(ledger)@ == after_release(
                old(ledger)@,
                old(self)@[task_id],
                s,
            ),
            r is Err ==> final(ledger)@ == old(ledger)@,
    {
        match dispute_reason {
            None => self.finalize_and_release(ledger, task_id, settle_time),
            Some(reason) => {
                self.raise_dispute_at(task_id, reason, dispute_time)?;
                self.finalize_and_release(ledger, task_id, settle_time)
            },
        }
    }

    /// The record of a task.
    pub fn get_record(&self, task_id: &TaskId) -> (r: Option<&EscrowRecord>)
        ensures
            r matches Some(rec) ==> self@.contains_key(*task_id) && rec@ == self@[*task_id],
            r is None ==> !self@.contains_key(*task_id),
    {
        self.records.get(task_id)
    }
}

impl Default for EscrowManager {
    /// An escrow without records.
    fn default() -> (r: Self)
        ensures
            r@ == Map::<TaskId, RecordView>::empty(),
    {
        EscrowManager::new()
    }
}

// ---------------------------------------------------------------------------
// Laws
// ---------------------------------------------------------------------------

/// The challenge window splits time in two: for a task awaiting validation
/// with a deadline, a dispute at `t` succeeds exactly when settling at `t`
/// fails, i.e. disputes are accepted up to the deadline and settlement only
/// after it.
pub proof fn lemma_challenge_window_partition(
    m: Records,
    task_id: TaskId,
    reason: Seq<char>,
    t: Timestamp,
)
    requires
        m.contains_key(task_id),
        m[task_id].status == TaskStatus::AwaitingOptimisticValidation,
        m[task_id].challenge_deadline is Some,
    ensures
        dispute_outcome(m, task_id, reason, t).1 is Ok <==> t <= m[task_id].challenge_deadline->0,
        finalize_outcome(m, task_id, t).1 is Ok <==> t > m[task_id].challenge_deadline->0,
        dispute_outcome(m, task_id, reason, t).1 is Ok <==> !(finalize_outcome(m, task_id, t).1 is Ok),
{
}

/// A disputed task is slashed whenever it is finalized.
pub proof fn lemma_dispute_slashes(m: Records, task_id: TaskId, reason: Seq<char>, t1: Timestamp, t2: Timestamp)
    requires
        dispute_outcome(m, task_id, reason, t1).1 is Ok,
    ensures
        finalize_outcome(dispute_outcome(m, task_id, reason, t1).0, task_id, t2).1 == Ok::<
            TaskStatus,
            HiveErrorView,
        >(TaskStatus::Slashed),
{
}

/// A refused operation leaves every record as it was.
pub proof fn lemma_refusals_change_nothing(
    m: Records,
    task_id: TaskId,
    worker: Seq<char>,
    receipt: TaskReceiptView,
    deadline: Option<Timestamp>,
    reason: Seq<char>,
    t: Timestamp,
)
    ensures
        assign_outcome(m, task_id, worker).1 is Err ==> assign_outcome(m, task_id, worker).0 == m,
        submit_outcome(m, receipt, deadline).1 is Err ==> submit_outcome(m, receipt, deadline).0
            == m,
        dispute_outcome(m, task_id, reason, t).1 is Err ==> dispute_outcome(m, task_id, reason, t).0
            == m,
        finalize_outcome(m, task_id, t).1 is Err ==> finalize_outcome(m, task_id, t).0 == m,
{
}

/// The order of the life cycle: each status may only move to the next one.
pub open spec fn next_status(s1: TaskStatus, s2: TaskStatus) -> bool {
    ||| s1 == TaskStatus::PendingAuction && s2 == TaskStatus::Assigned
    ||| s1 == TaskStatus::Assigned && s2 == TaskStatus::AwaitingOptimisticValidation
    ||| s1 == TaskStatus::AwaitingOptimisticValidation && s2 == TaskStatus::Disputed
    ||| s1 == TaskStatus::AwaitingOptimisticValidation && s2 == TaskStatus::Settled
    ||| s1 == TaskStatus::Disputed && s2 == TaskStatus::Slashed
}

/// Records `m2` differ from `m1` only in one task, whose status moved one
/// step along the life cycle.
pub open spec fn one_step(m1: Records, m2: Records, task_id: TaskId) -> bool {
    &&& m1.contains_key(task_id)
    &&& m2.dom() == m1.dom()
    &&& forall|k: TaskId| m1.contains_key(k) && k != task_id ==> m2[k] == m1[k]
    &&& next_status(m1[task_id].status, m2[task_id].status)
}

/// Every successful assignment, submission, dispute or finalization moves
/// exactly one task one step along the life cycle; settled and slashed tasks
/// never move again.
pub proof fn lemma_life_cycle_steps(
    m: Records,
    task_id: TaskId,
    worker: Seq<char>,
    receipt: TaskReceiptView,
    deadline: Option<Timestamp>,
    reason: Seq<char>,
    t: Timestamp,
)
    ensures
        assign_outcome(m, task_id, worker).1 is Ok ==> one_step(
            m,
            assign_outcome(m, task_id, worker).0,
            task_id,
        ),
        submit_outcome(m, receipt, deadline).1 is Ok ==> one_step(
            m,
            submit_outcome(m, receipt, deadline).0,
            receipt.task_id,
        ),
        dispute_outcome(m, task_id, reason, t).1 is Ok ==> one_step(
            m,
            dispute_outcome(m, task_id, reason, t).0,
            task_id,
        ),
        finalize_outcome(m, task_id, t).1 is Ok ==> one_step(
            m,
            finalize_outcome(m, task_id, t).0,
            task_id,
        ),
        m.contains_key(task_id) && (m[task_id].status == TaskStatus::Settled || m[task_id].status
            == TaskStatus::Slashed) ==> {
            &&& assign_outcome(m, task_id, worker).1 is Err
            &&& dispute_outcome(m, task_id, reason, t).1 is Err
            &&& finalize_outcome(m, task_id, t).1 is Err
        },
{
    assert(assign_outcome(m, task_id, worker).1 is Ok ==> assign_outcome(m, task_id, worker).0.dom()
        =~= m.dom());
    assert(submit_outcome(m, receipt, deadline).1 is Ok ==> submit_outcome(m, receipt, deadline).0.dom()
        =~= m.dom());
    assert(dispute_outcome(m, task_id, reason, t).1 is Ok ==> dispute_outcome(m, task_id, reason, t).0.dom()
        =~= m.dom());
    assert(finalize_outcome(m, task_id, t).1 is Ok ==> finalize_outcome(m, task_id, t).0.dom()
        =~= m.dom());
}

/// A bounty is released at most once: once a task has been finalized, any
/// later finalization of it is refused (and so releases nothing).
pub proof fn lemma_release_at_most_once(m: Records, task_id: TaskId, t1: Timestamp, t2: Timestamp)
    requires
        finalize_outcome(m, task_id, t1).1 is Ok,
    ensures
        finalize_outcome(finalize_outcome(m, task_id, t1).0, task_id, t2).1 is Err,
{
}

/// No step of the life cycle changes who funded a task or how much it
/// holds, so the bounty released is the bounty locked.
pub proof fn lemma_bounty_and_delegator_fixed(
    m: Records,
    task_id: TaskId,
    worker: Seq<char>,
    receipt: TaskReceiptView,
    deadline: Option<Timestamp>,
    reason: Seq<char>,
    t: Timestamp,
)
    requires
        m.contains_key(task_id),
    ensures
        assign_outcome(m, task_id, worker).0[task_id].bounty_amount == m[task_id].bounty_amount,
        assign_outcome(m, task_id, worker).0[task_id].delegator == m[task_id].delegator,
        receipt.task_id == task_id ==> submit_outcome(m, receipt, deadline).0[task_id].bounty_amount
            == m[task_id].bounty_amount,
        receipt.task_id == task_id ==> submit_outcome(m, receipt, deadline).0[task_id].delegator
            == m[task_id].delegator,
        dispute_outcome(m, task_id, reason, t).0[task_id].bounty_amount == m[task_id].bounty_amount,
        dispute_outcome(m, task_id, reason, t).0[task_id].delegator == m[task_id].delegator,
        finalize_outcome(m, task_id, t).0[task_id].bounty_amount == m[task_id].bounty_amount,
        finalize_outcome(m, task_id, t).0[task_id].delegator == m[task_id].delegator,
{
}

/// Every task past its auction has a worker.
pub open spec fn workers_assigned(m: Records) -> bool {
    forall|k: TaskId|
        #[trigger] m.contains_key(k) && m[k].status != TaskStatus::PendingAuction
            ==> m[k].assigned_worker is Some
}

/// Every operation keeps `workers_assigned`, so a settled task always has a
/// worker to release its bounty to.
pub proof fn lemma_workers_assigned_kept(
    m: Records,
    task_id: TaskId,
    delegator: Seq<char>,
    bounty: u64,
    worker: Seq<char>,
    receipt: TaskReceiptView,
    deadline: Option<Timestamp>,
    reason: Seq<char>,
    t: Timestamp,
)
    requires
        workers_assigned(m),
    ensures
        workers_assigned(Map::<TaskId, RecordView>::empty()),
        workers_assigned(m.insert(task_id, locked_record(task_id, delegator, bounty))),
        workers_assigned(assign_outcome(m, task_id, worker).0),
        workers_assigned(submit_outcome(m, receipt, deadline).0),
        workers_assigned(dispute_outcome(m, task_id, reason, t).0),
        workers_assigned(finalize_outcome(m, task_id, t).0),
        finalize_outcome(m, task_id, t).1 matches Ok(s) ==> payee(m[task_id], s) is Some,
{
}

/// Settle or slash: for a task awaiting validation, closing it without a
/// dispute after its deadline settles it and pays its worker, and closing it
/// with a dispute raised by its deadline slashes it and refunds its
/// delegator, whenever it is finalized.
pub proof fn lemma_close_pays_the_right_party(
    m: Records,
    task_id: TaskId,
    reason: Seq<char>,
    dispute_time: Timestamp,
    settle_time: Timestamp,
)
    requires
        workers_assigned(m),
        m.contains_key(task_id),
        m[task_id].status == TaskStatus::AwaitingOptimisticValidation,
        m[task_id].challenge_deadline is Some,
    ensures
        settle_time > m[task_id].challenge_deadline->0 ==> {
            &&& close_outcome(m, task_id, None, dispute_time, settle_time).1 == Ok::<
                TaskStatus,
                HiveErrorView,
            >(TaskStatus::Settled)
            &&& payee(m[task_id], TaskStatus::Settled) == m[task_id].assigned_worker
            &&& m[task_id].assigned_worker is Some
        },
        dispute_time <= m[task_id].challenge_deadline->0 ==> {
            &&& close_outcome(m, task_id, Some(reason), dispute_time, settle_time).1 == Ok::<
                TaskStatus,
                HiveErrorView,
            >(TaskStatus::Slashed)
            &&& payee(m[task_id], TaskStatus::Slashed) == Some(m[task_id].delegator)
        },
{
}

} // verus!

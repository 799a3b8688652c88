//! One task: its record, its lifecycle, and the transitions of a single record.

use vstd::prelude::*;
use crate::host::transfer_tokens;
pub use crate::host::TransferLog;

verus! {

/// Where a task stands in its lifecycle.
#[derive(Clone, Copy, Debug, PartialEq, Eq, Structural)]
pub enum TaskStatus {
    /// Funded, awaiting a worker.
    Open,
    /// A worker accepted; work in progress.
    Assigned,
    /// The worker submitted proof of completion.
    Submitted,
    /// The manager approved; the bounty went to the worker.
    Completed,
    /// The manager cancelled before assignment; the bounty went back.
    Cancelled,
    /// The manager rejected the submission; the bounty went back.
    Disputed,
}

/// Why an operation on a task was refused.
#[derive(Clone, Copy, Debug, PartialEq, Eq, Structural)]
pub enum TaskError {
    /// No task has the given id.
    TaskNotFound,
    /// A task must be created with a positive bounty.
    BountyNotPositive,
    /// Only an open task can be accepted.
    TaskNotOpen,
    /// The ledger is past the task's deadline.
    DeadlinePassed,
    /// Completion can only be submitted once a worker is assigned.
    NoWorkerAssigned,
    /// Completion can only be submitted for an assigned task.
    TaskNotAssigned,
    /// Approval and rejection need a submitted task.
    TaskNotSubmitted,
    /// A submitted task without a worker cannot be paid out.
    NoWorkerOnTask,
    /// Only an open task can be cancelled.
    OnlyOpenCancellable,
    /// The token contract did not carry out the transfer.
    TransferFailed,
    /// The task counter cannot grow any further.
    TaskCountOverflow,
}

/// The text each refusal is reported with.
pub open spec fn error_text(e: TaskError) -> Seq<char> {
    match e {
        TaskError::TaskNotFound => "task not found"@,
        TaskError::BountyNotPositive => "bounty must be greater than zero"@,
        TaskError::TaskNotOpen => "task is not open"@,
        TaskError::DeadlinePassed => "task deadline has passed"@,
        TaskError::NoWorkerAssigned => "no worker assigned"@,
        TaskError::TaskNotAssigned => "task is not in assigned state"@,
        TaskError::TaskNotSubmitted => "task has not been submitted for review"@,
        TaskError::NoWorkerOnTask => "no worker on task"@,
        TaskError::OnlyOpenCancellable => "can only cancel open tasks"@,
        TaskError::TransferFailed => "token transfer failed"@,
        TaskError::TaskCountOverflow => "attempt to add with overflow"@,
    }
}

impl TaskError {
    /// The message the contract aborts with for this refusal.
    pub fn message(&self) -> (text: &'static str)
        ensures
            text@ == error_text(*self),
    {
        match self {
            TaskError::TaskNotFound => "task not found",
            TaskError::BountyNotPositive => "bounty must be greater than zero",
            TaskError::TaskNotOpen => "task is not open",
            TaskError::DeadlinePassed => "task deadline has passed",
            TaskError::NoWorkerAssigned => "no worker assigned",
            TaskError::TaskNotAssigned => "task is not in assigned state",
            TaskError::TaskNotSubmitted => "task has not been submitted for review",
            TaskError::NoWorkerOnTask => "no worker on task",
            TaskError::OnlyOpenCancellable => "can only cancel open tasks",
            TaskError::TransferFailed => "token transfer failed",
            TaskError::TaskCountOverflow => "attempt to add with overflow",
        }
    }
}

/// A task as the contract keeps it.
pub struct TaskRecord {
    pub task_id: u64,
    /// Created and funded the task.
    pub manager: soroban_sdk::Address,
    /// The assigned worker, once one accepted.
    pub worker: Option<soroban_sdk::Address>,
    /// The token contract the bounty is paid in.
    pub usdc_token: soroban_sdk::Address,
    /// The bounty, in the token's smallest unit.
    pub bounty: i128,
    pub description: soroban_sdk::String,
    /// The worker's proof of completion, once submitted.
    pub completion_hash: Option<soroban_sdk::String>,
    pub status: TaskStatus,
    /// The last ledger sequence at which the task can still be accepted.
    pub deadline_ledger: u32,
}

/// The bounty of a task is held in escrow while the task is open, assigned or
/// submitted, and has left escrow once it is completed, cancelled or disputed.
pub open spec fn holds_bounty(s: TaskStatus) -> bool {
    s == TaskStatus::Open || s == TaskStatus::Assigned || s == TaskStatus::Submitted
}

/// A task in a status that no operation leaves.
pub open spec fn is_final(s: TaskStatus) -> bool {
    !holds_bounty(s)
}

/// The lifecycle's edges: open to assigned or cancelled, assigned to
/// submitted, submitted to completed or disputed.
pub open spec fn advances(from: TaskStatus, to: TaskStatus) -> bool {
    ||| from == TaskStatus::Open && to == TaskStatus::Assigned
    ||| from == TaskStatus::Open && to == TaskStatus::Cancelled
    ||| from == TaskStatus::Assigned && to == TaskStatus::Submitted
    ||| from == TaskStatus::Submitted && to == TaskStatus::Completed
    ||| from == TaskStatus::Submitted && to == TaskStatus::Disputed
}

/// How far along the lifecycle a status is.
pub open spec fn stage(s: TaskStatus) -> int {
    match s {
        TaskStatus::Open => 0,
        TaskStatus::Assigned => 1,
        TaskStatus::Submitted => 2,
        _ => 3,
    }
}

/// The terms a task was created with, which no operation changes.
pub open spec fn same_terms(a: TaskRecord, b: TaskRecord) -> bool {
    &&& a.task_id == b.task_id
    &&& a.manager == b.manager
    &&& a.usdc_token == b.usdc_token
    &&& a.bounty == b.bounty
    &&& a.description == b.description
    &&& a.deadline_ledger == b.deadline_ledger
}

/// One operation's effect on one record: none, or one lifecycle edge with the
/// terms kept, and the worker kept once past open.
pub open spec fn task_step(a: TaskRecord, b: TaskRecord) -> bool {
    ||| b == a
    ||| same_terms(a, b) && advances(a.status, b.status)
        && (a.status != TaskStatus::Open ==> b.worker == a.worker)
}

impl TaskRecord {
    /// A consistent record: a positive bounty, a worker exactly from
    /// acceptance on, and a completion hash exactly from submission on.
    pub open spec fn wf(self) -> bool {
        &&& self.bounty > 0
        &&& (self.worker is Some <==> (self.status != TaskStatus::Open && self.status != TaskStatus::Cancelled))
        &&& (self.completion_hash is Some <==> (self.status == TaskStatus::Submitted
            || self.status == TaskStatus::Completed || self.status == TaskStatus::Disputed))
    }
}

/// The record of a freshly created task.
pub open spec fn new_task(
    task_id: u64,
    manager: soroban_sdk::Address,
    usdc_token: soroban_sdk::Address,
    bounty: i128,
    description: soroban_sdk::String,
    deadline_ledger: u32,
) -> TaskRecord {
    TaskRecord {
        task_id,
        manager,
        worker: None,
        usdc_token,
        bounty,
        description,
        completion_hash: None,
        status: TaskStatus::Open,
        deadline_ledger,
    }
}

/// The record with another status.
pub open spec fn with_status(t: TaskRecord, status: TaskStatus) -> TaskRecord {
    TaskRecord { status, ..t }
}

/// What accepting does to a record, for a worker, at a ledger sequence.
pub open spec fn accepted(t: TaskRecord, worker: soroban_sdk::Address, ledger_sequence: u32) -> Result<TaskRecord, TaskError> {
    if t.status != TaskStatus::Open {
        Err(TaskError::TaskNotOpen)
    } else if ledger_sequence > t.deadline_ledger {
        Err(TaskError::DeadlinePassed)
    } else {
        Ok(TaskRecord { worker: Some(worker), status: TaskStatus::Assigned, ..t })
    }
}

/// What submitting a completion hash does to a record.
pub open spec fn submitted(t: TaskRecord, completion_hash: soroban_sdk::String) -> Result<TaskRecord, TaskError> {
    if t.worker is None {
        Err(TaskError::NoWorkerAssigned)
    } else if t.status != TaskStatus::Assigned {
        Err(TaskError::TaskNotAssigned)
    } else {
        Ok(TaskRecord { completion_hash: Some(completion_hash), status: TaskStatus::Submitted, ..t })
    }
}

/// Whether a record may be approved and paid out to its worker.
pub open spec fn release_check(t: TaskRecord) -> Result<(), TaskError> {
    if t.status != TaskStatus::Submitted {
        Err(TaskError::TaskNotSubmitted)
    } else if t.worker is None {
        Err(TaskError::NoWorkerOnTask)
    } else {
        Ok(())
    }
}

/// Whether a record's submission may be rejected and its bounty returned.
pub open spec fn claw_back_check(t: TaskRecord) -> Result<(), TaskError> {
    if t.status != TaskStatus::Submitted {
        Err(TaskError::TaskNotSubmitted)
    } else {
        Ok(())
    }
}

/// Whether a record may be cancelled and its bounty returned.
pub open spec fn cancel_check(t: TaskRecord) -> Result<(), TaskError> {
    if t.status != TaskStatus::Open {
        Err(TaskError::OnlyOpenCancellable)
    } else {
        Ok(())
    }
}

/// A record changed as `outcome` says: to its new value with `Ok`, untouched
/// with the refusal otherwise.
pub open spec fn follows(
    before: TaskRecord,
    after: TaskRecord,
    result: Result<(), TaskError>,
    outcome: Result<TaskRecord, TaskError>,
) -> bool {
    match outcome {
        Ok(t) => result == Ok::<(), TaskError>(()) && after == t,
        Err(e) => result == Err::<(), TaskError>(e) && after == before,
    }
}

/// What a token transfer the contract asks for is for.
#[derive(Clone, Copy, Debug, PartialEq, Eq, Structural)]
pub enum TransferKind {
    /// The manager's bounty going into escrow when the task is created.
    Lock,
    /// The escrowed bounty going to the worker on approval.
    Release,
    /// The escrowed bounty going back to the manager on rejection or
    /// cancellation.
    Refund,
}

/// One token transfer the contract asked for, on behalf of task `task_id`:
/// `amount` of the token `token` from `from` to `to`, and whether the token
/// contract carried it out.
pub struct TransferRecord {
    pub task_id: u64,
    pub kind: TransferKind,
    pub token: soroban_sdk::Address,
    pub from: soroban_sdk::Address,
    pub to: soroban_sdk::Address,
    pub amount: i128,
    pub carried_out: bool,
}

/// A token transfer the contract asks for on behalf of task `task_id`:
/// `amount` of the token `token` from `from` to `to`.
pub struct Payout<'a> {
    pub task_id: u64,
    pub kind: TransferKind,
    pub token: &'a soroban_sdk::Address,
    pub from: &'a soroban_sdk::Address,
    pub to: &'a soroban_sdk::Address,
    pub amount: i128,
}

impl<'a> Payout<'a> {
    /// This transfer as the log records it, with its outcome.
    pub open spec fn record(&self, carried_out: bool) -> TransferRecord {
        TransferRecord {
            task_id: self.task_id,
            kind: self.kind,
            token: *self.token,
            from: *self.from,
            to: *self.to,
            amount: self.amount,
            carried_out,
        }
    }

    /// Hands this transfer to the token contract and records it in `log`,
    /// with whether it was carried out.
    pub fn execute(&self, env: &soroban_sdk::Env, log: &mut TransferLog) -> (transferred: bool)
        ensures
            final(log)@ == old(log)@.push(self.record(transferred)),
    {
        transfer_tokens(env, self, log)
    }
}

/// The transfer that locks a new task's bounty: from the manager into escrow.
pub open spec fn lock_record(
    task_id: u64,
    manager: soroban_sdk::Address,
    usdc_token: soroban_sdk::Address,
    bounty: i128,
    escrow: soroban_sdk::Address,
    carried_out: bool,
) -> TransferRecord {
    TransferRecord {
        task_id,
        kind: TransferKind::Lock,
        token: usdc_token,
        from: manager,
        to: escrow,
        amount: bounty,
        carried_out,
    }
}

/// The transfer that pays a task's bounty out of escrow to `to`.
pub open spec fn payout_record(
    t: TaskRecord,
    kind: TransferKind,
    escrow: soroban_sdk::Address,
    to: soroban_sdk::Address,
    carried_out: bool,
) -> TransferRecord {
    TransferRecord {
        task_id: t.task_id,
        kind,
        token: t.usdc_token,
        from: escrow,
        to,
        amount: t.bounty,
        carried_out,
    }
}

/// A payout: refused as `check` says, with the record untouched and no
/// transfer asked for; or the transfer `payout_record(before, kind, escrow,
/// to, ..)` asked for, and then either refused because the token contract did
/// not carry it out, with the record untouched, or done, with the record
/// moved to `target`.
pub open spec fn paid_out(
    before: TaskRecord,
    after: TaskRecord,
    result: Result<(), TaskError>,
    check: Result<(), TaskError>,
    target: TaskStatus,
    log_before: Seq<TransferRecord>,
    log_after: Seq<TransferRecord>,
    kind: TransferKind,
    escrow: soroban_sdk::Address,
    to: soroban_sdk::Address,
) -> bool {
    match check {
        Err(e) => result == Err::<(), TaskError>(e) && after == before && log_after == log_before,
        Ok(_) => {
            &&& log_after == log_before.push(payout_record(before, kind, escrow, to, result is Ok))
            &&& result is Err ==> result == Err::<(), TaskError>(TaskError::TransferFailed) && after == before
            &&& result is Ok ==> after == with_status(before, target)
        },
    }
}

impl TaskRecord {
    /// The payout of an approval: the bounty, from `escrow` to the worker,
    /// in the task's token; refused as `release_check` says.
    pub fn release_payout<'a>(&'a self, escrow: &'a soroban_sdk::Address) -> (payout: Result<Payout<'a>, TaskError>)
        ensures
            match release_check(*self) {
                Err(e) => payout matches Err(f) && f == e,
                Ok(_) => payout matches Ok(p) && {
                    &&& p.task_id == self.task_id
                    &&& p.kind == TransferKind::Release
                    &&& *p.token == self.usdc_token
                    &&& *p.from == *escrow
                    &&& Some(*p.to) == self.worker
                    &&& p.amount == self.bounty
                },
            },
    {
        if self.status != TaskStatus::Submitted {
            return Err(TaskError::TaskNotSubmitted);
        }
        match &self.worker {
            Some(worker) => Ok(Payout {
                task_id: self.task_id,
                kind: TransferKind::Release,
                token: &self.usdc_token,
                from: escrow,
                to: worker,
                amount: self.bounty,
            }),
            None => Err(TaskError::NoWorkerOnTask),
        }
    }

    /// The payout of a rejection or a cancellation: the bounty, from `escrow`
    /// back to the manager, in the task's token.
    pub fn refund_payout<'a>(&'a self, escrow: &'a soroban_sdk::Address) -> (payout: Payout<'a>)
        ensures
            payout.task_id == self.task_id,
            payout.kind == TransferKind::Refund,
            *payout.token == self.usdc_token,
            *payout.from == *escrow,
            *payout.to == self.manager,
            payout.amount == self.bounty,
    {
        Payout {
            task_id: self.task_id,
            kind: TransferKind::Refund,
            token: &self.usdc_token,
            from: escrow,
            to: &self.manager,
            amount: self.bounty,
        }
    }
}

impl TaskRecord {
    /// Creates the record of task `task_id` after locking its bounty: the
    /// transfer of `bounty` of the token `usdc_token` from `manager` to
    /// `escrow` is asked for, and recorded in `log`; a refused bounty asks
    /// for no transfer.
    pub fn open(
        env: &soroban_sdk::Env,
        escrow: &soroban_sdk::Address,
        task_id: u64,
        manager: soroban_sdk::Address,
        usdc_token: soroban_sdk::Address,
        bounty: i128,
        description: soroban_sdk::String,
        deadline_ledger: u32,
        log: &mut TransferLog,
    ) -> (created: Result<TaskRecord, TaskError>)
        ensures
            bounty <= 0 ==> created == Err::<TaskRecord, TaskError>(TaskError::BountyNotPositive)
                && final(log)@ == old(log)@,
            bounty > 0 ==> {
                &&& final(log)@ == old(log)@.push(
                    lock_record(task_id, manager, usdc_token, bounty, *escrow, created is Ok))
                &&& created is Err ==> created == Err::<TaskRecord, TaskError>(TaskError::TransferFailed)
                &&& created is Ok ==> created == Ok::<TaskRecord, TaskError>(
                    new_task(task_id, manager, usdc_token, bounty, description, deadline_ledger))
            },
            created matches Ok(t) ==> t.wf(),
            created matches Ok(t) ==> {
                &&& t.task_id == task_id
                &&& t.manager == manager
                &&& t.worker is None
                &&& t.usdc_token == usdc_token
                &&& t.bounty == bounty
                &&& t.description == description
                &&& t.completion_hash is None
                &&& t.status == TaskStatus::Open
                &&& t.deadline_ledger == deadline_ledger
            },
    {
        if bounty <= 0 {
            return Err(TaskError::BountyNotPositive);
        }
        let lock = Payout {
            task_id,
            kind: TransferKind::Lock,
            token: &usdc_token,
            from: &manager,
            to: escrow,
            amount: bounty,
        };
        if !lock.execute(env, log) {
            return Err(TaskError::TransferFailed);
        }
        Ok(TaskRecord {
            task_id,
            manager,
            worker: None,
            usdc_token,
            bounty,
            description,
            completion_hash: None,
            status: TaskStatus::Open,
            deadline_ledger,
        })
    }

    /// Who must authorize a submission of completion: the assigned worker;
    /// refused while no worker is assigned.
    pub fn submitter(&self) -> (worker: Result<&soroban_sdk::Address, TaskError>)
        ensures
            match self.worker {
                Some(w) => worker matches Ok(a) && *a == w,
                None => worker matches Err(e) && e == TaskError::NoWorkerAssigned,
            },
    {
        match &self.worker {
            Some(w) => Ok(w),
            None => Err(TaskError::NoWorkerAssigned),
        }
    }

    /// A worker takes the open task, at ledger `ledger_sequence`.
    pub fn accept(&mut self, worker: soroban_sdk::Address, ledger_sequence: u32) -> (result: Result<(), TaskError>)
        ensures
            follows(*old(self), *final(self), result, accepted(*old(self), worker, ledger_sequence)),
            task_step(*old(self), *final(self)),
            old(self).wf() ==> final(self).wf(),
    {
        if self.status != TaskStatus::Open {
            return Err(TaskError::TaskNotOpen);
        }
        if ledger_sequence > self.deadline_ledger {
            return Err(TaskError::DeadlinePassed);
        }
        self.worker = Some(worker);
        self.status = TaskStatus::Assigned;
        Ok(())
    }

    /// The assigned worker records proof of completion.
    pub fn submit(&mut self, completion_hash: soroban_sdk::String) -> (result: Result<(), TaskError>)
        ensures
            follows(*old(self), *final(self), result, submitted(*old(self), completion_hash)),
            task_step(*old(self), *final(self)),
            old(self).wf() ==> final(self).wf(),
    {
        if self.worker.is_none() {
            return Err(TaskError::NoWorkerAssigned);
        }
        if self.status != TaskStatus::Assigned {
            return Err(TaskError::TaskNotAssigned);
        }
        self.completion_hash = Some(completion_hash);
        self.status = TaskStatus::Submitted;
        Ok(())
    }


    /// Approval: the bounty's transfer from `escrow` to the worker is asked
    /// for and recorded in `log`; once carried out, the task is completed.
    pub fn release(&mut self, env: &soroban_sdk::Env, escrow: &soroban_sdk::Address, log: &mut TransferLog) -> (result: Result<(), TaskError>)
        ensures
            paid_out(*old(self), *final(self), result, release_check(*old(self)), TaskStatus::Completed,
                old(log)@, final(log)@, TransferKind::Release, *escrow, old(self).worker->0),
            task_step(*old(self), *final(self)),
            old(self).wf() ==> final(self).wf(),
    {
        let paid = match self.release_payout(escrow) {
            Ok(payout) => payout.execute(env, log),
            Err(e) => return Err(e),
        };
        if !paid {
            return Err(TaskError::TransferFailed);
        }
        self.status = TaskStatus::Completed;
        Ok(())
    }

    /// Rejection: the bounty's transfer from `escrow` back to the manager is
    /// asked for and recorded in `log`; once carried out, the task is
    /// disputed.
    pub fn claw_back(&mut self, env: &soroban_sdk::Env, escrow: &soroban_sdk::Address, log: &mut TransferLog) -> (result: Result<(), TaskError>)
        ensures
            paid_out(*old(self), *final(self), result, claw_back_check(*old(self)), TaskStatus::Disputed,
                old(log)@, final(log)@, TransferKind::Refund, *escrow, old(self).manager),
            task_step(*old(self), *final(self)),
            old(self).wf() ==> final(self).wf(),
    {
        if self.status != TaskStatus::Submitted {
            return Err(TaskError::TaskNotSubmitted);
        }
        if !self.refund_payout(escrow).execute(env, log) {
            return Err(TaskError::TransferFailed);
        }
        self.status = TaskStatus::Disputed;
        Ok(())
    }

    /// Cancellation: the bounty's transfer from `escrow` back to the manager
    /// is asked for and recorded in `log`; once carried out, the task is
    /// cancelled.
    pub fn cancel(&mut self, env: &soroban_sdk::Env, escrow: &soroban_sdk::Address, log: &mut TransferLog) -> (result: Result<(), TaskError>)
        ensures
            paid_out(*old(self), *final(self), result, cancel_check(*old(self)), TaskStatus::Cancelled,
                old(log)@, final(log)@, TransferKind::Refund, *escrow, old(self).manager),
            task_step(*old(self), *final(self)),
            old(self).wf() ==> final(self).wf(),
    {
        if self.status != TaskStatus::Open {
            return Err(TaskError::OnlyOpenCancellable);
        }
        if !self.refund_payout(escrow).execute(env, log) {
            return Err(TaskError::TransferFailed);
        }
        self.status = TaskStatus::Cancelled;
        Ok(())
    }
}

} // verus!

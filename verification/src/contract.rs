//! The contract's state, held as a book of task records, and its entry points.

use vstd::prelude::*;
use crate::escrow::{
    escrow_share, escrowed, lemma_escrowed_push, lemma_escrowed_update, lemma_fits_create,
    lemma_fits_failed_transfer, lemma_fits_payout, lemma_fits_quiet_step, log_fits,
};
use crate::host::{read_ledger_sequence, LedgerReadings};
use crate::task::{
    accepted, cancel_check, claw_back_check, lock_record, new_task, payout_record, release_check,
    submitted, task_step, with_status, TaskError, TaskRecord, TaskStatus, TransferKind, TransferLog,
    TransferRecord,
};

verus! {

/// The keys under which the contract persists its entries.
#[derive(Clone, Copy, Debug, PartialEq, Eq, Structural)]
pub enum DataKey {
    /// The record of the task with this id.
    Task(u64),
    /// The number of tasks created so far.
    TaskCount,
}

/// The id the next task gets, from the stored task count (none stored: no
/// task yet): one past the count.
pub fn next_task_id(stored_count: Option<u64>) -> (id: Result<u64, TaskError>)
    ensures
        match stored_count {
            None => id == Ok::<u64, TaskError>(1),
            Some(count) => if count < u64::MAX {
                id == Ok::<u64, TaskError>((count + 1) as u64)
            } else {
                id == Err::<u64, TaskError>(TaskError::TaskCountOverflow)
            },
        },
{
    let count = match stored_count {
        Some(count) => count,
        None => 0,
    };
    if count == u64::MAX {
        Err(TaskError::TaskCountOverflow)
    } else {
        Ok(count + 1)
    }
}

/// Whether `tasks` holds a task with id `task_id`.
pub open spec fn has_task(tasks: Seq<TaskRecord>, task_id: u64) -> bool {
    1 <= task_id <= tasks.len()
}

/// The task with id `task_id`: ids count from 1, in order of creation.
pub open spec fn task_at(tasks: Seq<TaskRecord>, task_id: u64) -> TaskRecord {
    tasks[task_id - 1]
}

/// A consistent book: task `i + 1` at index `i`, every record consistent, and
/// the count representable.
pub open spec fn book_wf(tasks: Seq<TaskRecord>) -> bool {
    &&& tasks.len() <= u64::MAX
    &&& forall|i: int| #![trigger tasks[i]] 0 <= i < tasks.len() ==> tasks[i].task_id == i + 1 && tasks[i].wf()
}

/// One operation's effect on the book: every task takes at most one
/// lifecycle step, and at most one open task is appended.
pub open spec fn book_step(before: Seq<TaskRecord>, after: Seq<TaskRecord>) -> bool {
    &&& after.len() == before.len() || (after.len() == before.len() + 1
        && after.last().status == TaskStatus::Open)
    &&& forall|i: int| 0 <= i < before.len() ==> #[trigger] task_step(before[i], after[i])
}

/// An operation on task `task_id` that changes its record as `outcome` says.
pub open spec fn book_follows(
    before: Seq<TaskRecord>,
    after: Seq<TaskRecord>,
    task_id: u64,
    result: Result<(), TaskError>,
    outcome: Result<TaskRecord, TaskError>,
) -> bool {
    if !has_task(before, task_id) {
        result == Err::<(), TaskError>(TaskError::TaskNotFound) && after == before
    } else {
        match outcome {
            Ok(t) => result == Ok::<(), TaskError>(()) && after == before.update(task_id - 1, t),
            Err(e) => result == Err::<(), TaskError>(e) && after == before,
        }
    }
}

/// A payout on task `task_id`: refused (no such task, or as `check` says)
/// with the book untouched and no transfer asked for; or the transfer
/// `payout_record(task, kind, escrow, to, ..)` asked for, and then either
/// refused because the token contract did not carry it out, with the book
/// untouched, or done, with the task moved to `target`.
pub open spec fn book_paid_out(
    before: Seq<TaskRecord>,
    after: Seq<TaskRecord>,
    task_id: u64,
    result: Result<(), TaskError>,
    check: Result<(), TaskError>,
    target: TaskStatus,
    log_before: Seq<TransferRecord>,
    log_after: Seq<TransferRecord>,
    kind: TransferKind,
    escrow: soroban_sdk::Address,
    to: soroban_sdk::Address,
) -> bool {
    if !has_task(before, task_id) {
        result == Err::<(), TaskError>(TaskError::TaskNotFound) && after == before && log_after == log_before
    } else {
        match check {
            Err(e) => result == Err::<(), TaskError>(e) && after == before && log_after == log_before,
            Ok(_) => {
                &&& log_after == log_before.push(
                    payout_record(task_at(before, task_id), kind, escrow, to, result is Ok))
                &&& result is Err ==> result == Err::<(), TaskError>(TaskError::TransferFailed) && after == before
                &&& result is Ok ==> after == before.update(task_id - 1, with_status(task_at(before, task_id), target))
            },
        }
    }
}

/// Replacing one record by a lifecycle step of it keeps the book consistent,
/// is one step of the book, and moves escrow by the change of that record's
/// share.
proof fn lemma_step_update(tasks: Seq<TaskRecord>, i: int, t: TaskRecord)
    requires
        book_wf(tasks),
        0 <= i < tasks.len(),
        task_step(tasks[i], t),
        t.wf(),
    ensures
        book_wf(tasks.update(i, t)),
        book_step(tasks, tasks.update(i, t)),
        forall|token: soroban_sdk::Address| #[trigger] escrowed(tasks.update(i, t), token)
            == escrowed(tasks, token) - escrow_share(tasks[i], token) + escrow_share(t, token),
{
    let u = tasks.update(i, t);
    assert forall|j: int| 0 <= j < u.len() implies u[j].task_id == j + 1 && u[j].wf() by {
        if j != i {
            assert(u[j] == tasks[j]);
        }
    }
    assert forall|j: int| 0 <= j < tasks.len() implies #[trigger] task_step(tasks[j], u[j]) by {
        if j != i {
            assert(u[j] == tasks[j]);
        }
    }
    assert forall|token: soroban_sdk::Address| #[trigger] escrowed(u, token)
        == escrowed(tasks, token) - escrow_share(tasks[i], token) + escrow_share(t, token) by {
        lemma_escrowed_update(tasks, i, t, token);
    }
}

/// The contract's state: the address that holds the escrowed bounties (the
/// contract's own), every task created so far (the task with id `i + 1` at
/// index `i`), the token transfers asked for so far, and the ledger sequence
/// numbers read so far.
pub struct TaskPayContract {
    escrow: soroban_sdk::Address,
    tasks: Vec<TaskRecord>,
    log: TransferLog,
    readings: LedgerReadings,
}

impl View for TaskPayContract {
    type V = Seq<TaskRecord>;

    closed spec fn view(&self) -> Seq<TaskRecord> {
        self.tasks@
    }
}

impl TaskPayContract {
    /// The address that holds the escrowed bounties.
    pub closed spec fn escrow_address(&self) -> soroban_sdk::Address {
        self.escrow
    }

    /// The token transfers asked for so far, in order, with their outcomes.
    pub closed spec fn transfers(&self) -> Seq<TransferRecord> {
        self.log@
    }

    /// The ledger sequence numbers the host reported so far, in order.
    pub closed spec fn ledger_readings(&self) -> Seq<u32> {
        self.readings@
    }

    /// Whether the book is consistent and agrees with the transfers; every
    /// operation keeps it so.
    pub open spec fn wf(&self) -> bool {
        &&& book_wf(self@)
        &&& log_fits(self@, self.escrow_address(), self.transfers())
    }

    /// A contract with no tasks yet, holding escrow at `escrow`.
    pub fn new(escrow: soroban_sdk::Address) -> (contract: Self)
        ensures
            contract@ == Seq::<TaskRecord>::empty(),
            contract.escrow_address() == escrow,
            contract.transfers() == Seq::<TransferRecord>::empty(),
            contract.ledger_readings() == Seq::<u32>::empty(),
            contract.wf(),
    {
        let contract = TaskPayContract {
            escrow,
            tasks: Vec::new(),
            log: TransferLog::new(),
            readings: LedgerReadings::new(),
        };
        proof {
            assert forall|token: soroban_sdk::Address| #[trigger] crate::escrow::net_locked(contract.transfers(), token)
                == escrowed(contract@, token) by {}
        }
        contract
    }

    /// The address that holds the escrowed bounties.
    pub fn escrow(&self) -> (escrow: &soroban_sdk::Address)
        ensures
            *escrow == self.escrow_address(),
    {
        &self.escrow
    }

    /// The index of task `task_id`, if there is one.
    fn index_of(&self, task_id: u64) -> (index: Option<usize>)
        ensures
            has_task(self@, task_id) <==> index is Some,
            index matches Some(i) ==> i == task_id - 1,
    {
        let count = self.tasks.len() as u64;
        if 1 <= task_id && task_id <= count {
            Some((task_id - 1) as usize)
        } else {
            None
        }
    }

    /// The number of tasks created so far.
    pub fn get_task_count(&self) -> (count: u64)
        ensures
            count == self@.len(),
    {
        self.tasks.len() as u64
    }

    /// The record of task `task_id`.
    pub fn get_task(&self, task_id: u64) -> (task: Result<&TaskRecord, TaskError>)
        ensures
            has_task(self@, task_id) ==> (task matches Ok(t) && *t == task_at(self@, task_id)),
            !has_task(self@, task_id) ==> task == Err::<&TaskRecord, TaskError>(TaskError::TaskNotFound),
    {
        match self.index_of(task_id) {
            Some(i) => {
                Ok(&self.tasks[i])
            },
            None => Err(TaskError::TaskNotFound),
        }
    }

    /// A manager creates a task and locks its bounty: the transfer of
    /// `bounty` of the token `usdc_token` from `manager` to the escrow is asked
    /// for, and once carried out the task gets the next id.
    pub fn create_task(
        &mut self,
        env: &soroban_sdk::Env,
        manager: soroban_sdk::Address,
        usdc_token: soroban_sdk::Address,
        bounty: i128,
        description: soroban_sdk::String,
        deadline_ledger: u32,
    ) -> (result: Result<u64, TaskError>)
        requires
            old(self).wf(),
        ensures
            final(self).wf(),
            final(self).escrow_address() == old(self).escrow_address(),
            final(self).ledger_readings() == old(self).ledger_readings(),
            book_step(old(self)@, final(self)@),
            old(self)@.len() == u64::MAX ==> result == Err::<u64, TaskError>(TaskError::TaskCountOverflow)
                && final(self).transfers() == old(self).transfers(),
            old(self)@.len() < u64::MAX && bounty <= 0
                ==> result == Err::<u64, TaskError>(TaskError::BountyNotPositive)
                && final(self).transfers() == old(self).transfers(),
            old(self)@.len() < u64::MAX && bounty > 0 ==> {
                &&& final(self).transfers() == old(self).transfers().push(lock_record(
                    (old(self)@.len() + 1) as u64, manager, usdc_token, bounty, old(self).escrow_address(),
                    result is Ok))
                &&& result is Err ==> result == Err::<u64, TaskError>(TaskError::TransferFailed)
                &&& result is Ok ==> result == Ok::<u64, TaskError>((old(self)@.len() + 1) as u64)
            },
            result is Err ==> final(self)@ == old(self)@,
            result matches Ok(id) ==> {
                &&& id == old(self)@.len() + 1
                &&& final(self)@ == old(self)@.push(
                    new_task(id, manager, usdc_token, bounty, description, deadline_ledger))
                &&& forall|token: soroban_sdk::Address| #[trigger] escrowed(final(self)@, token)
                    == escrowed(old(self)@, token) + escrow_share(task_at(final(self)@, id), token)
                &&& task_at(final(self)@, id).task_id == id
                &&& task_at(final(self)@, id).manager == manager
                &&& task_at(final(self)@, id).worker is None
                &&& task_at(final(self)@, id).usdc_token == usdc_token
                &&& task_at(final(self)@, id).bounty == bounty
                &&& task_at(final(self)@, id).description == description
                &&& task_at(final(self)@, id).completion_hash is None
                &&& task_at(final(self)@, id).status == TaskStatus::Open
                &&& task_at(final(self)@, id).deadline_ledger == deadline_ledger
            },
    {
        let task_id = match next_task_id(Some(self.tasks.len() as u64)) {
            Ok(id) => id,
            Err(e) => return Err(e),
        };
        let ghost log_before = self.log@;
        match TaskRecord::open(env, &self.escrow, task_id, manager, usdc_token, bounty, description, deadline_ledger, &mut self.log) {
            Ok(task) => {
                let ghost before = self@;
                self.tasks.push(task);
                proof {
                    assert forall|token: soroban_sdk::Address| #[trigger] escrowed(self@, token)
                        == escrowed(before, token) + escrow_share(task_at(self@, task_id), token) by {
                        lemma_escrowed_push(before, task, token);
                    }
                    assert forall|i: int| 0 <= i < before.len() implies #[trigger] task_step(before[i], self@[i]) by {
                        assert(self@[i] == before[i]);
                    }
                    assert forall|i: int| 0 <= i < self@.len() implies self@[i].task_id == i + 1 && self@[i].wf() by {
                        if i < before.len() {
                            assert(self@[i] == before[i]);
                        }
                    }
                    lemma_fits_create(before, self.escrow, log_before, task);
                }
                Ok(task_id)
            },
            Err(e) => {
                proof {
                    if bounty > 0 {
                        lemma_fits_failed_transfer(self@, self.escrow, log_before, self.log@.last());
                        assert(self.log@ =~= log_before.push(self.log@.last()));
                    }
                }
                Err(e)
            },
        }
    }

    /// A worker takes open task `task_id`, the ledger being at
    /// `ledger_sequence`; no transfer is asked for.
    pub fn accept_task_at(&mut self, task_id: u64, worker: soroban_sdk::Address, ledger_sequence: u32) -> (result: Result<(), TaskError>)
        requires
            old(self).wf(),
        ensures
            final(self).wf(),
            final(self).escrow_address() == old(self).escrow_address(),
            final(self).ledger_readings() == old(self).ledger_readings(),
            final(self).transfers() == old(self).transfers(),
            book_step(old(self)@, final(self)@),
            book_follows(old(self)@, final(self)@, task_id, result,
                accepted(task_at(old(self)@, task_id), worker, ledger_sequence)),
            forall|token: soroban_sdk::Address| #[trigger] escrowed(final(self)@, token) == escrowed(old(self)@, token),
    {
        let ghost before = self@;
        match self.index_of(task_id) {
            None => Err(TaskError::TaskNotFound),
            Some(i) => {
                let result = self.tasks[i].accept(worker, ledger_sequence);
                proof {
                    lemma_step_update(before, i as int, self@[i as int]);
                    assert(self@ =~= before.update(i as int, self@[i as int]));
                    assert(before.update(i as int, before[i as int]) =~= before);
                    lemma_fits_quiet_step(before, self.escrow, self.log@, i as int, self@[i as int]);
                }
                result
            },
        }
    }

    /// A worker takes open task `task_id`, at the ledger the invocation runs
    /// in: the sequence number the host reports is read (and recorded in
    /// `ledger_readings`), and the task is accepted at that sequence; no
    /// transfer is asked for.
    pub fn accept_task(&mut self, env: &soroban_sdk::Env, task_id: u64, worker: soroban_sdk::Address) -> (result: Result<(), TaskError>)
        requires
            old(self).wf(),
        ensures
            final(self).wf(),
            final(self).escrow_address() == old(self).escrow_address(),
            final(self).transfers() == old(self).transfers(),
            final(self).ledger_readings().len() == old(self).ledger_readings().len() + 1,
            final(self).ledger_readings().drop_last() == old(self).ledger_readings(),
            book_step(old(self)@, final(self)@),
            book_follows(old(self)@, final(self)@, task_id, result,
                accepted(task_at(old(self)@, task_id), worker, final(self).ledger_readings().last())),
            forall|token: soroban_sdk::Address| #[trigger] escrowed(final(self)@, token) == escrowed(old(self)@, token),
    {
        let ghost readings_before = self.readings@;
        let sequence = read_ledger_sequence(env, &mut self.readings);
        proof {
            assert(self.readings@.drop_last() =~= readings_before);
        }
        self.accept_task_at(task_id, worker, sequence)
    }

    /// The assigned worker of task `task_id` submits proof of completion; no
    /// transfer is asked for.
    pub fn submit_completion(&mut self, task_id: u64, completion_hash: soroban_sdk::String) -> (result: Result<(), TaskError>)
        requires
            old(self).wf(),
        ensures
            final(self).wf(),
            final(self).escrow_address() == old(self).escrow_address(),
            final(self).ledger_readings() == old(self).ledger_readings(),
            final(self).transfers() == old(self).transfers(),
            book_step(old(self)@, final(self)@),
            book_follows(old(self)@, final(self)@, task_id, result,
                submitted(task_at(old(self)@, task_id), completion_hash)),
            forall|token: soroban_sdk::Address| #[trigger] escrowed(final(self)@, token) == escrowed(old(self)@, token),
    {
        let ghost before = self@;
        match self.index_of(task_id) {
            None => Err(TaskError::TaskNotFound),
            Some(i) => {
                let result = self.tasks[i].submit(completion_hash);
                proof {
                    lemma_step_update(before, i as int, self@[i as int]);
                    assert(self@ =~= before.update(i as int, self@[i as int]));
                    assert(before.update(i as int, before[i as int]) =~= before);
                    lemma_fits_quiet_step(before, self.escrow, self.log@, i as int, self@[i as int]);
                }
                result
            },
        }
    }

    /// The manager approves task `task_id`: the transfer of its bounty from
    /// the escrow to the worker is asked for, and once carried out the task is
    /// completed.
    pub fn approve_and_release(&mut self, env: &soroban_sdk::Env, task_id: u64) -> (result: Result<(), TaskError>)
        requires
            old(self).wf(),
        ensures
            final(self).wf(),
            final(self).escrow_address() == old(self).escrow_address(),
            final(self).ledger_readings() == old(self).ledger_readings(),
            book_step(old(self)@, final(self)@),
            book_paid_out(old(self)@, final(self)@, task_id, result,
                release_check(task_at(old(self)@, task_id)), TaskStatus::Completed,
                old(self).transfers(), final(self).transfers(), TransferKind::Release,
                old(self).escrow_address(), task_at(old(self)@, task_id).worker->0),
            result is Ok ==> forall|token: soroban_sdk::Address| #[trigger] escrowed(final(self)@, token)
                == escrowed(old(self)@, token) - escrow_share(task_at(old(self)@, task_id), token),
    {
        let ghost before = self@;
        let ghost log_before = self.log@;
        match self.index_of(task_id) {
            None => Err(TaskError::TaskNotFound),
            Some(i) => {
                let result = self.tasks[i].release(env, &self.escrow, &mut self.log);
                proof {
                    lemma_step_update(before, i as int, self@[i as int]);
                    assert(self@ =~= before.update(i as int, self@[i as int]));
                    assert(before.update(i as int, before[i as int]) =~= before);
                    if release_check(before[i as int]) is Ok {
                        if result is Ok {
                            lemma_fits_payout(before, self.escrow, log_before, i as int, TransferKind::Release,
                                before[i as int].worker->0, TaskStatus::Completed);
                        } else {
                            lemma_fits_failed_transfer(before, self.escrow, log_before, self.log@.last());
                            assert(self.log@ =~= log_before.push(self.log@.last()));
                        }
                    }
                }
                result
            },
        }
    }

    /// The manager rejects the submission of task `task_id`: the transfer of
    /// its bounty from the escrow back to the manager is asked for, and once
    /// carried out the task is disputed.
    pub fn reject_submission(&mut self, env: &soroban_sdk::Env, task_id: u64) -> (result: Result<(), TaskError>)
        requires
            old(self).wf(),
        ensures
            final(self).wf(),
            final(self).escrow_address() == old(self).escrow_address(),
            final(self).ledger_readings() == old(self).ledger_readings(),
            book_step(old(self)@, final(self)@),
            book_paid_out(old(self)@, final(self)@, task_id, result,
                claw_back_check(task_at(old(self)@, task_id)), TaskStatus::Disputed,
                old(self).transfers(), final(self).transfers(), TransferKind::Refund,
                old(self).escrow_address(), task_at(old(self)@, task_id).manager),
            result is Ok ==> forall|token: soroban_sdk::Address| #[trigger] escrowed(final(self)@, token)
                == escrowed(old(self)@, token) - escrow_share(task_at(old(self)@, task_id), token),
    {
        let ghost before = self@;
        let ghost log_before = self.log@;
        match self.index_of(task_id) {
            None => Err(TaskError::TaskNotFound),
            Some(i) => {
                let result = self.tasks[i].claw_back(env, &self.escrow, &mut self.log);
                proof {
                    lemma_step_update(before, i as int, self@[i as int]);
                    assert(self@ =~= before.update(i as int, self@[i as int]));
                    assert(before.update(i as int, before[i as int]) =~= before);
                    if claw_back_check(before[i as int]) is Ok {
                        if result is Ok {
                            lemma_fits_payout(before, self.escrow, log_before, i as int, TransferKind::Refund,
                                before[i as int].manager, TaskStatus::Disputed);
                        } else {
                            lemma_fits_failed_transfer(before, self.escrow, log_before, self.log@.last());
                            assert(self.log@ =~= log_before.push(self.log@.last()));
                        }
                    }
                }
                result
            },
        }
    }

    /// The manager cancels open task `task_id`: the transfer of its bounty
    /// from the escrow back to the manager is asked for, and once carried out
    /// the task is cancelled.
    pub fn cancel_task(&mut self, env: &soroban_sdk::Env, task_id: u64) -> (result: Result<(), TaskError>)
        requires
            old(self).wf(),
        ensures
            final(self).wf(),
            final(self).escrow_address() == old(self).escrow_address(),
            final(self).ledger_readings() == old(self).ledger_readings(),
            book_step(old(self)@, final(self)@),
            book_paid_out(old(self)@, final(self)@, task_id, result,
                cancel_check(task_at(old(self)@, task_id)), TaskStatus::Cancelled,
                old(self).transfers(), final(self).transfers(), TransferKind::Refund,
                old(self).escrow_address(), task_at(old(self)@, task_id).manager),
            result is Ok ==> forall|token: soroban_sdk::Address| #[trigger] escrowed(final(self)@, token)
                == escrowed(old(self)@, token) - escrow_share(task_at(old(self)@, task_id), token),
    {
        let ghost before = self@;
        let ghost log_before = self.log@;
        match self.index_of(task_id) {
            None => Err(TaskError::TaskNotFound),
            Some(i) => {
                let result = self.tasks[i].cancel(env, &self.escrow, &mut self.log);
                proof {
                    lemma_step_update(before, i as int, self@[i as int]);
                    assert(self@ =~= before.update(i as int, self@[i as int]));
                    assert(before.update(i as int, before[i as int]) =~= before);
                    if cancel_check(before[i as int]) is Ok {
                        if result is Ok {
                            lemma_fits_payout(before, self.escrow, log_before, i as int, TransferKind::Refund,
                                before[i as int].manager, TaskStatus::Cancelled);
                        } else {
                            lemma_fits_failed_transfer(before, self.escrow, log_before, self.log@.last());
                            assert(self.log@ =~= log_before.push(self.log@.last()));
                        }
                    }
                }
                result
            },
        }
    }
}

} // verus!

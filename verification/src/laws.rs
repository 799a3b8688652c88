//! Properties of the contract that hold across its operations.
//!
//! Every entry point of `TaskPayContract` ensures `book_step` between the book
//! before and after it, and keeps its well-formedness, which includes the
//! agreement of the book with the token transfers asked for; the laws below
//! are what follows for any sequence of such steps.

use vstd::prelude::*;
use crate::contract::{book_follows, book_paid_out, book_step, book_wf, has_task, task_at, TaskPayContract};
use crate::escrow::{confirmed, entry_fits, escrow_share, escrowed, net_locked, task_payments_fit};
use crate::task::{
    accepted, cancel_check, claw_back_check, is_final, new_task, release_check, same_terms, stage,
    with_status, TaskError, TaskRecord, TaskStatus, TransferKind,
};

verus! {

/// A completed, cancelled or disputed task is never changed again.
pub proof fn law_final_tasks_never_change(before: Seq<TaskRecord>, after: Seq<TaskRecord>, task_id: u64)
    requires
        book_step(before, after),
        has_task(before, task_id),
        is_final(task_at(before, task_id).status),
    ensures
        task_at(after, task_id) == task_at(before, task_id),
{
    assert(crate::task::task_step(before[task_id - 1], after[task_id - 1]));
}

/// The terms a task was created with (id, manager, token, bounty,
/// description, deadline) never change.
pub proof fn law_terms_never_change(before: Seq<TaskRecord>, after: Seq<TaskRecord>, task_id: u64)
    requires
        book_step(before, after),
        has_task(before, task_id),
    ensures
        has_task(after, task_id),
        same_terms(task_at(before, task_id), task_at(after, task_id)),
{
    assert(crate::task::task_step(before[task_id - 1], after[task_id - 1]));
}

/// A task only moves forward along its lifecycle.
pub proof fn law_status_never_goes_back(before: Seq<TaskRecord>, after: Seq<TaskRecord>, task_id: u64)
    requires
        book_step(before, after),
        has_task(before, task_id),
    ensures
        stage(task_at(before, task_id).status) <= stage(task_at(after, task_id).status),
{
    assert(crate::task::task_step(before[task_id - 1], after[task_id - 1]));
}

/// After a task is appended, reading its id gives the record that was
/// written, and every earlier task reads as before.
pub proof fn law_get_after_create(before: Seq<TaskRecord>, t: TaskRecord)
    requires
        book_wf(before),
        before.len() < u64::MAX,
    ensures
        has_task(before.push(t), (before.len() + 1) as u64),
        task_at(before.push(t), (before.len() + 1) as u64) == t,
        forall|id: u64| has_task(before, id) ==> #[trigger] task_at(before.push(t), id) == task_at(before, id),
{
}

/// A completed task has its worker and its proof of completion.
pub proof fn law_completed_task_has_worker_and_proof(tasks: Seq<TaskRecord>, task_id: u64)
    requires
        book_wf(tasks),
        has_task(tasks, task_id),
        task_at(tasks, task_id).status == TaskStatus::Completed,
    ensures
        task_at(tasks, task_id).worker is Some,
        task_at(tasks, task_id).completion_hash is Some,
{
    assert(tasks[task_id - 1].wf());
}

/// Completed, cancelled and disputed tasks hold nothing in escrow.
pub proof fn law_final_tasks_hold_nothing(t: TaskRecord, token: soroban_sdk::Address)
    requires
        is_final(t.status),
    ensures
        escrow_share(t, token) == 0,
{
}

/// What a consistent book holds in escrow is never negative.
pub proof fn law_escrow_nonnegative(tasks: Seq<TaskRecord>, token: soroban_sdk::Address)
    requires
        book_wf(tasks),
    ensures
        escrowed(tasks, token) >= 0,
    decreases tasks.len(),
{
    if tasks.len() > 0 {
        let rest = tasks.drop_last();
        assert forall|i: int| 0 <= i < rest.len() implies rest[i].task_id == i + 1 && rest[i].wf() by {
            assert(rest[i] == tasks[i]);
        }
        law_escrow_nonnegative(rest, token);
        assert(tasks[tasks.len() - 1].wf());
    }
}


/// The escrow holds every live bounty: for every token, the net amount that
/// carried-out transfers moved into escrow (locks in, releases and refunds
/// out) is the sum of the bounties of the open, assigned and submitted tasks
/// in that token.
pub proof fn law_escrow_holds_live_bounties(contract: &TaskPayContract, token: soroban_sdk::Address)
    requires
        contract.wf(),
    ensures
        net_locked(contract.transfers(), token) == escrowed(contract@, token),
{
}

/// Each task's bounty was locked exactly once, and leaves escrow at most
/// once: by a release exactly if the task is completed, by a refund exactly
/// if it is cancelled or disputed, and not at all while it is live.
pub proof fn law_bounty_paid_out_at_most_once(contract: &TaskPayContract, task_id: u64)
    requires
        contract.wf(),
        has_task(contract@, task_id),
    ensures
        confirmed(contract.transfers(), task_id, TransferKind::Lock) == 1,
        confirmed(contract.transfers(), task_id, TransferKind::Release)
            + confirmed(contract.transfers(), task_id, TransferKind::Refund) <= 1,
        confirmed(contract.transfers(), task_id, TransferKind::Release) == 1
            <==> task_at(contract@, task_id).status == TaskStatus::Completed,
        confirmed(contract.transfers(), task_id, TransferKind::Refund) == 1
            <==> (task_at(contract@, task_id).status == TaskStatus::Cancelled
                || task_at(contract@, task_id).status == TaskStatus::Disputed),
{
    assert(task_payments_fit(contract@, contract.transfers(), task_id));
}

/// Every transfer that was carried out matches its task: the task's token and
/// bounty; a lock from the manager into escrow, a release from escrow to the
/// task's worker, a refund from escrow to the manager.
pub proof fn law_transfers_match_their_tasks(contract: &TaskPayContract, k: int)
    requires
        contract.wf(),
        0 <= k < contract.transfers().len(),
        contract.transfers()[k].carried_out,
    ensures
        entry_fits(contract@, contract.escrow_address(), contract.transfers()[k]),
{
}

/// Accepting is decided by the ledger sequence the host reports: past the
/// task's deadline the open task is refused with `DeadlinePassed` and the book
/// stays as it was; up to the deadline the task becomes assigned to the
/// worker, with its terms kept and every other task untouched.
pub proof fn law_accept_decided_by_reported_sequence(
    before: TaskPayContract,
    after: TaskPayContract,
    task_id: u64,
    worker: soroban_sdk::Address,
    result: Result<(), TaskError>,
)
    requires
        before.wf(),
        after.ledger_readings().len() == before.ledger_readings().len() + 1,
        book_follows(before@, after@, task_id, result,
            accepted(task_at(before@, task_id), worker, after.ledger_readings().last())),
    ensures
        !has_task(before@, task_id) ==> result == Err::<(), TaskError>(TaskError::TaskNotFound) && after@ == before@,
        has_task(before@, task_id) && task_at(before@, task_id).status != TaskStatus::Open
            ==> result == Err::<(), TaskError>(TaskError::TaskNotOpen) && after@ == before@,
        has_task(before@, task_id) && task_at(before@, task_id).status == TaskStatus::Open
            && after.ledger_readings().last() > task_at(before@, task_id).deadline_ledger
            ==> result == Err::<(), TaskError>(TaskError::DeadlinePassed) && after@ == before@,
        has_task(before@, task_id) && task_at(before@, task_id).status == TaskStatus::Open
            && after.ledger_readings().last() <= task_at(before@, task_id).deadline_ledger ==> {
                &&& result == Ok::<(), TaskError>(())
                &&& after@.len() == before@.len()
                &&& task_at(after@, task_id).status == TaskStatus::Assigned
                &&& task_at(after@, task_id).worker == Some(worker)
                &&& same_terms(task_at(before@, task_id), task_at(after@, task_id))
                &&& forall|id: u64| has_task(before@, id) && id != task_id ==> #[trigger] task_at(after@, id)
                    == task_at(before@, id)
            },
{
}

/// A created task reads back with exactly the arguments it was created
/// with: its id, manager, token, bounty, description and deadline, open,
/// with no worker and no completion hash yet.
pub proof fn law_created_task_keeps_its_arguments(
    before: Seq<TaskRecord>,
    after: Seq<TaskRecord>,
    id: u64,
    manager: soroban_sdk::Address,
    usdc_token: soroban_sdk::Address,
    bounty: i128,
    description: soroban_sdk::String,
    deadline_ledger: u32,
)
    requires
        book_wf(before),
        id == before.len() + 1,
        after == before.push(new_task(id, manager, usdc_token, bounty, description, deadline_ledger)),
    ensures
        has_task(after, id),
        task_at(after, id).task_id == id,
        task_at(after, id).manager == manager,
        task_at(after, id).usdc_token == usdc_token,
        task_at(after, id).bounty == bounty,
        task_at(after, id).description == description,
        task_at(after, id).deadline_ledger == deadline_ledger,
        task_at(after, id).status == TaskStatus::Open,
        task_at(after, id).worker is None,
        task_at(after, id).completion_hash is None,
{
}

/// The facts every payout law states: a successful payout adds exactly one
/// carried-out transfer of the task's whole bounty, in the task's token, from
/// the escrow to `to`; a refused one leaves the book as it was and no
/// carried-out transfer behind.
pub open spec fn pays_exactly(
    before: TaskPayContract,
    after: TaskPayContract,
    task_id: u64,
    result: Result<(), TaskError>,
    to: soroban_sdk::Address,
    target: TaskStatus,
) -> bool {
    let t = task_at(before@, task_id);
    let paid = after.transfers().last();
    &&& result is Ok ==> {
        &&& after.transfers().len() == before.transfers().len() + 1
        &&& after.transfers().drop_last() == before.transfers()
        &&& paid.carried_out
        &&& paid.task_id == task_id
        &&& paid.amount == t.bounty
        &&& paid.token == t.usdc_token
        &&& paid.from == before.escrow_address()
        &&& paid.to == to
        &&& task_at(after@, task_id).status == target
        &&& same_terms(t, task_at(after@, task_id))
    }
    &&& result is Err ==> {
        &&& after@ == before@
        &&& after.transfers() == before.transfers() || (
            after.transfers().len() == before.transfers().len() + 1
            && after.transfers().drop_last() == before.transfers()
            && !paid.carried_out)
    }
}

/// Approving a task pays its worker the whole bounty, in its token, out of
/// the escrow, and completes it; a refused approval pays nothing.
pub proof fn law_approve_pays_the_worker_the_bounty(
    before: TaskPayContract,
    after: TaskPayContract,
    task_id: u64,
    result: Result<(), TaskError>,
)
    requires
        before.wf(),
        after.escrow_address() == before.escrow_address(),
        book_paid_out(before@, after@, task_id, result,
            release_check(task_at(before@, task_id)), TaskStatus::Completed,
            before.transfers(), after.transfers(), TransferKind::Release,
            before.escrow_address(), task_at(before@, task_id).worker->0),
    ensures
        pays_exactly(before, after, task_id, result, task_at(before@, task_id).worker->0, TaskStatus::Completed),
        result is Ok ==> task_at(before@, task_id).worker == Some(after.transfers().last().to),
{
    lemma_payout_facts(before, after, task_id, result, release_check(task_at(before@, task_id)),
        TaskStatus::Completed, TransferKind::Release, task_at(before@, task_id).worker->0);
}

/// Rejecting a submission refunds the manager the whole bounty, in its
/// token, out of the escrow, and disputes the task; a refused rejection pays
/// nothing.
pub proof fn law_reject_refunds_the_manager_the_bounty(
    before: TaskPayContract,
    after: TaskPayContract,
    task_id: u64,
    result: Result<(), TaskError>,
)
    requires
        before.wf(),
        after.escrow_address() == before.escrow_address(),
        book_paid_out(before@, after@, task_id, result,
            claw_back_check(task_at(before@, task_id)), TaskStatus::Disputed,
            before.transfers(), after.transfers(), TransferKind::Refund,
            before.escrow_address(), task_at(before@, task_id).manager),
    ensures
        pays_exactly(before, after, task_id, result, task_at(before@, task_id).manager, TaskStatus::Disputed),
{
    lemma_payout_facts(before, after, task_id, result, claw_back_check(task_at(before@, task_id)),
        TaskStatus::Disputed, TransferKind::Refund, task_at(before@, task_id).manager);
}

/// Cancelling an open task refunds the manager the whole bounty, in its
/// token, out of the escrow, and cancels the task; a refused cancellation
/// pays nothing.
pub proof fn law_cancel_refunds_the_manager_the_bounty(
    before: TaskPayContract,
    after: TaskPayContract,
    task_id: u64,
    result: Result<(), TaskError>,
)
    requires
        before.wf(),
        after.escrow_address() == before.escrow_address(),
        book_paid_out(before@, after@, task_id, result,
            cancel_check(task_at(before@, task_id)), TaskStatus::Cancelled,
            before.transfers(), after.transfers(), TransferKind::Refund,
            before.escrow_address(), task_at(before@, task_id).manager),
    ensures
        pays_exactly(before, after, task_id, result, task_at(before@, task_id).manager, TaskStatus::Cancelled),
{
    lemma_payout_facts(before, after, task_id, result, cancel_check(task_at(before@, task_id)),
        TaskStatus::Cancelled, TransferKind::Refund, task_at(before@, task_id).manager);
}

proof fn lemma_payout_facts(
    before: TaskPayContract,
    after: TaskPayContract,
    task_id: u64,
    result: Result<(), TaskError>,
    check: Result<(), TaskError>,
    target: TaskStatus,
    kind: TransferKind,
    to: soroban_sdk::Address,
)
    requires
        before.wf(),
        book_paid_out(before@, after@, task_id, result, check, target,
            before.transfers(), after.transfers(), kind, before.escrow_address(), to),
    ensures
        pays_exactly(before, after, task_id, result, to, target),
{
    if has_task(before@, task_id) && check is Ok {
        let t = task_at(before@, task_id);
        assert(before@[task_id - 1] == t);
        assert(after.transfers().drop_last() =~= before.transfers());
        if result is Ok {
            assert(task_at(after@, task_id) == with_status(t, target));
        }
    }
}

} // verus!

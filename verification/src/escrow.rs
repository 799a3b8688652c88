//! Escrow accounting: what the book's tasks hold in escrow, the token
//! transfers the contract asked for, and how the two agree.

use vstd::prelude::*;
use crate::contract::{book_wf, has_task, task_at};
use crate::task::{
    holds_bounty, lock_record, payout_record, with_status, TaskRecord, TaskStatus, TransferKind,
    TransferRecord,
};

verus! {

/// The part of a task's bounty held in escrow in the token `token`.
pub open spec fn escrow_share(t: TaskRecord, token: soroban_sdk::Address) -> int {
    if holds_bounty(t.status) && t.usdc_token == token {
        t.bounty as int
    } else {
        0
    }
}

/// The total a book's tasks hold in escrow in the token `token`.
pub open spec fn escrowed(tasks: Seq<TaskRecord>, token: soroban_sdk::Address) -> int
    decreases tasks.len(),
{
    if tasks.len() == 0 {
        0
    } else {
        escrowed(tasks.drop_last(), token) + escrow_share(tasks.last(), token)
    }
}

/// What a carried-out transfer moved into escrow in the token `token`: a lock
/// adds its amount, a release or refund takes its amount out.
pub open spec fn transfer_flow(e: TransferRecord, token: soroban_sdk::Address) -> int {
    if e.carried_out && e.token == token {
        if e.kind == TransferKind::Lock {
            e.amount as int
        } else {
            -(e.amount as int)
        }
    } else {
        0
    }
}

/// The net amount of the token `token` that carried-out transfers moved into
/// escrow.
pub open spec fn net_locked(log: Seq<TransferRecord>, token: soroban_sdk::Address) -> int
    decreases log.len(),
{
    if log.len() == 0 {
        0
    } else {
        net_locked(log.drop_last(), token) + transfer_flow(log.last(), token)
    }
}

/// Whether a transfer is a carried-out one of kind `kind` for task `task_id`.
pub open spec fn counts_for(e: TransferRecord, task_id: u64, kind: TransferKind) -> bool {
    e.carried_out && e.task_id == task_id && e.kind == kind
}

/// How many carried-out transfers of kind `kind` were made for task `task_id`.
pub open spec fn confirmed(log: Seq<TransferRecord>, task_id: u64, kind: TransferKind) -> nat
    decreases log.len(),
{
    if log.len() == 0 {
        0
    } else {
        confirmed(log.drop_last(), task_id, kind) + if counts_for(log.last(), task_id, kind) {
            1nat
        } else {
            0nat
        }
    }
}

/// How many releases a task in status `s` has had: one once completed.
pub open spec fn releases_due(s: TaskStatus) -> nat {
    if s == TaskStatus::Completed {
        1
    } else {
        0
    }
}

/// How many refunds a task in status `s` has had: one once cancelled or
/// disputed.
pub open spec fn refunds_due(s: TaskStatus) -> nat {
    if s == TaskStatus::Cancelled || s == TaskStatus::Disputed {
        1
    } else {
        0
    }
}

/// A transfer that matches its task: the task's token and bounty; a lock from
/// the manager into escrow, a release from escrow to the worker, a refund
/// from escrow to the manager.
pub open spec fn entry_fits(tasks: Seq<TaskRecord>, escrow: soroban_sdk::Address, e: TransferRecord) -> bool {
    has_task(tasks, e.task_id) && {
        let t = task_at(tasks, e.task_id);
        &&& e.token == t.usdc_token
        &&& e.amount == t.bounty
        &&& match e.kind {
            TransferKind::Lock => e.from == t.manager && e.to == escrow,
            TransferKind::Release => e.from == escrow && t.worker == Some(e.to),
            TransferKind::Refund => e.from == escrow && e.to == t.manager,
        }
    }
}

/// Task `task_id` had exactly one lock carried out, a release exactly if it
/// is completed, and a refund exactly if it is cancelled or disputed.
pub open spec fn task_payments_fit(tasks: Seq<TaskRecord>, log: Seq<TransferRecord>, task_id: u64) -> bool {
    let s = task_at(tasks, task_id).status;
    &&& confirmed(log, task_id, TransferKind::Lock) == 1
    &&& confirmed(log, task_id, TransferKind::Release) == releases_due(s)
    &&& confirmed(log, task_id, TransferKind::Refund) == refunds_due(s)
}

/// The transfers agree with the book: every carried-out transfer matches its
/// task, each task's transfers match its status, and for every token the net
/// amount moved into escrow is what the live tasks hold.
pub open spec fn log_fits(tasks: Seq<TaskRecord>, escrow: soroban_sdk::Address, log: Seq<TransferRecord>) -> bool {
    &&& forall|k: int| #![trigger log[k]] 0 <= k < log.len() && log[k].carried_out ==> entry_fits(tasks, escrow, log[k])
    &&& forall|id: u64| has_task(tasks, id) ==> #[trigger] task_payments_fit(tasks, log, id)
    &&& forall|token: soroban_sdk::Address| #[trigger] net_locked(log, token) == escrowed(tasks, token)
}

/// Escrow totals after replacing one record: its old share leaves, its new
/// share enters.
pub proof fn lemma_escrowed_update(tasks: Seq<TaskRecord>, i: int, t: TaskRecord, token: soroban_sdk::Address)
    requires
        0 <= i < tasks.len(),
    ensures
        escrowed(tasks.update(i, t), token) == escrowed(tasks, token) - escrow_share(tasks[i], token)
            + escrow_share(t, token),
    decreases tasks.len(),
{
    let u = tasks.update(i, t);
    if i == tasks.len() - 1 {
        assert(u.drop_last() =~= tasks.drop_last());
    } else {
        lemma_escrowed_update(tasks.drop_last(), i, t, token);
        assert(u.drop_last() =~= tasks.drop_last().update(i, t));
    }
}

/// Escrow totals after appending a record: its share enters.
pub proof fn lemma_escrowed_push(tasks: Seq<TaskRecord>, t: TaskRecord, token: soroban_sdk::Address)
    ensures
        escrowed(tasks.push(t), token) == escrowed(tasks, token) + escrow_share(t, token),
{
    assert(tasks.push(t).drop_last() =~= tasks);
}

/// Counting after one more transfer.
pub proof fn lemma_confirmed_push(log: Seq<TransferRecord>, e: TransferRecord, task_id: u64, kind: TransferKind)
    ensures
        confirmed(log.push(e), task_id, kind) == confirmed(log, task_id, kind)
            + if counts_for(e, task_id, kind) { 1nat } else { 0nat },
{
    assert(log.push(e).drop_last() =~= log);
}

/// The net flow into escrow after one more transfer.
pub proof fn lemma_net_locked_push(log: Seq<TransferRecord>, e: TransferRecord, token: soroban_sdk::Address)
    ensures
        net_locked(log.push(e), token) == net_locked(log, token) + transfer_flow(e, token),
{
    assert(log.push(e).drop_last() =~= log);
}

/// No carried-out transfer is counted for an id that no task has.
pub proof fn lemma_confirmed_absent(
    tasks: Seq<TaskRecord>,
    escrow: soroban_sdk::Address,
    log: Seq<TransferRecord>,
    task_id: u64,
    kind: TransferKind,
)
    requires
        forall|k: int| #![trigger log[k]] 0 <= k < log.len() && log[k].carried_out ==> entry_fits(tasks, escrow, log[k]),
        !has_task(tasks, task_id),
    ensures
        confirmed(log, task_id, kind) == 0,
    decreases log.len(),
{
    if log.len() > 0 {
        let rest = log.drop_last();
        assert forall|k: int| #![trigger rest[k]] 0 <= k < rest.len() && rest[k].carried_out implies entry_fits(tasks, escrow, rest[k]) by {
            assert(rest[k] == log[k]);
        }
        lemma_confirmed_absent(tasks, escrow, rest, task_id, kind);
        assert(log[log.len() - 1] == log.last());
    }
}

/// A failed transfer changes no count, no flow, and fits any book.
pub proof fn lemma_fits_failed_transfer(
    tasks: Seq<TaskRecord>,
    escrow: soroban_sdk::Address,
    log: Seq<TransferRecord>,
    e: TransferRecord,
)
    requires
        log_fits(tasks, escrow, log),
        !e.carried_out,
    ensures
        log_fits(tasks, escrow, log.push(e)),
{
    let l2 = log.push(e);
    assert forall|k: int| #![trigger l2[k]] 0 <= k < l2.len() && l2[k].carried_out implies entry_fits(tasks, escrow, l2[k]) by {
        assert(k < log.len());
        assert(l2[k] == log[k]);
    }
    assert forall|id: u64| has_task(tasks, id) implies #[trigger] task_payments_fit(tasks, l2, id) by {
        lemma_confirmed_push(log, e, id, TransferKind::Lock);
        lemma_confirmed_push(log, e, id, TransferKind::Release);
        lemma_confirmed_push(log, e, id, TransferKind::Refund);
        assert(task_payments_fit(tasks, log, id));
    }
    assert forall|token: soroban_sdk::Address| #[trigger] net_locked(l2, token) == escrowed(tasks, token) by {
        lemma_net_locked_push(log, e, token);
    }
}

/// A step of one record that keeps whether it holds its bounty and what it
/// was paid keeps the transfers fitting.
pub proof fn lemma_fits_quiet_step(
    tasks: Seq<TaskRecord>,
    escrow: soroban_sdk::Address,
    log: Seq<TransferRecord>,
    i: int,
    t: TaskRecord,
)
    requires
        log_fits(tasks, escrow, log),
        0 <= i < tasks.len(),
        crate::task::same_terms(tasks[i], t),
        tasks[i].worker is Some ==> t.worker == tasks[i].worker,
        tasks[i].worker is None ==> forall|k: int| #![trigger log[k]] 0 <= k < log.len() && log[k].carried_out
            && log[k].task_id == tasks[i].task_id ==> log[k].kind != TransferKind::Release,
        holds_bounty(t.status) == holds_bounty(tasks[i].status),
        releases_due(t.status) == releases_due(tasks[i].status),
        refunds_due(t.status) == refunds_due(tasks[i].status),
        tasks[i].task_id == i + 1,
    ensures
        log_fits(tasks.update(i, t), escrow, log),
{
    let u = tasks.update(i, t);
    assert forall|k: int| #![trigger log[k]] 0 <= k < log.len() && log[k].carried_out implies entry_fits(u, escrow, log[k]) by {
        assert(entry_fits(tasks, escrow, log[k]));
        if log[k].task_id == i + 1 {
            assert(task_at(u, log[k].task_id) == t);
        } else {
            assert(task_at(u, log[k].task_id) == task_at(tasks, log[k].task_id));
        }
    }
    assert forall|id: u64| has_task(u, id) implies #[trigger] task_payments_fit(u, log, id) by {
        assert(task_payments_fit(tasks, log, id));
    }
    assert forall|token: soroban_sdk::Address| #[trigger] net_locked(log, token) == escrowed(u, token) by {
        lemma_escrowed_update(tasks, i, t, token);
    }
}

/// A carried-out payout of task `i`'s bounty that moves it to its final
/// status keeps the transfers fitting.
pub proof fn lemma_fits_payout(
    tasks: Seq<TaskRecord>,
    escrow: soroban_sdk::Address,
    log: Seq<TransferRecord>,
    i: int,
    kind: TransferKind,
    to: soroban_sdk::Address,
    target: TaskStatus,
)
    requires
        book_wf(tasks),
        log_fits(tasks, escrow, log),
        0 <= i < tasks.len(),
        holds_bounty(tasks[i].status),
        kind != TransferKind::Lock,
        kind == TransferKind::Release ==> tasks[i].worker == Some(to) && target == TaskStatus::Completed
            && tasks[i].status != TaskStatus::Completed,
        kind == TransferKind::Refund ==> to == tasks[i].manager
            && (target == TaskStatus::Cancelled || target == TaskStatus::Disputed),
    ensures
        log_fits(
            tasks.update(i, with_status(tasks[i], target)),
            escrow,
            log.push(payout_record(tasks[i], kind, escrow, to, true)),
        ),
{
    let t = tasks[i];
    let t2 = with_status(t, target);
    let u = tasks.update(i, t2);
    let e = payout_record(t, kind, escrow, to, true);
    let l2 = log.push(e);
    assert(t.task_id == i + 1);
    assert forall|k: int| #![trigger l2[k]] 0 <= k < l2.len() && l2[k].carried_out implies entry_fits(u, escrow, l2[k]) by {
        if k < log.len() {
            assert(l2[k] == log[k]);
            assert(entry_fits(tasks, escrow, log[k]));
            if log[k].task_id == i + 1 {
                assert(task_at(u, log[k].task_id) == t2);
            } else {
                assert(task_at(u, log[k].task_id) == task_at(tasks, log[k].task_id));
            }
        } else {
            assert(l2[k] == e);
            assert(task_at(u, e.task_id) == t2);
        }
    }
    assert forall|id: u64| has_task(u, id) implies #[trigger] task_payments_fit(u, l2, id) by {
        lemma_confirmed_push(log, e, id, TransferKind::Lock);
        lemma_confirmed_push(log, e, id, TransferKind::Release);
        lemma_confirmed_push(log, e, id, TransferKind::Refund);
        assert(task_payments_fit(tasks, log, id));
        if id == i + 1 {
            assert(task_at(u, id) == t2);
        } else {
            assert(task_at(u, id) == task_at(tasks, id));
        }
    }
    assert forall|token: soroban_sdk::Address| #[trigger] net_locked(l2, token) == escrowed(u, token) by {
        lemma_net_locked_push(log, e, token);
        lemma_escrowed_update(tasks, i, t2, token);
    }
}

/// Appending a task whose lock was carried out keeps the transfers fitting.
pub proof fn lemma_fits_create(
    tasks: Seq<TaskRecord>,
    escrow: soroban_sdk::Address,
    log: Seq<TransferRecord>,
    t: TaskRecord,
)
    requires
        book_wf(tasks),
        log_fits(tasks, escrow, log),
        tasks.len() < u64::MAX,
        t.task_id == tasks.len() + 1,
        t.status == TaskStatus::Open,
    ensures
        log_fits(
            tasks.push(t),
            escrow,
            log.push(lock_record(t.task_id, t.manager, t.usdc_token, t.bounty, escrow, true)),
        ),
{
    let u = tasks.push(t);
    let e = lock_record(t.task_id, t.manager, t.usdc_token, t.bounty, escrow, true);
    let l2 = log.push(e);
    assert forall|k: int| #![trigger l2[k]] 0 <= k < l2.len() && l2[k].carried_out implies entry_fits(u, escrow, l2[k]) by {
        if k < log.len() {
            assert(l2[k] == log[k]);
            assert(entry_fits(tasks, escrow, log[k]));
            assert(task_at(u, log[k].task_id) == task_at(tasks, log[k].task_id));
        } else {
            assert(l2[k] == e);
            assert(task_at(u, e.task_id) == t);
        }
    }
    assert forall|id: u64| has_task(u, id) implies #[trigger] task_payments_fit(u, l2, id) by {
        lemma_confirmed_push(log, e, id, TransferKind::Lock);
        lemma_confirmed_push(log, e, id, TransferKind::Release);
        lemma_confirmed_push(log, e, id, TransferKind::Refund);
        if id == t.task_id {
            assert(task_at(u, id) == t);
            lemma_confirmed_absent(tasks, escrow, log, id, TransferKind::Lock);
            lemma_confirmed_absent(tasks, escrow, log, id, TransferKind::Release);
            lemma_confirmed_absent(tasks, escrow, log, id, TransferKind::Refund);
        } else {
            assert(task_at(u, id) == task_at(tasks, id));
            assert(task_payments_fit(tasks, log, id));
        }
    }
    assert forall|token: soroban_sdk::Address| #[trigger] net_locked(l2, token) == escrowed(u, token) by {
        lemma_net_locked_push(log, e, token);
        lemma_escrowed_push(tasks, t, token);
    }
}

} // verus!

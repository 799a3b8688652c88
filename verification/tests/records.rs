use soroban_sdk::{testutils::{Address as _, EnvTestConfig}, Address, Env, String};
use task_pay::contract::next_task_id;
use task_pay::{TaskError, TaskRecord, TaskStatus, TransferLog};

// An environment that keeps its end-of-test ledger snapshot in memory.
fn quiet_env() -> Env {
    Env::new_with_config(EnvTestConfig { capture_snapshot_at_drop: false })
}

fn open_record(env: &Env, bounty: i128) -> TaskRecord {
    TaskRecord {
        task_id: 4,
        manager: Address::generate(env),
        worker: None,
        usdc_token: Address::generate(env),
        bounty,
        description: String::from_str(env, "x"),
        completion_hash: None,
        status: TaskStatus::Open,
        deadline_ledger: 50,
    }
}

#[test]
fn next_id_is_one_past_the_stored_count() {
    assert_eq!(next_task_id(None), Ok(1));
    assert_eq!(next_task_id(Some(0)), Ok(1));
    assert_eq!(next_task_id(Some(41)), Ok(42));
    assert_eq!(next_task_id(Some(u64::MAX)), Err(TaskError::TaskCountOverflow));
}

#[test]
fn record_accept_and_submit_move_one_step_each() {
    let env = quiet_env();
    let mut t = open_record(&env, 8);
    let worker = Address::generate(&env);
    assert_eq!(t.accept(worker.clone(), 51), Err(TaskError::DeadlinePassed));
    assert_eq!(t.status, TaskStatus::Open);
    assert_eq!(t.accept(worker.clone(), 50), Ok(()));
    assert_eq!(t.status, TaskStatus::Assigned);
    assert_eq!(t.worker, Some(worker.clone()));
    let h = String::from_str(&env, "proof");
    assert_eq!(t.submit(h.clone()), Ok(()));
    assert_eq!(t.status, TaskStatus::Submitted);
    assert_eq!(t.completion_hash, Some(h));
    assert_eq!(t.task_id, 4);
    assert_eq!(t.bounty, 8);
}

#[test]
fn record_without_worker_is_not_paid_out() {
    let env = quiet_env();
    let mut t = open_record(&env, 8);
    t.status = TaskStatus::Submitted;
    let escrow = Address::generate(&env);
    assert_eq!(t.release(&env, &escrow, &mut TransferLog::new()), Err(TaskError::NoWorkerOnTask));
    assert_eq!(t.status, TaskStatus::Submitted);
}

#[test]
fn record_payout_without_funds_fails_and_keeps_the_record() {
    let env = quiet_env();
    env.mock_all_auths();
    let admin = Address::generate(&env);
    let token = env.register_stellar_asset_contract_v2(admin).address();
    let mut t = open_record(&env, 8);
    t.usdc_token = token;
    let escrow = Address::generate(&env);
    assert_eq!(t.cancel(&env, &escrow, &mut TransferLog::new()), Err(TaskError::TransferFailed));
    assert_eq!(t.status, TaskStatus::Open);
}

#[test]
fn payouts_name_the_right_parties_and_amount() {
    let env = quiet_env();
    let mut t = open_record(&env, 12);
    let escrow = Address::generate(&env);
    assert!(matches!(t.release_payout(&escrow), Err(TaskError::TaskNotSubmitted)));

    let refund = t.refund_payout(&escrow);
    assert_eq!(*refund.token, t.usdc_token);
    assert_eq!(*refund.from, escrow);
    assert_eq!(*refund.to, t.manager);
    assert_eq!(refund.amount, 12);

    let worker = Address::generate(&env);
    t.worker = Some(worker.clone());
    t.status = TaskStatus::Submitted;
    let payout = t.release_payout(&escrow).ok().unwrap();
    assert_eq!(*payout.token, t.usdc_token);
    assert_eq!(*payout.from, escrow);
    assert_eq!(*payout.to, worker);
    assert_eq!(payout.amount, 12);
}

#[test]
fn transfer_in_a_token_that_is_not_a_contract_fails_softly() {
    let env = quiet_env();
    env.mock_all_auths();
    let mut t = open_record(&env, 8);
    t.worker = Some(Address::generate(&env));
    t.status = TaskStatus::Submitted;
    let escrow = Address::generate(&env);
    let mut log = TransferLog::new();
    assert_eq!(t.release(&env, &escrow, &mut log), Err(TaskError::TransferFailed));
    assert_eq!(t.status, TaskStatus::Submitted);
    let manager = t.manager.clone();
    let token = t.usdc_token.clone();
    let opened = TaskRecord::open(&env, &escrow, 1, manager, token, 5, String::from_str(&env, "x"), 9, &mut log);
    assert!(matches!(opened, Err(TaskError::TransferFailed)));
}

#[test]
fn submitter_is_the_assigned_worker() {
    let env = quiet_env();
    let mut t = open_record(&env, 8);
    assert!(matches!(t.submitter(), Err(TaskError::NoWorkerAssigned)));
    let worker = Address::generate(&env);
    t.accept(worker.clone(), 0).unwrap();
    assert_eq!(*t.submitter().ok().unwrap(), worker);
}

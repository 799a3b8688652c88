use soroban_sdk::{
    testutils::{Address as _, EnvTestConfig, Ledger},
    token::{StellarAssetClient, TokenClient},
    Address, Env, String,
};
use task_pay::{TaskError, TaskPayContract, TaskRecord, TaskStatus};

// An environment that keeps its end-of-test ledger snapshot in memory.
fn quiet_env() -> Env {
    Env::new_with_config(EnvTestConfig { capture_snapshot_at_drop: false })
}

// A stand-in for the deployed contract's client: it drives the library's
// contract state, and aborts
// with the contract's message where the contract aborts.
struct Client {
    env: Env,
    book: TaskPayContract,
}

impl Client {
    fn create_task(
        &mut self,
        manager: &Address,
        usdc_token: &Address,
        bounty: &i128,
        description: &String,
        deadline_ledger: &u32,
    ) -> u64 {
        self.try_create_task(manager, usdc_token, bounty, description, deadline_ledger)
            .unwrap_or_else(|e| panic!("{}", e.message()))
    }

    fn try_create_task(
        &mut self,
        manager: &Address,
        usdc_token: &Address,
        bounty: &i128,
        description: &String,
        deadline_ledger: &u32,
    ) -> Result<u64, TaskError> {
        self.book.create_task(
            &self.env,
            manager.clone(),
            usdc_token.clone(),
            *bounty,
            description.clone(),
            *deadline_ledger,
        )
    }

    fn accept_task(&mut self, task_id: &u64, worker: &Address) {
        self.try_accept_task(task_id, worker).unwrap_or_else(|e| panic!("{}", e.message()))
    }

    fn try_accept_task(&mut self, task_id: &u64, worker: &Address) -> Result<(), TaskError> {
        self.book.accept_task(&self.env, *task_id, worker.clone())
    }

    fn submit_completion(&mut self, task_id: &u64, completion_hash: &String) {
        self.try_submit_completion(task_id, completion_hash)
            .unwrap_or_else(|e| panic!("{}", e.message()))
    }

    fn try_submit_completion(&mut self, task_id: &u64, completion_hash: &String) -> Result<(), TaskError> {
        self.book.submit_completion(*task_id, completion_hash.clone())
    }

    fn approve_and_release(&mut self, task_id: &u64) {
        self.try_approve_and_release(task_id).unwrap_or_else(|e| panic!("{}", e.message()))
    }

    fn try_approve_and_release(&mut self, task_id: &u64) -> Result<(), TaskError> {
        self.book.approve_and_release(&self.env, *task_id)
    }

    fn reject_submission(&mut self, task_id: &u64) {
        self.try_reject_submission(task_id).unwrap_or_else(|e| panic!("{}", e.message()))
    }

    fn try_reject_submission(&mut self, task_id: &u64) -> Result<(), TaskError> {
        self.book.reject_submission(&self.env, *task_id)
    }

    fn cancel_task(&mut self, task_id: &u64) {
        self.try_cancel_task(task_id).unwrap_or_else(|e| panic!("{}", e.message()))
    }

    fn try_cancel_task(&mut self, task_id: &u64) -> Result<(), TaskError> {
        self.book.cancel_task(&self.env, *task_id)
    }

    fn get_task(&self, task_id: &u64) -> &TaskRecord {
        self.book.get_task(*task_id).unwrap_or_else(|e| panic!("{}", e.message()))
    }

    fn get_task_count(&self) -> u64 {
        self.book.get_task_count()
    }
}

// A fresh environment with a mock USDC token and a funded manager.
fn setup() -> (Env, Address, Address, Address, Client) {
    let env = quiet_env();
    env.mock_all_auths();

    let escrow = Address::generate(&env);
    let client = Client { env: env.clone(), book: TaskPayContract::new(escrow) };

    let usdc_admin = Address::generate(&env);
    let usdc_token = env.register_stellar_asset_contract_v2(usdc_admin.clone()).address();
    let usdc_admin_client = StellarAssetClient::new(&env, &usdc_token);

    let manager = Address::generate(&env);
    let worker = Address::generate(&env);

    // 1000 USDC (1 USDC = 10_000_000 stroops)
    usdc_admin_client.mint(&manager, &1_000_000_0000i128);

    (env, usdc_token, manager, worker, client)
}

fn balance(env: &Env, token: &Address, who: &Address) -> i128 {
    TokenClient::new(env, token).balance(who)
}

#[test]
fn test_happy_path_full_lifecycle() {
    let (env, usdc_token, manager, worker, mut client) = setup();

    let bounty: i128 = 50_000_000_0;
    let deadline = env.ledger().sequence() + 1000;

    let task_id = client.create_task(
        &manager,
        &usdc_token,
        &bounty,
        &String::from_str(&env, "Build login screen component"),
        &deadline,
    );
    assert_eq!(task_id, 1);

    client.accept_task(&task_id, &worker);
    let task = client.get_task(&task_id);
    assert_eq!(task.status, TaskStatus::Assigned);
    assert_eq!(task.worker, Some(worker.clone()));

    let proof = String::from_str(&env, "abc123def456");
    client.submit_completion(&task_id, &proof);
    let task = client.get_task(&task_id);
    assert_eq!(task.status, TaskStatus::Submitted);

    let worker_balance_before = TokenClient::new(&env, &usdc_token).balance(&worker);
    client.approve_and_release(&task_id);

    let worker_balance_after = TokenClient::new(&env, &usdc_token).balance(&worker);
    assert_eq!(worker_balance_after - worker_balance_before, bounty);

    let task = client.get_task(&task_id);
    assert_eq!(task.status, TaskStatus::Completed);
}

#[test]
#[should_panic(expected = "task has not been submitted for review")]
fn test_cannot_approve_before_submission() {
    let (env, usdc_token, manager, worker, mut client) = setup();

    let bounty: i128 = 50_000_000_0;
    let deadline = env.ledger().sequence() + 1000;

    let task_id = client.create_task(
        &manager,
        &usdc_token,
        &bounty,
        &String::from_str(&env, "Design dashboard wireframe"),
        &deadline,
    );

    client.accept_task(&task_id, &worker);

    client.approve_and_release(&task_id);
}

#[test]
fn test_state_reflects_correctly_after_completion() {
    let (env, usdc_token, manager, worker, mut client) = setup();

    let bounty: i128 = 100_000_000_0i128;
    let deadline = env.ledger().sequence() + 500;

    let task_id = client.create_task(
        &manager,
        &usdc_token,
        &bounty,
        &String::from_str(&env, "Implement payment API integration"),
        &deadline,
    );

    client.accept_task(&task_id, &worker);
    client.submit_completion(&task_id, &String::from_str(&env, "deadbeef1234"));
    client.approve_and_release(&task_id);

    let task = client.get_task(&task_id);
    assert_eq!(task.task_id, 1);
    assert_eq!(task.status, TaskStatus::Completed);
    assert_eq!(task.bounty, bounty);
    assert_eq!(task.manager, manager);
    assert_eq!(task.worker, Some(worker));
    assert!(task.completion_hash.is_some());

    let count = client.get_task_count();
    assert_eq!(count, 1);
}

#[test]
fn test_reject_claws_back_usdc_to_manager() {
    let (env, usdc_token, manager, worker, mut client) = setup();

    let bounty: i128 = 75_000_000_0i128;
    let deadline = env.ledger().sequence() + 1000;

    let manager_balance_before = TokenClient::new(&env, &usdc_token).balance(&manager);

    let task_id = client.create_task(
        &manager,
        &usdc_token,
        &bounty,
        &String::from_str(&env, "Write unit test suite"),
        &deadline,
    );

    let manager_balance_after_lock = TokenClient::new(&env, &usdc_token).balance(&manager);
    assert_eq!(manager_balance_before - manager_balance_after_lock, bounty);

    client.accept_task(&task_id, &worker);
    client.submit_completion(&task_id, &String::from_str(&env, "badhash999"));

    client.reject_submission(&task_id);

    let task = client.get_task(&task_id);
    assert_eq!(task.status, TaskStatus::Disputed);

    let manager_balance_final = TokenClient::new(&env, &usdc_token).balance(&manager);
    assert_eq!(manager_balance_final, manager_balance_before);
}

#[test]
fn test_cancel_open_task_refunds_manager() {
    let (env, usdc_token, manager, _worker, mut client) = setup();

    let bounty: i128 = 25_000_000_0i128;
    let deadline = env.ledger().sequence() + 1000;

    let manager_balance_before = TokenClient::new(&env, &usdc_token).balance(&manager);

    let task_id = client.create_task(
        &manager,
        &usdc_token,
        &bounty,
        &String::from_str(&env, "Research competitor analysis"),
        &deadline,
    );

    client.cancel_task(&task_id);

    let task = client.get_task(&task_id);
    assert_eq!(task.status, TaskStatus::Cancelled);

    let manager_balance_final = TokenClient::new(&env, &usdc_token).balance(&manager);
    assert_eq!(manager_balance_final, manager_balance_before);
}

// ── Further cases ───────────────────────────────────────────────────────────

#[test]
fn ids_count_up_from_one_and_records_read_back() {
    let (env, usdc_token, manager, _worker, mut client) = setup();
    assert_eq!(client.get_task_count(), 0);
    let deadline = 77u32;
    for expected in 1..=3u64 {
        let bounty = 10_000_000i128 * expected as i128;
        let id = client.create_task(&manager, &usdc_token, &bounty, &String::from_str(&env, "t"), &deadline);
        assert_eq!(id, expected);
        assert_eq!(client.get_task_count(), expected);
        let task = client.get_task(&id);
        assert_eq!(task.task_id, expected);
        assert_eq!(task.status, TaskStatus::Open);
        assert_eq!(task.bounty, bounty);
        assert_eq!(task.manager, manager);
        assert_eq!(task.usdc_token, usdc_token);
        assert_eq!(task.description, String::from_str(&env, "t"));
        assert_eq!(task.deadline_ledger, 77);
        assert_eq!(task.worker, None);
        assert_eq!(task.completion_hash, None);
    }
}

#[test]
fn escrow_holds_exactly_the_live_bounties() {
    let (env, usdc_token, manager, worker, mut client) = setup();
    let escrow = client.book.escrow().clone();
    let d = String::from_str(&env, "d");
    let a = client.create_task(&manager, &usdc_token, &30i128, &d, &100);
    let b = client.create_task(&manager, &usdc_token, &50i128, &d, &100);
    let c = client.create_task(&manager, &usdc_token, &70i128, &d, &100);
    assert_eq!(balance(&env, &usdc_token, &escrow), 150);

    client.accept_task(&a, &worker);
    client.submit_completion(&a, &String::from_str(&env, "h"));
    assert_eq!(balance(&env, &usdc_token, &escrow), 150);
    client.approve_and_release(&a);
    assert_eq!(balance(&env, &usdc_token, &escrow), 120);
    assert_eq!(balance(&env, &usdc_token, &worker), 30);

    client.cancel_task(&b);
    assert_eq!(balance(&env, &usdc_token, &escrow), 70);

    client.accept_task(&c, &worker);
    client.submit_completion(&c, &String::from_str(&env, "h"));
    client.reject_submission(&c);
    assert_eq!(balance(&env, &usdc_token, &escrow), 0);
    assert_eq!(balance(&env, &usdc_token, &manager), 1_000_000_0000i128 - 30);
}

#[test]
fn non_positive_bounty_is_refused_without_transfer() {
    let (env, usdc_token, manager, _worker, mut client) = setup();
    let before = balance(&env, &usdc_token, &manager);
    let d = String::from_str(&env, "d");
    assert_eq!(client.try_create_task(&manager, &usdc_token, &0, &d, &10), Err(TaskError::BountyNotPositive));
    assert_eq!(client.try_create_task(&manager, &usdc_token, &-5, &d, &10), Err(TaskError::BountyNotPositive));
    assert_eq!(client.get_task_count(), 0);
    assert_eq!(balance(&env, &usdc_token, &manager), before);
}

#[test]
fn unfunded_manager_cannot_create() {
    let (env, usdc_token, _manager, worker, mut client) = setup();
    let d = String::from_str(&env, "d");
    assert_eq!(client.try_create_task(&worker, &usdc_token, &1, &d, &10), Err(TaskError::TransferFailed));
    assert_eq!(client.get_task_count(), 0);
    assert_eq!(balance(&env, &usdc_token, &worker), 0);
}

#[test]
fn accept_respects_the_deadline() {
    let (env, usdc_token, manager, worker, mut client) = setup();
    let d = String::from_str(&env, "d");
    let t1 = client.create_task(&manager, &usdc_token, &5, &d, &20);
    let t2 = client.create_task(&manager, &usdc_token, &5, &d, &19);
    env.ledger().set_sequence_number(20);
    assert_eq!(client.try_accept_task(&t2, &worker), Err(TaskError::DeadlinePassed));
    assert_eq!(client.get_task(&t2).status, TaskStatus::Open);
    assert_eq!(client.get_task(&t2).worker, None);
    assert_eq!(client.try_accept_task(&t1, &worker), Ok(()));
    assert_eq!(client.get_task(&t1).status, TaskStatus::Assigned);
}

#[test]
fn out_of_order_operations_are_refused() {
    let (env, usdc_token, manager, worker, mut client) = setup();
    let d = String::from_str(&env, "d");
    let h = String::from_str(&env, "h");
    let id = client.create_task(&manager, &usdc_token, &5, &d, &100);

    assert_eq!(client.try_submit_completion(&id, &h), Err(TaskError::NoWorkerAssigned));
    assert_eq!(client.try_approve_and_release(&id), Err(TaskError::TaskNotSubmitted));
    assert_eq!(client.try_reject_submission(&id), Err(TaskError::TaskNotSubmitted));

    client.accept_task(&id, &worker);
    assert_eq!(client.try_accept_task(&id, &worker), Err(TaskError::TaskNotOpen));
    assert_eq!(client.try_cancel_task(&id), Err(TaskError::OnlyOpenCancellable));

    client.submit_completion(&id, &h);
    assert_eq!(client.try_submit_completion(&id, &h), Err(TaskError::TaskNotAssigned));
    assert_eq!(client.get_task(&id).status, TaskStatus::Submitted);
}

#[test]
fn final_tasks_never_change() {
    let (env, usdc_token, manager, worker, mut client) = setup();
    let d = String::from_str(&env, "d");
    let h = String::from_str(&env, "h");
    let id = client.create_task(&manager, &usdc_token, &9, &d, &100);
    client.accept_task(&id, &worker);
    client.submit_completion(&id, &h);
    client.approve_and_release(&id);
    let escrow = client.book.escrow().clone();

    assert_eq!(client.try_approve_and_release(&id), Err(TaskError::TaskNotSubmitted));
    assert_eq!(client.try_reject_submission(&id), Err(TaskError::TaskNotSubmitted));
    assert_eq!(client.try_cancel_task(&id), Err(TaskError::OnlyOpenCancellable));
    assert_eq!(client.try_accept_task(&id, &manager), Err(TaskError::TaskNotOpen));
    assert_eq!(client.try_submit_completion(&id, &d), Err(TaskError::TaskNotAssigned));
    let task = client.get_task(&id);
    assert_eq!(task.status, TaskStatus::Completed);
    assert_eq!(task.worker, Some(worker.clone()));
    assert_eq!(task.completion_hash, Some(h));
    assert_eq!(balance(&env, &usdc_token, &worker), 9);
    assert_eq!(balance(&env, &usdc_token, &escrow), 0);
}

#[test]
fn unknown_ids_are_not_found() {
    let (env, usdc_token, manager, worker, mut client) = setup();
    let d = String::from_str(&env, "d");
    client.create_task(&manager, &usdc_token, &5, &d, &100);
    for id in [0u64, 2, u64::MAX] {
        assert_eq!(client.try_accept_task(&id, &worker), Err(TaskError::TaskNotFound));
        assert_eq!(client.try_submit_completion(&id, &d), Err(TaskError::TaskNotFound));
        assert_eq!(client.try_approve_and_release(&id), Err(TaskError::TaskNotFound));
        assert_eq!(client.try_reject_submission(&id), Err(TaskError::TaskNotFound));
        assert_eq!(client.try_cancel_task(&id), Err(TaskError::TaskNotFound));
        assert!(client.book.get_task(id).is_err());
    }
}

#[test]
fn error_messages_match_the_contract() {
    assert_eq!(TaskError::TaskNotFound.message(), "task not found");
    assert_eq!(TaskError::BountyNotPositive.message(), "bounty must be greater than zero");
    assert_eq!(TaskError::TaskNotOpen.message(), "task is not open");
    assert_eq!(TaskError::DeadlinePassed.message(), "task deadline has passed");
    assert_eq!(TaskError::NoWorkerAssigned.message(), "no worker assigned");
    assert_eq!(TaskError::TaskNotAssigned.message(), "task is not in assigned state");
    assert_eq!(TaskError::TaskNotSubmitted.message(), "task has not been submitted for review");
    assert_eq!(TaskError::NoWorkerOnTask.message(), "no worker on task");
    assert_eq!(TaskError::OnlyOpenCancellable.message(), "can only cancel open tasks");
    assert_eq!(TaskError::TransferFailed.message(), "token transfer failed");
    assert_eq!(TaskError::TaskCountOverflow.message(), "attempt to add with overflow");
}

# task_pay

On-chain task management with per-task token escrow on Stellar (Soroban).
A manager creates a task and locks its bounty in the contract; a worker
accepts it and submits a proof of completion; the manager approves (the
bounty goes to the worker), rejects (the bounty is clawed back, the task is
disputed), or, while the task is still open, cancels it (the bounty is
refunded).

Layout:

- `src/` — the verified library (Verus).
  - `task.rs`: the task record, its statuses and refusals, and the
    transitions of a single record, with the payouts they hand to the token
    contract.
  - `contract.rs`: the contract state as a book of records with its entry
    points (`create_task`, `accept_task`, `submit_completion`,
    `approve_and_release`, `reject_submission`, `cancel_task`, `get_task`,
    `get_task_count`); every token transfer they ask for is recorded in a
    proof-only log.
  - `escrow.rs`: the escrow accounting, and how the book and the recorded
    transfers agree (each bounty locked once, paid out at most once, and the
    net flow into escrow equal to the live bounties).
  - `laws.rs`: properties that hold across operations.
  - `host.rs`: the Soroban types the library carries and the two host calls
    it makes (a token transfer and the ledger sequence).
- `app/` — the Soroban contract itself: authorization, ledger storage and
  events around the library's transitions.
- `tests/` — the lifecycle scenarios, run against a Stellar Asset Contract in
  the Soroban test environment.

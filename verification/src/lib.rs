//! Escrowed task payments: the decision core of a Soroban contract in which a
//! manager locks a token bounty per task, a worker accepts and submits proof of
//! completion, and the manager releases the bounty, claws it back, or cancels.

pub mod host;
pub mod task;
pub mod contract;
pub mod escrow;
pub mod laws;

pub use contract::{DataKey, TaskPayContract};
pub use task::{TaskError, TaskRecord, TaskStatus, TransferLog};

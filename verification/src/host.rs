//! The Soroban host types that the library carries, and the host calls it makes.

use vstd::prelude::*;
use crate::task::{Payout, TransferRecord};

verus! {

/// The Soroban environment handle; opaque to the proofs.
#[verifier::external_type_specification]
#[verifier::external_body]
pub struct ExEnv(soroban_sdk::Env);

/// A Soroban account or contract address; opaque to the proofs.
#[verifier::external_type_specification]
#[verifier::external_body]
pub struct ExAddress(soroban_sdk::Address);

/// A host-managed Soroban string; opaque to the proofs.
#[verifier::external_type_specification]
#[verifier::external_body]
pub struct ExText(soroban_sdk::String);

/// The token transfers asked of the host so far, in order, each with whether
/// it was carried out; kept for the proofs only, it takes no space at run
/// time. Only `transfer_tokens` adds to it.
pub struct TransferLog {
    entries: Ghost<Seq<TransferRecord>>,
}

impl View for TransferLog {
    type V = Seq<TransferRecord>;

    closed spec fn view(&self) -> Seq<TransferRecord> {
        self.entries@
    }
}

impl TransferLog {
    /// A log with no transfers yet.
    pub fn new() -> (log: Self)
        ensures
            log@ == Seq::<TransferRecord>::empty(),
    {
        TransferLog { entries: Ghost(Seq::empty()) }
    }
}

/// The ledger sequence numbers the host reported so far, in order; kept for
/// the proofs only. Only `read_ledger_sequence` adds to it.
pub struct LedgerReadings {
    sequences: Ghost<Seq<u32>>,
}

impl View for LedgerReadings {
    type V = Seq<u32>;

    closed spec fn view(&self) -> Seq<u32> {
        self.sequences@
    }
}

impl LedgerReadings {
    /// No readings yet.
    pub fn new() -> (readings: Self)
        ensures
            readings@ == Seq::<u32>::empty(),
    {
        LedgerReadings { sequences: Ghost(Seq::empty()) }
    }
}

/// Asks the token contract at `payout.token` to move `payout.amount` from
/// `payout.from` to `payout.to`, through `TokenClient::try_transfer`, and
/// reports whether it did.
///
/// The contract claims only that the transfer handed to the host is the one
/// appended to `log`, with the reported outcome. Whether the transfer happens
/// depends on the ledger (balances, the authorizations of the invocation), so
/// nothing is promised of the result. A transfer the token contract refuses is
/// rolled back by the host and comes back as `false`. When the token is not a
/// deployed contract (an account address, or an address with nothing behind
/// it), `try_transfer` would trap in the host instead of failing softly, so no
/// call is made and the result is `false`.
/// Not covered: a host trap that `try_transfer` does not turn into a value
/// (running out of the invocation's budget), which aborts the invocation.
#[verifier::external_body]
pub(crate) fn transfer_tokens(env: &soroban_sdk::Env, payout: &Payout, log: &mut TransferLog) -> (transferred: bool)
    ensures
        final(log)@ == old(log)@.push(payout.record(transferred)),
{
    match payout.token.executable() {
        Some(soroban_sdk::Executable::Wasm(_)) | Some(soroban_sdk::Executable::StellarAsset) => matches!(
            soroban_sdk::token::TokenClient::new(env, payout.token).try_transfer(payout.from, payout.to, &payout.amount),
            Ok(Ok(()))
        ),
        Some(soroban_sdk::Executable::Account) | None => false,
    }
}

/// The sequence number of the ledger the invocation runs in, through
/// `Ledger::sequence`, appended to `readings`. The number depends on the
/// environment, so nothing is promised of it beyond being what was recorded.
#[verifier::external_body]
pub(crate) fn read_ledger_sequence(env: &soroban_sdk::Env, readings: &mut LedgerReadings) -> (sequence: u32)
    ensures
        final(readings)@ == old(readings)@.push(sequence),
{
    env.ledger().sequence()
}

/// The sequence number of the ledger the invocation runs in.
pub fn ledger_sequence(env: &soroban_sdk::Env) -> (sequence: u32) {
    let mut readings = LedgerReadings::new();
    read_ledger_sequence(env, &mut readings)
}

} // verus!

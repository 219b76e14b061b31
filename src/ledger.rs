use vstd::prelude::*;
use crate::error::VaultError;
use crate::store::{
    checked_in, credited, deposit_owed, expiry_owed, finish_state, released, reserved, settled,
    store_wf, transfer_matches, withdraw_owed, PendingTransfer,
};
use crate::vault::{due, is_idle, vault_wf, TransferState, Vault};

verus! {

/// One change to a single vault's balance or transfer state, as the store's
/// operations make it.
pub enum LedgerStep {
    /// `deposit_ckbtc` of `amount` at `now`.
    Deposit { amount: u64, now: u64 },
    /// A withdrawal reserving `amount` at `now`.
    Withdraw { amount: u64, now: u64 },
    /// `begin_expiry_transfer` at `now`.
    Expire { now: u64 },
    /// The pending transfer of `amount` went through.
    Settle { amount: u64 },
    /// The pending transfer of `amount` failed.
    Release { amount: u64 },
    /// `check_in` at `now`.
    CheckIn { now: u64 },
}

/// The vault after one step, or `None` where the store refuses the step.
pub open spec fn apply_step(v: Vault, s: LedgerStep) -> Option<Vault> {
    match s {
        LedgerStep::Deposit { amount, now } => if is_idle(v) && amount > 0 && v.balance_satoshi
            + amount <= u64::MAX {
            Some(credited(v, amount, now))
        } else {
            None
        },
        LedgerStep::Withdraw { amount, now } => if is_idle(v) && 0 < amount <= v.balance_satoshi {
            Some(reserved(checked_in(v, now), amount))
        } else {
            None
        },
        LedgerStep::Expire { now } => if due(v, now) {
            Some(reserved(v, v.balance_satoshi))
        } else {
            None
        },
        LedgerStep::Settle { amount } => if v.transfer_state == (TransferState::TransferPending {
            amount,
        }) && amount <= v.balance_satoshi {
            Some(settled(v))
        } else {
            None
        },
        LedgerStep::Release { amount } => if v.transfer_state == (TransferState::TransferPending {
            amount,
        }) {
            Some(released(v))
        } else {
            None
        },
        LedgerStep::CheckIn { now } => Some(checked_in(v, now)),
    }
}

/// The vault after a run of steps, or `None` if one of them is refused.
pub open spec fn replay(v: Vault, steps: Seq<LedgerStep>) -> Option<Vault>
    decreases steps.len(),
{
    if steps.len() == 0 {
        Some(v)
    } else {
        match replay(v, steps.drop_last()) {
            Some(w) => apply_step(w, steps.last()),
            None => None,
        }
    }
}

/// Sum of the deposits in `steps`.
pub open spec fn credits(steps: Seq<LedgerStep>) -> int
    decreases steps.len(),
{
    if steps.len() == 0 {
        0
    } else {
        credits(steps.drop_last()) + match steps.last() {
            LedgerStep::Deposit { amount, .. } => amount as int,
            _ => 0,
        }
    }
}

/// Sum of the transfers in `steps` that went through.
pub open spec fn debits(steps: Seq<LedgerStep>) -> int
    decreases steps.len(),
{
    if steps.len() == 0 {
        0
    } else {
        debits(steps.drop_last()) + match steps.last() {
            LedgerStep::Settle { amount } => amount as int,
            _ => 0,
        }
    }
}

/// Balance conservation: after any run of deposits, withdrawals, expiry
/// transfers, outcomes and check-ins that the store accepts, the balance is
/// the starting balance plus the deposits minus the transfers that went
/// through. A failed transfer changes nothing.
pub proof fn lemma_balance_conservation(v: Vault, steps: Seq<LedgerStep>)
    requires
        replay(v, steps) is Some,
    ensures
        replay(v, steps)->Some_0.balance_satoshi == v.balance_satoshi + credits(steps) - debits(
            steps,
        ),
    decreases steps.len(),
{
    if steps.len() > 0 {
        let w = replay(v, steps.drop_last());
        assert(w is Some);
        lemma_balance_conservation(v, steps.drop_last());
    }
}

/// The step functions agree with the store's operations on the vault they act on.
pub proof fn lemma_steps_match_operations(
    vs: Seq<Vault>,
    i: int,
    amount: u64,
    now: u64,
    after: Seq<Vault>,
    dr: Result<u64, VaultError>,
    wr: Result<PendingTransfer, VaultError>,
    t: PendingTransfer,
    outcome: Result<(), VaultError>,
)
    requires
        store_wf(vs),
        0 <= i < vs.len(),
        amount > 0,
    ensures
        deposit_owed(vs, i, amount, now, dr, after) && dr is Ok ==> after[i] == apply_step(
            vs[i],
            LedgerStep::Deposit { amount, now },
        )->Some_0,
        withdraw_owed(vs, i, amount, now, wr, after) && wr is Ok ==> after[i] == apply_step(
            vs[i],
            LedgerStep::Withdraw { amount, now },
        )->Some_0,
        expiry_owed(vs, (i + 1) as u64, now, Ok::<PendingTransfer, VaultError>(t), after)
            ==> after[i] == apply_step(vs[i], LedgerStep::Expire { now })->Some_0,
        transfer_matches(vs, t) && t.vault_id == i + 1 && outcome is Ok ==> finish_state(
            vs,
            t,
            outcome,
        )[i] == apply_step(vs[i], LedgerStep::Settle { amount: t.amount })->Some_0,
        transfer_matches(vs, t) && t.vault_id == i + 1 && outcome is Err ==> finish_state(
            vs,
            t,
            outcome,
        )[i] == apply_step(vs[i], LedgerStep::Release { amount: t.amount })->Some_0,
{
    if transfer_matches(vs, t) && t.vault_id == i + 1 {
        assert(vault_wf(vs[i]));
    }
}

/// Reentrancy: while a transfer is pending on a vault, a deposit, a
/// withdrawal and a second expiry transfer on it all fail with
/// `TransferInProgress`; once the outcome of the pending transfer is
/// reported, success or failure, the vault is idle and takes them again.
pub proof fn lemma_pending_blocks_balance_changes(
    vs: Seq<Vault>,
    i: int,
    amount: u64,
    now: u64,
    after: Seq<Vault>,
    dr: Result<u64, VaultError>,
    wr: Result<PendingTransfer, VaultError>,
    er: Result<PendingTransfer, VaultError>,
    t: PendingTransfer,
    outcome: Result<(), VaultError>,
)
    requires
        store_wf(vs),
        0 <= i < vs.len(),
        !is_idle(vs[i]),
    ensures
        deposit_owed(vs, i, amount, now, dr, after) ==> dr == Err::<u64, VaultError>(
            VaultError::TransferInProgress,
        ),
        withdraw_owed(vs, i, amount, now, wr, after) ==> wr == Err::<PendingTransfer, VaultError>(
            VaultError::TransferInProgress,
        ),
        expiry_owed(vs, (i + 1) as u64, now, er, after) ==> er == Err::<
            PendingTransfer,
            VaultError,
        >(VaultError::TransferInProgress),
        transfer_matches(vs, t) && t.vault_id == i + 1 ==> is_idle(
            finish_state(vs, t, outcome)[i],
        ),
{
}

} // verus!

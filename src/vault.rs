use vstd::prelude::*;
use crate::validate::{valid_destination, valid_timeout};

verus! {

/// Nanoseconds in one day.
pub const NANOS_PER_DAY: u64 = 86_400_000_000_000;

/// Whether an outgoing transfer is in flight for a vault.
#[derive(Debug, Clone, Copy, PartialEq, Eq, Structural)]
pub enum TransferState {
    Idle,
    /// A transfer of `amount` was handed out and its outcome is not known yet.
    TransferPending { amount: u64 },
}

/// One owner's vault. The owner is the caller identity's raw bytes; times are
/// nanosecond readings of a monotonic clock.
#[derive(Debug, Clone)]
pub struct Vault {
    pub owner: Vec<u8>,
    pub backup_wallet: String,
    pub last_check_in: u64,
    pub timeout_days: u64,
    pub balance_satoshi: u64,
    pub encrypted_note: Option<String>,
    pub created_at: u64,
    pub transfer_state: TransferState,
}

/// Whole days from `last` to `now`; zero when the clock reads earlier than `last`.
pub open spec fn elapsed_days_spec(last: u64, now: u64) -> int {
    if now >= last {
        (now - last) / (NANOS_PER_DAY as int)
    } else {
        0
    }
}

/// A vault is expired once strictly more whole days than its timeout have
/// passed since the last check-in.
pub open spec fn expired(v: Vault, now: u64) -> bool {
    elapsed_days_spec(v.last_check_in, now) > v.timeout_days
}

/// Whole days left before the vault expires: zero once at or past the boundary.
pub open spec fn days_left(v: Vault, now: u64) -> int {
    if elapsed_days_spec(v.last_check_in, now) >= v.timeout_days {
        0
    } else {
        v.timeout_days - elapsed_days_spec(v.last_check_in, now)
    }
}

pub open spec fn is_idle(v: Vault) -> bool {
    v.transfer_state == TransferState::Idle
}

/// The amount held back by an in-flight transfer, zero when idle.
pub open spec fn pending_amount(v: Vault) -> u64 {
    match v.transfer_state {
        TransferState::Idle => 0,
        TransferState::TransferPending { amount } => amount,
    }
}

/// What holds of every stored vault.
pub open spec fn vault_wf(v: Vault) -> bool {
    &&& v.created_at <= v.last_check_in
    &&& valid_timeout(v.timeout_days)
    &&& valid_destination(v.backup_wallet@)
    &&& match v.transfer_state {
        TransferState::Idle => true,
        TransferState::TransferPending { amount } => 0 < amount <= v.balance_satoshi,
    }
}

/// Due for an expiry transfer: expired, funded and with no transfer in flight.
pub open spec fn due(v: Vault, now: u64) -> bool {
    expired(v, now) && v.balance_satoshi > 0 && is_idle(v)
}

/// Whole days from `last_check_in` to `now`, with saturating subtraction.
pub fn elapsed_days(last_check_in: u64, now: u64) -> (r: u64)
    ensures
        r == elapsed_days_spec(last_check_in, now),
{
    let nanos = now.saturating_sub(last_check_in);
    nanos / NANOS_PER_DAY
}

impl Vault {
    /// Whether the vault has expired at time `now`.
    pub fn is_expired(&self, now: u64) -> (r: bool)
        ensures
            r == expired(*self, now),
    {
        elapsed_days(self.last_check_in, now) > self.timeout_days
    }

    /// Whole days left until the vault expires at time `now`.
    pub fn time_until_expiration(&self, now: u64) -> (r: u64)
        ensures
            r == days_left(*self, now),
    {
        let elapsed = elapsed_days(self.last_check_in, now);
        if elapsed >= self.timeout_days {
            0
        } else {
            self.timeout_days - elapsed
        }
    }

    /// Whether an expiry transfer may start for this vault at time `now`.
    pub fn is_due(&self, now: u64) -> (r: bool)
        ensures
            r == due(*self, now),
    {
        self.is_expired(now) && self.balance_satoshi > 0 && matches!(self.transfer_state, TransferState::Idle)
    }
}

/// At the boundary a vault is still live: with exactly `timeout_days` whole
/// days elapsed it is not expired, and one day more expires it.
pub proof fn lemma_expiry_boundary(v: Vault, now: u64)
    ensures
        elapsed_days_spec(v.last_check_in, now) == v.timeout_days ==> !expired(v, now) && days_left(v, now) == 0,
        elapsed_days_spec(v.last_check_in, now) == v.timeout_days + 1 ==> expired(v, now),
{
}

} // verus!

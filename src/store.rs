use vstd::prelude::*;
use vstd::string::*;
use crate::error::VaultError;
use crate::validate::{
    valid_destination, valid_timeout, validate_bitcoin_address, validate_timeout,
    MAX_TIMEOUT_DAYS, MIN_TIMEOUT_DAYS,
};
use crate::vault::{
    days_left, due, expired, is_idle, pending_amount, vault_wf, TransferState, Vault,
};

verus! {

/// An outgoing transfer handed to the host: move `amount` out of vault
/// `vault_id`. The vault stays pending until the outcome is reported back.
#[derive(Debug, Clone, Copy, PartialEq, Eq, Structural)]
pub struct PendingTransfer {
    pub vault_id: u64,
    pub amount: u64,
}

/// All vaults, in order of creation. The vault with identifier `id` sits at
/// position `id - 1`, so identifiers start at 1 and are never reused. The
/// owner index is the owner field itself: owners are pairwise distinct, so
/// each owner resolves to at most one vault.
pub struct VaultStore {
    vaults: Vec<Vault>,
}

impl View for VaultStore {
    type V = Seq<Vault>;

    closed spec fn view(&self) -> Seq<Vault> {
        self.vaults@
    }
}

/// Position of the vault with identifier `id`.
pub open spec fn slot(id: u64) -> int {
    id - 1
}

pub open spec fn id_exists(vs: Seq<Vault>, id: u64) -> bool {
    1 <= id <= vs.len()
}

/// Vault `i` belongs to the identity `who`.
pub open spec fn owns(vs: Seq<Vault>, i: int, who: Seq<u8>) -> bool {
    0 <= i < vs.len() && vs[i].owner@ == who
}

pub open spec fn has_vault(vs: Seq<Vault>, who: Seq<u8>) -> bool {
    exists|i: int| owns(vs, i, who)
}

pub open spec fn owners_unique(vs: Seq<Vault>) -> bool {
    forall|i: int, j: int|
        0 <= i < vs.len() && 0 <= j < vs.len() && i != j ==> vs[i].owner@ != vs[j].owner@
}

/// The store's invariant: identifiers fit in 64 bits, one vault per owner,
/// and every vault is well formed.
pub open spec fn store_wf(vs: Seq<Vault>) -> bool {
    &&& vs.len() < u64::MAX
    &&& owners_unique(vs)
    &&& forall|i: int| 0 <= i < vs.len() ==> vault_wf(#[trigger] vs[i])
}

/// Liveness refreshed at `now`; a clock reading behind the recorded one changes nothing.
pub open spec fn checked_in(v: Vault, now: u64) -> Vault {
    Vault { last_check_in: if now > v.last_check_in { now } else { v.last_check_in }, ..v }
}

pub open spec fn credited(v: Vault, amount: u64, now: u64) -> Vault {
    Vault { balance_satoshi: (v.balance_satoshi + amount) as u64, ..checked_in(v, now) }
}

/// `amount` held back for an outgoing transfer; the balance is not touched yet.
pub open spec fn reserved(v: Vault, amount: u64) -> Vault {
    Vault { transfer_state: TransferState::TransferPending { amount }, ..v }
}

/// The pending transfer went through: its amount leaves the balance.
pub open spec fn settled(v: Vault) -> Vault {
    Vault {
        balance_satoshi: (v.balance_satoshi - pending_amount(v)) as u64,
        transfer_state: TransferState::Idle,
        ..v
    }
}

/// The pending transfer failed: the reservation is dropped, the balance kept.
pub open spec fn released(v: Vault) -> Vault {
    Vault { transfer_state: TransferState::Idle, ..v }
}

/// The result is an `InvalidInput` error, whatever its text.
pub open spec fn invalid_input<T>(r: Result<T, VaultError>) -> bool {
    r matches Err(VaultError::InvalidInput(_))
}

pub open spec fn bad_destination(backup_wallet: Option<String>) -> bool {
    backup_wallet matches Some(b) && !valid_destination(b@)
}

pub open spec fn bad_timeout(timeout_days: Option<u64>) -> bool {
    timeout_days matches Some(d) && !valid_timeout(d)
}

/// The vault with each given setting applied and the others kept.
pub open spec fn updated(
    v: Vault,
    backup_wallet: Option<String>,
    timeout_days: Option<u64>,
    encrypted_note: Option<String>,
) -> Vault {
    Vault {
        backup_wallet: match backup_wallet {
            Some(b) => b,
            None => v.backup_wallet,
        },
        timeout_days: match timeout_days {
            Some(d) => d,
            None => v.timeout_days,
        },
        encrypted_note: match encrypted_note {
            Some(n) => Some(n),
            None => v.encrypted_note,
        },
        ..v
    }
}

/// The pending transfer of vault `t.vault_id` is the one `t` describes.
pub open spec fn transfer_matches(vs: Seq<Vault>, t: PendingTransfer) -> bool {
    id_exists(vs, t.vault_id) && vs[slot(t.vault_id)].transfer_state
        == (TransferState::TransferPending { amount: t.amount })
}

/// The vaults after the outcome of transfer `t` is reported.
pub open spec fn finish_state(
    vs: Seq<Vault>,
    t: PendingTransfer,
    outcome: Result<(), VaultError>,
) -> Seq<Vault> {
    if !transfer_matches(vs, t) {
        vs
    } else if outcome is Ok {
        vs.update(slot(t.vault_id), settled(vs[slot(t.vault_id)]))
    } else {
        vs.update(slot(t.vault_id), released(vs[slot(t.vault_id)]))
    }
}

/// Replacing one vault by a well-formed one with the same owner keeps the store well formed.
proof fn lemma_update_keeps_wf(vs: Seq<Vault>, i: int, v: Vault)
    requires
        store_wf(vs),
        0 <= i < vs.len(),
        vault_wf(v),
        v.owner@ == vs[i].owner@,
    ensures
        store_wf(vs.update(i, v)),
{
    let ws = vs.update(i, v);
    assert forall|a: int, b: int|
        0 <= a < ws.len() && 0 <= b < ws.len() && a != b implies ws[a].owner@ != ws[b].owner@ by {
        assert(vs[a].owner@ != vs[b].owner@);
    }
    assert forall|a: int| 0 <= a < ws.len() implies vault_wf(#[trigger] ws[a]) by {
        if a != i {
            assert(vault_wf(vs[a]));
        }
    }
}

/// Identifiers of the vaults among the first `n` that are due at `now`, in order.
pub open spec fn due_ids(vs: Seq<Vault>, now: u64, n: int) -> Seq<u64>
    decreases n,
{
    if n <= 0 {
        Seq::empty()
    } else if due(vs[n - 1], now) {
        due_ids(vs, now, n - 1).push(n as u64)
    } else {
        due_ids(vs, now, n - 1)
    }
}

/// What an expiry sweep at `now` takes up: every due vault, by identifier.
pub open spec fn sweep_ids(vs: Seq<Vault>, now: u64) -> Seq<u64> {
    due_ids(vs, now, vs.len() as int)
}

/// Whether the reserve step of a withdrawal of `amount` from vault `v` succeeds.
pub open spec fn can_withdraw(v: Vault, amount: u64) -> bool {
    is_idle(v) && 0 < amount <= v.balance_satoshi
}

/// The result a deposit owes once the caller's vault `i` is resolved.
pub open spec fn deposit_owed(
    vs: Seq<Vault>,
    i: int,
    amount: u64,
    now: u64,
    r: Result<u64, VaultError>,
    after: Seq<Vault>,
) -> bool {
    let v = vs[i];
    &&& !is_idle(v) ==> r == Err::<u64, VaultError>(VaultError::TransferInProgress)
    &&& is_idle(v) && v.balance_satoshi + amount > u64::MAX ==> invalid_input(r)
    &&& is_idle(v) && v.balance_satoshi + amount <= u64::MAX ==> r == Ok::<u64, VaultError>(
        (v.balance_satoshi + amount) as u64,
    ) && after == vs.update(i, credited(v, amount, now))
}

/// The result a withdrawal owes once the caller's vault `i` is resolved.
pub open spec fn withdraw_owed(
    vs: Seq<Vault>,
    i: int,
    amount: u64,
    now: u64,
    r: Result<PendingTransfer, VaultError>,
    after: Seq<Vault>,
) -> bool {
    let v = vs[i];
    &&& !is_idle(v) ==> r == Err::<PendingTransfer, VaultError>(VaultError::TransferInProgress)
    &&& is_idle(v) && v.balance_satoshi < amount ==> r == Err::<PendingTransfer, VaultError>(
        VaultError::InsufficientBalance,
    )
    &&& is_idle(v) && amount <= v.balance_satoshi ==> r == Ok::<PendingTransfer, VaultError>(
        PendingTransfer { vault_id: (i + 1) as u64, amount },
    ) && after == vs.update(i, reserved(checked_in(v, now), amount))
}

/// A vault that an expiry transfer may start on.
pub open spec fn expiry_owed(
    vs: Seq<Vault>,
    vault_id: u64,
    now: u64,
    r: Result<PendingTransfer, VaultError>,
    after: Seq<Vault>,
) -> bool {
    &&& !id_exists(vs, vault_id) ==> r == Err::<PendingTransfer, VaultError>(
        VaultError::VaultNotFound,
    )
    &&& id_exists(vs, vault_id) && !is_idle(vs[slot(vault_id)]) ==> r == Err::<
        PendingTransfer,
        VaultError,
    >(VaultError::TransferInProgress)
    &&& id_exists(vs, vault_id) && is_idle(vs[slot(vault_id)]) && !due(vs[slot(vault_id)], now)
        ==> invalid_input(r)
    &&& id_exists(vs, vault_id) && due(vs[slot(vault_id)], now) ==> r == Ok::<
        PendingTransfer,
        VaultError,
    >(PendingTransfer { vault_id, amount: vs[slot(vault_id)].balance_satoshi }) && after
        == vs.update(slot(vault_id), reserved(vs[slot(vault_id)], vs[slot(vault_id)].balance_satoshi))
    &&& r is Err ==> after == vs
}

/// One vault per owner: in a well-formed store an owner resolves to a single
/// vault, and once `create_vault` has added a vault for an owner, that owner
/// has a vault, so every later `create_vault` for them is refused.
pub proof fn lemma_one_vault_per_owner(vs: Seq<Vault>, after: Seq<Vault>, who: Seq<u8>)
    requires
        store_wf(vs),
        after.len() == vs.len() + 1,
        after.drop_last() == vs,
        after.last().owner@ == who,
    ensures
        forall|i: int, j: int| owns(vs, i, who) && owns(vs, j, who) ==> i == j,
        has_vault(after, who),
{
    assert(owns(after, vs.len() as int, who));
}

/// Operations scoped to the caller touch the caller's vault alone: replacing
/// the vault that `who` owns leaves every vault of another owner as it was.
pub proof fn lemma_caller_scope(vs: Seq<Vault>, i: int, who: Seq<u8>, v: Vault)
    requires
        owns(vs, i, who),
    ensures
        forall|j: int|
            0 <= j < vs.len() && vs[j].owner@ != who ==> #[trigger] vs.update(i, v)[j] == vs[j],
{
}

/// Whether one vault is well formed.
fn vault_ok(v: &Vault) -> (r: bool)
    ensures
        r == vault_wf(*v),
{
    let pending_ok = match v.transfer_state {
        TransferState::Idle => true,
        TransferState::TransferPending { amount } => 0 < amount && amount <= v.balance_satoshi,
    };
    v.created_at <= v.last_check_in && validate_timeout(v.timeout_days).is_ok()
        && validate_bitcoin_address(v.backup_wallet.as_str()) && pending_ok
}

fn same_bytes(a: &Vec<u8>, b: &Vec<u8>) -> (r: bool)
    ensures
        r == (a@ == b@),
{
    if a.len() != b.len() {
        return false;
    }
    let mut i: usize = 0;
    while i < a.len()
        invariant
            a@.len() == b@.len(),
            i <= a@.len(),
            forall|j: int| 0 <= j < i ==> a@[j] == b@[j],
        decreases a@.len() - i,
    {
        if a[i] != b[i] {
            return false;
        }
        i = i + 1;
    }
    assert(a@ =~= b@);
    true
}

fn copy_bytes(a: &Vec<u8>) -> (r: Vec<u8>)
    ensures
        r@ == a@,
{
    let mut r: Vec<u8> = Vec::new();
    let mut i: usize = 0;
    while i < a.len()
        invariant
            i <= a@.len(),
            r@ == a@.subrange(0, i as int),
        decreases a@.len() - i,
    {
        r.push(a[i]);
        i = i + 1;
        assert(r@ =~= a@.subrange(0, i as int));
    }
    assert(a@.subrange(0, a@.len() as int) =~= a@);
    r
}

impl VaultStore {
    pub open spec fn wf(&self) -> bool {
        store_wf(self@)
    }

    /// An empty store.
    pub fn new() -> (r: VaultStore)
        ensures
            r@ == Seq::<Vault>::empty(),
            r.wf(),
    {
        VaultStore { vaults: Vec::new() }
    }

    /// Number of vaults ever created.
    pub fn len(&self) -> (r: usize)
        ensures
            r == self@.len(),
    {
        self.vaults.len()
    }

    /// The identifier the next vault will get: one past every identifier given so far.
    pub fn get_next_vault_id(&self) -> (r: u64)
        requires
            self.wf(),
        ensures
            r == self@.len() + 1,
            forall|id: u64| id_exists(self@, id) ==> id < r,
    {
        self.vaults.len() as u64 + 1
    }

    /// Position of the vault that `who` owns.
    fn find_owner(&self, who: &Vec<u8>) -> (r: Option<usize>)
        ensures
            match r {
                Some(i) => owns(self@, i as int, who@),
                None => !has_vault(self@, who@),
            },
    {
        let mut i: usize = 0;
        while i < self.vaults.len()
            invariant
                i <= self@.len(),
                self@ == self.vaults@,
                forall|j: int| 0 <= j < i ==> !owns(self@, j, who@),
            decreases self@.len() - i,
        {
            if same_bytes(&self.vaults[i].owner, who) {
                return Some(i);
            }
            i = i + 1;
        }
        None
    }

    /// Position of the caller's vault, or `VaultNotFound`.
    fn owned_slot(&self, caller: &Vec<u8>) -> (r: Result<usize, VaultError>)
        ensures
            match r {
                Ok(i) => owns(self@, i as int, caller@),
                Err(e) => e == VaultError::VaultNotFound && !has_vault(self@, caller@),
            },
    {
        match self.find_owner(caller) {
            Some(i) => Ok(i),
            None => Err(VaultError::VaultNotFound),
        }
    }
    /// Opens a vault for `caller`, who must not have one yet. The new vault
    /// starts empty and idle, checked in at `now`.
    pub fn create_vault(
        &mut self,
        caller: &Vec<u8>,
        backup_wallet: String,
        timeout_days: u64,
        encrypted_note: Option<String>,
        now: u64,
    ) -> (r: Result<u64, VaultError>)
        requires
            old(self).wf(),
        ensures
            final(self).wf(),
            r is Err ==> final(self)@ == old(self)@,
            !valid_destination(backup_wallet@) ==> r == Err::<u64, VaultError>(
                VaultError::InvalidDestinationAddress,
            ),
            valid_destination(backup_wallet@) && timeout_days < MIN_TIMEOUT_DAYS ==> r == Err::<
                u64,
                VaultError,
            >(VaultError::TimeoutTooShort),
            valid_destination(backup_wallet@) && timeout_days > MAX_TIMEOUT_DAYS ==> r == Err::<
                u64,
                VaultError,
            >(VaultError::TimeoutTooLong),
            valid_destination(backup_wallet@) && valid_timeout(timeout_days) && has_vault(
                old(self)@,
                caller@,
            ) ==> r == Err::<u64, VaultError>(VaultError::VaultAlreadyExists),
            valid_destination(backup_wallet@) && valid_timeout(timeout_days) && !has_vault(
                old(self)@,
                caller@,
            ) && old(self)@.len() + 2 >= u64::MAX ==> invalid_input(r),
            valid_destination(backup_wallet@) && valid_timeout(timeout_days) && !has_vault(
                old(self)@,
                caller@,
            ) && old(self)@.len() + 2 < u64::MAX ==> {
                &&& r == Ok::<u64, VaultError>((old(self)@.len() + 1) as u64)
                &&& final(self)@.len() == old(self)@.len() + 1
                &&& final(self)@.drop_last() == old(self)@
                &&& final(self)@.last().owner@ == caller@
                &&& final(self)@.last().backup_wallet == backup_wallet
                &&& final(self)@.last().timeout_days == timeout_days
                &&& final(self)@.last().encrypted_note == encrypted_note
                &&& final(self)@.last().last_check_in == now
                &&& final(self)@.last().created_at == now
                &&& final(self)@.last().balance_satoshi == 0
                &&& final(self)@.last().transfer_state == TransferState::Idle
            },
    {
        if !validate_bitcoin_address(backup_wallet.as_str()) {
            return Err(VaultError::InvalidDestinationAddress);
        }
        match validate_timeout(timeout_days) {
            Ok(()) => {},
            Err(e) => {
                return Err(e);
            },
        }
        if self.find_owner(caller).is_some() {
            return Err(VaultError::VaultAlreadyExists);
        }
        if self.vaults.len() as u64 >= u64::MAX - 2 {
            return Err(VaultError::InvalidInput(String::from_str("no vault identifiers left")));
        }
        let vault_id = self.get_next_vault_id();
        let vault = Vault {
            owner: copy_bytes(caller),
            backup_wallet,
            last_check_in: now,
            timeout_days,
            balance_satoshi: 0,
            encrypted_note,
            created_at: now,
            transfer_state: TransferState::Idle,
        };
        let ghost prev = self@;
        self.vaults.push(vault);
        assert(self@.drop_last() =~= prev);
        assert forall|i: int, j: int|
            0 <= i < self@.len() && 0 <= j < self@.len() && i != j implies self@[i].owner@
            != self@[j].owner@ by {
            if i == prev.len() {
                assert(!owns(prev, j, caller@));
            } else if j == prev.len() {
                assert(!owns(prev, i, caller@));
            }
        }
        Ok(vault_id)
    }

    /// The vault with identifier `vault_id`, whoever owns it.
    pub fn get_by_id(&self, vault_id: u64) -> (r: Result<&Vault, VaultError>)
        requires
            self.wf(),
        ensures
            !id_exists(self@, vault_id) ==> r == Err::<&Vault, VaultError>(
                VaultError::VaultNotFound,
            ),
            id_exists(self@, vault_id) ==> r == Ok::<&Vault, VaultError>(&self@[slot(vault_id)]),
    {
        if vault_id == 0 || vault_id > self.vaults.len() as u64 {
            return Err(VaultError::VaultNotFound);
        }
        Ok(&self.vaults[(vault_id - 1) as usize])
    }

    /// The caller's own vault.
    pub fn get_vault(&self, caller: &Vec<u8>) -> (r: Result<&Vault, VaultError>)
        requires
            self.wf(),
        ensures
            !has_vault(self@, caller@) ==> r == Err::<&Vault, VaultError>(
                VaultError::VaultNotFound,
            ),
            forall|i: int| owns(self@, i, caller@) ==> r == Ok::<&Vault, VaultError>(&self@[i]),
    {
        let i = self.owned_slot(caller)?;
        Ok(&self.vaults[i])
    }

    /// The vault with identifier `vault_id`, for its owner only.
    pub fn get_vault_by_id(&self, caller: &Vec<u8>, vault_id: u64) -> (r: Result<
        &Vault,
        VaultError,
    >)
        requires
            self.wf(),
        ensures
            !id_exists(self@, vault_id) ==> r == Err::<&Vault, VaultError>(
                VaultError::VaultNotFound,
            ),
            id_exists(self@, vault_id) && self@[slot(vault_id)].owner@ != caller@ ==> r == Err::<
                &Vault,
                VaultError,
            >(VaultError::Unauthorized),
            id_exists(self@, vault_id) && self@[slot(vault_id)].owner@ == caller@ ==> r == Ok::<
                &Vault,
                VaultError,
            >(&self@[slot(vault_id)]),
    {
        let vault = self.get_by_id(vault_id)?;
        if !same_bytes(&vault.owner, caller) {
            return Err(VaultError::Unauthorized);
        }
        Ok(vault)
    }

    /// Every vault that `caller` owns: at most one.
    pub fn get_my_vaults(&self, caller: &Vec<u8>) -> (r: Vec<&Vault>)
        requires
            self.wf(),
        ensures
            !has_vault(self@, caller@) ==> r@.len() == 0,
            forall|i: int| owns(self@, i, caller@) ==> r@ == seq![&self@[i]],
    {
        let mut r: Vec<&Vault> = Vec::new();
        if let Some(i) = self.find_owner(caller) {
            r.push(&self.vaults[i]);
        }
        r
    }
    /// Refreshes the liveness clock of the caller's vault.
    pub fn check_in(&mut self, caller: &Vec<u8>, now: u64) -> (r: Result<(), VaultError>)
        requires
            old(self).wf(),
        ensures
            final(self).wf(),
            !has_vault(old(self)@, caller@) ==> r == Err::<(), VaultError>(
                VaultError::VaultNotFound,
            ) && final(self)@ == old(self)@,
            forall|i: int|
                owns(old(self)@, i, caller@) ==> r == Ok::<(), VaultError>(()) && final(self)@
                    == old(self)@.update(i, checked_in(old(self)@[i], now)),
    {
        let i = self.owned_slot(caller)?;
        proof {
            lemma_update_keeps_wf(self@, i as int, checked_in(self@[i as int], now));
        }
        if now > self.vaults[i].last_check_in {
            self.vaults[i].last_check_in = now;
        }
        assert(self@ =~= old(self)@.update(i as int, checked_in(old(self)@[i as int], now)));
        Ok(())
    }
    /// Changes the given settings of the caller's vault, all or none: a bad
    /// destination or timeout leaves the vault as it was.
    pub fn update_vault(
        &mut self,
        caller: &Vec<u8>,
        backup_wallet: Option<String>,
        timeout_days: Option<u64>,
        encrypted_note: Option<String>,
    ) -> (r: Result<(), VaultError>)
        requires
            old(self).wf(),
        ensures
            final(self).wf(),
            r is Err ==> final(self)@ == old(self)@,
            !has_vault(old(self)@, caller@) ==> r == Err::<(), VaultError>(
                VaultError::VaultNotFound,
            ),
            has_vault(old(self)@, caller@) && bad_destination(backup_wallet) ==> r == Err::<
                (),
                VaultError,
            >(VaultError::InvalidDestinationAddress),
            has_vault(old(self)@, caller@) && !bad_destination(backup_wallet) && (timeout_days
                matches Some(d) && d < MIN_TIMEOUT_DAYS) ==> r == Err::<(), VaultError>(
                VaultError::TimeoutTooShort,
            ),
            has_vault(old(self)@, caller@) && !bad_destination(backup_wallet) && (timeout_days
                matches Some(d) && d > MAX_TIMEOUT_DAYS) ==> r == Err::<(), VaultError>(
                VaultError::TimeoutTooLong,
            ),
            forall|i: int|
                owns(old(self)@, i, caller@) && !bad_destination(backup_wallet) && !bad_timeout(
                    timeout_days,
                ) ==> r == Ok::<(), VaultError>(()) && final(self)@ == old(self)@.update(
                    i,
                    updated(old(self)@[i], backup_wallet, timeout_days, encrypted_note),
                ),
    {
        let i = self.owned_slot(caller)?;
        if let Some(b) = &backup_wallet {
            if !validate_bitcoin_address(b.as_str()) {
                return Err(VaultError::InvalidDestinationAddress);
            }
        }
        if let Some(d) = timeout_days {
            validate_timeout(d)?;
        }
        proof {
            lemma_update_keeps_wf(
                self@,
                i as int,
                updated(self@[i as int], backup_wallet, timeout_days, encrypted_note),
            );
        }
        if let Some(b) = backup_wallet {
            self.vaults[i].backup_wallet = b;
        }
        if let Some(d) = timeout_days {
            self.vaults[i].timeout_days = d;
        }
        if let Some(n) = encrypted_note {
            self.vaults[i].encrypted_note = Some(n);
        }
        assert(self@ =~= old(self)@.update(
            i as int,
            updated(old(self)@[i as int], backup_wallet, timeout_days, encrypted_note),
        ));
        Ok(())
    }

    /// Stores an opaque note in the caller's vault, replacing any earlier one.
    pub fn store_encrypted_note(&mut self, caller: &Vec<u8>, encrypted_note: String) -> (r: Result<
        (),
        VaultError,
    >)
        requires
            old(self).wf(),
        ensures
            final(self).wf(),
            !has_vault(old(self)@, caller@) ==> r == Err::<(), VaultError>(
                VaultError::VaultNotFound,
            ) && final(self)@ == old(self)@,
            forall|i: int|
                owns(old(self)@, i, caller@) ==> r == Ok::<(), VaultError>(()) && final(self)@
                    == old(self)@.update(
                    i,
                    Vault { encrypted_note: Some(encrypted_note), ..old(self)@[i] },
                ),
    {
        let i = self.owned_slot(caller)?;
        proof {
            lemma_update_keeps_wf(
                self@,
                i as int,
                Vault { encrypted_note: Some(encrypted_note), ..self@[i as int] },
            );
        }
        self.vaults[i].encrypted_note = Some(encrypted_note);
        assert(self@ =~= old(self)@.update(
            i as int,
            Vault { encrypted_note: Some(encrypted_note), ..old(self)@[i as int] },
        ));
        Ok(())
    }

    /// The note stored in the caller's vault, as it was stored.
    pub fn get_encrypted_note(&self, caller: &Vec<u8>) -> (r: Result<&Option<String>, VaultError>)
        requires
            self.wf(),
        ensures
            !has_vault(self@, caller@) ==> r == Err::<&Option<String>, VaultError>(
                VaultError::VaultNotFound,
            ),
            forall|i: int|
                owns(self@, i, caller@) ==> r == Ok::<&Option<String>, VaultError>(
                    &self@[i].encrypted_note,
                ),
    {
        let i = self.owned_slot(caller)?;
        Ok(&self.vaults[i].encrypted_note)
    }

    /// Whether the caller's vault has expired at time `now`.
    pub fn is_vault_expired(&self, caller: &Vec<u8>, now: u64) -> (r: Result<bool, VaultError>)
        requires
            self.wf(),
        ensures
            !has_vault(self@, caller@) ==> r == Err::<bool, VaultError>(VaultError::VaultNotFound),
            forall|i: int|
                owns(self@, i, caller@) ==> r == Ok::<bool, VaultError>(expired(self@[i], now)),
    {
        let i = self.owned_slot(caller)?;
        Ok(self.vaults[i].is_expired(now))
    }

    /// Whole days left before the caller's vault expires, zero once at or past the boundary.
    pub fn get_time_until_expiration(&self, caller: &Vec<u8>, now: u64) -> (r: Result<
        u64,
        VaultError,
    >)
        requires
            self.wf(),
        ensures
            !has_vault(self@, caller@) ==> r == Err::<u64, VaultError>(VaultError::VaultNotFound),
            forall|i: int|
                owns(self@, i, caller@) ==> r == Ok::<u64, VaultError>(
                    days_left(self@[i], now) as u64,
                ),
    {
        let i = self.owned_slot(caller)?;
        Ok(self.vaults[i].time_until_expiration(now))
    }

    /// Credits `amount` to the caller's vault and counts as a check-in.
    /// Returns the new balance.
    pub fn deposit_ckbtc(&mut self, caller: &Vec<u8>, amount: u64, now: u64) -> (r: Result<
        u64,
        VaultError,
    >)
        requires
            old(self).wf(),
        ensures
            final(self).wf(),
            r is Err ==> final(self)@ == old(self)@,
            amount == 0 ==> invalid_input(r),
            amount > 0 && !has_vault(old(self)@, caller@) ==> r == Err::<u64, VaultError>(
                VaultError::VaultNotFound,
            ),
            forall|i: int|
                owns(old(self)@, i, caller@) && amount > 0 ==> deposit_owed(
                    old(self)@,
                    i,
                    amount,
                    now,
                    r,
                    final(self)@,
                ),
    {
        if amount == 0 {
            return Err(VaultError::InvalidInput(String::from_str("amount must be greater than zero")));
        }
        let i = self.owned_slot(caller)?;
        if !matches!(self.vaults[i].transfer_state, TransferState::Idle) {
            return Err(VaultError::TransferInProgress);
        }
        let balance = self.vaults[i].balance_satoshi;
        if balance > u64::MAX - amount {
            return Err(VaultError::InvalidInput(String::from_str("balance would overflow")));
        }
        proof {
            lemma_update_keeps_wf(self@, i as int, credited(self@[i as int], amount, now));
        }
        self.vaults[i].balance_satoshi = balance + amount;
        if now > self.vaults[i].last_check_in {
            self.vaults[i].last_check_in = now;
        }
        assert(self@ =~= old(self)@.update(i as int, credited(old(self)@[i as int], amount, now)));
        Ok(balance + amount)
    }
    /// Reserves `amount` of vault `i` for an outgoing transfer.
    fn reserve(&mut self, i: usize, amount: u64, now: u64) -> (r: Result<PendingTransfer, VaultError>)
        requires
            old(self).wf(),
            i < old(self)@.len(),
            amount > 0,
        ensures
            final(self).wf(),
            r is Err ==> final(self)@ == old(self)@,
            withdraw_owed(old(self)@, i as int, amount, now, r, final(self)@),
    {
        if !matches!(self.vaults[i].transfer_state, TransferState::Idle) {
            return Err(VaultError::TransferInProgress);
        }
        if self.vaults[i].balance_satoshi < amount {
            return Err(VaultError::InsufficientBalance);
        }
        proof {
            lemma_update_keeps_wf(
                self@,
                i as int,
                reserved(checked_in(self@[i as int], now), amount),
            );
        }
        if now > self.vaults[i].last_check_in {
            self.vaults[i].last_check_in = now;
        }
        self.vaults[i].transfer_state = TransferState::TransferPending { amount };
        assert(self@ =~= old(self)@.update(
            i as int,
            reserved(checked_in(old(self)@[i as int], now), amount),
        ));
        Ok(PendingTransfer { vault_id: i as u64 + 1, amount })
    }

    /// Starts a withdrawal of `amount` from the caller's vault to a ledger
    /// account. The amount is reserved, not debited: it leaves the balance
    /// only when the transfer is reported to have gone through.
    pub fn withdraw_ckbtc(&mut self, caller: &Vec<u8>, amount: u64, now: u64) -> (r: Result<
        PendingTransfer,
        VaultError,
    >)
        requires
            old(self).wf(),
        ensures
            final(self).wf(),
            r is Err ==> final(self)@ == old(self)@,
            amount == 0 ==> invalid_input(r),
            amount > 0 && !has_vault(old(self)@, caller@) ==> r == Err::<
                PendingTransfer,
                VaultError,
            >(VaultError::VaultNotFound),
            forall|i: int|
                owns(old(self)@, i, caller@) && amount > 0 ==> withdraw_owed(
                    old(self)@,
                    i,
                    amount,
                    now,
                    r,
                    final(self)@,
                ),
    {
        if amount == 0 {
            return Err(VaultError::InvalidInput(String::from_str("amount must be greater than zero")));
        }
        let i = self.owned_slot(caller)?;
        self.reserve(i, amount, now)
    }

    /// Starts a withdrawal of `amount` from the caller's vault to the address
    /// `destination`, reserved as in `withdraw_ckbtc`.
    pub fn withdraw_to_bitcoin(
        &mut self,
        caller: &Vec<u8>,
        amount: u64,
        destination: &str,
        now: u64,
    ) -> (r: Result<PendingTransfer, VaultError>)
        requires
            old(self).wf(),
        ensures
            final(self).wf(),
            r is Err ==> final(self)@ == old(self)@,
            amount == 0 ==> invalid_input(r),
            amount > 0 && !valid_destination(destination@) ==> r == Err::<
                PendingTransfer,
                VaultError,
            >(VaultError::InvalidDestinationAddress),
            amount > 0 && valid_destination(destination@) && !has_vault(old(self)@, caller@) ==> r
                == Err::<PendingTransfer, VaultError>(VaultError::VaultNotFound),
            forall|i: int|
                owns(old(self)@, i, caller@) && amount > 0 && valid_destination(destination@)
                    ==> withdraw_owed(old(self)@, i, amount, now, r, final(self)@),
    {
        if amount == 0 {
            return Err(VaultError::InvalidInput(String::from_str("amount must be greater than zero")));
        }
        if !validate_bitcoin_address(destination) {
            return Err(VaultError::InvalidDestinationAddress);
        }
        let i = self.owned_slot(caller)?;
        self.reserve(i, amount, now)
    }

    /// Starts the expiry transfer of vault `vault_id`: re-checks on the current
    /// record that it is due at `now`, and reserves its whole balance.
    pub fn begin_expiry_transfer(&mut self, vault_id: u64, now: u64) -> (r: Result<
        PendingTransfer,
        VaultError,
    >)
        requires
            old(self).wf(),
        ensures
            final(self).wf(),
            expiry_owed(old(self)@, vault_id, now, r, final(self)@),
    {
        if vault_id == 0 || vault_id > self.vaults.len() as u64 {
            return Err(VaultError::VaultNotFound);
        }
        let i = (vault_id - 1) as usize;
        if !matches!(self.vaults[i].transfer_state, TransferState::Idle) {
            return Err(VaultError::TransferInProgress);
        }
        if !self.vaults[i].is_due(now) {
            return Err(VaultError::InvalidInput(String::from_str("vault is not due for transfer")));
        }
        let amount = self.vaults[i].balance_satoshi;
        proof {
            lemma_update_keeps_wf(self@, i as int, reserved(self@[i as int], amount));
        }
        self.vaults[i].transfer_state = TransferState::TransferPending { amount };
        assert(self@ =~= old(self)@.update(i as int, reserved(old(self)@[i as int], amount)));
        Ok(PendingTransfer { vault_id, amount })
    }

    /// Takes the outcome of transfer `t` from the host. On success the amount
    /// leaves the balance (a deposit made meanwhile is kept); on failure the
    /// reservation is dropped and the balance kept, and the failure is returned.
    /// Either way the vault is idle again. A transfer that does not match the
    /// vault's pending one changes nothing.
    pub fn finish_transfer(&mut self, t: PendingTransfer, outcome: Result<(), VaultError>) -> (r:
        Result<(), VaultError>)
        requires
            old(self).wf(),
        ensures
            final(self).wf(),
            final(self)@ == finish_state(old(self)@, t, outcome),
            !id_exists(old(self)@, t.vault_id) ==> r == Err::<(), VaultError>(
                VaultError::VaultNotFound,
            ),
            id_exists(old(self)@, t.vault_id) && !transfer_matches(old(self)@, t) ==> invalid_input(
                r,
            ),
            transfer_matches(old(self)@, t) ==> r == outcome,
    {
        if t.vault_id == 0 || t.vault_id > self.vaults.len() as u64 {
            return Err(VaultError::VaultNotFound);
        }
        let i = (t.vault_id - 1) as usize;
        let matching = match self.vaults[i].transfer_state {
            TransferState::TransferPending { amount } => amount == t.amount,
            TransferState::Idle => false,
        };
        if !matching {
            return Err(VaultError::InvalidInput(String::from_str("no such pending transfer")));
        }
        if outcome.is_ok() {
            proof {
                lemma_update_keeps_wf(self@, i as int, settled(self@[i as int]));
            }
            self.vaults[i].balance_satoshi = self.vaults[i].balance_satoshi - t.amount;
            self.vaults[i].transfer_state = TransferState::Idle;
            assert(self@ =~= old(self)@.update(i as int, settled(old(self)@[i as int])));
        } else {
            proof {
                lemma_update_keeps_wf(self@, i as int, released(self@[i as int]));
            }
            self.vaults[i].transfer_state = TransferState::Idle;
            assert(self@ =~= old(self)@.update(i as int, released(old(self)@[i as int])));
        }
        outcome
    }

    /// Identifiers of every vault due for an expiry transfer at `now`, in order.
    pub fn expired_vault_ids(&self, now: u64) -> (r: Vec<u64>)
        requires
            self.wf(),
        ensures
            r@ == sweep_ids(self@, now),
    {
        let mut r: Vec<u64> = Vec::new();
        let mut i: usize = 0;
        while i < self.vaults.len()
            invariant
                i <= self@.len(),
                self@ == self.vaults@,
                self@.len() < u64::MAX,
                r@ == due_ids(self@, now, i as int),
            decreases self@.len() - i,
        {
            if self.vaults[i].is_due(now) {
                r.push(i as u64 + 1);
            }
            i = i + 1;
        }
        r
    }
    /// The vaults in identifier order.
    pub fn vaults(&self) -> (r: &Vec<Vault>)
        ensures
            r@ == self@,
    {
        &self.vaults
    }

    /// Rebuilds a store from vaults listed in identifier order, as `vaults`
    /// gave them out. A list that breaks the store's invariant (two vaults of
    /// one owner, a bad timeout or destination, a reservation above the
    /// balance) is refused.
    pub fn from_vaults(vaults: Vec<Vault>) -> (r: Result<VaultStore, VaultError>)
        ensures
            store_wf(vaults@) ==> (r matches Ok(s) && s@ == vaults@),
            !store_wf(vaults@) ==> invalid_input(r),
            r matches Ok(s) ==> s.wf(),
    {
        if vaults.len() as u64 >= u64::MAX {
            return Err(VaultError::InvalidInput(String::from_str("too many vaults")));
        }
        let mut i: usize = 0;
        while i < vaults.len()
            invariant
                i <= vaults@.len(),
                vaults@.len() < u64::MAX,
                forall|k: int| 0 <= k < i ==> vault_wf(#[trigger] vaults@[k]),
                forall|a: int, b: int|
                    0 <= a < i && 0 <= b < i && a != b ==> vaults@[a].owner@ != vaults@[b].owner@,
            decreases vaults@.len() - i,
        {
            if !vault_ok(&vaults[i]) {
                return Err(VaultError::InvalidInput(String::from_str("malformed vault")));
            }
            let mut j: usize = 0;
            while j < i
                invariant
                    j <= i < vaults@.len(),
                    forall|b: int| 0 <= b < j ==> vaults@[i as int].owner@ != vaults@[b].owner@,
                decreases i - j,
            {
                if same_bytes(&vaults[i].owner, &vaults[j].owner) {
                    return Err(VaultError::InvalidInput(String::from_str("owner with two vaults")));
                }
                j = j + 1;
            }
            i = i + 1;
        }
        Ok(VaultStore { vaults })
    }
}

} // verus!

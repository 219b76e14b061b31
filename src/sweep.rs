use vstd::prelude::*;
use crate::error::VaultError;
use crate::store::{
    due_ids, expiry_owed, finish_state, id_exists, slot, store_wf, sweep_ids, transfer_matches,
    PendingTransfer, VaultStore,
};
use crate::vault::{due, Vault};

verus! {

/// One run of the expiry sweep. It takes a snapshot of the vaults due at its
/// start time and works through them one at a time: `next_transfer`
/// re-checks the next one on the current records and reserves its balance,
/// the host performs the transfer, and `complete` reports the outcome. Vaults
/// that fall due during the run wait for the next sweep.
pub struct Sweep {
    now: u64,
    queue: Vec<u64>,
    next: usize,
    drained: Vec<u64>,
}

impl Sweep {
    /// The time at which the sweep judges expiry.
    pub closed spec fn at(&self) -> u64 {
        self.now
    }

    /// The snapshot of vault identifiers taken at the start.
    pub closed spec fn queue(&self) -> Seq<u64> {
        self.queue@
    }

    /// How many identifiers of the snapshot have been taken up.
    pub closed spec fn position(&self) -> int {
        self.next as int
    }

    /// Identifiers of the vaults drained so far, in order.
    pub closed spec fn drained_ids(&self) -> Seq<u64> {
        self.drained@
    }

    pub open spec fn inv(&self) -> bool {
        0 <= self.position() <= self.queue().len()
    }

    /// Starts a sweep at time `now`.
    pub fn start(store: &VaultStore, now: u64) -> (r: Sweep)
        requires
            store.wf(),
        ensures
            r.inv(),
            r.at() == now,
            r.queue() == sweep_ids(store@, now),
            r.position() == 0,
            r.drained_ids() == Seq::<u64>::empty(),
    {
        Sweep { now, queue: store.expired_vault_ids(now), next: 0, drained: Vec::new() }
    }

    /// Reserves the next vault of the snapshot that is still due, and returns
    /// the transfer to perform; `None` once the snapshot is used up. Vaults
    /// that are no longer due (checked in, emptied, or already pending) are
    /// skipped and left as they are.
    pub fn next_transfer(&mut self, store: &mut VaultStore) -> (r: Option<PendingTransfer>)
        requires
            old(self).inv(),
            old(store).wf(),
        ensures
            final(store).wf(),
            final(self).inv(),
            final(self).at() == old(self).at(),
            final(self).queue() == old(self).queue(),
            final(self).drained_ids() == old(self).drained_ids(),
            old(self).position() <= final(self).position(),
            forall|k: int|
                old(self).position() <= k < final(self).position() - (if r is Some {
                    1int
                } else {
                    0int
                }) ==> !(id_exists(old(store)@, old(self).queue()[k]) && due(
                    old(store)@[slot(old(self).queue()[k])],
                    old(self).at(),
                )),
            r is None ==> final(self).position() == old(self).queue().len() && final(store)@ == old(
                store,
            )@,
            r matches Some(t) ==> {
                &&& final(self).position() >= 1
                &&& t.vault_id == old(self).queue()[final(self).position() - 1]
                &&& expiry_owed(
                    old(store)@,
                    t.vault_id,
                    old(self).at(),
                    Ok::<PendingTransfer, VaultError>(t),
                    final(store)@,
                )
            },
    {
        let ghost start = self.next as int;
        while self.next < self.queue.len()
            invariant
                start <= self.next <= self.queue@.len(),
                self.now == old(self).now,
                self.queue@ == old(self).queue@,
                self.drained@ == old(self).drained@,
                start == old(self).next,
                store@ == old(store)@,
                store.wf(),
                forall|k: int|
                    start <= k < self.next ==> !(id_exists(old(store)@, self.queue@[k]) && due(
                        old(store)@[slot(self.queue@[k])],
                        self.now,
                    )),
            decreases self.queue@.len() - self.next,
        {
            let id = self.queue[self.next];
            self.next = self.next + 1;
            match store.begin_expiry_transfer(id, self.now) {
                Ok(t) => {
                    return Some(t);
                },
                Err(_) => {},
            }
        }
        None
    }

    /// Reports the outcome of transfer `t` to the store, as
    /// `VaultStore::finish_transfer` does, and records the vault as drained
    /// when the transfer went through.
    pub fn complete(
        &mut self,
        store: &mut VaultStore,
        t: PendingTransfer,
        outcome: Result<(), VaultError>,
    ) -> (r: Result<(), VaultError>)
        requires
            old(self).inv(),
            old(store).wf(),
        ensures
            final(store).wf(),
            final(self).inv(),
            final(store)@ == finish_state(old(store)@, t, outcome),
            transfer_matches(old(store)@, t) ==> r == outcome,
            !transfer_matches(old(store)@, t) ==> r is Err,
            final(self).at() == old(self).at(),
            final(self).queue() == old(self).queue(),
            final(self).position() == old(self).position(),
            final(self).drained_ids() == if r is Ok {
                old(self).drained_ids().push(t.vault_id)
            } else {
                old(self).drained_ids()
            },
    {
        let r = store.finish_transfer(t, outcome);
        if r.is_ok() {
            self.drained.push(t.vault_id);
        }
        r
    }

    /// Identifiers of the vaults drained so far, in order.
    pub fn drained(&self) -> (r: &Vec<u64>)
        ensures
            r@ == self.drained_ids(),
    {
        &self.drained
    }
}

/// Every identifier a sweep takes up names a vault that is due.
pub proof fn lemma_due_ids_are_due(vs: Seq<Vault>, now: u64, n: int, id: u64)
    requires
        0 <= n <= vs.len(),
        vs.len() < u64::MAX,
        due_ids(vs, now, n).contains(id),
    ensures
        1 <= id <= n,
        due(vs[id - 1], now),
    decreases n,
{
    let cur = due_ids(vs, now, n);
    let k = choose|k: int| 0 <= k < cur.len() && #[trigger] cur[k] == id;
    assert(n > 0);
    let prev = due_ids(vs, now, n - 1);
    if due(vs[n - 1], now) {
        assert(cur == prev.push(n as u64));
        if k < prev.len() {
            assert(prev[k] == id);
            lemma_due_ids_are_due(vs, now, n - 1, id);
        } else {
            assert(id == n as u64);
        }
    } else {
        assert(cur == prev);
        lemma_due_ids_are_due(vs, now, n - 1, id);
    }
}

/// A sweep drains a vault at most once: after an expiry transfer of a vault
/// has gone through, its balance is zero, so no later sweep, at any time,
/// takes it up again until funds arrive.
pub proof fn lemma_sweep_drains_once(
    vs: Seq<Vault>,
    reserved: Seq<Vault>,
    t: PendingTransfer,
    now: u64,
    later: u64,
)
    requires
        store_wf(vs),
        expiry_owed(vs, t.vault_id, now, Ok::<PendingTransfer, VaultError>(t), reserved),
    ensures
        finish_state(reserved, t, Ok(()))[slot(t.vault_id)].balance_satoshi == 0,
        !sweep_ids(finish_state(reserved, t, Ok(())), later).contains(t.vault_id),
{
    let after = finish_state(reserved, t, Ok(()));
    assert(after[slot(t.vault_id)].balance_satoshi == 0);
    if sweep_ids(after, later).contains(t.vault_id) {
        lemma_due_ids_are_due(after, later, after.len() as int, t.vault_id);
    }
}

} // verus!

//! The backend that the executor drives: a live store (in memory, or one of
//! several registered forks), point-in-time snapshots of it, and accounts
//! that stay visible across fork switches.
use vstd::prelude::*;
use crate::constants::{cheatcode_address, global_failure_slot, spec_cheatcode_address, spec_global_failure_slot};
use crate::db::{commit_post, Changeset, MemDb};
use crate::error::{BlockchainError, DatabaseError};
use crate::forkdb::ForkedDatabase;
use crate::remote::RemoteProvider;
use crate::types::{two_pow_128, AccountInfo, Address, U256};

verus! {

/// Identifies a registered fork.
#[derive(Clone, Copy, Debug, PartialEq, Eq, Structural)]
pub struct ForkId {
    pub index: usize,
}

/// A fork to register: its endpoint and the block to fork at.
pub struct CreateFork {
    pub enable_caching: bool,
    pub url: String,
    pub block: u64,
    pub chain_id: Option<u64>,
}

/// A registered fork: its endpoint, its state, and its remote source.
pub struct ForkSlot<P> {
    pub url: String,
    pub db: ForkedDatabase,
    pub provider: P,
}

/// A captured state: which store was live and a copy of what it held.
pub struct Snapshot {
    pub id: u64,
    pub active: Option<usize>,
    pub state: MemDb,
}

pub struct Backend2<P> {
    /// The in-memory state, live while no fork is selected.
    pub memory: MemDb,
    pub forks: Vec<ForkSlot<P>>,
    /// The selected fork, if any.
    pub active: Option<usize>,
    /// Snapshots by increasing id.
    pub snapshots: Vec<Snapshot>,
    pub next_snapshot_id: u64,
    /// Accounts copied into a fork when it is selected.
    pub persistent: Vec<Address>,
    /// Set when a revert to a snapshot undid a recorded global failure.
    pub snapshot_failure: bool,
}

/// The records of the accounts in `persistent` that `src` holds.
pub open spec fn persistent_records(src: MemDb, persistent: Seq<Address>) -> Map<Address, crate::types::AccountInfoView> {
    Map::new(
        |a: Address| persistent.contains(a) && src.accounts@.contains_key(a),
        |a: Address| src.accounts@[a],
    )
}

/// What `insert_snapshot` leaves: a new snapshot, with the next id, of the
/// live store and of which store is live; nothing else changes.
pub open spec fn insert_snapshot_post<P>(before: Backend2<P>, r: U256, after: Backend2<P>) -> bool {
    &&& r.value() == before.next_snapshot_id as nat
    &&& after.next_snapshot_id == before.next_snapshot_id + 1
    &&& after.snapshots@.len() == before.snapshots@.len() + 1
    &&& after.snapshots@.subrange(0, before.snapshots@.len() as int) == before.snapshots@
    &&& after.snapshots@.last().id == before.next_snapshot_id
    &&& after.snapshots@.last().active == before.active
    &&& after.snapshots@.last().state.same_as(before.live_state())
    &&& after.active == before.active
    &&& after.memory == before.memory
    &&& after.forks@ == before.forks@
    &&& after.persistent@ == before.persistent@
    &&& after.snapshot_failure == before.snapshot_failure
}

/// What `revert_snapshot` leaves: with a snapshot of this id, its state is
/// live again and it and all later snapshots are gone; else nothing changes.
pub open spec fn revert_post<P>(before: Backend2<P>, id: U256, r: bool, after: Backend2<P>) -> bool {
    &&& r == exists|k: int| 0 <= k < before.snapshots@.len() && before.snapshots@[k].id as nat == id.value()
    &&& forall|k: int|
        0 <= k < before.snapshots@.len() && before.snapshots@[k].id as nat == id.value() ==> {
            &&& after.live_state().same_as(before.snapshots@[k].state)
            &&& after.active == before.snapshots@[k].active
            &&& after.snapshots@ == before.snapshots@.subrange(0, k)
            &&& after.snapshot_failure == (before.snapshot_failure || global_failure_set(before.live_state()))
        }
    &&& !r ==> {
        &&& after.live_state() == before.live_state()
        &&& after.active == before.active
        &&& after.snapshots@ == before.snapshots@
        &&& after.snapshot_failure == before.snapshot_failure
    }
    &&& after.forks@.len() == before.forks@.len()
    &&& after.next_snapshot_id == before.next_snapshot_id
    &&& after.persistent@ == before.persistent@
}

/// The global failure flag is set in `state`.
pub open spec fn global_failure_set(state: MemDb) -> bool {
    state.slot(spec_cheatcode_address(), spec_global_failure_slot()) != U256::spec_zero()
}

impl<P> Backend2<P> {
    /// The state of the live store.
    pub open spec fn live_state(&self) -> MemDb {
        match self.active {
            Some(i) => self.forks@[i as int].db.db,
            None => self.memory,
        }
    }
}

impl<P: RemoteProvider> Backend2<P> {
    pub open spec fn wf(&self) -> bool {
        &&& self.memory.wf()
        &&& forall|i: int| 0 <= i < self.forks@.len() ==> (#[trigger] self.forks@[i]).db.wf()
        &&& self.active matches Some(i) ==> i < self.forks@.len()
        &&& forall|k: int|
            0 <= k < self.snapshots@.len() ==> (#[trigger] self.snapshots@[k]).state.wf()
                && (self.snapshots@[k].active matches Some(i) ==> i < self.forks@.len())
                && self.snapshots@[k].id < self.next_snapshot_id
        &&& forall|k: int, l: int|
            0 <= k < l < self.snapshots@.len() ==> self.snapshots@[k].id < self.snapshots@[l].id
    }

    /// The state of the live store.
    pub open spec fn live(&self) -> MemDb {
        self.live_state()
    }

    /// Everything but the live state is as in `other`.
    pub open spec fn same_except_live(&self, other: Self) -> bool {
        &&& self.active == other.active
        &&& self.snapshots@ == other.snapshots@
        &&& self.next_snapshot_id == other.next_snapshot_id
        &&& self.persistent@ == other.persistent@
        &&& self.snapshot_failure == other.snapshot_failure
        &&& self.forks@.len() == other.forks@.len()
        &&& forall|j: int| 0 <= j < self.forks@.len() && Some(j as usize) != self.active ==> self.forks@[j] == other.forks@[j]
        &&& self.active is Some ==> self.memory == other.memory
        &&& self.active matches Some(i) ==> self.forks@[i as int].url == other.forks@[i as int].url
            && self.forks@[i as int].provider == other.forks@[i as int].provider
            && self.forks@[i as int].db.pinned_block == other.forks@[i as int].db.pinned_block
    }

    /// A backend with an empty in-memory store, no forks and no snapshots.
    pub fn empty() -> (r: Backend2<P>)
        ensures
            r.wf(),
            r.active is None,
            r.live().is_empty(),
            r.forks@.len() == 0,
            r.snapshots@.len() == 0,
            r.persistent@.len() == 0,
            r.next_snapshot_id == 0,
            !r.snapshot_failure,
    {
        Backend2 {
            memory: MemDb::new(),
            forks: Vec::new(),
            active: None,
            snapshots: Vec::new(),
            next_snapshot_id: 0,
            persistent: Vec::new(),
            snapshot_failure: false,
        }
    }

    /// A backend on an empty in-memory store or, given a fork, on that fork
    /// (registered and selected).
    pub fn new(fork: Option<CreateFork>) -> (r: Result<Backend2<P>, BlockchainError>)
        ensures
            fork is None ==> r is Ok && r->Ok_0.active is None,
            r matches Ok(b) ==> b.wf() && b.live().is_empty() && b.snapshots@.len() == 0 && b.next_snapshot_id == 0,
            fork is Some && r is Ok ==> r->Ok_0.active == Some(0usize) && r->Ok_0.live()
                == r->Ok_0.forks@[0].db.db && r->Ok_0.forks@[0].db.pinned_block == fork->Some_0.block,
            r matches Err(e) ==> fork is Some && e == BlockchainError::InvalidUrl(fork->Some_0.url),
    {
        let mut b = Backend2::empty();
        if let Some(f) = fork {
            let id = match b.create_fork(f) {
                Ok(id) => id,
                Err(e) => return Err(e),
            };
            b.active = Some(id.index);
        }
        Ok(b)
    }

    pub fn has_snapshot_failure(&self) -> (r: bool)
        ensures
            r == self.snapshot_failure,
    {
        self.snapshot_failure
    }

    /// Marks `a` as an account that every selected fork sees.
    pub fn add_persistent_account(&mut self, a: Address)
        requires
            old(self).wf(),
        ensures
            final(self).wf(),
            final(self).live() == old(self).live(),
            final(self).active == old(self).active,
            final(self).snapshots@ == old(self).snapshots@,
            final(self).next_snapshot_id == old(self).next_snapshot_id,
            final(self).persistent@.contains(a),
            forall|x: Address| old(self).persistent@.contains(x) ==> final(self).persistent@.contains(x),
    {
        let mut i: usize = 0;
        while i < self.persistent.len()
            invariant
                self.wf(),
                *self == *old(self),
                i <= self.persistent@.len(),
                forall|j: int| 0 <= j < i ==> self.persistent@[j] != a,
            decreases self.persistent@.len() - i,
        {
            if self.persistent[i] == a {
                return;
            }
            i = i + 1;
        }
        self.persistent.push(a);
        assert(self.persistent@[self.persistent@.len() - 1] == a);
        assert forall|x: Address| old(self).persistent@.contains(x) implies self.persistent@.contains(x) by {
            let q = choose|q: int| 0 <= q < old(self).persistent@.len() && old(self).persistent@[q] == x;
            assert(self.persistent@[q] == x);
        }
    }

    /// The record of `a` in the live store; a fork fetches what it lacks.
    pub fn basic(&mut self, a: Address) -> (r: Result<AccountInfo, DatabaseError>)
        requires
            old(self).wf(),
        ensures
            final(self).wf(),
            final(self).same_except_live(*old(self)),
            old(self).active is None ==> (r matches Ok(v) && v@ == old(self).live().account(a)),
            old(self).live().accounts@.contains_key(a) ==> (r matches Ok(v) && v@ == old(self).live().accounts@[a]),
            old(self).active is None || old(self).live().accounts@.contains_key(a) || r is Err
                ==> final(self).live().same_as(old(self).live()),
            r is Ok ==> final(self).live().storage@ == old(self).live().storage@,
            r matches Err(e) ==> e is Remote,
            old(self).active is Some && r is Ok ==> final(self).live().accounts@ == old(self).live().accounts@.insert(
                a,
                r->Ok_0@,
            ),
    {
        match self.active {
            None => Ok(self.memory.basic(a)),
            Some(i) => {
                let mut slot = self.forks.remove(i);
                let r = slot.db.basic(&slot.provider, a);
                self.forks.insert(i, slot);
                proof {
                    assert(self.forks@ =~= old(self).forks@.update(i as int, slot));
                    if r is Ok && old(self).live().accounts@.contains_key(a) {
                        assert(old(self).live().accounts@.insert(a, r->Ok_0@) =~= old(self).live().accounts@);
                    }
                }
                r
            },
        }
    }

    /// The record of `a` if the live store has one; a fork fetches what it
    /// lacks, so a fork always has one.
    pub fn basic_ref(&mut self, a: Address) -> (r: Result<Option<AccountInfo>, DatabaseError>)
        requires
            old(self).wf(),
        ensures
            final(self).wf(),
            final(self).same_except_live(*old(self)),
            old(self).active is None ==> (r matches Ok(o) && (o is Some <==> old(self).live().accounts@.contains_key(a))
                && (o matches Some(v) ==> v@ == old(self).live().accounts@[a]))
                && final(self).live().same_as(old(self).live()),
            old(self).live().accounts@.contains_key(a) ==> (r matches Ok(Some(v)) && v@ == old(self).live().accounts@[a]),
            old(self).active is None || old(self).live().accounts@.contains_key(a) || r is Err
                ==> final(self).live().same_as(old(self).live()),
            r matches Err(e) ==> e is Remote,
    {
        match self.active {
            None => Ok(self.memory.basic_ref(a)),
            Some(_) => match self.basic(a) {
                Ok(v) => Ok(Some(v)),
                Err(e) => Err(e),
            },
        }
    }

    /// The record of `a` without keeping anything: the in-memory store reads
    /// an unknown account as the zero record; a fork fetches what it lacks.
    pub fn peek(&self, a: Address) -> (r: Result<AccountInfo, DatabaseError>)
        requires
            self.wf(),
        ensures
            self.active is None ==> (r matches Ok(v) && v@ == self.live().account(a)),
            self.live().accounts@.contains_key(a) ==> (r matches Ok(v) && v@ == self.live().accounts@[a]),
            r is Err ==> self.active is Some && !self.live().accounts@.contains_key(a),
            r matches Err(e) ==> e is Remote,
    {
        match self.active {
            None => Ok(self.memory.basic(a)),
            Some(i) => {
                let slot = &self.forks[i];
                slot.db.peek(&slot.provider, a)
            },
        }
    }

    /// Sets the failure flag of reverted snapshots.
    pub fn record_snapshot_failure(&mut self)
        requires
            old(self).wf(),
        ensures
            final(self).wf(),
            final(self).snapshot_failure,
            final(self).memory == old(self).memory,
            final(self).forks@ == old(self).forks@,
            final(self).active == old(self).active,
            final(self).snapshots@ == old(self).snapshots@,
            final(self).next_snapshot_id == old(self).next_snapshot_id,
            final(self).persistent@ == old(self).persistent@,
    {
        self.snapshot_failure = true;
    }

    pub fn insert_account(&mut self, a: Address, info: AccountInfo)
        requires
            old(self).wf(),
        ensures
            final(self).wf(),
            final(self).same_except_live(*old(self)),
            final(self).live().accounts@ == old(self).live().accounts@.insert(a, info@),
            final(self).live().storage@ == old(self).live().storage@,
    {
        match self.active {
            None => self.memory.insert_account(a, info),
            Some(i) => {
                let mut slot = self.forks.remove(i);
                slot.db.insert_account(a, info);
                self.forks.insert(i, slot);
                proof { assert(self.forks@ =~= old(self).forks@.update(i as int, slot)); }
            },
        }
    }

    pub fn set_storage_at(&mut self, a: Address, slot: U256, value: U256)
        requires
            old(self).wf(),
        ensures
            final(self).wf(),
            final(self).same_except_live(*old(self)),
            final(self).live().storage@ == old(self).live().storage@.insert(
                crate::table::SlotKey { address: a, slot },
                value,
            ),
            final(self).live().accounts@ == old(self).live().accounts@,
    {
        match self.active {
            None => self.memory.set_storage_at(a, slot, value),
            Some(i) => {
                let mut fs = self.forks.remove(i);
                fs.db.set_storage_at(a, slot, value);
                self.forks.insert(i, fs);
                proof { assert(self.forks@ =~= old(self).forks@.update(i as int, fs)); }
            },
        }
    }

    /// Applies a changeset to the live store.
    pub fn commit(&mut self, changes: &Changeset)
        requires
            old(self).wf(),
            changes.wf(),
        ensures
            final(self).wf(),
            final(self).same_except_live(*old(self)),
            commit_post(old(self).live(), *changes, final(self).live()),
    {
        match self.active {
            None => self.memory.commit(changes),
            Some(i) => {
                let mut slot = self.forks.remove(i);
                slot.db.commit(changes);
                self.forks.insert(i, slot);
                proof { assert(self.forks@ =~= old(self).forks@.update(i as int, slot)); }
            },
        }
    }

    /// Registers a fork of the chain at `fork.url` as of `fork.block`,
    /// without selecting it.
    pub fn create_fork(&mut self, fork: CreateFork) -> (r: Result<ForkId, BlockchainError>)
        requires
            old(self).wf(),
        ensures
            final(self).wf(),
            final(self).active == old(self).active,
            final(self).live() == old(self).live(),
            final(self).memory == old(self).memory,
            final(self).snapshots@ == old(self).snapshots@,
            final(self).snapshot_failure == old(self).snapshot_failure,
            final(self).persistent@ == old(self).persistent@,
            final(self).next_snapshot_id == old(self).next_snapshot_id,
            r matches Ok(id) ==> id.index == old(self).forks@.len() && final(self).forks@.len() == old(self).forks@.len() + 1
                && final(self).forks@.subrange(0, old(self).forks@.len() as int) == old(self).forks@
                && final(self).forks@[id.index as int].db.db.is_empty()
                && final(self).forks@[id.index as int].db.pinned_block == fork.block
                && final(self).forks@[id.index as int].url@ == fork.url@,
            r matches Err(e) ==> e == BlockchainError::InvalidUrl(fork.url) && final(self).forks@ == old(self).forks@,
    {
        match P::connect(fork.url.as_str()) {
            Ok(provider) => {
                let index = self.forks.len();
                self.forks.push(ForkSlot { url: fork.url, db: ForkedDatabase::new(fork.block), provider });
                proof {
                    assert(self.forks@.subrange(0, index as int) =~= old(self).forks@);
                    assert(self.forks@[index as int].db.wf());
                }
                Ok(ForkId { index })
            },
            Err(_) => Err(BlockchainError::InvalidUrl(fork.url)),
        }
    }

    /// Selects a registered fork: reads and writes go to it from now on,
    /// and it receives the records of the persistent accounts.
    pub fn select_fork(&mut self, id: ForkId) -> (r: Result<(), BlockchainError>)
        requires
            old(self).wf(),
        ensures
            final(self).wf(),
            final(self).snapshots@ == old(self).snapshots@,
            final(self).snapshot_failure == old(self).snapshot_failure,
            final(self).persistent@ == old(self).persistent@,
            final(self).next_snapshot_id == old(self).next_snapshot_id,
            final(self).forks@.len() == old(self).forks@.len(),
            (r is Err) == (id.index >= old(self).forks@.len()),
            r matches Err(e) ==> e == BlockchainError::UnknownFork(id.index) && final(self).active == old(self).active
                && final(self).live() == old(self).live(),
            r is Ok ==> final(self).active == Some(id.index),
            r is Ok && old(self).active == Some(id.index) ==> final(self).live() == old(self).live(),
            r is Ok && old(self).active != Some(id.index) ==> final(self).live().accounts@ == crate::db::committed_accounts(
                old(self).forks@[id.index as int].db.db.accounts@,
                persistent_records(old(self).live(), old(self).persistent@),
            ) && final(self).live().storage@ == old(self).forks@[id.index as int].db.db.storage@,
    {
        if id.index >= self.forks.len() {
            return Err(BlockchainError::UnknownFork(id.index));
        }
        if self.active == Some(id.index) {
            return Ok(());
        }
        let mut changes = Changeset::new();
        let mut j: usize = 0;
        while j < self.persistent.len()
            invariant
                self.wf(),
                *self == *old(self),
                changes.wf(),
                changes.storage@ == Map::<crate::table::SlotKey, U256>::empty(),
                j <= self.persistent@.len(),
                changes.accounts@ == persistent_records(self.live(), self.persistent@.subrange(0, j as int)),
            decreases self.persistent@.len() - j,
        {
            let a = self.persistent[j];
            let found = match self.active {
                Some(i) => self.forks[i].db.db.basic_ref(a),
                None => self.memory.basic_ref(a),
            };
            if let Some(info) = found {
                changes.set_account(a, info);
            }
            proof {
                let done = self.persistent@.subrange(0, j as int);
                let next = self.persistent@.subrange(0, j + 1);
                assert(next =~= done.push(a));
                assert forall|x: Address| next.contains(x) <==> (done.contains(x) || x == a) by {
                    if next.contains(x) {
                        let q = choose|q: int| 0 <= q < next.len() && next[q] == x;
                        if q < j { assert(done[q] == x); }
                    }
                    if done.contains(x) {
                        let q = choose|q: int| 0 <= q < done.len() && done[q] == x;
                        assert(next[q] == x);
                    }
                    if x == a { assert(next[j as int] == x); }
                }
                assert(changes.accounts@ =~= persistent_records(self.live(), next));
            }
            j = j + 1;
        }
        proof { assert(self.persistent@.subrange(0, j as int) =~= self.persistent@); }
        let mut slot = self.forks.remove(id.index);
        slot.db.commit(&changes);
        self.forks.insert(id.index, slot);
        proof { assert(self.forks@ =~= old(self).forks@.update(id.index as int, slot)); }
        self.active = Some(id.index);
        Ok(())
    }

    /// Captures the live state; the returned id restores it.
    pub fn insert_snapshot(&mut self) -> (r: U256)
        requires
            old(self).wf(),
            old(self).next_snapshot_id < u64::MAX,
        ensures
            final(self).wf(),
            insert_snapshot_post(*old(self), r, *final(self)),
    {
        let state = match self.active {
            Some(i) => self.forks[i].db.db.duplicate(),
            None => self.memory.duplicate(),
        };
        let id = self.next_snapshot_id;
        self.snapshots.push(Snapshot { id, active: self.active, state });
        self.next_snapshot_id = id + 1;
        proof {
            assert(self.snapshots@.subrange(0, old(self).snapshots@.len() as int) =~= old(self).snapshots@);
            assert forall|k: int| 0 <= k < self.snapshots@.len() implies (#[trigger] self.snapshots@[k]).state.wf()
                && (self.snapshots@[k].active matches Some(i) ==> i < self.forks@.len())
                && self.snapshots@[k].id < self.next_snapshot_id by {
                if k < old(self).snapshots@.len() {
                    assert(self.snapshots@[k] == old(self).snapshots@[k]);
                }
            }
        }
        U256::from_u64(id)
    }

    /// Restores the state captured under `id`, dropping that snapshot and
    /// all later ones. Returns false, changing nothing, if no snapshot has
    /// this id. A revert that undoes a set global failure flag is recorded.
    pub fn revert_snapshot(&mut self, id: U256) -> (r: bool)
        requires
            old(self).wf(),
        ensures
            final(self).wf(),
            revert_post(*old(self), id, r, *final(self)),
    {
        if id.high != 0 || id.low > u64::MAX as u128 {
            proof {
                assert forall|k: int| 0 <= k < self.snapshots@.len() implies self.snapshots@[k].id as nat != id.value() by {
                    assert(id.value() >= two_pow_128() || id.value() > u64::MAX);
                }
            }
            return false;
        }
        let target = id.low as u64;
        let mut k: usize = 0;
        while k < self.snapshots.len()
            invariant
                self.wf(),
                *self == *old(self),
                id.high == 0,
                target as nat == id.value(),
                k <= self.snapshots@.len(),
                forall|q: int| 0 <= q < k ==> self.snapshots@[q].id != target,
            ensures
                self.wf(),
                *self == *old(self),
                k <= self.snapshots@.len(),
                forall|q: int| 0 <= q < k ==> self.snapshots@[q].id != target,
                k < self.snapshots@.len() ==> self.snapshots@[k as int].id == target,
            decreases self.snapshots@.len() - k,
        {
            if self.snapshots[k].id == target {
                break;
            }
            k = k + 1;
        }
        if k == self.snapshots.len() {
            return false;
        }
        let failure = {
            let v = match self.active {
                Some(i) => self.forks[i].db.db.storage(cheatcode_address(), global_failure_slot()),
                None => self.memory.storage(cheatcode_address(), global_failure_slot()),
            };
            !v.is_zero()
        };
        let ghost snaps = self.snapshots@;
        proof {
            assert forall|q: int| 0 <= q < snaps.len() && snaps[q].id as nat == id.value() implies q == k by {
                if q < k {
                    assert(snaps[q].id < snaps[k as int].id);
                } else if q > k {
                    assert(snaps[k as int].id < snaps[q].id);
                }
            }
        }
        self.snapshots.truncate(k + 1);
        let snap = self.snapshots.pop().unwrap();
        proof {
            assert(snap == snaps[k as int]);
            assert(self.snapshots@ =~= snaps.subrange(0, k as int));
        }
        match snap.active {
            Some(i) => {
                let mut slot = self.forks.remove(i);
                slot.db.db = snap.state;
                self.forks.insert(i, slot);
                proof { assert(self.forks@ =~= old(self).forks@.update(i as int, slot)); }
            },
            None => {
                self.memory = snap.state;
            },
        }
        self.active = snap.active;
        if failure {
            self.snapshot_failure = true;
        }
        proof {
            assert(snaps[k as int].id as nat == id.value());
            assert(self.live_state().same_as(snaps[k as int].state));
        }
        true
    }

    /// A backend with an empty in-memory store and no forks or snapshots,
    /// to run a call against a chosen few accounts.
    pub fn clone_empty(&self) -> (r: Backend2<P>)
        ensures
            r.wf(),
            r.active is None,
            r.live().is_empty(),
            r.snapshots@.len() == 0,
            !r.snapshot_failure,
    {
        Backend2::empty()
    }
}

} // verus!

verus! {

/// Writes made after a snapshot are undone by reverting to it: the live
/// store holds again what it held when the snapshot was taken, and the
/// snapshot is consumed.
pub proof fn lemma_snapshot_round_trip<P>(
    b1: Backend2<P>,
    id: U256,
    b2: Backend2<P>,
    b3: Backend2<P>,
    ok: bool,
    b4: Backend2<P>,
)
    requires
        insert_snapshot_post(b1, id, b2),
        b3.snapshots@ == b2.snapshots@,
        revert_post(b3, id, ok, b4),
    ensures
        ok,
        b4.live_state().same_as(b1.live_state()),
        b4.active == b1.active,
        b4.snapshots@ == b1.snapshots@,
{
    let k = b1.snapshots@.len() as int;
    assert(b3.snapshots@[k] == b2.snapshots@.last());
    assert(b3.snapshots@[k].id as nat == id.value());
    assert(b3.snapshots@.subrange(0, k) == b1.snapshots@);
}

} // verus!

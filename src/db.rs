//! The in-memory account store and the changesets that executed calls
//! produce.
use vstd::prelude::*;
use crate::hash::{keccak256, keccak256_of};
use crate::table::{SlotKey, Table};
use crate::types::{copy_bytes, default_account, AccountInfo, AccountInfoView, Address, B256, U256};

verus! {

/// The absolute values that one execution leaves behind: the new record of
/// each account it touched and the new value of each slot it wrote.
pub struct Changeset {
    pub accounts: Table<Address, AccountInfo>,
    pub storage: Table<SlotKey, U256>,
}

impl Changeset {
    pub open spec fn wf(&self) -> bool {
        self.accounts.wf() && self.storage.wf()
    }

    /// Every changeset is well formed.
    pub fn check_wf(&self)
        ensures
            self.wf(),
    {
        self.accounts.check_wf();
        self.storage.check_wf();
    }

    pub fn new() -> (r: Changeset)
        ensures
            r.wf(),
            r.accounts@ == Map::<Address, AccountInfoView>::empty(),
            r.storage@ == Map::<SlotKey, U256>::empty(),
    {
        Changeset { accounts: Table::new(), storage: Table::new() }
    }

    /// Records the new record of `address`.
    pub fn set_account(&mut self, address: Address, info: AccountInfo)
        requires
            old(self).wf(),
        ensures
            final(self).wf(),
            final(self).accounts@ == old(self).accounts@.insert(address, info@),
            final(self).storage@ == old(self).storage@,
    {
        self.accounts.insert(address, info);
    }

    /// Records the new value of a storage slot.
    pub fn set_slot(&mut self, address: Address, slot: U256, value: U256)
        requires
            old(self).wf(),
        ensures
            final(self).wf(),
            final(self).accounts@ == old(self).accounts@,
            final(self).storage@ == old(self).storage@.insert(SlotKey { address, slot }, value),
    {
        self.storage.insert(SlotKey { address, slot }, value);
    }

    pub fn duplicate(&self) -> (r: Changeset)
        requires
            self.wf(),
        ensures
            r.wf(),
            r.accounts@ == self.accounts@,
            r.storage@ == self.storage@,
    {
        Changeset { accounts: self.accounts.duplicate(), storage: self.storage.duplicate() }
    }
}

/// The records after committing the records `cs`.
pub open spec fn committed_accounts(
    base: Map<Address, AccountInfoView>,
    cs: Map<Address, AccountInfoView>,
) -> Map<Address, AccountInfoView> {
    Map::new(
        |a: Address| base.contains_key(a) || cs.contains_key(a),
        |a: Address|
            if cs.contains_key(a) {
                cs[a]
            } else {
                base[a]
            },
    )
}

/// The records after committing those of `cs` whose address is in `done`.
pub open spec fn merged_accounts(
    base: Map<Address, AccountInfoView>,
    cs: Map<Address, AccountInfoView>,
    done: Seq<Address>,
) -> Map<Address, AccountInfoView> {
    Map::new(
        |a: Address| base.contains_key(a) || done.contains(a),
        |a: Address|
            if done.contains(a) {
                cs[a]
            } else {
                base[a]
            },
    )
}

/// The slots after writing those of `cs` whose key is in `done`.
pub open spec fn merged_slots(
    base: Map<SlotKey, U256>,
    cs: Map<SlotKey, U256>,
    done: Seq<SlotKey>,
) -> Map<SlotKey, U256> {
    Map::new(
        |k: SlotKey| base.contains_key(k) || done.contains(k),
        |k: SlotKey|
            if done.contains(k) {
                cs[k]
            } else {
                base[k]
            },
    )
}

/// The code of the record `info` is kept under its hash.
pub open spec fn code_kept(contracts: Map<B256, Seq<u8>>, info: AccountInfoView) -> bool {
    info.code is Some && info.code.unwrap().len() > 0 ==> contracts.contains_key(info.code_hash)
}

/// Code once kept is never replaced, and new code comes from the records of `cs`.
pub open spec fn contracts_grow(
    before: Map<B256, Seq<u8>>,
    after: Map<B256, Seq<u8>>,
    cs: Map<Address, AccountInfoView>,
) -> bool {
    &&& forall|h: B256| #[trigger] before.contains_key(h) ==> after.contains_key(h) && after[h] == before[h]
    &&& forall|h: B256|
        #[trigger] after.contains_key(h) && !before.contains_key(h) ==> exists|a: Address|
            cs.contains_key(a) && cs[a].code_hash == h && cs[a].code
                == Some(after[h]) && after[h].len() > 0
}

/// What `commit` leaves: the records and slots of the changeset replace
/// the stored ones, the code of each record is kept, and block hashes stay.
pub open spec fn commit_post(before: MemDb, changes: Changeset, after: MemDb) -> bool {
    &&& after.accounts@ == committed_accounts(before.accounts@, changes.accounts@)
    &&& after.storage@ == before.storage@.union_prefer_right(changes.storage@)
    &&& after.block_hashes@ == before.block_hashes@
    &&& contracts_grow(before.contracts@, after.contracts@, changes.accounts@)
    &&& forall|a: Address| #[trigger] changes.accounts@.contains_key(a) ==> code_kept(after.contracts@, changes.accounts@[a])
}

/// The in-memory store: account records, storage slots, code by hash and
/// block hashes. Anything never written reads as zero.
pub struct MemDb {
    pub accounts: Table<Address, AccountInfo>,
    pub storage: Table<SlotKey, U256>,
    pub contracts: Table<B256, Vec<u8>>,
    pub block_hashes: Table<u64, B256>,
}

impl MemDb {
    pub open spec fn wf(&self) -> bool {
        &&& self.accounts.wf()
        &&& self.storage.wf()
        &&& self.contracts.wf()
        &&& self.block_hashes.wf()
    }

    /// The two stores hold the same records, slots, code and block hashes.
    pub open spec fn same_as(&self, other: MemDb) -> bool {
        &&& self.accounts@ == other.accounts@
        &&& self.storage@ == other.storage@
        &&& self.contracts@ == other.contracts@
        &&& self.block_hashes@ == other.block_hashes@
    }

    /// The store holds nothing.
    pub open spec fn is_empty(&self) -> bool {
        &&& self.accounts@ == Map::<Address, AccountInfoView>::empty()
        &&& self.storage@ == Map::<SlotKey, U256>::empty()
        &&& self.contracts@ == Map::<B256, Seq<u8>>::empty()
        &&& self.block_hashes@ == Map::<u64, B256>::empty()
    }

    /// The record `basic` returns for `a`.
    pub open spec fn account(&self, a: Address) -> AccountInfoView {
        if self.accounts@.contains_key(a) {
            self.accounts@[a]
        } else {
            default_account()
        }
    }

    /// The value `storage` returns for a slot.
    pub open spec fn slot(&self, a: Address, slot: U256) -> U256 {
        let k = SlotKey { address: a, slot };
        if self.storage@.contains_key(k) {
            self.storage@[k]
        } else {
            U256::spec_zero()
        }
    }

    /// The code `code_by_hash` returns.
    pub open spec fn code(&self, h: B256) -> Seq<u8> {
        if self.contracts@.contains_key(h) {
            self.contracts@[h]
        } else {
            Seq::empty()
        }
    }

    /// The hash `block_hash` returns: the recorded one, else zero.
    pub open spec fn block_hash_of(&self, n: u64) -> B256 {
        if self.block_hashes@.contains_key(n) {
            self.block_hashes@[n]
        } else {
            B256::spec_zero()
        }
    }

    /// The contracts table after storing the code of `info`.
    pub open spec fn contracts_after(
        contracts: Map<B256, Seq<u8>>,
        info: AccountInfoView,
    ) -> Map<B256, Seq<u8>> {
        if info.code is Some && info.code.unwrap().len() > 0 && !contracts.contains_key(info.code_hash) {
            contracts.insert(info.code_hash, info.code.unwrap())
        } else {
            contracts
        }
    }

    pub fn new() -> (r: MemDb)
        ensures
            r.wf(),
            r.is_empty(),
    {
        MemDb {
            accounts: Table::new(),
            storage: Table::new(),
            contracts: Table::new(),
            block_hashes: Table::new(),
        }
    }

    /// The record of `a`, if the store has one.
    pub fn basic_ref(&self, a: Address) -> (r: Option<AccountInfo>)
        requires
            self.wf(),
        ensures
            r is Some <==> self.accounts@.contains_key(a),
            r matches Some(info) ==> info@ == self.accounts@[a],
    {
        match self.accounts.get(&a) {
            Some(info) => Some(info.copy()),
            None => None,
        }
    }

    /// The record of `a`; the zero-valued record if it has none.
    pub fn basic(&self, a: Address) -> (r: AccountInfo)
        requires
            self.wf(),
        ensures
            r@ == self.account(a),
    {
        match self.accounts.get(&a) {
            Some(info) => info.copy(),
            None => AccountInfo::empty(),
        }
    }

    pub fn storage(&self, a: Address, slot: U256) -> (r: U256)
        requires
            self.wf(),
        ensures
            r == self.slot(a, slot),
    {
        match self.storage.get(&SlotKey { address: a, slot }) {
            Some(v) => *v,
            None => U256::zero(),
        }
    }

    pub fn code_by_hash(&self, h: B256) -> (r: Vec<u8>)
        requires
            self.wf(),
        ensures
            r@ == self.code(h),
    {
        match self.contracts.get(&h) {
            Some(c) => copy_bytes(c),
            None => Vec::new(),
        }
    }

    pub fn block_hash(&self, n: u64) -> (r: B256)
        requires
            self.wf(),
        ensures
            r == self.block_hash_of(n),
    {
        match self.block_hashes.get(&n) {
            Some(h) => *h,
            None => B256::zero(),
        }
    }

    pub fn insert_block_hash(&mut self, n: u64, h: B256)
        requires
            old(self).wf(),
        ensures
            final(self).wf(),
            final(self).block_hashes@ == old(self).block_hashes@.insert(n, h),
            final(self).accounts@ == old(self).accounts@,
            final(self).storage@ == old(self).storage@,
            final(self).contracts@ == old(self).contracts@,
    {
        self.block_hashes.insert(n, h);
    }

    /// Writes the record of `a`, keeping its code under its code hash.
    pub fn insert_account(&mut self, a: Address, info: AccountInfo)
        requires
            old(self).wf(),
        ensures
            final(self).wf(),
            final(self).accounts@ == old(self).accounts@.insert(a, info@),
            final(self).contracts@ == MemDb::contracts_after(old(self).contracts@, info@),
            final(self).storage@ == old(self).storage@,
            final(self).block_hashes@ == old(self).block_hashes@,
    {
        let has_code = match &info.code {
            Some(c) => c.len() > 0,
            None => false,
        };
        if has_code && !self.contracts.contains_key(&info.code_hash) {
            let code = match &info.code {
                Some(c) => copy_bytes(c),
                None => Vec::new(),
            };
            self.contracts.insert(info.code_hash, code);
        }
        self.accounts.insert(a, info);
    }

    pub fn set_storage_at(&mut self, a: Address, slot: U256, value: U256)
        requires
            old(self).wf(),
        ensures
            final(self).wf(),
            final(self).storage@ == old(self).storage@.insert(SlotKey { address: a, slot }, value),
            final(self).accounts@ == old(self).accounts@,
            final(self).contracts@ == old(self).contracts@,
            final(self).block_hashes@ == old(self).block_hashes@,
    {
        self.storage.insert(SlotKey { address: a, slot }, value);
    }

    /// Sets the nonce of `a`, keeping the rest of its record.
    pub fn set_nonce(&mut self, a: Address, nonce: u64)
        requires
            old(self).wf(),
        ensures
            final(self).wf(),
            final(self).accounts@ == old(self).accounts@.insert(
                a,
                AccountInfoView { nonce, ..old(self).account(a) },
            ),
            final(self).storage@ == old(self).storage@,
    {
        let mut info = self.basic(a);
        info.nonce = nonce;
        self.insert_account(a, info);
    }

    /// Sets the balance of `a`, keeping the rest of its record.
    pub fn set_balance(&mut self, a: Address, balance: U256)
        requires
            old(self).wf(),
        ensures
            final(self).wf(),
            final(self).accounts@ == old(self).accounts@.insert(
                a,
                AccountInfoView { balance, ..old(self).account(a) },
            ),
            final(self).storage@ == old(self).storage@,
    {
        let mut info = self.basic(a);
        info.balance = balance;
        self.insert_account(a, info);
    }

    /// Sets the code of `a` and its code hash, keeping the rest of its record.
    pub fn set_code(&mut self, a: Address, code: Vec<u8>)
        requires
            old(self).wf(),
        ensures
            final(self).wf(),
            final(self).accounts@ == old(self).accounts@.insert(
                a,
                AccountInfoView { code: Some(code@), code_hash: keccak256_of(code@), ..old(self).account(a) },
            ),
            final(self).storage@ == old(self).storage@,
    {
        let mut info = self.basic(a);
        info.code_hash = keccak256(code.as_slice());
        info.code = Some(code);
        self.insert_account(a, info);
    }

    /// Applies a changeset: each record in it replaces the stored one, each
    /// slot value in it replaces the stored one; nothing else changes.
    pub fn commit(&mut self, changes: &Changeset)
        requires
            old(self).wf(),
            changes.wf(),
        ensures
            final(self).wf(),
            commit_post(*old(self), *changes, *final(self)),
    {
        let ghost keys = changes.accounts.keys();
        proof { changes.accounts.lemma_keys(); }
        let n = changes.accounts.len();
        let mut i: usize = 0;
        while i < n
            invariant
                self.wf(),
                changes.wf(),
                n == changes.accounts@.len(),
                keys == changes.accounts.keys(),
                keys.len() == n,
                keys.no_duplicates(),
                forall|a: Address| changes.accounts@.contains_key(a) <==> keys.contains(a),
                i <= n,
                self.accounts@ == merged_accounts(old(self).accounts@, changes.accounts@, keys.subrange(0, i as int)),
                self.storage@ == old(self).storage@,
                self.block_hashes@ == old(self).block_hashes@,
                contracts_grow(old(self).contracts@, self.contracts@, changes.accounts@),
                forall|j: int| 0 <= j < i ==> code_kept(self.contracts@, #[trigger] changes.accounts@[keys[j]]),
            decreases n - i,
        {
            let (a, info) = changes.accounts.entry_at(i);
            let ghost before = self.contracts@;
            self.insert_account(*a, info.copy());
            proof {
                let done = keys.subrange(0, i as int);
                let next = keys.subrange(0, i + 1);
                assert(next =~= done.push(*a));
                assert forall|x: Address| next.contains(x) <==> (done.contains(x) || x == *a) by {
                    if next.contains(x) {
                        let j = choose|j: int| 0 <= j < next.len() && next[j] == x;
                        if j < i { assert(done[j] == x); }
                    }
                    if done.contains(x) {
                        let j = choose|j: int| 0 <= j < done.len() && done[j] == x;
                        assert(next[j] == x);
                    }
                    if x == *a { assert(next[i as int] == x); }
                }
                assert(self.accounts@ =~= merged_accounts(old(self).accounts@, changes.accounts@, next));
                assert forall|j: int| 0 <= j < i + 1 implies code_kept(self.contracts@, #[trigger] changes.accounts@[keys[j]]) by {
                    if j < i {
                        assert(code_kept(before, changes.accounts@[keys[j]]));
                    }
                }
            }
            i = i + 1;
        }
        proof {
            assert(keys.subrange(0, n as int) =~= keys);
            assert(self.accounts@ =~= committed_accounts(old(self).accounts@, changes.accounts@));
            assert forall|a: Address| #[trigger] changes.accounts@.contains_key(a) implies code_kept(self.contracts@, changes.accounts@[a]) by {
                assert(keys.contains(a));
                let j = choose|j: int| 0 <= j < keys.len() && keys[j] == a;
                assert(code_kept(self.contracts@, changes.accounts@[keys[j]]));
            }
        }
        let ghost mid = self.storage@;
        let ghost skeys = changes.storage.keys();
        proof { changes.storage.lemma_keys(); }
        let m = changes.storage.len();
        let mut k: usize = 0;
        while k < m
            invariant
                self.wf(),
                changes.wf(),
                m == changes.storage@.len(),
                skeys == changes.storage.keys(),
                skeys.len() == m,
                forall|x: SlotKey| changes.storage@.contains_key(x) <==> skeys.contains(x),
                k <= m,
                self.storage@ == merged_slots(mid, changes.storage@, skeys.subrange(0, k as int)),
                self.accounts@ == committed_accounts(old(self).accounts@, changes.accounts@),
                self.block_hashes@ == old(self).block_hashes@,
                contracts_grow(old(self).contracts@, self.contracts@, changes.accounts@),
                forall|a: Address| #[trigger] changes.accounts@.contains_key(a) ==> code_kept(self.contracts@, changes.accounts@[a]),
            decreases m - k,
        {
            let (key, v) = changes.storage.entry_at(k);
            self.set_storage_at(key.address, key.slot, *v);
            proof {
                let done = skeys.subrange(0, k as int);
                let next = skeys.subrange(0, k + 1);
                assert(next =~= done.push(*key));
                assert forall|x: SlotKey| next.contains(x) <==> (done.contains(x) || x == *key) by {
                    if next.contains(x) {
                        let j = choose|j: int| 0 <= j < next.len() && next[j] == x;
                        if j < k { assert(done[j] == x); }
                    }
                    if done.contains(x) {
                        let j = choose|j: int| 0 <= j < done.len() && done[j] == x;
                        assert(next[j] == x);
                    }
                    if x == *key { assert(next[k as int] == x); }
                }
                assert(self.storage@ =~= merged_slots(mid, changes.storage@, next));
            }
            k = k + 1;
        }
        proof {
            assert(skeys.subrange(0, m as int) =~= skeys);
            assert(self.storage@ =~= mid.union_prefer_right(changes.storage@));
        }
    }

    pub fn duplicate(&self) -> (r: MemDb)
        requires
            self.wf(),
        ensures
            r.wf(),
            r.same_as(*self),
    {
        MemDb {
            accounts: self.accounts.duplicate(),
            storage: self.storage.duplicate(),
            contracts: self.contracts.duplicate(),
            block_hashes: self.block_hashes.duplicate(),
        }
    }
}

} // verus!

verus! {

/// Writing a record and reading it back gives the record.
pub proof fn lemma_insert_then_basic(before: MemDb, after: MemDb, a: Address, v: AccountInfoView)
    requires
        after.accounts@ == before.accounts@.insert(a, v),
    ensures
        after.account(a) == v,
{
}

/// Committing the same changeset twice in a row leaves the store as
/// committing it once.
pub proof fn lemma_commit_idempotent(d0: MemDb, cs: Changeset, d1: MemDb, d2: MemDb)
    requires
        commit_post(d0, cs, d1),
        commit_post(d1, cs, d2),
    ensures
        d2.accounts@ == d1.accounts@,
        d2.storage@ == d1.storage@,
        d2.contracts@ == d1.contracts@,
        d2.block_hashes@ == d1.block_hashes@,
{
    assert(d2.accounts@ =~= d1.accounts@);
    assert(d2.storage@ =~= d1.storage@);
    assert forall|h: B256| d2.contracts@.contains_key(h) implies d1.contracts@.contains_key(h) by {
        if !d1.contracts@.contains_key(h) {
            let a = choose|a: Address|
                cs.accounts@.contains_key(a) && cs.accounts@[a].code_hash == h
                    && cs.accounts@[a].code == Some(d2.contracts@[h]);
            assert(code_kept(d1.contracts@, cs.accounts@[a]));
        }
    }
    assert(d2.contracts@ =~= d1.contracts@);
}

} // verus!

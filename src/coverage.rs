//! The coverage inspector: counts, per code body, how often each
//! instruction was reached.
use vstd::prelude::*;
use crate::table::{Table, TableValue};
use crate::types::{copy_bytes, B256};

verus! {

/// The hits of one code body: the code, and a count per program counter.
pub struct HitMap {
    pub bytecode: Vec<u8>,
    pub hits: Table<usize, u64>,
}

pub struct HitMapView {
    pub bytecode: Seq<u8>,
    pub hits: Map<usize, u64>,
}

impl View for HitMap {
    type V = HitMapView;

    open spec fn view(&self) -> HitMapView {
        HitMapView { bytecode: self.bytecode@, hits: self.hits@ }
    }
}

/// The count of `pc` after one more hit; counts stop at the largest value.
pub open spec fn hits_after(hits: Map<usize, u64>, pc: usize) -> Map<usize, u64> {
    let c = if hits.contains_key(pc) {
        hits[pc]
    } else {
        0
    };
    hits.insert(
        pc,
        if c < u64::MAX {
            (c + 1) as u64
        } else {
            c
        },
    )
}

impl HitMap {
    /// No hits yet on `bytecode`.
    pub fn new(bytecode: Vec<u8>) -> (r: HitMap)
        ensures
            r@.bytecode == bytecode@,
            r@.hits == Map::<usize, u64>::empty(),
    {
        HitMap { bytecode, hits: Table::new() }
    }

    /// Counts one more hit of `pc`.
    pub fn hit(&mut self, pc: usize)
        ensures
            final(self)@.bytecode == old(self)@.bytecode,
            final(self)@.hits == hits_after(old(self)@.hits, pc),
    {
        self.hits.check_wf();
        let c = match self.hits.get(&pc) {
            Some(c) => *c,
            None => 0,
        };
        let next = if c < u64::MAX {
            c + 1
        } else {
            c
        };
        self.hits.insert(pc, next);
    }
}

impl TableValue for HitMap {
    fn duplicate(&self) -> (r: Self) {
        self.hits.check_wf();
        HitMap { bytecode: copy_bytes(&self.bytecode), hits: self.hits.duplicate() }
    }
}

/// Collects hit maps keyed by the hash of each code body.
pub struct CoverageCollector {
    pub maps: Table<B256, HitMap>,
}

impl CoverageCollector {
    pub fn new() -> (r: CoverageCollector)
        ensures
            r.maps@ == Map::<B256, HitMapView>::empty(),
    {
        CoverageCollector { maps: Table::new() }
    }

    /// A new code context starts: its body gets an empty hit map unless it
    /// has one.
    pub fn initialize_interp(&mut self, hash: B256, bytecode: &[u8])
        ensures
            final(self).maps@ == if old(self).maps@.contains_key(hash) {
                old(self).maps@
            } else {
                old(self).maps@.insert(hash, HitMapView { bytecode: bytecode@, hits: Map::empty() })
            },
    {
        self.maps.check_wf();
        if !self.maps.contains_key(&hash) {
            let mut code: Vec<u8> = Vec::new();
            let mut i: usize = 0;
            while i < bytecode.len()
                invariant
                    i <= bytecode@.len(),
                    code@ == bytecode@.subrange(0, i as int),
                decreases bytecode@.len() - i,
            {
                code.push(bytecode[i]);
                i = i + 1;
                assert(code@ =~= bytecode@.subrange(0, i as int));
            }
            assert(code@ =~= bytecode@);
            self.maps.insert(hash, HitMap::new(code));
        }
    }

    /// The interpreter reached `pc` in the code body `hash`: counted if that
    /// body has a hit map.
    pub fn step(&mut self, hash: B256, pc: usize)
        ensures
            final(self).maps@ == if old(self).maps@.contains_key(hash) {
                old(self).maps@.insert(
                    hash,
                    HitMapView { hits: hits_after(old(self).maps@[hash].hits, pc), ..old(self).maps@[hash] },
                )
            } else {
                old(self).maps@
            },
    {
        self.maps.check_wf();
        if let Some(mut map) = self.maps.remove(&hash) {
            map.hit(pc);
            self.maps.insert(hash, map);
            proof {
                assert(self.maps@ =~= old(self).maps@.insert(
                    hash,
                    HitMapView { hits: hits_after(old(self).maps@[hash].hits, pc), ..old(self).maps@[hash] },
                ));
            }
        }
    }
}

} // verus!

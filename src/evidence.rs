use vstd::prelude::*;
use std::collections::HashMap;
use crate::types::Address;

verus! {

broadcast use vstd::std_specs::hash::group_hash_axioms;

/// A piece of evidence anchored for a project: the 32-byte hash of the
/// off-ledger content, when it was submitted and by whom.
#[derive(Clone, Copy, PartialEq, Eq, Debug)]
pub struct Evidence {
    pub project_id: u64,
    pub evidence_hash: [u8; 32],
    pub timestamp: u64,
    pub issuer: Address,
}

/// A storage key of the evidence log: one record of a project, or a
/// project's record count.
#[derive(Clone, Copy, PartialEq, Eq, Structural, Debug)]
pub enum EvidenceKey {
    Evidence(u64, u64),
    EvidenceCount(u64),
}

/// What the log holds: per project, its records in order of submission.
pub struct EvidenceModel {
    pub records: Map<u64, Seq<Evidence>>,
}

impl EvidenceModel {
    /// The records of `project_id`, oldest first; record `i` has index `i`.
    pub open spec fn of(self, project_id: u64) -> Seq<Evidence> {
        if self.records.contains_key(project_id) {
            self.records[project_id]
        } else {
            Seq::empty()
        }
    }

    /// The record of `project_id` with index `index`, if there is one.
    pub open spec fn record(self, project_id: u64, index: u64) -> Option<Evidence> {
        if index < self.of(project_id).len() {
            Some(self.of(project_id)[index as int])
        } else {
            None
        }
    }

    /// How many records `get_project_evidence` hands out for a given limit:
    /// the limit when it is positive and below the count, else all of them.
    pub open spec fn listed(self, project_id: u64, limit: u64) -> nat {
        let count = self.of(project_id).len();
        if 0 < limit && limit < count {
            limit as nat
        } else {
            count
        }
    }
}

/// The evidence log: append-only hash anchoring with a counter per project.
pub struct EvidenceContract {
    records: HashMap<u64, Vec<Evidence>>,
}

impl View for EvidenceContract {
    type V = EvidenceModel;

    closed spec fn view(&self) -> EvidenceModel {
        EvidenceModel { records: self.records@.map_values(|v: Vec<Evidence>| v@) }
    }
}

/// Whether two hashes hold the same bytes.
fn same_hash(a: &[u8; 32], b: &[u8; 32]) -> (r: bool)
    ensures
        r == (a@ == b@),
{
    let mut i: usize = 0;
    while i < 32
        invariant
            0 <= i <= 32,
            a@.len() == 32,
            b@.len() == 32,
            forall|j: int| 0 <= j < i ==> a@[j] == b@[j],
        decreases 32 - i,
    {
        if a[i] != b[i] {
            return false;
        }
        i = i + 1;
    }
    assert(a@ =~= b@);
    true
}

impl EvidenceContract {
    /// An empty log.
    pub fn new() -> (r: Self)
        ensures
            r@.records == Map::<u64, Seq<Evidence>>::empty(),
    {
        let r = EvidenceContract { records: HashMap::new() };
        assert(r@.records =~= Map::<u64, Seq<Evidence>>::empty());
        r
    }

    /// Appends a record for `project_id` and returns its index, which is the
    /// number of records the project had before. The caller is `issuer`,
    /// already authenticated by the host; `timestamp` is the ledger time.
    pub fn submit_evidence(&mut self, project_id: u64, cid_hash: [u8; 32], issuer: Address, timestamp: u64) -> (r: u64)
        requires
            old(self)@.of(project_id).len() < u64::MAX,
        ensures
            r == old(self)@.of(project_id).len(),
            final(self)@.records == old(self)@.records.insert(
                project_id,
                old(self)@.of(project_id).push(Evidence { project_id, evidence_hash: cid_hash, timestamp, issuer }),
            ),
    {
        let ghost old_records = self@.records;
        let ghost old_of = self@.of(project_id);
        let mut list = match self.records.remove(&project_id) {
            Some(v) => v,
            None => Vec::new(),
        };
        assert(list@ == old_of);
        let index = list.len() as u64;
        list.push(Evidence { project_id, evidence_hash: cid_hash, timestamp, issuer });
        self.records.insert(project_id, list);
        assert(self@.records =~= old_records.insert(project_id, old_of.push(
            Evidence { project_id, evidence_hash: cid_hash, timestamp, issuer },
        )));
        index
    }

    /// The record of `project_id` with index `evidence_index`, if any.
    pub fn get_evidence(&self, project_id: u64, evidence_index: u64) -> (r: Option<Evidence>)
        ensures
            r == self@.record(project_id, evidence_index),
    {
        match self.records.get(&project_id) {
            Some(list) => {
                if (evidence_index as usize) < list.len() && evidence_index <= usize::MAX as u64 {
                    Some(list[evidence_index as usize])
                } else {
                    None
                }
            },
            None => None,
        }
    }

    /// Whether the record exists and its hash is `expected_hash`.
    pub fn verify_evidence(&self, project_id: u64, evidence_index: u64, expected_hash: [u8; 32]) -> (r: bool)
        ensures
            r == match self@.record(project_id, evidence_index) {
                Some(e) => e.evidence_hash@ == expected_hash@,
                None => false,
            },
    {
        match self.get_evidence(project_id, evidence_index) {
            Some(e) => same_hash(&e.evidence_hash, &expected_hash),
            None => false,
        }
    }

    /// The number of records of `project_id`.
    pub fn get_evidence_count(&self, project_id: u64) -> (r: u64)
        ensures
            r == self@.of(project_id).len(),
    {
        match self.records.get(&project_id) {
            Some(list) => list.len() as u64,
            None => 0,
        }
    }

    /// The first records of `project_id`, oldest first: `limit` of them when
    /// `limit` is positive and below the count, else all of them.
    pub fn get_project_evidence(&self, project_id: u64, limit: u64) -> (r: Vec<Evidence>)
        ensures
            r@ == self@.of(project_id).take(self@.listed(project_id, limit) as int),
    {
        let count = self.get_evidence_count(project_id);
        let max_items = if limit > 0 && limit < count { limit } else { count };
        let mut results: Vec<Evidence> = Vec::new();
        let mut i: u64 = 0;
        while i < max_items
            invariant
                0 <= i <= max_items,
                max_items == self@.listed(project_id, limit),
                max_items <= self@.of(project_id).len(),
                results@ == self@.of(project_id).take(i as int),
            decreases max_items - i,
        {
            match self.get_evidence(project_id, i) {
                Some(e) => { results.push(e); },
                None => {},
            }
            assert(self@.of(project_id).take(i + 1) =~= self@.of(project_id).take(i as int).push(
                self@.of(project_id)[i as int],
            ));
            i = i + 1;
        }
        results
    }
}

} // verus!

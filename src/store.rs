use vstd::prelude::*;

verus! {

/// An account identity, compared by value.
pub type AccountId = u64;

/// A logical timestamp supplied by the host.
pub type BlockNumber = u64;

/// One live record of the store.
struct ProofEntry {
    claim: Vec<u8>,
    owner: AccountId,
    block: BlockNumber,
}

/// Returns whether two byte strings are equal.
pub fn same_bytes(a: &[u8], b: &[u8]) -> (r: bool)
    ensures
        r == (a@ == b@),
{
    if a.len() != b.len() {
        return false;
    }
    let mut i: usize = 0;
    while i < a.len()
        invariant
            a@.len() == b@.len(),
            i <= a@.len(),
            forall|j: int| 0 <= j < i ==> a@[j] == b@[j],
        decreases a@.len() - i,
    {
        if a[i] != b[i] {
            return false;
        }
        i = i + 1;
    }
    assert(a@ =~= b@);
    true
}

/// The store of claims: a map from a claim's bytes to its owner and block.
/// Each claim has at most one entry.
pub struct Proofs {
    entries: Vec<ProofEntry>,
    contents: Ghost<Map<Seq<u8>, (AccountId, BlockNumber)>>,
}

impl View for Proofs {
    type V = Map<Seq<u8>, (AccountId, BlockNumber)>;

    closed spec fn view(&self) -> Self::V {
        self.contents@
    }
}

impl Proofs {
    /// The entries have distinct claims, and the map holds exactly them.
    pub closed spec fn wf(&self) -> bool {
        &&& forall|i: int, j: int|
            0 <= i < j < self.entries@.len() ==> self.entries@[i].claim@
                != self.entries@[j].claim@
        &&& forall|i: int|
            0 <= i < self.entries@.len() ==> #[trigger] self.contents@.contains_key(
                self.entries@[i].claim@,
            ) && self.contents@[self.entries@[i].claim@] == (
                self.entries@[i].owner,
                self.entries@[i].block,
            )
        &&& forall|k: Seq<u8>|
            #[trigger] self.contents@.contains_key(k) ==> exists|i: int|
                0 <= i < self.entries@.len() && self.entries@[i].claim@ == k
    }

    /// An empty store.
    pub fn new() -> (r: Proofs)
        ensures
            r.wf(),
            r@ == Map::<Seq<u8>, (AccountId, BlockNumber)>::empty(),
    {
        Proofs { entries: Vec::new(), contents: Ghost(Map::empty()) }
    }

    /// The position of the entry for `claim`, if there is one.
    fn find(&self, claim: &[u8]) -> (r: Option<usize>)
        requires
            self.wf(),
        ensures
            match r {
                Some(i) => i < self.entries@.len() && self.entries@[i as int].claim@ == claim@,
                None => !self@.contains_key(claim@),
            },
    {
        let mut i: usize = 0;
        while i < self.entries.len()
            invariant
                self.wf(),
                i <= self.entries@.len(),
                forall|j: int| 0 <= j < i ==> self.entries@[j].claim@ != claim@,
            decreases self.entries@.len() - i,
        {
            if same_bytes(self.entries[i].claim.as_slice(), claim) {
                return Some(i);
            }
            i = i + 1;
        }
        None
    }

    /// The owner and block recorded for `claim`, if any.
    pub fn get(&self, claim: &[u8]) -> (r: Option<(AccountId, BlockNumber)>)
        requires
            self.wf(),
        ensures
            r == (if self@.contains_key(claim@) {
                Some(self@[claim@])
            } else {
                None
            }),
    {
        match self.find(claim) {
            Some(i) => Some((self.entries[i].owner, self.entries[i].block)),
            None => None,
        }
    }
    /// Whether a record exists for `claim`.
    pub fn contains_key(&self, claim: &[u8]) -> (r: bool)
        requires
            self.wf(),
        ensures
            r == self@.contains_key(claim@),
    {
        self.find(claim).is_some()
    }

    /// Records `owner` and `block` for `claim`, replacing any earlier record.
    pub fn insert(&mut self, claim: Vec<u8>, owner: AccountId, block: BlockNumber)
        requires
            old(self).wf(),
        ensures
            final(self).wf(),
            final(self)@ == old(self)@.insert(claim@, (owner, block)),
    {
        let ghost key = claim@;
        let ghost before = self.entries@;
        match self.find(claim.as_slice()) {
            Some(i) => {
                self.entries.set(i, ProofEntry { claim, owner, block });
                self.contents = Ghost(self.contents@.insert(key, (owner, block)));
                assert forall|j: int| 0 <= j < before.len() implies #[trigger] self.entries@[j].claim@
                    == before[j].claim@ by {}
                assert forall|k: Seq<u8>| #[trigger] self.contents@.contains_key(k) implies
                    exists|j: int| 0 <= j < self.entries@.len() && self.entries@[j].claim@ == k by {
                    if k != key {
                        let j = choose|j: int| 0 <= j < before.len() && before[j].claim@ == k;
                        assert(self.entries@[j].claim@ == k);
                    } else {
                        assert(self.entries@[i as int].claim@ == k);
                    }
                }
            },
            None => {
                self.entries.push(ProofEntry { claim, owner, block });
                self.contents = Ghost(self.contents@.insert(key, (owner, block)));
                let ghost n: int = before.len() as int;
                assert forall|k: Seq<u8>| #[trigger] self.contents@.contains_key(k) implies
                    exists|j: int| 0 <= j < self.entries@.len() && self.entries@[j].claim@ == k by {
                    if k != key {
                        let j = choose|j: int| 0 <= j < before.len() && before[j].claim@ == k;
                        assert(self.entries@[j].claim@ == k);
                    } else {
                        assert(self.entries@[n].claim@ == k);
                    }
                }
                assert forall|j: int| 0 <= j < n implies self.entries@[j].claim@ != key by {
                    assert(old(self).contents@.contains_key(before[j].claim@));
                }
            },
        }
    }

    /// Removes the record for `claim`, if there is one.
    pub fn remove(&mut self, claim: &[u8])
        requires
            old(self).wf(),
        ensures
            final(self).wf(),
            final(self)@ == old(self)@.remove(claim@),
    {
        let ghost before = self.entries@;
        match self.find(claim) {
            Some(i) => {
                self.entries.remove(i);
                self.contents = Ghost(self.contents@.remove(claim@));
                assert forall|k: Seq<u8>| #[trigger] self.contents@.contains_key(k) implies
                    exists|j: int| 0 <= j < self.entries@.len() && self.entries@[j].claim@ == k by {
                    let j = choose|j: int| 0 <= j < before.len() && before[j].claim@ == k;
                    assert(j != i);
                    if j < i {
                        assert(self.entries@[j].claim@ == k);
                    } else {
                        assert(self.entries@[j - 1].claim@ == k);
                    }
                }
            },
            None => {
                assert(self.contents@.remove(claim@) =~= self.contents@);
            },
        }
    }
}

} // verus!

use vstd::prelude::*;

use crate::accounts::copy_bytes;
use crate::accounts::bytes_eq;

verus! {

/// The persistent per-user allocation record: a single running counter of
/// presale units bought for that user.
pub struct UserAccount {
    pub tokens_assigned: u64,
}

/// One record of the presale ledger together with the derived address it is
/// stored under.
pub struct UserRecord {
    pub address: Vec<u8>,
    pub account: UserAccount,
}

/// The arena of allocation records, keyed by derived address: at most one
/// record per address, created lazily on first use and never destroyed.
pub struct PresaleLedger {
    pub records: Vec<UserRecord>,
}

/// The counter stored under `addr`, taking a missing record as zero (a
/// record is zero-initialized the moment it is allocated).
pub open spec fn rec_tokens(rs: Seq<UserRecord>, addr: Seq<u8>) -> u64
    decreases rs.len(),
{
    if rs.len() == 0 {
        0
    } else if rs.last().address@ == addr {
        rs.last().account.tokens_assigned
    } else {
        rec_tokens(rs.drop_last(), addr)
    }
}

/// Whether a record is stored under `addr`.
pub open spec fn rec_has(rs: Seq<UserRecord>, addr: Seq<u8>) -> bool
    decreases rs.len(),
{
    if rs.len() == 0 {
        false
    } else {
        rs.last().address@ == addr || rec_has(rs.drop_last(), addr)
    }
}

/// An address that appears under no record holds no tokens.
proof fn lemma_rec_absent(rs: Seq<UserRecord>, addr: Seq<u8>)
    requires
        forall|j: int| 0 <= j < rs.len() ==> rs[j].address@ != addr,
    ensures
        !rec_has(rs, addr),
        rec_tokens(rs, addr) == 0,
    decreases rs.len(),
{
    if rs.len() > 0 {
        assert(rs.last() == rs[rs.len() - 1]);
        lemma_rec_absent(rs.drop_last(), addr);
    }
}

/// A record unique for its address determines the counter stored there.
proof fn lemma_rec_at(rs: Seq<UserRecord>, i: int)
    requires
        0 <= i < rs.len(),
        forall|j: int| 0 <= j < rs.len() && j != i ==> rs[j].address@ != rs[i].address@,
    ensures
        rec_has(rs, rs[i].address@),
        rec_tokens(rs, rs[i].address@) == rs[i].account.tokens_assigned,
    decreases rs.len(),
{
    assert(rs.last() == rs[rs.len() - 1]);
    if i < rs.len() - 1 {
        assert(rs.last().address@ != rs[i].address@);
        assert(rs.drop_last()[i] == rs[i]);
        lemma_rec_at(rs.drop_last(), i);
    }
}

/// Replacing the record at its unique index changes the counter there and
/// nothing else.
proof fn lemma_rec_update(rs: Seq<UserRecord>, i: int, r: UserRecord, b: Seq<u8>)
    requires
        0 <= i < rs.len(),
        r.address@ == rs[i].address@,
        forall|j: int| 0 <= j < rs.len() && j != i ==> rs[j].address@ != rs[i].address@,
    ensures
        rec_has(rs.update(i, r), b) == rec_has(rs, b),
        rec_tokens(rs.update(i, r), b) == if b == r.address@ {
            r.account.tokens_assigned
        } else {
            rec_tokens(rs, b)
        },
    decreases rs.len(),
{
    let rs2 = rs.update(i, r);
    assert(rs.last() == rs[rs.len() - 1]);
    assert(rs2.last() == rs2[rs.len() - 1]);
    if i == rs.len() - 1 {
        assert(rs2.last() == r);
        assert(rs2.drop_last() =~= rs.drop_last());
    } else {
        assert(rs2.last() == rs.last());
        assert(rs.last().address@ != rs[i].address@);
        assert(rs2.drop_last() =~= rs.drop_last().update(i, r));
        assert(rs.drop_last()[i] == rs[i]);
        lemma_rec_update(rs.drop_last(), i, r, b);
    }
}

/// Appending a record under a fresh address creates that record and leaves
/// every other address as it was.
proof fn lemma_rec_push(rs: Seq<UserRecord>, r: UserRecord, b: Seq<u8>)
    ensures
        rec_has(rs.push(r), b) == (rec_has(rs, b) || r.address@ == b),
        rec_tokens(rs.push(r), b) == if r.address@ == b {
            r.account.tokens_assigned
        } else {
            rec_tokens(rs, b)
        },
{
    assert(rs.push(r).last() == r);
    assert(rs.push(r).drop_last() =~= rs);
}

impl PresaleLedger {
    /// At most one record exists per address.
    pub open spec fn wf(self) -> bool {
        forall|i: int, j: int|
            0 <= i < j < self.records@.len() ==> self.records@[i].address@
                != self.records@[j].address@
    }

    /// The counter credited to `addr`, zero while no record exists.
    pub open spec fn tokens_of(self, addr: Seq<u8>) -> u64 {
        rec_tokens(self.records@, addr)
    }

    /// Whether storage was ever allocated under `addr`.
    pub open spec fn has_record(self, addr: Seq<u8>) -> bool {
        rec_has(self.records@, addr)
    }

    /// An empty ledger: no user has bought anything yet.
    pub fn new() -> (l: PresaleLedger)
        ensures
            l.wf(),
            l.records@.len() == 0,
            forall|b: Seq<u8>| !l.has_record(b) && l.tokens_of(b) == 0,
    {
        PresaleLedger { records: Vec::new() }
    }

    /// The index of the record stored under `address`, if any.
    fn find_record(&self, address: &Vec<u8>) -> (r: Option<usize>)
        ensures
            r matches Some(i) ==> i < self.records@.len()
                && self.records@[i as int].address@ == address@,
            r is None ==> forall|j: int|
                0 <= j < self.records@.len() ==> self.records@[j].address@ != address@,
    {
        let n = self.records.len();
        let mut i: usize = 0;
        while i < n
            invariant
                n == self.records@.len(),
                i <= n,
                forall|j: int| 0 <= j < i ==> self.records@[j].address@ != address@,
            decreases n - i,
        {
            if bytes_eq(&self.records[i].address, address) {
                return Some(i);
            }
            i += 1;
        }
        None
    }

    /// The counter currently credited to `address`.
    pub fn lookup_tokens(&self, address: &Vec<u8>) -> (t: u64)
        requires
            self.wf(),
        ensures
            t == self.tokens_of(address@),
    {
        match self.find_record(address) {
            Some(i) => {
                proof {
                    lemma_rec_at(self.records@, i as int);
                }
                self.records[i].account.tokens_assigned
            },
            None => {
                proof {
                    lemma_rec_absent(self.records@, address@);
                }
                0
            },
        }
    }

    /// Whether a record was already allocated under `address`.
    pub fn record_exists(&self, address: &Vec<u8>) -> (r: bool)
        requires
            self.wf(),
        ensures
            r == self.has_record(address@),
    {
        match self.find_record(address) {
            Some(i) => {
                proof {
                    lemma_rec_at(self.records@, i as int);
                }
                true
            },
            None => {
                proof {
                    lemma_rec_absent(self.records@, address@);
                }
                false
            },
        }
    }

    /// Get-or-create the record under `address` and add `amount` to its
    /// counter: the abstract form of "derive, allocate on first use, then
    /// increment". Every other record is untouched, so the counter under
    /// any address never decreases.
    pub fn credit(&mut self, address: &Vec<u8>, amount: u64)
        requires
            old(self).wf(),
            old(self).tokens_of(address@) + amount <= u64::MAX,
        ensures
            (*final(self)).wf(),
            (*final(self)).has_record(address@),
            (*final(self)).tokens_of(address@) == old(self).tokens_of(address@) + amount,
            forall|b: Seq<u8>| b != address@ ==> (*final(self)).tokens_of(b) == old(
                self,
            ).tokens_of(b),
            forall|b: Seq<u8>| b != address@ ==> ((*final(self)).has_record(b) <==> old(
                self,
            ).has_record(b)),
    {
        let ghost rs0 = self.records@;
        match self.find_record(address) {
            Some(i) => {
                proof {
                    lemma_rec_at(rs0, i as int);
                }
                let tokens = self.records[i].account.tokens_assigned;
                let updated = UserRecord {
                    address: copy_bytes(address),
                    account: UserAccount { tokens_assigned: tokens + amount },
                };
                self.records.set(i, updated);
                proof {
                    assert(self.records@ == rs0.update(i as int, updated));
                    lemma_rec_update(rs0, i as int, updated, address@);
                    assert forall|b: Seq<u8>| b != address@ implies rec_tokens(self.records@, b)
                        == rec_tokens(rs0, b) && (rec_has(self.records@, b) == rec_has(
                        rs0,
                        b,
                    )) by {
                        lemma_rec_update(rs0, i as int, updated, b);
                    }
                    assert forall|p: int, q: int|
                        0 <= p < q < self.records@.len() implies self.records@[p].address@
                        != self.records@[q].address@ by {
                        assert(rs0[p].address@ != rs0[q].address@);
                    }
                }
            },
            None => {
                proof {
                    lemma_rec_absent(rs0, address@);
                }
                let fresh = UserRecord {
                    address: copy_bytes(address),
                    account: UserAccount { tokens_assigned: amount },
                };
                self.records.push(fresh);
                proof {
                    assert(self.records@ == rs0.push(fresh));
                    lemma_rec_push(rs0, fresh, address@);
                    assert forall|b: Seq<u8>| b != address@ implies rec_tokens(self.records@, b)
                        == rec_tokens(rs0, b) && (rec_has(self.records@, b) == rec_has(
                        rs0,
                        b,
                    )) by {
                        lemma_rec_push(rs0, fresh, b);
                    }
                    assert forall|p: int, q: int|
                        0 <= p < q < self.records@.len() implies self.records@[p].address@
                        != self.records@[q].address@ by {
                        if q == rs0.len() {
                            assert(rs0[p].address@ != address@);
                        } else {
                            assert(rs0[p].address@ != rs0[q].address@);
                        }
                    }
                }
            },
        }
    }
}

} // verus!

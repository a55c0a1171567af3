use vstd::prelude::*;

verus! {

/// A ledger account holding native currency, as this library models it:
/// its address bytes, its balance in the smallest currency unit, and
/// whether it cryptographically authorized the invoking transaction.
pub struct NativeAccount {
    pub address: Vec<u8>,
    pub balance: u64,
    pub is_signer: bool,
}

impl NativeAccount {
    /// The account keeps its identity and authorization; only the balance
    /// is allowed to move.
    pub open spec fn same_identity(self, other: NativeAccount) -> bool {
        &&& self.address@ == other.address@
        &&& self.is_signer == other.is_signer
    }

    /// Nothing about the account changed.
    pub open spec fn unchanged(self, other: NativeAccount) -> bool {
        self.same_identity(other) && self.balance == other.balance
    }
}

/// Byte-for-byte equality of two address strings.
pub fn bytes_eq(a: &Vec<u8>, b: &Vec<u8>) -> (r: bool)
    ensures
        r <==> a@ == b@,
{
    if a.len() != b.len() {
        return false;
    }
    let n = a.len();
    let mut i: usize = 0;
    while i < n
        invariant
            n == a@.len(),
            n == b@.len(),
            i <= n,
            forall|j: int| 0 <= j < i ==> a@[j] == b@[j],
        decreases n - i,
    {
        if a[i] != b[i] {
            return false;
        }
        i += 1;
    }
    proof {
        assert(a@ =~= b@);
    }
    true
}

/// A fresh copy of an address string.
pub fn copy_bytes(src: &Vec<u8>) -> (r: Vec<u8>)
    ensures
        r@ == src@,
{
    let n = src.len();
    let mut out: Vec<u8> = Vec::new();
    let mut i: usize = 0;
    while i < n
        invariant
            n == src@.len(),
            i <= n,
            out@.len() == i,
            forall|j: int| 0 <= j < i ==> out@[j] == src@[j],
        decreases n - i,
    {
        out.push(src[i]);
        i += 1;
    }
    proof {
        assert(out@ =~= src@);
    }
    out
}

} // verus!

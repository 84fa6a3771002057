use vstd::prelude::*;

verus! {

/// Length in bytes of a principal or account address on the host chain.
pub const ACCOUNT_ID_LEN: usize = 32;

/// An opaque 32-byte identifier: a principal (signer) or the address of a
/// token account. The table logic never looks inside one; it only stores
/// and compares them.
#[derive(Debug)]
pub struct AccountId {
    pub bytes: Vec<u8>,
}

impl View for AccountId {
    type V = Seq<u8>;

    open spec fn view(&self) -> Seq<u8> {
        self.bytes@
    }
}

impl AccountId {
    /// Well-formed: exactly 32 bytes.
    pub open spec fn wf(self) -> bool {
        self.bytes@.len() == ACCOUNT_ID_LEN
    }

    /// Wraps raw bytes; accepts exactly 32 of them.
    pub fn new(bytes: Vec<u8>) -> (r: Option<AccountId>)
        ensures
            bytes@.len() == ACCOUNT_ID_LEN ==> (r matches Some(a) && a@ == bytes@ && a.wf()),
            bytes@.len() != ACCOUNT_ID_LEN ==> r is None,
    {
        if bytes.len() == ACCOUNT_ID_LEN {
            Some(AccountId { bytes })
        } else {
            None
        }
    }

    /// Byte-for-byte equality of two identifiers.
    pub fn same_as(&self, other: &AccountId) -> (r: bool)
        ensures
            r == (self@ == other@),
    {
        if self.bytes.len() != other.bytes.len() {
            return false;
        }
        let mut i: usize = 0;
        while i < self.bytes.len()
            invariant
                0 <= i <= self.bytes@.len(),
                self.bytes@.len() == other.bytes@.len(),
                forall|j: int| 0 <= j < i ==> self.bytes@[j] == other.bytes@[j],
            decreases self.bytes@.len() - i,
        {
            if self.bytes[i] != other.bytes[i] {
                return false;
            }
            i += 1;
        }
        proof {
            assert(self@ =~= other@);
        }
        true
    }

    /// A copy holding the same bytes.
    pub fn duplicate(&self) -> (r: AccountId)
        ensures
            r@ == self@,
    {
        let mut v: Vec<u8> = Vec::new();
        let mut i: usize = 0;
        while i < self.bytes.len()
            invariant
                0 <= i <= self.bytes@.len(),
                v@ =~= self.bytes@.subrange(0, i as int),
            decreases self.bytes@.len() - i,
        {
            v.push(self.bytes[i]);
            i += 1;
        }
        proof {
            assert(v@ =~= self@);
        }
        AccountId { bytes: v }
    }
}

} // verus!

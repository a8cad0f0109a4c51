use vstd::prelude::*;

verus! {

/// Number of bytes in the identifier of a content address.
pub const DIGEST_LEN: usize = 32;

/// What a content address stands for: the identifier and the declared size
/// of the blob.
pub struct AddressView {
    pub value: Seq<u8>,
    pub len: nat,
}

/// Names an immutable blob in the remote store: a fixed-size identifier and
/// the number of bytes the blob is declared to have.
#[derive(Clone, Copy, Debug, PartialEq, Eq, Hash)]
pub struct ContentAddress {
    pub value: [u8; 32],
    pub len: u64,
}

impl View for ContentAddress {
    type V = AddressView;

    open spec fn view(&self) -> AddressView {
        AddressView { value: self.value@, len: self.len as nat }
    }
}

impl ContentAddress {
    pub fn new(value: [u8; 32], len: u64) -> (r: Self)
        ensures
            r.value == value,
            r.len == len,
    {
        ContentAddress { value, len }
    }

    /// Structural equality: the same identifier and the same declared length.
    pub fn same(&self, other: &ContentAddress) -> (r: bool)
        ensures
            r == (self@ == other@),
    {
        if self.len != other.len {
            return false;
        }
        let mut i: usize = 0;
        while i < DIGEST_LEN
            invariant
                i <= 32,
                forall|j: int| 0 <= j < i ==> self.value@[j] == other.value@[j],
            decreases 32 - i,
        {
            if self.value[i] != other.value[i] {
                return false;
            }
            i += 1;
        }
        assert(self.value@ =~= other.value@);
        true
    }
}

} // verus!

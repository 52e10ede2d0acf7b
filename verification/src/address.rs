//! Identities on the ledger: accounts, asset kinds, programs and authorities
//! are all named by a 32-byte address.

use vstd::prelude::*;

verus! {

/// The identity of an account, an asset or an authority.
#[derive(Clone, Copy, Debug)]
pub struct Address {
    pub bytes: [u8; 32],
}

impl View for Address {
    type V = Seq<u8>;

    open spec fn view(&self) -> Seq<u8> {
        self.bytes@
    }
}

impl Address {
    /// The address made of the given bytes.
    pub fn new(bytes: [u8; 32]) -> (r: Address)
        ensures
            r.bytes == bytes,
            r@ == bytes@,
    {
        Address { bytes }
    }

    /// The bytes of the address, as a growable buffer.
    pub fn to_vec(&self) -> (r: Vec<u8>)
        ensures
            r@ == self@,
    {
        let mut out: Vec<u8> = Vec::new();
        let mut i: usize = 0;
        while i < 32
            invariant
                i <= 32,
                out@ == self@.take(i as int),
            decreases 32 - i,
        {
            out.push(self.bytes[i]);
            assert(self@.take(i + 1) =~= self@.take(i as int).push(self@[i as int]));
            i += 1;
        }
        assert(self@.take(32) =~= self@);
        out
    }
}

impl PartialEq for Address {
    fn eq(&self, other: &Address) -> (r: bool) {
        let mut i: usize = 0;
        while i < 32
            invariant
                i <= 32,
                forall|j: int| 0 <= j < i ==> self.bytes[j] == other.bytes[j],
            decreases 32 - i,
        {
            if self.bytes[i] != other.bytes[i] {
                return false;
            }
            i += 1;
        }
        assert(self.bytes =~= other.bytes);
        true
    }
}

impl Eq for Address {}

impl vstd::std_specs::cmp::PartialEqSpecImpl for Address {
    open spec fn obeys_eq_spec() -> bool {
        true
    }

    open spec fn eq_spec(&self, other: &Address) -> bool {
        *self == *other
    }
}

/// Two addresses are the same exactly when their bytes are.
pub proof fn lemma_address_by_bytes(a: Address, b: Address)
    ensures
        (a == b) <==> (a@ == b@),
{
    if a@ == b@ {
        assert(forall|i: int| 0 <= i < 32 ==> a.bytes[i] == a@[i]);
        assert(forall|i: int| 0 <= i < 32 ==> b.bytes[i] == b@[i]);
        assert(a.bytes =~= b.bytes);
    }
}

} // verus!

//! Account addresses: 32 opaque bytes that name an owner, a validator, a
//! custody account or the ledger record itself.

use vstd::prelude::*;
use vstd::std_specs::cmp::PartialEqSpecImpl;

verus! {

/// A 32-byte account address.
///
/// The all-zero address is the *empty* sentinel: it marks an unused
/// validator slot and a cleared ownership proposal, and never names a
/// validator.
#[derive(Clone, Copy, Debug, Eq)]
pub struct Address {
    pub bytes: [u8; 32],
}

impl View for Address {
    type V = Seq<u8>;

    open spec fn view(&self) -> Seq<u8> {
        self.bytes@
    }
}

impl PartialEq for Address {
    fn eq(&self, other: &Address) -> (same: bool) {
        let mut i: usize = 0;
        while i < 32
            invariant
                i <= 32,
                forall|j: int| 0 <= j < i ==> self.bytes[j] == other.bytes[j],
            decreases 32 - i,
        {
            if self.bytes[i] != other.bytes[i] {
                return false;
            }
            i += 1;
        }
        assert(self.bytes =~= other.bytes);
        true
    }
}

impl PartialEqSpecImpl for Address {
    open spec fn obeys_eq_spec() -> bool {
        true
    }

    open spec fn eq_spec(&self, other: &Address) -> bool {
        *self == *other
    }
}

impl Address {
    /// The empty sentinel address, for use in contracts.
    pub open spec fn spec_empty() -> Address {
        Address { bytes: vstd::array::spec_array_fill_for_copy_type::<u8, 32>(0u8) }
    }

    /// Whether this is the empty sentinel, for use in contracts.
    pub open spec fn spec_is_empty(&self) -> bool {
        forall|i: int| 0 <= i < 32 ==> self.bytes[i] == 0
    }

    /// Wraps 32 bytes as an address.
    pub fn new(bytes: [u8; 32]) -> (a: Address)
        ensures
            a.bytes == bytes,
    {
        Address { bytes }
    }

    /// The empty sentinel address: 32 zero bytes.
    #[verifier::when_used_as_spec(spec_empty)]
    pub fn empty() -> (a: Address)
        ensures
            a == Address::spec_empty(),
            a.spec_is_empty(),
    {
        Address { bytes: [0u8; 32] }
    }

    /// Whether this is the empty sentinel.
    #[verifier::when_used_as_spec(spec_is_empty)]
    pub fn is_empty(&self) -> (r: bool)
        ensures
            r == self.spec_is_empty(),
    {
        let mut i: usize = 0;
        while i < 32
            invariant
                i <= 32,
                forall|j: int| 0 <= j < i ==> self.bytes[j] == 0,
            decreases 32 - i,
        {
            if self.bytes[i] != 0 {
                return false;
            }
            i += 1;
        }
        true
    }

    /// The address bytes.
    pub fn as_bytes(&self) -> (b: &[u8])
        ensures
            b@ == self@,
            b@.len() == 32,
    {
        self.bytes.as_slice()
    }
}

/// An address is the empty sentinel exactly when it equals [`Address::empty`].
pub proof fn lemma_empty_is_unique(a: Address)
    ensures
        a.spec_is_empty() <==> a == Address::spec_empty(),
{
    let e = Address::spec_empty();
    if a.spec_is_empty() {
        assert(a.bytes =~= e.bytes);
    }
}

} // verus!

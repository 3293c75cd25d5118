//! 32-byte values: account addresses, threshold names and vault labels.

use vstd::prelude::*;

verus! {

/// The address of an account: 32 bytes, compared byte for byte.
#[derive(Clone, Copy, Debug, Eq)]
pub struct Pubkey {
    pub bytes: [u8; 32],
}

impl View for Pubkey {
    type V = Seq<u8>;

    open spec fn view(&self) -> Seq<u8> {
        self.bytes@
    }
}

/// Whether every byte of `bytes` is zero.
pub open spec fn all_zero(bytes: Seq<u8>) -> bool {
    forall|i: int| 0 <= i < bytes.len() ==> bytes[i] == 0
}

/// Values of 32 bytes with the same bytes are the same.
pub(crate) proof fn lemma_same_view(a: [u8; 32], b: [u8; 32])
    requires
        a@ == b@,
    ensures
        a == b,
{
    assert forall|i: int| 0 <= i < 32 implies a[i] == b[i] by {
        assert(a@[i] == b@[i]);
    }
    assert(a =~= b);
}

/// Compares two 32-byte values.
pub(crate) fn same_bytes(a: &[u8; 32], b: &[u8; 32]) -> (same: bool)
    ensures
        same == (*a == *b),
{
    for i in 0..32usize
        invariant
            forall|j: int| 0 <= j < i ==> a@[j] == b@[j],
    {
        if a[i] != b[i] {
            return false;
        }
    }
    assert(*a =~= *b);
    true
}

/// Whether a 32-byte value is the all-zero one.
pub(crate) fn is_zero(bytes: &[u8; 32]) -> (zero: bool)
    ensures
        zero == all_zero(bytes@),
{
    for i in 0..32usize
        invariant
            forall|j: int| 0 <= j < i ==> bytes@[j] == 0,
    {
        if bytes[i] != 0 {
            return false;
        }
    }
    true
}

impl Pubkey {
    /// The address with the given bytes.
    pub fn new(bytes: [u8; 32]) -> (key: Pubkey)
        ensures
            key.bytes == bytes,
    {
        Pubkey { bytes }
    }
}

impl PartialEq for Pubkey {
    fn eq(&self, other: &Pubkey) -> (same: bool) {
        same_bytes(&self.bytes, &other.bytes)
    }
}

impl vstd::std_specs::cmp::PartialEqSpecImpl for Pubkey {
    open spec fn obeys_eq_spec() -> bool {
        true
    }

    open spec fn eq_spec(&self, other: &Pubkey) -> bool {
        *self == *other
    }
}

impl Default for Pubkey {
    /// The all-zero address.
    fn default() -> (key: Pubkey)
        ensures
            all_zero(key@),
            forall|i: int| 0 <= i < 32 ==> #[trigger] key.bytes@[i] == 0,
    {
        Pubkey { bytes: [0u8; 32] }
    }
}

} // verus!

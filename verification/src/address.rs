//! Account addresses: thirty-two opaque bytes.
use vstd::prelude::*;

verus! {

/// Number of bytes in an account address.
pub const ADDRESS_BYTES: usize = 32;

/// The address of an account on the ledger.
pub type Address = [u8; 32];

/// Whether every byte of `bytes` is zero. A buffer of length zero counts.
pub open spec fn all_zero(bytes: Seq<u8>) -> bool {
    forall|i: int| 0 <= i < bytes.len() ==> bytes[i] == 0u8
}

/// Byte-wise comparison of two addresses.
pub fn same_address(a: &Address, b: &Address) -> (same: bool)
    ensures
        same == (a@ == b@),
{
    let mut i: usize = 0;
    while i < 32
        invariant
            i <= 32,
            forall|j: int| 0 <= j < i ==> a@[j] == b@[j],
        decreases 32 - i,
    {
        if a[i] != b[i] {
            return false;
        }
        i += 1;
    }
    assert(a@ =~= b@);
    true
}

/// Copies the address stored at `bytes[at .. at + 32]`.
pub fn read_address(bytes: &[u8], at: usize) -> (out: Address)
    requires
        at + 32 <= bytes@.len(),
    ensures
        out@ == bytes@.subrange(at as int, at + 32),
{
    let len: usize = bytes.len();
    let mut out: Address = [0u8; 32];
    let mut i: usize = 0;
    while i < 32
        invariant
            i <= 32,
            at + 32 <= len == bytes@.len(),
            forall|j: int| 0 <= j < i ==> out@[j] == bytes@[at + j],
        decreases 32 - i,
    {
        out[i] = bytes[at + i];
        i += 1;
    }
    out
}

/// Whether a buffer holds nothing but zero bytes.
pub fn is_zeroed(bytes: &[u8]) -> (zeroed: bool)
    ensures
        zeroed == all_zero(bytes@),
{
    let mut i: usize = 0;
    while i < bytes.len()
        invariant
            i <= bytes@.len(),
            forall|j: int| 0 <= j < i ==> bytes@[j] == 0u8,
        decreases bytes@.len() - i,
    {
        if bytes[i] != 0 {
            return false;
        }
        i += 1;
    }
    true
}

} // verus!

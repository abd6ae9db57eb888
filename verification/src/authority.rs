//! Authority derivation: the address that controls a fundraiser's record
//! and vault, and the proof that lets the program sign for it.
//!
//! The address is derived from a fixed namespace tag and the maker's
//! address; no private key exists for it. The derivation itself is the
//! ledger's program-address scheme and is computed by `solana_program`.
use vstd::prelude::*;
use crate::address::Address;

verus! {

/// What `Pubkey::try_find_program_address` yields for the given seeds and
/// program: the derived address with its bump seed, or `None` where no bump
/// seed gives a usable address.
pub uninterp spec fn program_address(seeds: Seq<Seq<u8>>, program: Seq<u8>) -> Option<
    (Seq<u8>, u8),
>;

/// A derived address together with the bump seed that proves the
/// derivation.
#[derive(Clone, Copy, Debug, PartialEq, Eq)]
pub struct Authority {
    /// The derived address.
    pub address: Address,
    /// The bump seed found by the derivation.
    pub bump: u8,
}

impl View for Authority {
    type V = (Seq<u8>, u8);

    open spec fn view(&self) -> (Seq<u8>, u8) {
        (self.address@, self.bump)
    }
}

/// The view of an optional authority.
pub open spec fn authority_view(authority: Option<Authority>) -> Option<(Seq<u8>, u8)> {
    match authority {
        Some(a) => Some(a@),
        None => None,
    }
}

/// The namespace tag under which fundraiser addresses are derived: the
/// ASCII bytes of `fundraiser`.
pub open spec fn fundraiser_tag() -> Seq<u8> {
    seq![102u8, 117u8, 110u8, 100u8, 114u8, 97u8, 105u8, 115u8, 101u8, 114u8]
}

/// The namespace tag under which contributor records are derived: the ASCII
/// bytes of `contributor`.
pub open spec fn contributor_tag() -> Seq<u8> {
    seq![99u8, 111u8, 110u8, 116u8, 114u8, 105u8, 98u8, 117u8, 116u8, 111u8, 114u8]
}

/// The authority of the fundraiser that `maker` opens under `program`.
pub open spec fn fundraiser_authority(maker: Seq<u8>, program: Seq<u8>) -> Option<(Seq<u8>, u8)> {
    program_address(seq![fundraiser_tag(), maker], program)
}

/// The address of the record that holds what `contributor` has deposited
/// with the fundraiser at `fundraiser`.
pub open spec fn contributor_authority(
    fundraiser: Seq<u8>,
    contributor: Seq<u8>,
    program: Seq<u8>,
) -> Option<(Seq<u8>, u8)> {
    program_address(seq![contributor_tag(), fundraiser, contributor], program)
}

/// The byte strings that a list of seeds holds, in order.
pub open spec fn seed_bytes(seeds: Seq<&[u8]>) -> Seq<Seq<u8>> {
    seeds.map_values(|seed: &[u8]| seed@)
}

/// Calls `solana_program::pubkey::Pubkey::try_find_program_address`. The
/// result is a function of the seeds and the program alone; it is named
/// [`program_address`] and not unfolded.
#[verifier::external_body]
fn find_program_address(seeds: &[&[u8]], program: &Address) -> (found: Option<Authority>)
    ensures
        authority_view(found) == program_address(seed_bytes(seeds@), program@),
{
    let program = solana_program::pubkey::Pubkey::new_from_array(*program);
    match solana_program::pubkey::Pubkey::try_find_program_address(seeds, &program) {
        Some((address, bump)) => Some(Authority { address: address.to_bytes(), bump }),
        None => None,
    }
}

/// The namespace tag of fundraiser addresses.
pub fn fundraiser_tag_bytes() -> (tag: [u8; 10])
    ensures
        tag@ == fundraiser_tag(),
{
    let tag: [u8; 10] = [102, 117, 110, 100, 114, 97, 105, 115, 101, 114];
    tag
}

/// The namespace tag of contributor record addresses.
pub fn contributor_tag_bytes() -> (tag: [u8; 11])
    ensures
        tag@ == contributor_tag(),
{
    let tag: [u8; 11] = [99, 111, 110, 116, 114, 105, 98, 117, 116, 111, 114];
    tag
}

/// Derives the authority of the fundraiser that `maker` opens under
/// `program`.
pub fn derive_fundraiser(maker: &Address, program: &Address) -> (found: Option<Authority>)
    ensures
        authority_view(found) == fundraiser_authority(maker@, program@),
{
    let tag = fundraiser_tag_bytes();
    let seeds: [&[u8]; 2] = [tag.as_slice(), maker.as_slice()];
    assert(seed_bytes(seeds@) =~= seq![fundraiser_tag(), maker@]);
    find_program_address(seeds.as_slice(), program)
}

/// Derives the address of the record of `contributor` with the fundraiser
/// at `fundraiser`.
pub fn derive_contributor(fundraiser: &Address, contributor: &Address, program: &Address) -> (found:
    Option<Authority>)
    ensures
        authority_view(found) == contributor_authority(fundraiser@, contributor@, program@),
{
    let tag = contributor_tag_bytes();
    let seeds: [&[u8]; 3] = [tag.as_slice(), fundraiser.as_slice(), contributor.as_slice()];
    assert(seed_bytes(seeds@) =~= seq![contributor_tag(), fundraiser@, contributor@]);
    find_program_address(seeds.as_slice(), program)
}

} // verus!

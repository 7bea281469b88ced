//! Addresses that the program owns, derived from a seed tag and the program's identity.

use vstd::prelude::*;
use solana_program::pubkey::Pubkey;
use crate::identity::Identity;
use crate::state::ProxyState;

verus! {

/// The seed tags under which the proxy derives its two addresses.
#[derive(Clone, Copy, Debug, PartialEq, Eq, Structural)]
pub enum SeedTag {
    /// Tag of the address of the state account.
    State,
    /// Tag of the address in whose name the proxy calls the token program.
    Authority,
}

impl SeedTag {
    /// The bytes of the tag.
    pub open spec fn spec_bytes(self) -> Seq<u8> {
        match self {
            SeedTag::State => ProxyState::STATE_SEED@,
            SeedTag::Authority => ProxyState::AUTHORITY_SEED@,
        }
    }

    /// Gives the bytes of the tag.
    pub fn bytes(self) -> (seed: &'static [u8])
        ensures
            seed@ == self.spec_bytes(),
    {
        match self {
            SeedTag::State => &ProxyState::STATE_SEED,
            SeedTag::Authority => &ProxyState::AUTHORITY_SEED,
        }
    }
}

/// What shows the host that the program controls a derived address: the seed tag and the
/// bump from which the address is derived again. It takes the place of a signature.
#[derive(Clone, Copy, Debug, PartialEq, Eq, Structural)]
pub struct SigningProof {
    pub tag: SeedTag,
    pub bump: u8,
}

/// The address that the host derives from `seed` for the program `program_id`, with the bump
/// that it found for it; `None` where no bump gives an address. It is a function of the seed
/// and the program's identity alone.
pub uninterp spec fn program_address(seed: Seq<u8>, program_id: Seq<u8>) -> Option<(Seq<u8>, u8)>;

/// A derived address and bump, as mathematical values.
pub open spec fn derived_view(derived: Option<(Identity, u8)>) -> Option<(Seq<u8>, u8)> {
    match derived {
        Some((address, bump)) => Some((address@, bump)),
        None => None,
    }
}

/// Whether `supplied` is the address of `derived`. No address matches a derivation that
/// found none.
pub open spec fn is_derived_address(derived: Option<(Seq<u8>, u8)>, supplied: Seq<u8>) -> bool {
    derived is Some && derived->Some_0.0 == supplied
}

/// Calls `Pubkey::try_find_program_address` of `solana_program` with the one seed `seed`.
///
/// Trusted: the result is the named derivation of the seed and the program's identity. The
/// outside function hashes them with each bump from 255 down and returns the first hash that
/// is no point of the curve; it reads nothing else, and returns `None` rather than panic.
#[verifier::external_body]
pub(crate) fn try_find_program_address(seed: &[u8], program_id: &Identity) -> (derived: Option<
    (Identity, u8),
>)
    ensures
        derived_view(derived) == program_address(seed@, program_id@),
{
    let program = Pubkey::new_from_array(program_id.bytes);
    match Pubkey::try_find_program_address(&[seed], &program) {
        Some((address, bump)) => Some((Identity { bytes: address.to_bytes() }, bump)),
        None => None,
    }
}

/// Derives the address that the program `program_id` owns under `tag`, and its bump.
pub fn find_program_address(tag: SeedTag, program_id: &Identity) -> (derived: Option<
    (Identity, u8),
>)
    ensures
        derived_view(derived) == program_address(tag.spec_bytes(), program_id@),
{
    try_find_program_address(tag.bytes(), program_id)
}

} // verus!

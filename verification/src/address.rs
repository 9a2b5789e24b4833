//! Account addresses, and the addresses that are derived rather than chosen.

use vstd::prelude::*;

verus! {

/// The address of an account: thirty-two bytes, compared byte for byte.
#[derive(Clone, Copy, Debug, PartialEq, Eq)]
pub struct Address {
    pub bytes: [u8; 32],
}

impl View for Address {
    type V = Seq<u8>;

    open spec fn view(&self) -> Seq<u8> {
        self.bytes@
    }
}

impl Address {
    /// The address with the given bytes.
    pub fn new(bytes: [u8; 32]) -> (address: Address)
        ensures
            address.bytes == bytes,
    {
        Address { bytes }
    }

    /// The bytes of this address.
    pub fn to_bytes(&self) -> (bytes: [u8; 32])
        ensures
            bytes == self.bytes,
    {
        self.bytes
    }

    /// Whether two addresses agree in every byte.
    pub fn same_as(&self, other: &Address) -> (same: bool)
        ensures
            same == (*self == *other),
            same == (self@ == other@),
    {
        let mut i: usize = 0;
        while i < 32
            invariant
                i <= 32,
                forall|k: int| 0 <= k < i ==> self.bytes[k] == other.bytes[k],
            decreases 32 - i,
        {
            if self.bytes[i] != other.bytes[i] {
                return false;
            }
            i += 1;
        }
        assert(self.bytes =~= other.bytes);
        true
    }
}

/// The byte strings of a list of seeds.
pub open spec fn seed_list(seeds: Seq<Vec<u8>>) -> Seq<Seq<u8>> {
    seeds.map_values(|seed: Vec<u8>| seed@)
}

/// The address that the host derives for a program from a list of seeds, with
/// the bump seed that made it valid, or `None` where the host finds none.
pub uninterp spec fn derived_program_address(seeds: Seq<Seq<u8>>, program_id: Seq<u8>) -> Option<
    (Seq<u8>, u8),
>;

/// The address that the host derives from a base address, a seed and an
/// owner, or `None` where it refuses the seed or the owner.
pub uninterp spec fn seeded_address(base: Seq<u8>, seed: Seq<char>, owner: Seq<u8>) -> Option<
    Seq<u8>,
>;

/// Calls `solana_program::pubkey::Pubkey::try_find_program_address`. The
/// result depends on the seeds and on the program's address alone; the
/// contract gives it the name [`derived_program_address`] and adds nothing
/// about its value.
#[verifier::external_body]
pub(crate) fn find_program_address(seeds: &Vec<Vec<u8>>, program_id: &Address) -> (found: Option<
    (Address, u8),
>)
    ensures
        match found {
            Some((address, bump)) => derived_program_address(seed_list(seeds@), program_id@)
                == Some((address@, bump)),
            None => derived_program_address(seed_list(seeds@), program_id@).is_none(),
        },
{
    let parts: Vec<&[u8]> = seeds.iter().map(|seed| seed.as_slice()).collect();
    let program = solana_program::pubkey::Pubkey::new_from_array(program_id.bytes);
    solana_program::pubkey::Pubkey::try_find_program_address(&parts, &program).map(
        |(address, bump)| (Address { bytes: address.to_bytes() }, bump),
    )
}

/// Calls `solana_program::pubkey::Pubkey::create_with_seed`. The result
/// depends on the base, the seed and the owner alone; the contract gives it
/// the name [`seeded_address`] and adds nothing about its value.
#[verifier::external_body]
pub(crate) fn address_with_seed(base: &Address, seed: &str, owner: &Address) -> (found: Option<
    Address,
>)
    ensures
        match found {
            Some(address) => seeded_address(base@, seed@, owner@) == Some(address@),
            None => seeded_address(base@, seed@, owner@).is_none(),
        },
{
    let base = solana_program::pubkey::Pubkey::new_from_array(base.bytes);
    let owner = solana_program::pubkey::Pubkey::new_from_array(owner.bytes);
    solana_program::pubkey::Pubkey::create_with_seed(&base, seed, &owner).ok().map(
        |address| Address { bytes: address.to_bytes() },
    )
}

/// The bytes of the system program's address, `11111111111111111111111111111111`
/// in base 58.
pub open spec fn system_program_bytes() -> Seq<u8> {
    seq![
        0u8, 0u8, 0u8, 0u8, 0u8, 0u8, 0u8, 0u8,
        0u8, 0u8, 0u8, 0u8, 0u8, 0u8, 0u8, 0u8,
        0u8, 0u8, 0u8, 0u8, 0u8, 0u8, 0u8, 0u8,
        0u8, 0u8, 0u8, 0u8, 0u8, 0u8, 0u8, 0u8,
    ]
}

/// The bytes of the rent sysvar's address,
/// `SysvarRent111111111111111111111111111111111` in base 58.
pub open spec fn rent_sysvar_bytes() -> Seq<u8> {
    seq![
        6u8, 167u8, 213u8, 23u8, 25u8, 44u8, 92u8, 81u8,
        33u8, 140u8, 201u8, 76u8, 61u8, 74u8, 241u8, 127u8,
        88u8, 218u8, 238u8, 8u8, 155u8, 161u8, 253u8, 68u8,
        227u8, 219u8, 217u8, 138u8, 0u8, 0u8, 0u8, 0u8,
    ]
}

/// The bytes of the token program's address,
/// `TokenkegQfeZyiNwAJbNbGKPFXCWuBvf9Ss623VQ5DA` in base 58.
pub open spec fn token_program_bytes() -> Seq<u8> {
    seq![
        6u8, 221u8, 246u8, 225u8, 215u8, 101u8, 161u8, 147u8,
        217u8, 203u8, 225u8, 70u8, 206u8, 235u8, 121u8, 172u8,
        28u8, 180u8, 133u8, 237u8, 95u8, 91u8, 55u8, 145u8,
        58u8, 140u8, 245u8, 133u8, 126u8, 255u8, 0u8, 169u8,
    ]
}

/// Calls `solana_program::system_program::id`, which returns the address
/// that the crate declares for the system program.
#[verifier::external_body]
#[allow(deprecated)]
pub(crate) fn system_program_id() -> (id: Address)
    ensures
        id@ == system_program_bytes(),
{
    Address { bytes: solana_program::system_program::id().to_bytes() }
}

/// Calls `solana_program::sysvar::rent::id`, which returns the address that
/// the crate declares for the rent sysvar.
#[verifier::external_body]
pub(crate) fn rent_sysvar_id() -> (id: Address)
    ensures
        id@ == rent_sysvar_bytes(),
{
    Address { bytes: solana_program::sysvar::rent::id().to_bytes() }
}

/// Calls `spl_token::id`, which returns the address that the crate declares
/// for the token program.
#[verifier::external_body]
pub(crate) fn token_program_id() -> (id: Address)
    ensures
        id@ == token_program_bytes(),
{
    Address { bytes: spl_token::id().to_bytes() }
}

/// The text of an address in base 58, as the host prints it.
pub uninterp spec fn address_text(address: Seq<u8>) -> Seq<char>;

/// Calls `to_string` on a `solana_program::pubkey::Pubkey`, which prints the
/// address in base 58. The text depends on the bytes alone; the contract
/// gives it the name [`address_text`].
#[verifier::external_body]
pub(crate) fn address_to_text(address: &Address) -> (text: String)
    ensures
        text@ == address_text(address@),
{
    solana_program::pubkey::Pubkey::new_from_array(address.bytes).to_string()
}

/// The bytes of an address as a seed.
pub fn address_seed(address: &Address) -> (seed: Vec<u8>)
    ensures
        seed@ == address@,
{
    let mut seed: Vec<u8> = Vec::new();
    let mut i: usize = 0;
    while i < 32
        invariant
            i <= 32,
            seed@ == address@.take(i as int),
        decreases 32 - i,
    {
        seed.push(address.bytes[i]);
        assert(seed@ =~= address@.take(i + 1));
        i += 1;
    }
    assert(address@.take(32) =~= address@);
    seed
}

} // verus!

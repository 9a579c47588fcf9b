//! Identities of principals and records, and the derivation of the address at
//! which a profile or a pot is kept.

use vstd::prelude::*;
use vstd::string::StringSliceAdditionalSpecFns;
use crate::error::CadpayError;

verus! {

/// A 32-byte identity: a principal, a program, or the place of a record.
#[derive(Clone, Copy, Debug, PartialEq, Eq)]
pub struct Address {
    pub bytes: [u8; 32],
}

impl View for Address {
    type V = Seq<u8>;

    open spec fn view(&self) -> Seq<u8> {
        self.bytes@
    }
}

impl Address {
    /// The identity made of the given bytes.
    pub fn new(bytes: [u8; 32]) -> (r: Address)
        ensures
            r.bytes == bytes,
    {
        Address { bytes }
    }

    /// Whether two identities are the same, byte for byte.
    pub fn same(&self, other: &Address) -> (r: bool)
        ensures
            r == (*self == *other),
    {
        let mut i: usize = 0;
        while i < 32
            invariant
                i <= 32,
                forall|j: int| 0 <= j < i ==> self.bytes[j] == other.bytes[j],
            decreases 32 - i,
        {
            if self.bytes[i] != other.bytes[i] {
                return false;
            }
            i += 1;
        }
        proof {
            assert(self.bytes =~= other.bytes);
        }
        true
    }
}

/// Two identities with the same bytes are one identity.
pub proof fn address_by_view(a: Address, b: Address)
    requires
        a@ == b@,
    ensures
        a == b,
{
    assert forall|i: int| 0 <= i < 32 implies a.bytes[i] == b.bytes[i] by {
        assert(a.bytes[i] == a@[i]);
        assert(b.bytes[i] == b@[i]);
    }
    assert(a.bytes =~= b.bytes);
}

/// The program that owns the records.
pub fn program_id() -> (r: Address)
    ensures
        r@ == seq![
            81u8, 178, 247, 174, 200, 161, 178, 190, 43, 51, 37, 245, 214, 168, 224, 11,
            90, 5, 207, 251, 9, 81, 85, 228, 198, 43, 247, 85, 30, 148, 161, 179,
        ],
{
    let bytes: [u8; 32] = [
        81, 178, 247, 174, 200, 161, 178, 190, 43, 51, 37, 245, 214, 168, 224, 11,
        90, 5, 207, 251, 9, 81, 85, 228, 198, 43, 247, 85, 30, 148, 161, 179,
    ];
    let r = Address { bytes };
    proof {
        assert(r@ =~= seq![
            81u8, 178, 247, 174, 200, 161, 178, 190, 43, 51, 37, 245, 214, 168, 224, 11,
            90, 5, 207, 251, 9, 81, 85, 228, 198, 43, 247, 85, 30, 148, 161, 179,
        ]);
    }
    r
}

/// The first seed of a profile's address.
pub open spec fn profile_tag() -> Seq<u8> {
    "user-profile-v1".spec_bytes()
}

/// The first seed of a pot's address.
pub open spec fn pot_tag() -> Seq<u8> {
    "savings-pot-v1".spec_bytes()
}

/// The address and bump that the seeds give under a program, where there is one.
pub uninterp spec fn program_address(seeds: Seq<Seq<u8>>, program_id: Seq<u8>) -> Option<(Seq<u8>, u8)>;

/// The seeds as byte sequences.
pub open spec fn seed_bytes(seeds: Seq<&[u8]>) -> Seq<Seq<u8>> {
    Seq::new(seeds.len(), |i: int| seeds[i]@)
}

/// Calls `Pubkey::try_find_program_address` of solana_program. The search there
/// depends on the seeds and the program alone, so its answer is named
/// `program_address`: the address and the bump where it finds one, `None` where
/// no bump gives an address off the curve, or where the seeds are too many or
/// too long for an address to be made of them. Nothing more is claimed of it.
#[verifier::external_body]
fn find_program_address(seeds: &Vec<&[u8]>, program_id: &[u8; 32]) -> (r: Option<([u8; 32], u8)>)
    ensures
        match r {
            Some((key, bump)) => program_address(seed_bytes(seeds@), program_id@) == Some((key@, bump)),
            None => program_address(seed_bytes(seeds@), program_id@) is None,
        },
{
    let id = anchor_lang::solana_program::pubkey::Pubkey::new_from_array(*program_id);
    anchor_lang::solana_program::pubkey::Pubkey::try_find_program_address(seeds.as_slice(), &id)
        .map(|found| (found.0.to_bytes(), found.1))
}

/// The identity with the given bytes.
pub open spec fn address_with(bytes: Seq<u8>) -> Address {
    choose|a: Address| a@ == bytes
}

/// What a derivation returns for an answer of the search.
pub open spec fn derivation(found: Option<(Seq<u8>, u8)>) -> Result<(Address, u8), CadpayError> {
    match found {
        Some((bytes, bump)) => Ok((address_with(bytes), bump)),
        None => Err(CadpayError::DerivationExhausted),
    }
}

/// The address and bump of the profile of `owner` under `program`.
pub open spec fn profile_address(program: Address, owner: Address) -> Result<(Address, u8), CadpayError> {
    derivation(program_address(seq![profile_tag(), owner@], program@))
}

/// The address and bump of the pot `name` of `owner` under `program`.
pub open spec fn pot_address(program: Address, owner: Address, name: Seq<char>) -> Result<
    (Address, u8),
    CadpayError,
> {
    derivation(program_address(seq![pot_tag(), owner@, vstd::utf8::encode_utf8(name)], program@))
}

/// Searches the address for the seeds and turns the answer into a result.
fn derive(seeds: &Vec<&[u8]>, program: &Address) -> (r: Result<(Address, u8), CadpayError>)
    ensures
        r == derivation(program_address(seed_bytes(seeds@), program@)),
{
    match find_program_address(seeds, &program.bytes) {
        Some((key, bump)) => {
            let address = Address { bytes: key };
            proof {
                assert(address@ == key@);
                address_by_view(address, address_with(key@));
            }
            Ok((address, bump))
        },
        None => Err(CadpayError::DerivationExhausted),
    }
}

/// Derives the address at which the profile of `owner` is kept, and its bump.
/// Fails with `DerivationExhausted` where the search finds none.
pub fn derive_profile_address(program: &Address, owner: &Address) -> (r: Result<(Address, u8), CadpayError>)
    ensures
        r == profile_address(*program, *owner),
{
    let mut seeds: Vec<&[u8]> = Vec::new();
    seeds.push("user-profile-v1".as_bytes());
    seeds.push(owner.bytes.as_slice());
    proof {
        assert(seed_bytes(seeds@) =~= seq![profile_tag(), owner@]);
    }
    derive(&seeds, program)
}

/// Derives the address at which the pot `name` of `owner` is kept, and its bump.
/// Fails with `DerivationExhausted` where the search finds none.
pub fn derive_pot_address(program: &Address, owner: &Address, name: &str) -> (r: Result<(Address, u8), CadpayError>)
    ensures
        r == pot_address(*program, *owner, name@),
{
    let mut seeds: Vec<&[u8]> = Vec::new();
    seeds.push("savings-pot-v1".as_bytes());
    seeds.push(owner.bytes.as_slice());
    seeds.push(name.as_bytes());
    proof {
        assert(seed_bytes(seeds@) =~= seq![pot_tag(), owner@, vstd::utf8::encode_utf8(name@)]);
    }
    derive(&seeds, program)
}

} // verus!

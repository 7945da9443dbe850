//! Thirty-two-byte addresses and addresses derived from seeds.

use vstd::prelude::*;

verus! {

/// Number of bytes in an address.
pub const ADDRESS_BYTES: usize = 32;

/// A 32-byte identifier of an account or a program.
#[derive(Clone, Copy, Debug, Eq)]
pub struct Address {
    pub bytes: [u8; 32],
}

impl View for Address {
    type V = Seq<u8>;

    open spec fn view(&self) -> Seq<u8> {
        self.bytes@
    }
}

impl PartialEq for Address {
    fn eq(&self, other: &Self) -> (r: bool) {
        let mut i: usize = 0;
        while i < 32
            invariant
                i <= 32,
                forall|j: int| 0 <= j < i ==> self.bytes@[j] == other.bytes@[j],
            decreases 32 - i,
        {
            if self.bytes[i] != other.bytes[i] {
                return false;
            }
            i = i + 1;
        }
        assert(self.bytes@ =~= other.bytes@);
        true
    }
}

impl vstd::std_specs::cmp::PartialEqSpecImpl for Address {
    open spec fn obeys_eq_spec() -> bool {
        true
    }

    open spec fn eq_spec(&self, other: &Self) -> bool {
        self@ == other@
    }
}

impl Address {
    /// The address made of the given bytes.
    pub fn new_from_array(bytes: [u8; 32]) -> (a: Self)
        ensures
            a@ == bytes@,
            a.bytes == bytes,
    {
        Address { bytes }
    }

    /// The bytes of the address.
    pub fn as_array(&self) -> (bytes: &[u8; 32])
        ensures
            bytes@ == self@,
            *bytes == self.bytes,
    {
        &self.bytes
    }

    /// The bytes of the address, copied out.
    pub fn to_bytes(&self) -> (bytes: [u8; 32])
        ensures
            bytes@ == self@,
            bytes == self.bytes,
    {
        self.bytes
    }
}

/// Two addresses with the same bytes are the same address.
pub proof fn lemma_address_by_bytes(a: Address, b: Address)
    ensures
        a@.len() == 32,
        (a@ == b@) <==> (a == b),
{
    if a@ == b@ {
        assert(a.bytes =~= b.bytes);
    }
}

/// What `solana_address::Address::try_find_program_address` returns for the
/// given seeds and program identifier: the address that the program owns
/// under the seeds and the bump byte that completes them, or `None` where
/// the search finds none. The search is a fixed function of the seeds and
/// the program identifier; nothing more is claimed of it.
pub uninterp spec fn program_address(seeds: Seq<Seq<u8>>, program_id: Seq<u8>) -> Option<
    (Seq<u8>, u8),
>;

/// A list of seeds as plain values.
pub open spec fn seeds_view(seeds: Seq<Vec<u8>>) -> Seq<Seq<u8>> {
    Seq::new(seeds.len(), |i: int| seeds[i]@)
}

/// Whether `candidate` is the address of the derivation `derived`.
pub open spec fn is_derived(candidate: Seq<u8>, derived: Option<(Seq<u8>, u8)>) -> bool {
    derived matches Some(found) && found.0 == candidate
}

/// A derivation result as plain values.
pub open spec fn derivation_view(derived: Option<(Address, u8)>) -> Option<(Seq<u8>, u8)> {
    match derived {
        Some(found) => Some((found.0@, found.1)),
        None => None,
    }
}

/// Calls `solana_address::Address::try_find_program_address`, which hashes
/// the seeds, a candidate bump byte and the program identifier, trying bump
/// bytes from 255 downwards until the hash is no curve point. The contract
/// claims only that the outcome is the one the search gives for these seeds
/// and this program identifier.
#[verifier::external_body]
fn try_find_program_address(seeds: &Vec<Vec<u8>>, program_id: &[u8; 32]) -> (r: Option<
    ([u8; 32], u8),
>)
    ensures
        match r {
            Some(found) => program_address(seeds_view(seeds@), program_id@) == Some(
                (found.0@, found.1),
            ),
            None => program_address(seeds_view(seeds@), program_id@) is None,
        },
{
    let parts: Vec<&[u8]> = seeds.iter().map(|seed| seed.as_slice()).collect();
    let owner = solana_address::Address::new_from_array(*program_id);
    solana_address::Address::try_find_program_address(&parts, &owner).map(
        |(address, bump)| (address.to_bytes(), bump),
    )
}

/// Derives the address that `owner` holds under `seeds`, with its bump byte.
///
/// The outcome depends on the seeds and the owner alone, so deriving twice
/// gives the same address and the same bump byte.
pub fn derive(seeds: &Vec<Vec<u8>>, owner: &Address) -> (r: Option<(Address, u8)>)
    ensures
        derivation_view(r) == program_address(seeds_view(seeds@), owner@),
{
    match try_find_program_address(seeds, owner.as_array()) {
        Some(found) => Some((Address::new_from_array(found.0), found.1)),
        None => None,
    }
}

/// Whether `candidate` is the address that `derived` found.
pub fn matches_derivation(candidate: &Address, derived: &Option<(Address, u8)>) -> (r: bool)
    ensures
        r == is_derived(candidate@, derivation_view(*derived)),
{
    match derived {
        Some(found) => *candidate == found.0,
        None => false,
    }
}

/// Whether `candidate` is the address that `owner` holds under `seeds`:
/// derives the address again and compares.
pub fn verify(candidate: &Address, seeds: &Vec<Vec<u8>>, owner: &Address) -> (r: bool)
    ensures
        r == is_derived(candidate@, program_address(seeds_view(seeds@), owner@)),
{
    let derived = derive(seeds, owner);
    matches_derivation(candidate, &derived)
}

/// Derivation is repeatable: the same seeds and the same owner give the same
/// address and the same bump byte, or both give none.
pub proof fn lemma_derivation_is_repeatable(
    seeds: Seq<Seq<u8>>,
    owner: Seq<u8>,
    seeds_again: Seq<Seq<u8>>,
    owner_again: Seq<u8>,
)
    requires
        seeds =~~= seeds_again,
        owner =~= owner_again,
    ensures
        program_address(seeds, owner) == program_address(seeds_again, owner_again),
{
}

/// A derived address verifies against the seeds and owner it was derived
/// from, and no other address does; where the search finds no address,
/// nothing verifies.
pub proof fn lemma_derived_address_verifies(seeds: Seq<Seq<u8>>, owner: Seq<u8>)
    ensures
        match program_address(seeds, owner) {
            Some(found) => is_derived(found.0, program_address(seeds, owner)) && forall|
                other: Seq<u8>,
            |
                is_derived(other, program_address(seeds, owner)) ==> other == found.0,
            None => forall|other: Seq<u8>| !is_derived(other, program_address(seeds, owner)),
        },
{
}

} // verus!

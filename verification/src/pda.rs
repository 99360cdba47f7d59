//! Program-derived addresses: deterministic derivation of an off-curve
//! address, and its bump seed, from seed byte-strings and an authority.

use vstd::prelude::*;

use crate::address::Address;

verus! {

/// The views of a list of seed byte-strings.
pub open spec fn seeds_view(seeds: Seq<Vec<u8>>) -> Seq<Seq<u8>> {
    seeds.map_values(|s: Vec<u8>| s@)
}

/// What program-derived-address search returns for given seeds and
/// authority: the derived address and its bump seed, or nothing when no
/// bump yields an off-curve address or the seeds are out of bounds.
/// The result depends on the seeds and the authority alone.
pub uninterp spec fn pda_of(seeds: Seq<Seq<u8>>, authority: Seq<u8>) -> Option<(Seq<u8>, u8)>;

/// Relies on solana_address::Address::try_find_program_address: a
/// deterministic search over bump seeds, a pure function of the seeds
/// and the program id; the returned address is 32 bytes.
#[verifier::external_body]
fn find_pda(seeds: &Vec<Vec<u8>>, authority: &Address) -> (r: Option<(Address, u8)>)
    ensures
        r is Some <==> pda_of(seeds_view(seeds@), authority@) is Some,
        r matches Some(p) ==> pda_of(seeds_view(seeds@), authority@) == Some((p.0@, p.1)),
{
    let slices: Vec<&[u8]> = seeds.iter().map(|s| s.as_slice()).collect();
    let program_id = solana_address::Address::new_from_array(authority.bytes);
    solana_address::Address::try_find_program_address(slices.as_slice(), &program_id)
        .map(|(addr, bump)| (Address { bytes: addr.to_bytes() }, bump))
}

/// Appends the bump as a one-byte final seed: the form in which a
/// program hands its seeds to the invocation facility when signing for
/// a derived address.
pub fn seeds_with_bump(seeds: &Vec<Vec<u8>>, bump: u8) -> (r: Vec<Vec<u8>>)
    ensures
        r@.len() == seeds@.len() + 1,
        forall|i: int| 0 <= i < seeds@.len() ==> r@[i]@ == seeds@[i]@,
        r@[seeds@.len() as int]@ =~= seq![bump],
{
    let mut combined: Vec<Vec<u8>> = Vec::new();
    let mut i: usize = 0;
    while i < seeds.len()
        invariant
            i <= seeds@.len(),
            combined@.len() == i,
            forall|j: int| 0 <= j < i ==> combined@[j]@ == seeds@[j]@,
        decreases seeds@.len() - i,
    {
        combined.push(vstd::slice::slice_to_vec(seeds[i].as_slice()));
        i = i + 1;
    }
    let mut last: Vec<u8> = Vec::new();
    last.push(bump);
    combined.push(last);
    combined
}

/// Derives the program-derived address and bump seed for the given
/// seeds and authority. Returns nothing only when no bump yields an
/// off-curve address (statistically improbable) or the seeds exceed the
/// environment's bounds on seed count or seed length.
pub fn derive_pda(seeds: &Vec<Vec<u8>>, authority: &Address) -> (r: Option<(Address, u8)>)
    ensures
        r is Some <==> pda_of(seeds_view(seeds@), authority@) is Some,
        r matches Some(p) ==> pda_of(seeds_view(seeds@), authority@) == Some((p.0@, p.1)),
{
    find_pda(seeds, authority)
}

} // verus!

use crate::errors::Failure;
use crate::errors::SeedsError;
use crate::state::address_from;
use crate::state::address_from_its_bytes;
use crate::state::Address;
use anchor_lang::prelude::Pubkey;
use anchor_lang::solana_program::pubkey::PubkeyError;
use vstd::prelude::*;

verus! {

/// The most seeds that an address can be derived from, the nonce included.
pub const MAX_SEEDS: usize = 16;

/// The most bytes that one seed can hold.
pub const MAX_SEED_LEN: usize = 32;

/// Whether the seeds are few enough and short enough to derive an address from.
pub open spec fn seeds_within_limits(seeds: Seq<Seq<u8>>) -> bool {
    &&& seeds.len() <= MAX_SEEDS
    &&& forall|i: int| 0 <= i < seeds.len() ==> (#[trigger] seeds[i]).len() <= MAX_SEED_LEN
}

/// The seeds as sequences of bytes.
pub open spec fn seeds_view(seeds: Seq<Vec<u8>>) -> Seq<Seq<u8>> {
    Seq::new(seeds.len(), |i: int| seeds[i]@)
}

/// The address that `Pubkey::create_program_address` derives from the seeds under the
/// program, where the seeds are within the limits: `None` where they derive a point on
/// the curve.
pub uninterp spec fn program_address(seeds: Seq<Seq<u8>>, program_id: Seq<u8>) -> Option<Seq<u8>>;

/// The address and nonce that `Pubkey::try_find_program_address` finds for the seeds
/// under the program, `None` where it finds none.
pub uninterp spec fn found_program_address(seeds: Seq<Seq<u8>>, program_id: Seq<u8>) -> Option<
    (Seq<u8>, u8),
>;

/// The seeds with the nonce as one more seed behind them.
pub open spec fn with_nonce(seeds: Seq<Seq<u8>>, nonce: u8) -> Seq<Seq<u8>> {
    seeds.push(seq![nonce])
}

/// What a derivation gives for seeds and a program: the named address, or the reason
/// why there is none.
pub open spec fn derivation(seeds: Seq<Seq<u8>>, program_id: Seq<u8>) -> Result<
    Seq<u8>,
    SeedsError,
> {
    if !seeds_within_limits(seeds) {
        Err(SeedsError::MaxSeedLengthExceeded)
    } else {
        match program_address(seeds, program_id) {
            Some(address) => Ok(address),
            None => Err(SeedsError::InvalidSeeds),
        }
    }
}

/// The bytes of a derivation's result.
pub open spec fn derived_view(derived: Result<Address, SeedsError>) -> Result<Seq<u8>, SeedsError> {
    match derived {
        Ok(address) => Ok(address@),
        Err(e) => Err(e),
    }
}

/// Calls `Pubkey::create_program_address`. Trusted: seeds beyond the limits are refused
/// as too long; within them the result is the named address, or `InvalidSeeds` where
/// the name is `None`.
#[verifier::external_body]
fn create_program_address(seeds: &Vec<Vec<u8>>, program_id: &Address) -> (derived: Result<
    Address,
    SeedsError,
>)
    ensures
        derived_view(derived) == (if !seeds_within_limits(seeds_view(seeds@)) {
            Err(SeedsError::MaxSeedLengthExceeded)
        } else {
            match program_address(seeds_view(seeds@), program_id@) {
                Some(address) => Ok(address),
                None => Err(SeedsError::InvalidSeeds),
            }
        }),
{
    let parts: Vec<&[u8]> = seeds.iter().map(|seed| seed.as_slice()).collect();
    match Pubkey::create_program_address(&parts, &Pubkey::new_from_array(program_id.bytes)) {
        Ok(key) => Ok(Address { bytes: key.to_bytes() }),
        Err(PubkeyError::MaxSeedLengthExceeded) => Err(SeedsError::MaxSeedLengthExceeded),
        Err(PubkeyError::InvalidSeeds) => Err(SeedsError::InvalidSeeds),
        Err(PubkeyError::IllegalOwner) => Err(SeedsError::IllegalOwner),
    }
}

/// The bytes and nonce of a search's result.
pub open spec fn found_view(found: Option<(Address, u8)>) -> Option<(Seq<u8>, u8)> {
    match found {
        Some((address, nonce)) => Some((address@, nonce)),
        None => None,
    }
}

/// Calls `Pubkey::try_find_program_address`. Trusted: the result is the named one, and
/// an address that it finds is the one that the seeds derive with the found nonce as
/// one more seed.
#[verifier::external_body]
fn try_find_program_address(seeds: &Vec<Vec<u8>>, program_id: &Address) -> (found: Option<
    (Address, u8),
>)
    ensures
        found_view(found) == found_program_address(seeds_view(seeds@), program_id@),
        found is Some ==> seeds_within_limits(with_nonce(seeds_view(seeds@), (found->0).1))
            && program_address(with_nonce(seeds_view(seeds@), (found->0).1), program_id@) == Some(
            (found->0).0@,
        ),
{
    let parts: Vec<&[u8]> = seeds.iter().map(|seed| seed.as_slice()).collect();
    match Pubkey::try_find_program_address(&parts, &Pubkey::new_from_array(program_id.bytes)) {
        Some((key, nonce)) => Some((Address { bytes: key.to_bytes() }, nonce)),
        None => None,
    }
}

/// A copy of the bytes.
pub fn copy_bytes(bytes: &Vec<u8>) -> (copy: Vec<u8>)
    ensures
        copy@ == bytes@,
{
    let mut copy: Vec<u8> = Vec::new();
    let mut i: usize = 0;
    while i < bytes.len()
        invariant
            i <= bytes.len(),
            copy@ == bytes@.subrange(0, i as int),
        decreases bytes.len() - i,
    {
        copy.push(bytes[i]);
        assert(copy@ =~= bytes@.subrange(0, i + 1));
        i += 1;
    }
    assert(copy@ =~= bytes@);
    copy
}

/// The address that the seeds derive under the program with the nonce as one more
/// seed, or the reason why there is none.
pub open spec fn derived(seeds: Seq<Seq<u8>>, nonce: u8, program_id: Address) -> Result<
    Address,
    SeedsError,
> {
    match derivation(with_nonce(seeds, nonce), program_id@) {
        Ok(bytes) => Ok(address_from(bytes)),
        Err(e) => Err(e),
    }
}

/// The address and nonce that a search finds for the seeds under the program: seeds
/// that leave no room for a nonce within the limits are too long, and where the named
/// search finds nothing the seeds are invalid.
pub open spec fn found(seeds: Seq<Seq<u8>>, program_id: Address) -> Result<
    (Address, u8),
    SeedsError,
> {
    if !seeds_within_limits(with_nonce(seeds, 0)) {
        Err(SeedsError::MaxSeedLengthExceeded)
    } else {
        match found_program_address(seeds, program_id@) {
            Some((bytes, nonce)) => Ok((address_from(bytes), nonce)),
            None => Err(SeedsError::InvalidSeeds),
        }
    }
}

/// The address of a search's result, without the nonce.
pub open spec fn address_only(address: Result<(Address, u8), SeedsError>) -> Result<
    Address,
    SeedsError,
> {
    match address {
        Ok((key, _)) => Ok(key),
        Err(e) => Err(e),
    }
}

/// Derives the address of the seeds under the program with the stored nonce.
pub fn derive_with_nonce(seeds: &Vec<Vec<u8>>, nonce: u8, program_id: &Address) -> (address:
    Result<Address, SeedsError>)
    ensures
        address == derived(seeds_view(seeds@), nonce, *program_id),
{
    let mut all: Vec<Vec<u8>> = Vec::new();
    let mut i: usize = 0;
    while i < seeds.len()
        invariant
            i <= seeds.len(),
            all.len() == i,
            forall|j: int| 0 <= j < i ==> (#[trigger] all[j])@ == seeds[j]@,
        decreases seeds.len() - i,
    {
        all.push(copy_bytes(&seeds[i]));
        i += 1;
    }
    let mut last: Vec<u8> = Vec::new();
    last.push(nonce);
    assert(last@ =~= seq![nonce]);
    all.push(last);
    assert(seeds_view(all@) =~= with_nonce(seeds_view(seeds@), nonce));
    let address = create_program_address(&all, program_id);
    proof {
        if let Ok(key) = address {
            address_from_its_bytes(key);
        }
    }
    address
}

/// Whether the seeds leave room for a nonce within the limits.
pub fn room_for_nonce(seeds: &Vec<Vec<u8>>) -> (room: bool)
    ensures
        room == seeds_within_limits(with_nonce(seeds_view(seeds@), 0)),
{
    let ghost all = with_nonce(seeds_view(seeds@), 0);
    if seeds.len() >= MAX_SEEDS {
        return false;
    }
    let mut i: usize = 0;
    while i < seeds.len()
        invariant
            i <= seeds.len(),
            seeds.len() < MAX_SEEDS,
            all == with_nonce(seeds_view(seeds@), 0),
            forall|j: int| 0 <= j < i ==> (#[trigger] all[j]).len() <= MAX_SEED_LEN,
        decreases seeds.len() - i,
    {
        if seeds[i].len() > MAX_SEED_LEN {
            assert(all[i as int].len() > MAX_SEED_LEN);
            return false;
        }
        i += 1;
    }
    true
}

/// Finds the address and nonce of the seeds under the program.
pub fn find_with_nonce(seeds: &Vec<Vec<u8>>, program_id: &Address) -> (address: Result<
    (Address, u8),
    SeedsError,
>)
    ensures
        address == found(seeds_view(seeds@), *program_id),
        address matches Ok((key, nonce)) ==> derived(seeds_view(seeds@), nonce, *program_id)
            == address_only(address),
{
    if !room_for_nonce(seeds) {
        return Err(SeedsError::MaxSeedLengthExceeded);
    }
    match try_find_program_address(seeds, program_id) {
        Some((key, nonce)) => {
            proof {
                address_from_its_bytes(key);
                assert(with_nonce(seeds_view(seeds@), nonce).len() == with_nonce(
                    seeds_view(seeds@),
                    0,
                ).len());
            }
            Ok((key, nonce))
        },
        None => Err(SeedsError::InvalidSeeds),
    }
}

/// The seed material that signs for a drop's authority: the address of the drop
/// record, then the stored nonce.
pub open spec fn signing_seeds(drop_key: Seq<u8>, nonce: u8) -> Seq<Seq<u8>> {
    seq![drop_key, seq![nonce]]
}

/// Builds the seed material of [`signing_seeds`].
pub fn signer_seeds(drop_key: &Address, nonce: u8) -> (seeds: Vec<Vec<u8>>)
    ensures
        seeds_view(seeds@) == signing_seeds(drop_key@, nonce),
{
    let mut seeds: Vec<Vec<u8>> = Vec::new();
    seeds.push(drop_key.to_vec());
    let mut last: Vec<u8> = Vec::new();
    last.push(nonce);
    assert(last@ =~= seq![nonce]);
    seeds.push(last);
    assert(seeds_view(seeds@) =~= signing_seeds(drop_key@, nonce));
    seeds
}

/// What presenting an authority comes to, given what the drop's address and stored
/// nonce derive: the seed material that signs for the authority where they derive the
/// presented address, a mismatch where they derive another, and the reason where they
/// derive none.
pub open spec fn presented(
    authority: Address,
    drop_key: Address,
    nonce: u8,
    address: Result<Address, SeedsError>,
) -> Result<Seq<Seq<u8>>, Failure> {
    match address {
        Ok(key) => if key == authority {
            Ok(signing_seeds(drop_key@, nonce))
        } else {
            Err(Failure::ConstraintSeeds)
        },
        Err(e) => Err(Failure::Seeds(e)),
    }
}

/// The seeds of a signing context as sequences of bytes.
pub open spec fn context_view(context: Result<Vec<Vec<u8>>, Failure>) -> Result<
    Seq<Seq<u8>>,
    Failure,
> {
    match context {
        Ok(seeds) => Ok(seeds_view(seeds@)),
        Err(failure) => Err(failure),
    }
}

/// Decides on a presented authority, given the address that the drop's address and
/// stored nonce derive.
pub fn confirm(
    authority: &Address,
    drop_key: &Address,
    nonce: u8,
    address: Result<Address, SeedsError>,
) -> (context: Result<Vec<Vec<u8>>, Failure>)
    ensures
        context_view(context) == presented(*authority, *drop_key, nonce, address),
{
    match address {
        Ok(key) => {
            if key == *authority {
                Ok(signer_seeds(drop_key, nonce))
            } else {
                Err(Failure::ConstraintSeeds)
            }
        },
        Err(e) => Err(Failure::Seeds(e)),
    }
}

/// The signing context of a drop's authority: derives the authority from the address
/// of the drop record and the stored nonce, and hands out the seed material that
/// signs for it only where the presented address is the derived one.
pub fn signing_context(
    authority: &Address,
    drop_key: &Address,
    nonce: u8,
    program_id: &Address,
) -> (context: Result<Vec<Vec<u8>>, Failure>)
    ensures
        context_view(context) == presented(
            *authority,
            *drop_key,
            nonce,
            derived(seq![drop_key@], nonce, *program_id),
        ),
{
    let mut seeds: Vec<Vec<u8>> = Vec::new();
    seeds.push(drop_key.to_vec());
    assert(seeds_view(seeds@) =~= seq![drop_key@]);
    let address = derive_with_nonce(&seeds, nonce, program_id);
    confirm(authority, drop_key, nonce, address)
}

} // verus!

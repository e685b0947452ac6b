use crate::authority::find_with_nonce;
use crate::authority::found;
use crate::authority::seeds_view;
use crate::errors::SeedsError;
use crate::state::Address;
use vstd::prelude::*;
use vstd::slice::slice_to_vec;
use vstd::utf8::encode_utf8;

verus! {

/// The seeds of a drop record's address: the drop's identity.
pub open spec fn drop_seeds(claim_id: Seq<char>) -> Seq<Seq<u8>> {
    seq![encode_utf8(claim_id)]
}

/// The seeds of the address of a drop's authority: the address of the drop record.
pub open spec fn authority_seeds(drop_key: Address) -> Seq<Seq<u8>> {
    seq![drop_key@]
}

/// The seeds of a ledger entry's address: the drop's identity, then the requester.
pub open spec fn claimed_seeds(claim_id: Seq<char>, requester: Address) -> Seq<Seq<u8>> {
    seq![encode_utf8(claim_id), requester@]
}

/// The seeds of the address of a drop's collection item.
pub open spec fn collection_mint_seeds(drop_key: Address) -> Seq<Seq<u8>> {
    seq![encode_utf8("collection"@), drop_key@]
}

/// The seeds of the address of the item that a requester claims from a drop.
pub open spec fn master_mint_seeds(drop_key: Address, requester: Address) -> Seq<Seq<u8>> {
    seq![encode_utf8("mint"@), drop_key@, requester@]
}

/// The seeds, under the metadata program, of the address of an item's descriptive
/// record.
pub open spec fn metadata_seeds(metadata_program: Address, mint: Address) -> Seq<Seq<u8>> {
    seq![encode_utf8("metadata"@), metadata_program@, mint@]
}

/// The seeds, under the metadata program, of the address of an item's edition marker.
pub open spec fn edition_seeds(metadata_program: Address, mint: Address) -> Seq<Seq<u8>> {
    seq![encode_utf8("metadata"@), metadata_program@, mint@, encode_utf8("edition"@)]
}

/// The seeds, under the associated-token program, of the address of an owner's holding
/// account for an item.
pub open spec fn token_account_seeds(owner: Address, token_program: Address, mint: Address) -> Seq<
    Seq<u8>,
> {
    seq![owner@, token_program@, mint@]
}

/// The bytes of a text, as a seed.
pub fn text_seed(text: &str) -> (seed: Vec<u8>)
    ensures
        seed@ == encode_utf8(text@),
{
    slice_to_vec(text.as_bytes())
}

/// Builds the seeds of [`drop_seeds`].
pub fn seeds_of_drop(claim_id: &String) -> (seeds: Vec<Vec<u8>>)
    ensures
        seeds_view(seeds@) == drop_seeds(claim_id@),
{
    let mut seeds: Vec<Vec<u8>> = Vec::new();
    seeds.push(text_seed(claim_id.as_str()));
    assert(seeds_view(seeds@) =~= drop_seeds(claim_id@));
    seeds
}

/// Builds the seeds of [`authority_seeds`].
pub fn seeds_of_authority(drop_key: &Address) -> (seeds: Vec<Vec<u8>>)
    ensures
        seeds_view(seeds@) == authority_seeds(*drop_key),
{
    let mut seeds: Vec<Vec<u8>> = Vec::new();
    seeds.push(drop_key.to_vec());
    assert(seeds_view(seeds@) =~= authority_seeds(*drop_key));
    seeds
}

/// Builds the seeds of [`claimed_seeds`].
pub fn seeds_of_claimed(claim_id: &String, requester: &Address) -> (seeds: Vec<Vec<u8>>)
    ensures
        seeds_view(seeds@) == claimed_seeds(claim_id@, *requester),
{
    let mut seeds: Vec<Vec<u8>> = Vec::new();
    seeds.push(text_seed(claim_id.as_str()));
    seeds.push(requester.to_vec());
    assert(seeds_view(seeds@) =~= claimed_seeds(claim_id@, *requester));
    seeds
}

/// Builds the seeds of [`collection_mint_seeds`].
pub fn seeds_of_collection_mint(drop_key: &Address) -> (seeds: Vec<Vec<u8>>)
    ensures
        seeds_view(seeds@) == collection_mint_seeds(*drop_key),
{
    let mut seeds: Vec<Vec<u8>> = Vec::new();
    seeds.push(text_seed("collection"));
    seeds.push(drop_key.to_vec());
    assert(seeds_view(seeds@) =~= collection_mint_seeds(*drop_key));
    seeds
}

/// Builds the seeds of [`master_mint_seeds`].
pub fn seeds_of_master_mint(drop_key: &Address, requester: &Address) -> (seeds: Vec<Vec<u8>>)
    ensures
        seeds_view(seeds@) == master_mint_seeds(*drop_key, *requester),
{
    let mut seeds: Vec<Vec<u8>> = Vec::new();
    seeds.push(text_seed("mint"));
    seeds.push(drop_key.to_vec());
    seeds.push(requester.to_vec());
    assert(seeds_view(seeds@) =~= master_mint_seeds(*drop_key, *requester));
    seeds
}

/// Builds the seeds of [`metadata_seeds`].
pub fn seeds_of_metadata(metadata_program: &Address, mint: &Address) -> (seeds: Vec<Vec<u8>>)
    ensures
        seeds_view(seeds@) == metadata_seeds(*metadata_program, *mint),
{
    let mut seeds: Vec<Vec<u8>> = Vec::new();
    seeds.push(text_seed("metadata"));
    seeds.push(metadata_program.to_vec());
    seeds.push(mint.to_vec());
    assert(seeds_view(seeds@) =~= metadata_seeds(*metadata_program, *mint));
    seeds
}

/// Builds the seeds of [`edition_seeds`].
pub fn seeds_of_edition(metadata_program: &Address, mint: &Address) -> (seeds: Vec<Vec<u8>>)
    ensures
        seeds_view(seeds@) == edition_seeds(*metadata_program, *mint),
{
    let mut seeds: Vec<Vec<u8>> = Vec::new();
    seeds.push(text_seed("metadata"));
    seeds.push(metadata_program.to_vec());
    seeds.push(mint.to_vec());
    seeds.push(text_seed("edition"));
    assert(seeds_view(seeds@) =~= edition_seeds(*metadata_program, *mint));
    seeds
}

/// Builds the seeds of [`token_account_seeds`].
pub fn seeds_of_token_account(owner: &Address, token_program: &Address, mint: &Address) -> (seeds:
    Vec<Vec<u8>>)
    ensures
        seeds_view(seeds@) == token_account_seeds(*owner, *token_program, *mint),
{
    let mut seeds: Vec<Vec<u8>> = Vec::new();
    seeds.push(owner.to_vec());
    seeds.push(token_program.to_vec());
    seeds.push(mint.to_vec());
    assert(seeds_view(seeds@) =~= token_account_seeds(*owner, *token_program, *mint));
    seeds
}

/// The addresses of an item's descriptive record and edition marker under the
/// metadata program, or the reason why the first of them that has none has none.
pub open spec fn records_of(metadata_program: Address, mint: Address) -> Result<
    (Address, Address),
    SeedsError,
> {
    match found(metadata_seeds(metadata_program, mint), metadata_program) {
        Err(e) => Err(e),
        Ok((metadata, _)) => match found(edition_seeds(metadata_program, mint), metadata_program) {
            Err(e) => Err(e),
            Ok((edition, _)) => Ok((metadata, edition)),
        },
    }
}

/// Finds the addresses of an item's descriptive record and edition marker.
pub fn find_records(metadata_program: &Address, mint: &Address) -> (records: Result<
    (Address, Address),
    SeedsError,
>)
    ensures
        records == records_of(*metadata_program, *mint),
{
    let metadata = match find_with_nonce(
        &seeds_of_metadata(metadata_program, mint),
        metadata_program,
    ) {
        Ok((metadata, _)) => metadata,
        Err(e) => {
            return Err(e);
        },
    };
    match find_with_nonce(&seeds_of_edition(metadata_program, mint), metadata_program) {
        Ok((edition, _)) => Ok((metadata, edition)),
        Err(e) => Err(e),
    }
}

} // verus!

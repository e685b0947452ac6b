//! A drop is a named collection, capped or uncapped, whose items are minted one at a
//! time to distinct requesters, each of whom may claim once.
//!
//! The library decides; it never talks to a registry itself. A unit of work is a
//! state machine that hands out one request at a time and takes the registry's answer
//! back ([`instructions`]), and the [`ledger`] runs a whole unit against given answers
//! and commits it as a whole or not at all. Addresses are derived from seeds
//! ([`addresses`]), and a drop's signing authority from the drop's own address and a
//! stored nonce ([`authority`]). What holds of every run is stated and proved in
//! [`laws`].

use crate::errors::ErrorCode;
use crate::errors::Failure;
use crate::instructions::claim_drop::ClaimDrop;
use crate::instructions::initialize_drop::Initialize;
use crate::ledger::Ledger;
use crate::registry::requests_view;
use crate::registry::ClaimReplies;
use crate::registry::InitializeReplies;
use crate::registry::Transcript;
use crate::state::Address;
use crate::state::Claimed;
use vstd::prelude::*;

pub mod addresses;
pub mod authority;
pub mod errors;
pub mod instructions;
pub mod laws;
pub mod ledger;
pub mod registry;
pub mod state;

verus! {

/// Initializes the drop of the given identity for the signer, as one unit of work on
/// the ledger: fails where a record already stands under the identity; derives every
/// address of the unit from the identity; and then mints and describes the collection
/// item against the given answers of the registries and, if every call is accepted,
/// writes the drop record.
pub fn initialize_drop(
    ledger: &mut Ledger,
    signer: Address,
    claim_id: String,
    name: String,
    ticker: String,
    uri: String,
    description: String,
    maximum_mint: u64,
    replies: &InitializeReplies,
) -> (done: Transcript<()>)
    ensures
        (done.result, requests_view(done.requests@), final(ledger)@) == old(
            ledger,
        )@.initialize_drop(
            signer,
            claim_id,
            name,
            ticker,
            uri,
            description,
            maximum_mint,
            *replies,
        ),
        old(ledger)@.wf() ==> final(ledger)@.wf(),
{
    if ledger.drop_account(&claim_id).is_some() {
        return Transcript::refused(Failure::AlreadyInUse);
    }
    let ctx = match Initialize::resolve(
        &ledger.program_id(),
        &ledger.programs(),
        &signer,
        &claim_id,
    ) {
        Ok(ctx) => ctx,
        Err(e) => {
            return Transcript::refused(Failure::Seeds(e));
        },
    };
    ledger.initialize(ctx, claim_id, name, ticker, uri, description, maximum_mint, replies)
}

/// Serves the signer's claim on the drop of the given identity, as one unit of work on
/// the ledger: turns it down where there is no such drop, where the signer has claimed
/// it already, or where its finite supply is used up; derives every address of the
/// unit; and then mints, describes and certifies the new item against the given
/// answers of the registries and, if every call is accepted, counts the supply down
/// and writes the signer's entry, which it hands back.
pub fn claim_drop(
    ledger: &mut Ledger,
    signer: Address,
    claim_id: String,
    replies: &ClaimReplies,
) -> (done: Transcript<Claimed>)
    ensures
        (done.result, requests_view(done.requests@), final(ledger)@) == old(ledger)@.claim_drop(
            signer,
            claim_id@,
            *replies,
        ),
        old(ledger)@.wf() ==> final(ledger)@.wf(),
{
    let entry = ledger.claim_entry(&claim_id, &signer);
    let claimed = match entry {
        Some(entry) => entry,
        None => Claimed::unclaimed(),
    };
    let resolved = match ledger.drop_account(&claim_id) {
        None => Err(Failure::NotInitialized),
        Some(account) => {
            if claimed.minted {
                Err(Failure::Code(ErrorCode::ClaimedDrop))
            } else if !account.data.can_mint() {
                Err(Failure::Code(ErrorCode::MintLimitReached))
            } else {
                ClaimDrop::resolve(
                    &ledger.program_id(),
                    &ledger.programs(),
                    &account.key,
                    &account.data,
                    claimed,
                    &signer,
                    &claim_id,
                )
            }
        },
    };
    match resolved {
        Ok(ctx) => ledger.claim(ctx, &claim_id, replies),
        Err(failure) => Transcript::refused(failure),
    }
}

} // verus!

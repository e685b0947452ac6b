use crate::errors::ErrorCode;
use crate::errors::Failure;
use crate::instructions::claim_drop::ClaimDrop;
use crate::instructions::initialize_drop::Initialize;
use crate::ledger::LedgerView;
use crate::registry::CallView;
use crate::registry::ClaimReplies;
use crate::registry::Collection;
use crate::registry::InitializeReplies;
use crate::registry::RequestView;
use crate::state::Address;
use crate::state::Claimed;
use crate::state::Programs;
use vstd::prelude::*;

verus! {

/// The collection reference of the descriptive record at `metadata`, as a run of
/// accepted requests leaves it: the creation of the record sets it as given, and the
/// certification of the membership in the collection that it names marks it verified.
pub open spec fn collection_of(accepted: Seq<RequestView>, metadata: Address) -> Option<Collection>
    decreases accepted.len(),
{
    if accepted.len() == 0 {
        None
    } else {
        let before = collection_of(accepted.drop_last(), metadata);
        match accepted.last().call {
            CallView::CreateMetadataAccountsV3 { accounts, data, .. } => if accounts.metadata
                == metadata {
                data.collection
            } else {
                before
            },
            CallView::VerifyCollection { accounts } => match before {
                Some(named) => if accounts.metadata == metadata && accounts.collection_mint
                    == named.key {
                    Some(Collection { verified: true, key: named.key })
                } else {
                    before
                },
                None => before,
            },
            _ => before,
        }
    }
}

/// An empty ledger is well formed.
pub proof fn empty_ledger_is_well_formed(program_id: Address, programs: Programs)
    ensures
        (LedgerView { program_id, programs, drops: Map::empty(), claims: Map::empty() }).wf(),
{
}

/// An initialization leaves a well-formed ledger well formed, whatever its inputs and
/// however it ends.
pub proof fn initialize_keeps_well_formed(
    ledger: LedgerView,
    ctx: Initialize,
    claim_id: String,
    name: String,
    ticker: String,
    uri: String,
    description: String,
    maximum_mint: u64,
    replies: InitializeReplies,
)
    requires
        ledger.wf(),
    ensures
        ledger.after_initialize(
            ctx,
            claim_id,
            name,
            ticker,
            uri,
            description,
            maximum_mint,
            replies,
        ).wf(),
{
}

/// A claim leaves a well-formed ledger well formed, whatever its inputs and however it
/// ends.
pub proof fn claim_keeps_well_formed(
    ledger: LedgerView,
    ctx: ClaimDrop,
    claim_id: Seq<char>,
    replies: ClaimReplies,
)
    requires
        ledger.wf(),
    ensures
        ledger.after_claim(ctx, claim_id, replies).wf(),
{
}

/// A drop is initialized at most once. Once an initialization under an identity has
/// succeeded, every further one under that identity fails because the record is
/// already there, asks nothing of a registry, and leaves the ledger, and so the
/// first record, as it was.
pub proof fn initialize_succeeds_at_most_once(
    ledger: LedgerView,
    ctx: Initialize,
    claim_id: String,
    name: String,
    ticker: String,
    uri: String,
    description: String,
    maximum_mint: u64,
    replies: InitializeReplies,
    again: Initialize,
    again_claim_id: String,
    again_name: String,
    again_ticker: String,
    again_uri: String,
    again_description: String,
    again_maximum_mint: u64,
    again_replies: InitializeReplies,
)
    requires
        ledger.initialize_result(claim_id@, replies) is Ok,
        again_claim_id@ == claim_id@,
    ensures
        ({
            let after = ledger.after_initialize(
                ctx,
                claim_id,
                name,
                ticker,
                uri,
                description,
                maximum_mint,
                replies,
            );
            &&& after.drops[claim_id@] == LedgerView::new_account(
                ctx,
                claim_id,
                name,
                ticker,
                uri,
                description,
                maximum_mint,
            )
            &&& after.initialize_result(again_claim_id@, again_replies) matches Err(
                Failure::AlreadyInUse,
            )
            &&& after.initialize_requests(
                again,
                again_claim_id@,
                again_name@,
                again_ticker@,
                again_uri@,
                again_replies,
            ) == Seq::<RequestView>::empty()
            &&& after.after_initialize(
                again,
                again_claim_id,
                again_name,
                again_ticker,
                again_uri,
                again_description,
                again_maximum_mint,
                again_replies,
            ) == after
        }),
{
}

/// An initialization that succeeds writes a record whose supply is the given maximum
/// and which is unlimited exactly when that maximum is zero.
pub proof fn initialize_sets_supply(
    ledger: LedgerView,
    ctx: Initialize,
    claim_id: String,
    name: String,
    ticker: String,
    uri: String,
    description: String,
    maximum_mint: u64,
    replies: InitializeReplies,
)
    requires
        ledger.initialize_result(claim_id@, replies) is Ok,
    ensures
        ({
            let record = ledger.after_initialize(
                ctx,
                claim_id,
                name,
                ticker,
                uri,
                description,
                maximum_mint,
                replies,
            ).drops[claim_id@].data;
            &&& record.infinite == (maximum_mint == 0)
            &&& record.left_mint == maximum_mint
        }),
{
}

/// Whether the context of a claim names the collection and the creator that the drop
/// record under the identity names.
pub open spec fn names_the_drop(ledger: LedgerView, ctx: ClaimDrop, claim_id: Seq<char>) -> bool {
    &&& ledger.drops.contains_key(claim_id)
    &&& ctx.collection_mint == ledger.drops[claim_id].data.collection
    &&& ctx.creator == ledger.drops[claim_id].data.creator
}

/// The first claim of a requester on a finite drop of which something is left
/// succeeds, provided that the registries accept every call: the supply is one lower,
/// and the requester's entry is marked as minted and names the new item.
pub proof fn first_claim_on_finite_drop(
    ledger: LedgerView,
    ctx: ClaimDrop,
    claim_id: Seq<char>,
    replies: ClaimReplies,
)
    requires
        ledger.wf(),
        names_the_drop(ledger, ctx, claim_id),
        !ledger.claims.contains_key((claim_id, ctx.signer)),
        !ledger.drops[claim_id].data.infinite,
        ledger.drops[claim_id].data.left_mint > 0,
        replies.rejection() is None,
    ensures
        ({
            let after = ledger.after_claim(ctx, claim_id, replies);
            &&& ledger.claim_result(ctx, claim_id, replies) is Ok
            &&& after.drops[claim_id].data.left_mint == ledger.drops[claim_id].data.left_mint - 1
            &&& after.claims.contains_key((claim_id, ctx.signer))
            &&& after.claims[(claim_id, ctx.signer)].minted
            &&& after.claims[(claim_id, ctx.signer)].master_mint == ctx.master_mint
            &&& after.claims[(claim_id, ctx.signer)].master_metadata == ctx.master_metadata
            &&& after.claims[(claim_id, ctx.signer)].master_edition == ctx.master_edition
            &&& ledger.claim_result(ctx, claim_id, replies) matches Ok(entry) && entry
                == after.claims[(claim_id, ctx.signer)]
        }),
{
}

/// A claim that succeeds marks the requester's entry as minted.
pub proof fn claim_marks_the_entry(
    ledger: LedgerView,
    ctx: ClaimDrop,
    claim_id: Seq<char>,
    replies: ClaimReplies,
)
    requires
        ledger.claim_result(ctx, claim_id, replies) is Ok,
    ensures
        ({
            let after = ledger.after_claim(ctx, claim_id, replies);
            &&& after.drops.contains_key(claim_id)
            &&& after.claims.contains_key((claim_id, ctx.signer))
            &&& after.claims[(claim_id, ctx.signer)].minted
        }),
{
}

/// An entry never goes back: whatever a later claim or initialization does, a drop
/// record that stood still stands, and an entry that was marked as minted still is.
pub proof fn minted_never_reverts(
    ledger: LedgerView,
    ctx: ClaimDrop,
    claim_id: Seq<char>,
    replies: ClaimReplies,
    other_drop: Seq<char>,
    other_pair: (Seq<char>, Address),
)
    requires
        ledger.drops.contains_key(other_drop),
        ledger.claims.contains_key(other_pair),
        ledger.claims[other_pair].minted,
    ensures
        ({
            let after = ledger.after_claim(ctx, claim_id, replies);
            &&& after.drops.contains_key(other_drop)
            &&& after.claims.contains_key(other_pair)
            &&& after.claims[other_pair].minted
        }),
{
}

/// A requester whose claim on a drop was fulfilled is turned down on every further
/// claim on that drop as having claimed it, whatever is left of the supply and
/// whatever the registries would answer: nothing is asked of a registry, so nothing is
/// minted, and the ledger stays as it was.
pub proof fn second_claim_is_refused(
    ledger: LedgerView,
    ctx: ClaimDrop,
    claim_id: Seq<char>,
    replies: ClaimReplies,
)
    requires
        ledger.drops.contains_key(claim_id),
        ledger.claims.contains_key((claim_id, ctx.signer)),
        ledger.claims[(claim_id, ctx.signer)].minted,
    ensures
        ledger.claim_result(ctx, claim_id, replies) matches Err(
            Failure::Code(ErrorCode::ClaimedDrop),
        ),
        ledger.claim_requests(ctx, claim_id, replies) == Seq::<RequestView>::empty(),
        ledger.after_claim(ctx, claim_id, replies) == ledger,
{
}

/// On a finite drop of which nothing is left, a requester who has no fulfilled claim
/// on it is turned down because the limit is reached: nothing is asked of a registry
/// and the ledger stays as it was.
pub proof fn exhausted_drop_refuses(
    ledger: LedgerView,
    ctx: ClaimDrop,
    claim_id: Seq<char>,
    replies: ClaimReplies,
)
    requires
        ledger.drops.contains_key(claim_id),
        !ledger.claims.contains_key((claim_id, ctx.signer)),
        !ledger.drops[claim_id].data.infinite,
        ledger.drops[claim_id].data.left_mint == 0,
    ensures
        ledger.claim_result(ctx, claim_id, replies) matches Err(
            Failure::Code(ErrorCode::MintLimitReached),
        ),
        ledger.claim_requests(ctx, claim_id, replies) == Seq::<RequestView>::empty(),
        ledger.after_claim(ctx, claim_id, replies) == ledger,
{
}

/// The supply of an unlimited drop never stands in the way of a claim and is never
/// counted down: no claim on it ends because the limit is reached, a new requester's
/// claim succeeds where the registries accept every call, and the record's supply is
/// the same afterwards.
pub proof fn unlimited_drop_never_runs_out(
    ledger: LedgerView,
    ctx: ClaimDrop,
    claim_id: Seq<char>,
    replies: ClaimReplies,
)
    requires
        ledger.wf(),
        ledger.drops.contains_key(claim_id),
        ledger.drops[claim_id].data.infinite,
    ensures
        ({
            let after = ledger.after_claim(ctx, claim_id, replies);
            &&& !(ledger.claim_result(ctx, claim_id, replies) matches Err(
                Failure::Code(ErrorCode::MintLimitReached),
            ))
            &&& after.drops[claim_id].data.infinite
            &&& after.drops[claim_id].data.left_mint == ledger.drops[claim_id].data.left_mint
            &&& (names_the_drop(ledger, ctx, claim_id) && !ledger.claims.contains_key(
                (claim_id, ctx.signer),
            ) && replies.rejection() is None) ==> ledger.claim_result(ctx, claim_id, replies) is Ok
        }),
{
}

/// A claim takes effect as a whole or not at all: where it does not succeed, the
/// ledger is as it was.
pub proof fn failed_claim_changes_nothing(
    ledger: LedgerView,
    ctx: ClaimDrop,
    claim_id: Seq<char>,
    replies: ClaimReplies,
)
    requires
        ledger.claim_result(ctx, claim_id, replies) is Err,
    ensures
        ledger.after_claim(ctx, claim_id, replies) == ledger,
{
}

/// After a claim that succeeded, the descriptive record of the minted item names the
/// drop's collection item and is certified as a member of it: the four requests were
/// made and accepted in order, the record was created at the address that the
/// requester's entry names, with the collection that the drop record names, and the
/// certification was the last of them.
pub proof fn minted_item_is_certified(
    ledger: LedgerView,
    ctx: ClaimDrop,
    claim_id: Seq<char>,
    replies: ClaimReplies,
)
    requires
        ledger.claim_result(ctx, claim_id, replies) is Ok,
    ensures
        ({
            let requests = ledger.claim_requests(ctx, claim_id, replies);
            let entry = ledger.after_claim(ctx, claim_id, replies).claims[(claim_id, ctx.signer)];
            &&& replies.rejection() is None
            &&& requests == ledger.loaded(ctx, claim_id).requests()
            &&& requests.last().call is VerifyCollection
            &&& collection_of(requests, entry.master_metadata) == Some(
                Collection { verified: true, key: ledger.drops[claim_id].data.collection },
            )
        }),
{
    let loaded = ledger.loaded(ctx, claim_id);
    let requests = loaded.requests();
    assert(requests.take(4) =~= requests);
    let three = requests.drop_last();
    let two = three.drop_last();
    let one = two.drop_last();
    assert(one.drop_last().len() == 0);
    assert(collection_of(one, ctx.master_metadata) is None) by {
        reveal_with_fuel(collection_of, 2);
    }
    assert(collection_of(two, ctx.master_metadata) == Some(
        Collection { verified: false, key: ctx.collection_mint },
    ));
    assert(collection_of(three, ctx.master_metadata) == Some(
        Collection { verified: false, key: ctx.collection_mint },
    ));
}

/// By identity alone, too, a drop is initialized at most once: where a record stands
/// under the identity, an initialization fails because it is already there, asks
/// nothing of a registry, and leaves the ledger as it was; and after an initialization
/// that succeeded a record stands under the identity.
pub proof fn initialize_drop_succeeds_at_most_once(
    ledger: LedgerView,
    signer: Address,
    claim_id: String,
    name: String,
    ticker: String,
    uri: String,
    description: String,
    maximum_mint: u64,
    replies: InitializeReplies,
)
    ensures
        ({
            let (result, requests, after) = ledger.initialize_drop(
                signer,
                claim_id,
                name,
                ticker,
                uri,
                description,
                maximum_mint,
                replies,
            );
            &&& ledger.drops.contains_key(claim_id@) ==> (result matches Err(
                Failure::AlreadyInUse,
            )) && requests == Seq::<RequestView>::empty() && after == ledger
            &&& result is Ok ==> after.drops.contains_key(claim_id@)
            &&& result is Ok ==> after.drops[claim_id@].data.claim_id == claim_id
            &&& result is Ok ==> after.drops[claim_id@].data.infinite == (maximum_mint == 0)
            &&& result is Ok ==> after.drops[claim_id@].data.left_mint == maximum_mint
            &&& result is Err ==> after == ledger
        }),
{
}

/// By identity alone, too, a requester claims a drop at most once: after a claim that
/// succeeded, the requester's entry is marked as minted, and every further claim of
/// the requester on the drop is turned down as claimed already, whatever is left of
/// the supply and whatever the registries would answer, asks nothing of a registry,
/// and leaves the ledger as it was.
pub proof fn claim_drop_succeeds_at_most_once(
    ledger: LedgerView,
    signer: Address,
    claim_id: Seq<char>,
    replies: ClaimReplies,
    again: ClaimReplies,
)
    ensures
        ({
            let (result, requests, after) = ledger.claim_drop(signer, claim_id, replies);
            &&& result is Ok ==> after.claims.contains_key((claim_id, signer)) && after.claims[(
                claim_id,
                signer,
            )].minted
            &&& result is Ok ==> after.claim_drop(signer, claim_id, again) == (
                Err::<Claimed, Failure>(Failure::Code(ErrorCode::ClaimedDrop)),
                Seq::<RequestView>::empty(),
                after,
            )
            &&& result is Err ==> after == ledger
        }),
{
}

/// By identity alone, a requester whose entry on a drop is marked as minted is turned
/// down as having claimed it, with nothing asked and nothing changed.
pub proof fn claim_drop_refuses_the_claimed(
    ledger: LedgerView,
    signer: Address,
    claim_id: Seq<char>,
    replies: ClaimReplies,
)
    requires
        ledger.drops.contains_key(claim_id),
        ledger.claims.contains_key((claim_id, signer)),
        ledger.claims[(claim_id, signer)].minted,
    ensures
        ledger.claim_drop(signer, claim_id, replies) == (
            Err::<Claimed, Failure>(Failure::Code(ErrorCode::ClaimedDrop)),
            Seq::<RequestView>::empty(),
            ledger,
        ),
{
}

/// By identity alone, a finite drop of which nothing is left turns a requester without
/// a fulfilled claim down because the limit is reached, with nothing asked and
/// nothing changed.
pub proof fn claim_drop_refuses_on_exhausted_drop(
    ledger: LedgerView,
    signer: Address,
    claim_id: Seq<char>,
    replies: ClaimReplies,
)
    requires
        ledger.drops.contains_key(claim_id),
        !ledger.claims.contains_key((claim_id, signer)),
        !ledger.drops[claim_id].data.infinite,
        ledger.drops[claim_id].data.left_mint == 0,
    ensures
        ledger.claim_drop(signer, claim_id, replies) == (
            Err::<Claimed, Failure>(Failure::Code(ErrorCode::MintLimitReached)),
            Seq::<RequestView>::empty(),
            ledger,
        ),
{
}

/// By identity alone, no claim on an unlimited drop ends because the limit is reached,
/// and none counts its supply down.
pub proof fn claim_drop_on_unlimited_drop(
    ledger: LedgerView,
    signer: Address,
    claim_id: Seq<char>,
    replies: ClaimReplies,
)
    requires
        ledger.drops.contains_key(claim_id),
        ledger.drops[claim_id].data.infinite,
    ensures
        ({
            let (result, requests, after) = ledger.claim_drop(signer, claim_id, replies);
            &&& !(result matches Err(Failure::Code(ErrorCode::MintLimitReached)))
            &&& after.drops.contains_key(claim_id)
            &&& after.drops[claim_id].data.infinite
            &&& after.drops[claim_id].data.left_mint == ledger.drops[claim_id].data.left_mint
        }),
{
}

/// By identity alone, a claim on a finite drop that succeeds counts the supply down by
/// one, and its requests end with the certification of the new item, whose descriptive
/// record then names the drop's collection item as verified.
pub proof fn claim_drop_counts_down_and_certifies(
    ledger: LedgerView,
    signer: Address,
    claim_id: Seq<char>,
    replies: ClaimReplies,
)
    requires
        ledger.drops.contains_key(claim_id),
        !ledger.drops[claim_id].data.infinite,
    ensures
        ({
            let (result, requests, after) = ledger.claim_drop(signer, claim_id, replies);
            &&& result is Ok ==> ledger.drops[claim_id].data.left_mint > 0
            &&& result is Ok ==> after.drops[claim_id].data.left_mint
                == ledger.drops[claim_id].data.left_mint - 1
            &&& result matches Ok(entry) ==> collection_of(requests, entry.master_metadata) == Some(
                Collection { verified: true, key: ledger.drops[claim_id].data.collection },
            )
        }),
{
    let (result, requests, after) = ledger.claim_drop(signer, claim_id, replies);
    if result is Ok {
        let ctx = ledger.claim_context(signer, claim_id)->Ok_0;
        minted_item_is_certified(ledger, ctx, claim_id, replies);
    }
}

} // verus!

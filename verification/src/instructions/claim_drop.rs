use crate::addresses::authority_seeds;
use crate::addresses::claimed_seeds;
use crate::addresses::collection_mint_seeds;
use crate::addresses::drop_seeds;
use crate::addresses::find_records;
use crate::addresses::master_mint_seeds;
use crate::addresses::records_of;
use crate::addresses::seeds_of_authority;
use crate::addresses::seeds_of_claimed;
use crate::addresses::seeds_of_collection_mint;
use crate::addresses::seeds_of_drop;
use crate::addresses::seeds_of_master_mint;
use crate::addresses::seeds_of_token_account;
use crate::addresses::token_account_seeds;
use crate::authority::derive_with_nonce;
use crate::authority::derived;
use crate::authority::find_with_nonce;
use crate::authority::found;
use crate::authority::signer_seeds;
use crate::errors::SeedsError;
use crate::state::Programs;
use crate::authority::signing_seeds;
use crate::errors::ErrorCode;
use crate::errors::Failure;
use crate::registry::note_step;
use crate::registry::requests_view;
use crate::registry::Call;
use crate::registry::ClaimReplies;
use crate::registry::Transcript;
use crate::registry::CallView;
use crate::registry::Collection;
use crate::registry::CreateMasterEditionV3;
use crate::registry::CreateMetadataAccountsV3;
use crate::registry::Creator;
use crate::registry::DataV2;
use crate::registry::DataV2View;
use crate::registry::MintTo;
use crate::registry::Reply;
use crate::registry::Request;
use crate::registry::RequestView;
use crate::registry::Stage;
use crate::registry::VerifyCollection;
use crate::state::Address;
use crate::state::Claimed;
use crate::state::Drop;
use vstd::prelude::*;

verus! {

/// The fee, in basis points, that every item's descriptive record carries.
pub const SELLER_FEE_BASIS_POINTS: u16 = 1000;

/// Everything that one claim works on: the requester, the drop record, the requester's
/// ledger entry, the accounts of the new item and of the collection, and the stage
/// that the claim has reached.
#[derive(Clone, Debug, PartialEq, Eq)]
pub struct ClaimDrop {
    /// The requester, who pays and receives the item.
    pub signer: Address,
    /// The address of the drop record.
    pub drop_key: Address,
    pub drop: Drop,
    pub creator: Address,
    pub claimed: Claimed,
    /// Nonce of the ledger entry's address.
    pub claimed_bump: u8,
    pub collection_mint: Address,
    pub collection_metadata: Address,
    pub collection_edition: Address,
    pub master_mint: Address,
    pub master_token: Address,
    pub master_metadata: Address,
    pub master_edition: Address,
    /// The drop's signing authority.
    pub head_signer: Address,
    pub system_program: Address,
    pub token_program: Address,
    pub associated_token_program: Address,
    pub metadata_program: Address,
    pub rent: Address,
    pub stage: Stage,
}

/// What a step hands back, with the request as a mathematical value.
pub open spec fn step_view(step: Result<Option<Request>, Failure>) -> Result<
    Option<RequestView>,
    Failure,
> {
    match step {
        Ok(Some(request)) => Ok(Some(request@)),
        Ok(None) => Ok(None),
        Err(failure) => Err(failure),
    }
}

impl ClaimDrop {
    /// The first reason, if any, for which the claim is turned down before anything is
    /// asked of a registry: the requester has claimed already; the finite supply is
    /// used up; the record is not the one of the named drop; the collection or the
    /// creator is not the one that the record names.
    pub open spec fn refusal(&self, claim_id: Seq<char>) -> Option<Failure> {
        if self.claimed.minted {
            Some(Failure::Code(ErrorCode::ClaimedDrop))
        } else if !self.drop.open_for_claims() {
            Some(Failure::Code(ErrorCode::MintLimitReached))
        } else if self.drop.claim_id@ != claim_id {
            Some(Failure::ConstraintSeeds)
        } else if self.drop.collection != self.collection_mint || self.drop.creator
            != self.creator {
            Some(Failure::ConstraintRaw)
        } else {
            None
        }
    }

    /// The mint of one unit of the new item into the requester's holding account.
    pub open spec fn mint_request(&self) -> RequestView {
        RequestView {
            program: self.token_program,
            call: CallView::MintTo {
                accounts: MintTo {
                    mint: self.master_mint,
                    to: self.master_token,
                    authority: self.head_signer,
                },
                amount: 1,
            },
            signer_seeds: signing_seeds(self.drop_key@, self.drop.signer_nonce),
        }
    }

    /// The descriptive record of the new item: the drop's name, ticker and URI, the
    /// authority as verified creator without a share, the drop's creator with the whole
    /// share, and the collection, not yet certified.
    pub open spec fn item_data(&self) -> DataV2View {
        DataV2View {
            name: self.drop.name@,
            symbol: self.drop.ticker@,
            uri: self.drop.uri@,
            seller_fee_basis_points: SELLER_FEE_BASIS_POINTS,
            creators: Some(
                seq![
                    Creator { address: self.head_signer, verified: true, share: 0 },
                    Creator { address: self.creator, verified: false, share: 100 },
                ],
            ),
            collection: Some(Collection { verified: false, key: self.collection_mint }),
        }
    }

    /// The creation of the new item's descriptive record.
    pub open spec fn metadata_request(&self) -> RequestView {
        RequestView {
            program: self.metadata_program,
            call: CallView::CreateMetadataAccountsV3 {
                accounts: CreateMetadataAccountsV3 {
                    metadata: self.master_metadata,
                    mint: self.master_mint,
                    mint_authority: self.head_signer,
                    payer: self.signer,
                    update_authority: self.head_signer,
                    system_program: self.system_program,
                    rent: self.rent,
                },
                data: self.item_data(),
                is_mutable: true,
                update_authority_is_signer: true,
            },
            signer_seeds: signing_seeds(self.drop_key@, self.drop.signer_nonce),
        }
    }

    /// The creation of the new item's final-edition marker, with no further editions.
    pub open spec fn edition_request(&self) -> RequestView {
        RequestView {
            program: self.metadata_program,
            call: CallView::CreateMasterEditionV3 {
                accounts: CreateMasterEditionV3 {
                    edition: self.master_edition,
                    mint: self.master_mint,
                    update_authority: self.head_signer,
                    mint_authority: self.head_signer,
                    payer: self.signer,
                    metadata: self.master_metadata,
                    token_program: self.token_program,
                    system_program: self.system_program,
                    rent: self.rent,
                },
                max_supply: Some(0),
            },
            signer_seeds: signing_seeds(self.drop_key@, self.drop.signer_nonce),
        }
    }

    /// The certification of the new item's membership in the drop's collection, on the
    /// strength of the collection item's own records.
    pub open spec fn verify_request(&self) -> RequestView {
        RequestView {
            program: self.metadata_program,
            call: CallView::VerifyCollection {
                accounts: VerifyCollection {
                    payer: self.signer,
                    metadata: self.master_metadata,
                    collection_authority: self.head_signer,
                    collection_mint: self.collection_mint,
                    collection_metadata: self.collection_metadata,
                    collection_master_edition: self.collection_edition,
                },
            },
            signer_seeds: signing_seeds(self.drop_key@, self.drop.signer_nonce),
        }
    }

    /// The same claim at another stage.
    pub open spec fn at(self, stage: Stage) -> ClaimDrop {
        ClaimDrop { stage, ..self }
    }

    /// The claim once every call was accepted: one item is off a finite supply, and the
    /// ledger entry is marked and names the item.
    pub open spec fn settled(self) -> ClaimDrop {
        ClaimDrop {
            drop: self.drop.after_mint(),
            claimed: Claimed {
                minted: true,
                master_mint: self.master_mint,
                master_metadata: self.master_metadata,
                master_edition: self.master_edition,
                nonce: self.claimed_bump,
            },
            stage: Stage::Settled,
            ..self
        }
    }

    /// One step of the claim: the claim after the step, and either the next request
    /// for a registry, or nothing more to ask because the claim is settled, or the
    /// failure that ended it.
    ///
    /// Without an answer the claim starts: it is turned down for the first reason that
    /// [`ClaimDrop::refusal`] finds, or asks for the mint. An acceptance moves it on to
    /// the next call in the order mint, descriptive record, final edition,
    /// certification, and after the last one settles it. A rejection ends it with the
    /// registry's code. Any other pairing of stage and answer is out of turn and leaves
    /// the claim as it was.
    pub open spec fn step(self, claim_id: Seq<char>, event: Option<Reply>) -> (
        ClaimDrop,
        Result<Option<RequestView>, Failure>,
    ) {
        match (self.stage, event) {
            (Stage::Idle, None) => match self.refusal(claim_id) {
                Some(failure) => (self.at(Stage::Aborted), Err(failure)),
                None => (self.at(Stage::Minting), Ok(Some(self.mint_request()))),
            },
            (Stage::Minting, Some(Reply::Accepted)) => (
                self.at(Stage::Describing),
                Ok(Some(self.metadata_request())),
            ),
            (Stage::Describing, Some(Reply::Accepted)) => (
                self.at(Stage::Sealing),
                Ok(Some(self.edition_request())),
            ),
            (Stage::Sealing, Some(Reply::Accepted)) => (
                self.at(Stage::Certifying),
                Ok(Some(self.verify_request())),
            ),
            (Stage::Certifying, Some(Reply::Accepted)) => (self.settled(), Ok(None)),
            (Stage::Minting, Some(Reply::Rejected(code))) => (
                self.at(Stage::Aborted),
                Err(Failure::Registry(code)),
            ),
            (Stage::Describing, Some(Reply::Rejected(code))) => (
                self.at(Stage::Aborted),
                Err(Failure::Registry(code)),
            ),
            (Stage::Sealing, Some(Reply::Rejected(code))) => (
                self.at(Stage::Aborted),
                Err(Failure::Registry(code)),
            ),
            (Stage::Certifying, Some(Reply::Rejected(code))) => (
                self.at(Stage::Aborted),
                Err(Failure::Registry(code)),
            ),
            _ => (self, Err(Failure::OutOfTurn)),
        }
    }

    /// The four requests of a claim, in the order in which they are made.
    pub open spec fn requests(&self) -> Seq<RequestView> {
        seq![
            self.mint_request(),
            self.metadata_request(),
            self.edition_request(),
            self.verify_request(),
        ]
    }

    /// How a claim that is run from start to end comes out, given what the registries
    /// answer: out of turn if it is not at its start; else the refusal, if there is
    /// one; else the first rejection, if there is one; else success.
    pub open spec fn outcome(&self, claim_id: Seq<char>, replies: ClaimReplies) -> Result<
        (),
        Failure,
    > {
        if self.stage != Stage::Idle {
            Err(Failure::OutOfTurn)
        } else {
            match (self.refusal(claim_id), replies.rejection()) {
                (Some(failure), _) => Err(failure),
                (None, Some(code)) => Err(Failure::Registry(code)),
                (None, None) => Ok(()),
            }
        }
    }

    /// The requests that such a run makes: none where the claim is out of turn or
    /// refused; else the four in order, up to and with the first that is rejected.
    pub open spec fn asked(&self, claim_id: Seq<char>, replies: ClaimReplies) -> Seq<
        RequestView,
    > {
        if self.stage != Stage::Idle || self.refusal(claim_id) is Some {
            Seq::empty()
        } else {
            self.requests().take(replies.asked())
        }
    }

    /// The claim after such a run: settled after success, untouched where the run was
    /// out of turn, and aborted with its records untouched otherwise.
    pub open spec fn finished(self, claim_id: Seq<char>, replies: ClaimReplies) -> ClaimDrop {
        if self.stage != Stage::Idle {
            self
        } else if self.outcome(claim_id, replies) is Ok {
            self.settled()
        } else {
            self.at(Stage::Aborted)
        }
    }

    /// Exec form of [`ClaimDrop::refusal`].
    pub fn check(&self, claim_id: &String) -> (refusal: Option<Failure>)
        ensures
            refusal == self.refusal(claim_id@),
    {
        if self.claimed.minted {
            Some(Failure::Code(ErrorCode::ClaimedDrop))
        } else if self.drop.left_mint == 0 && !self.drop.infinite {
            Some(Failure::Code(ErrorCode::MintLimitReached))
        } else if self.drop.claim_id != *claim_id {
            Some(Failure::ConstraintSeeds)
        } else if self.drop.collection != self.collection_mint || self.drop.creator
            != self.creator {
            Some(Failure::ConstraintRaw)
        } else {
            None
        }
    }
}

/// The accounts of a claim that are found from their seeds.
pub ghost struct ClaimAddresses {
    pub claimed_bump: u8,
    pub collection_mint: Address,
    pub collection_metadata: Address,
    pub collection_edition: Address,
    pub master_mint: Address,
    pub master_token: Address,
    pub master_metadata: Address,
    pub master_edition: Address,
}

impl ClaimDrop {
    /// The accounts of a requester's claim that are found from their seeds: the
    /// requester's ledger entry; the collection item with its descriptive record and
    /// edition marker; the new item, the requester's holding account for it, and its
    /// descriptive record and edition marker. Where one of the searches fails, the
    /// reason of the first that does.
    pub open spec fn addresses(
        program_id: Address,
        programs: Programs,
        drop_key: Address,
        signer: Address,
        claim_id: Seq<char>,
    ) -> Result<ClaimAddresses, SeedsError> {
        match found(claimed_seeds(claim_id, signer), program_id) {
            Err(e) => Err(e),
            Ok((_, claimed_bump)) => match found(collection_mint_seeds(drop_key), program_id) {
                Err(e) => Err(e),
                Ok((collection_mint, _)) => match records_of(
                    programs.metadata_program,
                    collection_mint,
                ) {
                    Err(e) => Err(e),
                    Ok((collection_metadata, collection_edition)) => match found(
                        master_mint_seeds(drop_key, signer),
                        program_id,
                    ) {
                        Err(e) => Err(e),
                        Ok((master_mint, _)) => match found(
                            token_account_seeds(signer, programs.token_program, master_mint),
                            programs.associated_token_program,
                        ) {
                            Err(e) => Err(e),
                            Ok((master_token, _)) => match records_of(
                                programs.metadata_program,
                                master_mint,
                            ) {
                                Err(e) => Err(e),
                                Ok((master_metadata, master_edition)) => Ok(
                                    ClaimAddresses {
                                        claimed_bump,
                                        collection_mint,
                                        collection_metadata,
                                        collection_edition,
                                        master_mint,
                                        master_token,
                                        master_metadata,
                                        master_edition,
                                    },
                                ),
                            },
                        },
                    },
                },
            },
        }
    }

    /// The context of a requester's claim on a drop whose record stands at `stands_at`,
    /// at the start. The identity and the record's own nonce must derive the address
    /// at which the record stands; that address and the stored authority nonce derive
    /// the authority; the creator is the one that the record names; the other
    /// accounts are those of [`ClaimDrop::addresses`]. Where a derivation or a search
    /// has no address the claim fails with the reason, and where the record stands
    /// elsewhere than derived, with a mismatch.
    pub open spec fn resolution(
        program_id: Address,
        programs: Programs,
        stands_at: Address,
        drop: Drop,
        claimed: Claimed,
        signer: Address,
        claim_id: Seq<char>,
    ) -> Result<ClaimDrop, Failure> {
        match derived(drop_seeds(claim_id), drop.drop_nonce, program_id) {
            Err(e) => Err(Failure::Seeds(e)),
            Ok(drop_key) => if drop_key != stands_at {
                Err(Failure::ConstraintSeeds)
            } else {
                match derived(authority_seeds(drop_key), drop.signer_nonce, program_id) {
                    Err(e) => Err(Failure::Seeds(e)),
                    Ok(head_signer) => match Self::addresses(
                        program_id,
                        programs,
                        drop_key,
                        signer,
                        claim_id,
                    ) {
                        Err(e) => Err(Failure::Seeds(e)),
                        Ok(found) => Ok(
                            ClaimDrop {
                                signer,
                                drop_key,
                                drop,
                                creator: drop.creator,
                                claimed,
                                claimed_bump: found.claimed_bump,
                                collection_mint: found.collection_mint,
                                collection_metadata: found.collection_metadata,
                                collection_edition: found.collection_edition,
                                master_mint: found.master_mint,
                                master_token: found.master_token,
                                master_metadata: found.master_metadata,
                                master_edition: found.master_edition,
                                head_signer,
                                system_program: programs.system_program,
                                token_program: programs.token_program,
                                associated_token_program: programs.associated_token_program,
                                metadata_program: programs.metadata_program,
                                rent: programs.rent,
                                stage: Stage::Idle,
                            },
                        ),
                    },
                }
            },
        }
    }

    /// Builds the context of [`ClaimDrop::resolution`].
    pub fn resolve(
        program_id: &Address,
        programs: &Programs,
        stands_at: &Address,
        drop: &Drop,
        claimed: Claimed,
        signer: &Address,
        claim_id: &String,
    ) -> (ctx: Result<ClaimDrop, Failure>)
        ensures
            ctx == ClaimDrop::resolution(
                *program_id,
                *programs,
                *stands_at,
                *drop,
                claimed,
                *signer,
                claim_id@,
            ),
    {
        let drop_key = match derive_with_nonce(
            &seeds_of_drop(claim_id),
            drop.drop_nonce,
            program_id,
        ) {
            Ok(key) => key,
            Err(e) => {
                return Err(Failure::Seeds(e));
            },
        };
        if drop_key != *stands_at {
            return Err(Failure::ConstraintSeeds);
        }
        let head_signer = match derive_with_nonce(
            &seeds_of_authority(&drop_key),
            drop.signer_nonce,
            program_id,
        ) {
            Ok(key) => key,
            Err(e) => {
                return Err(Failure::Seeds(e));
            },
        };
        let claimed_bump = match find_with_nonce(&seeds_of_claimed(claim_id, signer), program_id) {
            Ok((_, nonce)) => nonce,
            Err(e) => {
                return Err(Failure::Seeds(e));
            },
        };
        let collection_mint = match find_with_nonce(
            &seeds_of_collection_mint(&drop_key),
            program_id,
        ) {
            Ok((key, _)) => key,
            Err(e) => {
                return Err(Failure::Seeds(e));
            },
        };
        let (collection_metadata, collection_edition) = match find_records(
            &programs.metadata_program,
            &collection_mint,
        ) {
            Ok(pair) => pair,
            Err(e) => {
                return Err(Failure::Seeds(e));
            },
        };
        let master_mint = match find_with_nonce(
            &seeds_of_master_mint(&drop_key, signer),
            program_id,
        ) {
            Ok((key, _)) => key,
            Err(e) => {
                return Err(Failure::Seeds(e));
            },
        };
        let master_token = match find_with_nonce(
            &seeds_of_token_account(signer, &programs.token_program, &master_mint),
            &programs.associated_token_program,
        ) {
            Ok((key, _)) => key,
            Err(e) => {
                return Err(Failure::Seeds(e));
            },
        };
        let (master_metadata, master_edition) = match find_records(
            &programs.metadata_program,
            &master_mint,
        ) {
            Ok(pair) => pair,
            Err(e) => {
                return Err(Failure::Seeds(e));
            },
        };
        Ok(
            ClaimDrop {
                signer: *signer,
                drop_key,
                drop: drop.clone(),
                creator: drop.creator,
                claimed,
                claimed_bump,
                collection_mint,
                collection_metadata,
                collection_edition,
                master_mint,
                master_token,
                master_metadata,
                master_edition,
                head_signer,
                system_program: programs.system_program,
                token_program: programs.token_program,
                associated_token_program: programs.associated_token_program,
                metadata_program: programs.metadata_program,
                rent: programs.rent,
                stage: Stage::Idle,
            },
        )
    }
}

/// Runs one step of a claim, as [`ClaimDrop::step`] defines it: `event` is `None` to
/// start the claim and the registry's answer to the last request afterwards.
pub fn handler(ctx: &mut ClaimDrop, claim_id: &String, event: Option<Reply>) -> (step: Result<
    Option<Request>,
    Failure,
>)
    ensures
        (*final(ctx), step_view(step)) == old(ctx).step(claim_id@, event),
{
    let seeds = signer_seeds(&ctx.drop_key, ctx.drop.signer_nonce);
    match (ctx.stage, event) {
        (Stage::Idle, None) => {
            match ctx.check(claim_id) {
                Some(failure) => {
                    ctx.stage = Stage::Aborted;
                    Err(failure)
                },
                None => {
                    //
                    // Mint the master token.
                    //
                    ctx.stage = Stage::Minting;
                    Ok(
                        Some(
                            Request {
                                program: ctx.token_program,
                                call: Call::MintTo {
                                    accounts: MintTo {
                                        mint: ctx.master_mint,
                                        to: ctx.master_token,
                                        authority: ctx.head_signer,
                                    },
                                    amount: 1,
                                },
                                signer_seeds: seeds,
                            },
                        ),
                    )
                },
            }
        },
        (Stage::Minting, Some(Reply::Accepted)) => {
            //
            // Create metadata.
            //
            let mut creators: Vec<Creator> = Vec::new();
            creators.push(Creator { address: ctx.head_signer, verified: true, share: 0 });
            creators.push(Creator { address: ctx.creator, verified: false, share: 100 });
            assert(creators@ =~= seq![
                Creator { address: ctx.head_signer, verified: true, share: 0 },
                Creator { address: ctx.creator, verified: false, share: 100 },
            ]);
            let data = DataV2 {
                name: ctx.drop.name.clone(),
                symbol: ctx.drop.ticker.clone(),
                uri: ctx.drop.uri.clone(),
                seller_fee_basis_points: SELLER_FEE_BASIS_POINTS,
                creators: Some(creators),
                collection: Some(Collection { verified: false, key: ctx.collection_mint }),
            };
            assert(data@ == old(ctx).item_data());
            ctx.stage = Stage::Describing;
            Ok(
                Some(
                    Request {
                        program: ctx.metadata_program,
                        call: Call::CreateMetadataAccountsV3 {
                            accounts: CreateMetadataAccountsV3 {
                                metadata: ctx.master_metadata,
                                mint: ctx.master_mint,
                                mint_authority: ctx.head_signer,
                                payer: ctx.signer,
                                update_authority: ctx.head_signer,
                                system_program: ctx.system_program,
                                rent: ctx.rent,
                            },
                            data,
                            is_mutable: true,
                            update_authority_is_signer: true,
                        },
                        signer_seeds: seeds,
                    },
                ),
            )
        },
        (Stage::Describing, Some(Reply::Accepted)) => {
            //
            // Create master edition.
            //
            ctx.stage = Stage::Sealing;
            Ok(
                Some(
                    Request {
                        program: ctx.metadata_program,
                        call: Call::CreateMasterEditionV3 {
                            accounts: CreateMasterEditionV3 {
                                edition: ctx.master_edition,
                                mint: ctx.master_mint,
                                update_authority: ctx.head_signer,
                                mint_authority: ctx.head_signer,
                                payer: ctx.signer,
                                metadata: ctx.master_metadata,
                                token_program: ctx.token_program,
                                system_program: ctx.system_program,
                                rent: ctx.rent,
                            },
                            max_supply: Some(0),
                        },
                        signer_seeds: seeds,
                    },
                ),
            )
        },
        (Stage::Sealing, Some(Reply::Accepted)) => {
            //
            // Verify collection.
            //
            ctx.stage = Stage::Certifying;
            Ok(
                Some(
                    Request {
                        program: ctx.metadata_program,
                        call: Call::VerifyCollection {
                            accounts: VerifyCollection {
                                payer: ctx.signer,
                                metadata: ctx.master_metadata,
                                collection_authority: ctx.head_signer,
                                collection_mint: ctx.collection_mint,
                                collection_metadata: ctx.collection_metadata,
                                collection_master_edition: ctx.collection_edition,
                            },
                        },
                        signer_seeds: seeds,
                    },
                ),
            )
        },
        (Stage::Certifying, Some(Reply::Accepted)) => {
            ctx.drop.record_mint();
            ctx.claimed.minted = true;
            ctx.claimed.master_mint = ctx.master_mint;
            ctx.claimed.master_edition = ctx.master_edition;
            ctx.claimed.master_metadata = ctx.master_metadata;
            ctx.claimed.nonce = ctx.claimed_bump;
            ctx.stage = Stage::Settled;
            Ok(None)
        },
        (Stage::Minting, Some(Reply::Rejected(code))) => {
            ctx.stage = Stage::Aborted;
            Err(Failure::Registry(code))
        },
        (Stage::Describing, Some(Reply::Rejected(code))) => {
            ctx.stage = Stage::Aborted;
            Err(Failure::Registry(code))
        },
        (Stage::Sealing, Some(Reply::Rejected(code))) => {
            ctx.stage = Stage::Aborted;
            Err(Failure::Registry(code))
        },
        (Stage::Certifying, Some(Reply::Rejected(code))) => {
            ctx.stage = Stage::Aborted;
            Err(Failure::Registry(code))
        },
        _ => Err(Failure::OutOfTurn),
    }
}

/// Runs a claim from start to end against the given answers of the registries: steps
/// through [`handler`], hands each request's answer back to it, and stops at the first
/// step that ends the claim.
pub fn run(ctx: &mut ClaimDrop, claim_id: &String, replies: &ClaimReplies) -> (done: Transcript<()>)
    ensures
        done.result == old(ctx).outcome(claim_id@, *replies),
        requests_view(done.requests@) == old(ctx).asked(claim_id@, *replies),
        *final(ctx) == old(ctx).finished(claim_id@, *replies),
{
    let ghost all = old(ctx).requests();
    let mut requests: Vec<Request> = Vec::new();
    let step = handler(ctx, claim_id, None);
    if let Some(result) = note_step(step, &mut requests) {
        assert(requests_view(requests@) =~= Seq::empty());
        return Transcript { requests, result };
    }
    let step = handler(ctx, claim_id, Some(replies.mint_to));
    if let Some(result) = note_step(step, &mut requests) {
        assert(requests_view(requests@) =~= all.take(1));
        return Transcript { requests, result };
    }
    let step = handler(ctx, claim_id, Some(replies.create_metadata));
    if let Some(result) = note_step(step, &mut requests) {
        assert(requests_view(requests@) =~= all.take(2));
        return Transcript { requests, result };
    }
    let step = handler(ctx, claim_id, Some(replies.create_master_edition));
    if let Some(result) = note_step(step, &mut requests) {
        assert(requests_view(requests@) =~= all.take(3));
        return Transcript { requests, result };
    }
    let step = handler(ctx, claim_id, Some(replies.verify_collection));
    assert(requests_view(requests@) =~= all.take(4));
    match note_step(step, &mut requests) {
        Some(result) => Transcript { requests, result },
        None => Transcript { requests, result: Err(Failure::OutOfTurn) },
    }
}

} // verus!

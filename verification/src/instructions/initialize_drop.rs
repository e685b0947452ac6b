use crate::addresses::authority_seeds;
use crate::addresses::collection_mint_seeds;
use crate::addresses::drop_seeds;
use crate::addresses::find_records;
use crate::addresses::records_of;
use crate::addresses::seeds_of_authority;
use crate::addresses::seeds_of_collection_mint;
use crate::addresses::seeds_of_drop;
use crate::addresses::seeds_of_token_account;
use crate::addresses::token_account_seeds;
use crate::authority::derived;
use crate::authority::find_with_nonce;
use crate::authority::found;
use crate::authority::signer_seeds;
use crate::errors::SeedsError;
use crate::state::Programs;
use crate::authority::signing_seeds;
use crate::errors::Failure;
use crate::instructions::claim_drop::step_view;
use crate::instructions::claim_drop::SELLER_FEE_BASIS_POINTS;
use crate::registry::note_step;
use crate::registry::requests_view;
use crate::registry::Call;
use crate::registry::InitializeReplies;
use crate::registry::Transcript;
use crate::registry::CallView;
use crate::registry::CreateMasterEditionV3;
use crate::registry::CreateMetadataAccountsV3;
use crate::registry::Creator;
use crate::registry::DataV2;
use crate::registry::DataV2View;
use crate::registry::MintTo;
use crate::registry::Reply;
use crate::registry::Request;
use crate::registry::RequestView;
use crate::registry::Stage;
use crate::state::Address;
use crate::state::Drop;
use vstd::prelude::*;

verus! {

/// Everything that the initialization of one drop works on: the initializing signer,
/// the place of the drop record, the drop's authority, the accounts of the collection
/// item, and the stage that the initialization has reached.
#[derive(Clone, Debug, PartialEq, Eq)]
pub struct Initialize {
    /// Who initializes the drop, pays, and becomes its creator.
    pub signer: Address,
    /// The address of the drop record.
    pub drop_key: Address,
    /// The drop record, once the initialization has written it.
    pub drop: Option<Drop>,
    /// Nonce of the drop record's address.
    pub drop_bump: u8,
    /// The drop's signing authority.
    pub head_signer: Address,
    /// Nonce of the authority's address.
    pub head_signer_bump: u8,
    pub collection_mint: Address,
    pub master_token: Address,
    pub master_metadata: Address,
    pub master_edition: Address,
    pub system_program: Address,
    pub token_program: Address,
    pub associated_token_program: Address,
    pub metadata_program: Address,
    pub rent: Address,
    pub stage: Stage,
}

impl Initialize {
    /// The mint of one unit of the collection item into the authority's holding
    /// account.
    pub open spec fn mint_request(&self) -> RequestView {
        RequestView {
            program: self.token_program,
            call: CallView::MintTo {
                accounts: MintTo {
                    mint: self.collection_mint,
                    to: self.master_token,
                    authority: self.head_signer,
                },
                amount: 1,
            },
            signer_seeds: signing_seeds(self.drop_key@, self.head_signer_bump),
        }
    }

    /// The descriptive record of the collection item: the given name, ticker and URI,
    /// the authority as verified creator without a share, the signer with the whole
    /// share, and no collection, since the item is the collection.
    pub open spec fn collection_data(
        &self,
        name: Seq<char>,
        ticker: Seq<char>,
        uri: Seq<char>,
    ) -> DataV2View {
        DataV2View {
            name,
            symbol: ticker,
            uri,
            seller_fee_basis_points: SELLER_FEE_BASIS_POINTS,
            creators: Some(
                seq![
                    Creator { address: self.head_signer, verified: true, share: 0 },
                    Creator { address: self.signer, verified: false, share: 100 },
                ],
            ),
            collection: None,
        }
    }

    /// The creation of the collection item's descriptive record.
    pub open spec fn metadata_request(
        &self,
        name: Seq<char>,
        ticker: Seq<char>,
        uri: Seq<char>,
    ) -> RequestView {
        RequestView {
            program: self.metadata_program,
            call: CallView::CreateMetadataAccountsV3 {
                accounts: CreateMetadataAccountsV3 {
                    metadata: self.master_metadata,
                    mint: self.collection_mint,
                    mint_authority: self.head_signer,
                    payer: self.signer,
                    update_authority: self.head_signer,
                    system_program: self.system_program,
                    rent: self.rent,
                },
                data: self.collection_data(name, ticker, uri),
                is_mutable: true,
                update_authority_is_signer: true,
            },
            signer_seeds: signing_seeds(self.drop_key@, self.head_signer_bump),
        }
    }

    /// The creation of the collection item's final-edition marker, with no further
    /// editions.
    pub open spec fn edition_request(&self) -> RequestView {
        RequestView {
            program: self.metadata_program,
            call: CallView::CreateMasterEditionV3 {
                accounts: CreateMasterEditionV3 {
                    edition: self.master_edition,
                    mint: self.collection_mint,
                    update_authority: self.head_signer,
                    mint_authority: self.head_signer,
                    payer: self.signer,
                    metadata: self.master_metadata,
                    token_program: self.token_program,
                    system_program: self.system_program,
                    rent: self.rent,
                },
                max_supply: Some(0),
            },
            signer_seeds: signing_seeds(self.drop_key@, self.head_signer_bump),
        }
    }

    /// The drop record that a settled initialization writes: the given texts, the
    /// signer as creator, the collection item, the supply as given, unlimited exactly
    /// when the maximum is zero, and the two nonces.
    pub open spec fn populated(
        &self,
        claim_id: String,
        name: String,
        ticker: String,
        uri: String,
        description: String,
        maximum_mint: u64,
    ) -> Drop {
        Drop {
            claim_id,
            name,
            description,
            creator: self.signer,
            collection: self.collection_mint,
            infinite: maximum_mint == 0,
            left_mint: maximum_mint,
            ticker,
            uri,
            drop_nonce: self.drop_bump,
            signer_nonce: self.head_signer_bump,
        }
    }

    /// The three requests of an initialization, in the order in which they are made.
    pub open spec fn requests(&self, name: Seq<char>, ticker: Seq<char>, uri: Seq<char>) -> Seq<
        RequestView,
    > {
        seq![self.mint_request(), self.metadata_request(name, ticker, uri), self.edition_request()]
    }

    /// How an initialization that is run from start to end comes out, given what the
    /// registries answer: out of turn if it is not at its start; else the first
    /// rejection, if there is one; else success.
    pub open spec fn outcome(&self, replies: InitializeReplies) -> Result<(), Failure> {
        if self.stage != Stage::Idle {
            Err(Failure::OutOfTurn)
        } else {
            match replies.rejection() {
                Some(code) => Err(Failure::Registry(code)),
                None => Ok(()),
            }
        }
    }

    /// The requests that such a run makes: none where it is out of turn; else the
    /// three in order, up to and with the first that is rejected.
    pub open spec fn asked(
        &self,
        name: Seq<char>,
        ticker: Seq<char>,
        uri: Seq<char>,
        replies: InitializeReplies,
    ) -> Seq<RequestView> {
        if self.stage != Stage::Idle {
            Seq::empty()
        } else {
            self.requests(name, ticker, uri).take(replies.asked())
        }
    }

    /// The initialization once every call was accepted: the populated record is
    /// written.
    pub open spec fn settled(
        self,
        claim_id: String,
        name: String,
        ticker: String,
        uri: String,
        description: String,
        maximum_mint: u64,
    ) -> Initialize {
        Initialize {
            drop: Some(self.populated(claim_id, name, ticker, uri, description, maximum_mint)),
            stage: Stage::Settled,
            ..self
        }
    }

    /// The initialization after a run from start to end: settled after success,
    /// untouched where the run was out of turn, and aborted without a record
    /// otherwise.
    pub open spec fn finished(
        self,
        claim_id: String,
        name: String,
        ticker: String,
        uri: String,
        description: String,
        maximum_mint: u64,
        replies: InitializeReplies,
    ) -> Initialize {
        if self.stage != Stage::Idle {
            self
        } else if self.outcome(replies) is Ok {
            self.settled(claim_id, name, ticker, uri, description, maximum_mint)
        } else {
            self.at(Stage::Aborted)
        }
    }

    /// The same initialization at another stage.
    pub open spec fn at(self, stage: Stage) -> Initialize {
        Initialize { stage, ..self }
    }

    /// One step of the initialization: the initialization after the step, and either
    /// the next request for a registry, or nothing more to ask because the drop record
    /// is written, or the failure that ended it.
    ///
    /// Without an answer the initialization starts by asking for the mint. An
    /// acceptance moves it on to the next call in the order mint, descriptive record,
    /// final edition, and after the last one writes the record. A rejection ends it
    /// with the registry's code and the record untouched. Any other pairing of stage
    /// and answer is out of turn and leaves everything as it was.
    pub open spec fn step(
        self,
        claim_id: String,
        name: String,
        ticker: String,
        uri: String,
        description: String,
        maximum_mint: u64,
        event: Option<Reply>,
    ) -> (Initialize, Result<Option<RequestView>, Failure>) {
        match (self.stage, event) {
            (Stage::Idle, None) => (self.at(Stage::Minting), Ok(Some(self.mint_request()))),
            (Stage::Minting, Some(Reply::Accepted)) => (
                self.at(Stage::Describing),
                Ok(Some(self.metadata_request(name@, ticker@, uri@))),
            ),
            (Stage::Describing, Some(Reply::Accepted)) => (
                self.at(Stage::Sealing),
                Ok(Some(self.edition_request())),
            ),
            (Stage::Sealing, Some(Reply::Accepted)) => (
                self.settled(claim_id, name, ticker, uri, description, maximum_mint),
                Ok(None),
            ),
            (Stage::Minting, Some(Reply::Rejected(code))) => (
                self.at(Stage::Aborted),
                Err(Failure::Registry(code)),
            ),
            (Stage::Describing, Some(Reply::Rejected(code))) => (
                self.at(Stage::Aborted),
                Err(Failure::Registry(code)),
            ),
            (Stage::Sealing, Some(Reply::Rejected(code))) => (
                self.at(Stage::Aborted),
                Err(Failure::Registry(code)),
            ),
            _ => (self, Err(Failure::OutOfTurn)),
        }
    }
}

impl Initialize {
    /// The context of the initialization of a drop by a signer, with every address
    /// found from its seeds, at the start and with no record written: the drop record
    /// from the identity; the authority from the drop record's address; the collection
    /// item from that address too; the authority's holding account for the item; the
    /// item's descriptive record and edition marker. Where one of the searches fails,
    /// the reason of the first that does.
    pub open spec fn resolution(
        program_id: Address,
        programs: Programs,
        signer: Address,
        claim_id: Seq<char>,
    ) -> Result<Initialize, SeedsError> {
        match found(drop_seeds(claim_id), program_id) {
            Err(e) => Err(e),
            Ok((drop_key, drop_bump)) => match found(authority_seeds(drop_key), program_id) {
                Err(e) => Err(e),
                Ok((head_signer, head_signer_bump)) => match found(
                    collection_mint_seeds(drop_key),
                    program_id,
                ) {
                    Err(e) => Err(e),
                    Ok((collection_mint, _)) => match found(
                        token_account_seeds(head_signer, programs.token_program, collection_mint),
                        programs.associated_token_program,
                    ) {
                        Err(e) => Err(e),
                        Ok((master_token, _)) => match records_of(
                            programs.metadata_program,
                            collection_mint,
                        ) {
                            Err(e) => Err(e),
                            Ok((master_metadata, master_edition)) => Ok(
                                Initialize {
                                    signer,
                                    drop_key,
                                    drop: None,
                                    drop_bump,
                                    head_signer,
                                    head_signer_bump,
                                    collection_mint,
                                    master_token,
                                    master_metadata,
                                    master_edition,
                                    system_program: programs.system_program,
                                    token_program: programs.token_program,
                                    associated_token_program: programs.associated_token_program,
                                    metadata_program: programs.metadata_program,
                                    rent: programs.rent,
                                    stage: Stage::Idle,
                                },
                            ),
                        },
                    },
                },
            },
        }
    }

    /// Builds the context of [`Initialize::resolution`]. The two nonces that it holds
    /// derive the addresses that were found with them, so that a claim that is given
    /// the nonces arrives at the same drop record and the same authority.
    pub fn resolve(
        program_id: &Address,
        programs: &Programs,
        signer: &Address,
        claim_id: &String,
    ) -> (ctx: Result<Initialize, SeedsError>)
        ensures
            ctx == Initialize::resolution(*program_id, *programs, *signer, claim_id@),
            ctx matches Ok(found) ==> {
                &&& derived(drop_seeds(claim_id@), found.drop_bump, *program_id) matches Ok(key)
                    && key == found.drop_key
                &&& derived(authority_seeds(found.drop_key), found.head_signer_bump, *program_id)
                    matches Ok(key) && key == found.head_signer
            },
    {
        let (drop_key, drop_bump) = match find_with_nonce(&seeds_of_drop(claim_id), program_id) {
            Ok(pair) => pair,
            Err(e) => {
                return Err(e);
            },
        };
        let (head_signer, head_signer_bump) = match find_with_nonce(
            &seeds_of_authority(&drop_key),
            program_id,
        ) {
            Ok(pair) => pair,
            Err(e) => {
                return Err(e);
            },
        };
        let collection_mint = match find_with_nonce(
            &seeds_of_collection_mint(&drop_key),
            program_id,
        ) {
            Ok((key, _)) => key,
            Err(e) => {
                return Err(e);
            },
        };
        let master_token = match find_with_nonce(
            &seeds_of_token_account(&head_signer, &programs.token_program, &collection_mint),
            &programs.associated_token_program,
        ) {
            Ok((key, _)) => key,
            Err(e) => {
                return Err(e);
            },
        };
        let (master_metadata, master_edition) = match find_records(
            &programs.metadata_program,
            &collection_mint,
        ) {
            Ok(pair) => pair,
            Err(e) => {
                return Err(e);
            },
        };
        Ok(
            Initialize {
                signer: *signer,
                drop_key,
                drop: None,
                drop_bump,
                head_signer,
                head_signer_bump,
                collection_mint,
                master_token,
                master_metadata,
                master_edition,
                system_program: programs.system_program,
                token_program: programs.token_program,
                associated_token_program: programs.associated_token_program,
                metadata_program: programs.metadata_program,
                rent: programs.rent,
                stage: Stage::Idle,
            },
        )
    }
}

/// Runs one step of an initialization, as [`Initialize::step`] defines it: `event` is
/// `None` to start and the registry's answer to the last request afterwards.
pub fn handler(
    ctx: &mut Initialize,
    claim_id: &String,
    name: &String,
    ticker: &String,
    uri: &String,
    description: &String,
    maximum_mint: u64,
    event: Option<Reply>,
) -> (step: Result<Option<Request>, Failure>)
    ensures
        (*final(ctx), step_view(step)) == old(ctx).step(
            *claim_id,
            *name,
            *ticker,
            *uri,
            *description,
            maximum_mint,
            event,
        ),
{
    let seeds = signer_seeds(&ctx.drop_key, ctx.head_signer_bump);
    match (ctx.stage, event) {
        (Stage::Idle, None) => {
            //
            // Mint the master token.
            //
            ctx.stage = Stage::Minting;
            Ok(
                Some(
                    Request {
                        program: ctx.token_program,
                        call: Call::MintTo {
                            accounts: MintTo {
                                mint: ctx.collection_mint,
                                to: ctx.master_token,
                                authority: ctx.head_signer,
                            },
                            amount: 1,
                        },
                        signer_seeds: seeds,
                    },
                ),
            )
        },
        (Stage::Minting, Some(Reply::Accepted)) => {
            //
            // Create metadata.
            //
            let mut creators: Vec<Creator> = Vec::new();
            creators.push(Creator { address: ctx.head_signer, verified: true, share: 0 });
            creators.push(Creator { address: ctx.signer, verified: false, share: 100 });
            assert(creators@ =~= seq![
                Creator { address: ctx.head_signer, verified: true, share: 0 },
                Creator { address: ctx.signer, verified: false, share: 100 },
            ]);
            let data = DataV2 {
                name: name.clone(),
                symbol: ticker.clone(),
                uri: uri.clone(),
                seller_fee_basis_points: SELLER_FEE_BASIS_POINTS,
                creators: Some(creators),
                collection: None,
            };
            assert(data@ == old(ctx).collection_data(name@, ticker@, uri@));
            ctx.stage = Stage::Describing;
            Ok(
                Some(
                    Request {
                        program: ctx.metadata_program,
                        call: Call::CreateMetadataAccountsV3 {
                            accounts: CreateMetadataAccountsV3 {
                                metadata: ctx.master_metadata,
                                mint: ctx.collection_mint,
                                mint_authority: ctx.head_signer,
                                payer: ctx.signer,
                                update_authority: ctx.head_signer,
                                system_program: ctx.system_program,
                                rent: ctx.rent,
                            },
                            data,
                            is_mutable: true,
                            update_authority_is_signer: true,
                        },
                        signer_seeds: seeds,
                    },
                ),
            )
        },
        (Stage::Describing, Some(Reply::Accepted)) => {
            //
            // Create master edition.
            //
            ctx.stage = Stage::Sealing;
            Ok(
                Some(
                    Request {
                        program: ctx.metadata_program,
                        call: Call::CreateMasterEditionV3 {
                            accounts: CreateMasterEditionV3 {
                                edition: ctx.master_edition,
                                mint: ctx.collection_mint,
                                update_authority: ctx.head_signer,
                                mint_authority: ctx.head_signer,
                                payer: ctx.signer,
                                metadata: ctx.master_metadata,
                                token_program: ctx.token_program,
                                system_program: ctx.system_program,
                                rent: ctx.rent,
                            },
                            max_supply: Some(0),
                        },
                        signer_seeds: seeds,
                    },
                ),
            )
        },
        (Stage::Sealing, Some(Reply::Accepted)) => {
            ctx.drop = Some(
                Drop {
                    claim_id: claim_id.clone(),
                    name: name.clone(),
                    description: description.clone(),
                    creator: ctx.signer,
                    collection: ctx.collection_mint,
                    infinite: maximum_mint == 0,
                    left_mint: maximum_mint,
                    ticker: ticker.clone(),
                    uri: uri.clone(),
                    drop_nonce: ctx.drop_bump,
                    signer_nonce: ctx.head_signer_bump,
                },
            );
            ctx.stage = Stage::Settled;
            Ok(None)
        },
        (Stage::Minting, Some(Reply::Rejected(code))) => {
            ctx.stage = Stage::Aborted;
            Err(Failure::Registry(code))
        },
        (Stage::Describing, Some(Reply::Rejected(code))) => {
            ctx.stage = Stage::Aborted;
            Err(Failure::Registry(code))
        },
        (Stage::Sealing, Some(Reply::Rejected(code))) => {
            ctx.stage = Stage::Aborted;
            Err(Failure::Registry(code))
        },
        _ => Err(Failure::OutOfTurn),
    }
}

/// Runs an initialization from start to end against the given answers of the
/// registries: steps through [`handler`], hands each request's answer back to it, and
/// stops at the first step that ends the initialization. After success the context
/// holds the populated drop record; otherwise it holds none.
pub fn run(
    ctx: &mut Initialize,
    claim_id: &String,
    name: &String,
    ticker: &String,
    uri: &String,
    description: &String,
    maximum_mint: u64,
    replies: &InitializeReplies,
) -> (done: Transcript<()>)
    ensures
        done.result == old(ctx).outcome(*replies),
        requests_view(done.requests@) == old(ctx).asked(name@, ticker@, uri@, *replies),
        *final(ctx) == old(ctx).finished(
            *claim_id,
            *name,
            *ticker,
            *uri,
            *description,
            maximum_mint,
            *replies,
        ),
{
    let ghost all = old(ctx).requests(name@, ticker@, uri@);
    let mut requests: Vec<Request> = Vec::new();
    let step = handler(ctx, claim_id, name, ticker, uri, description, maximum_mint, None);
    if let Some(result) = note_step(step, &mut requests) {
        assert(requests_view(requests@) =~= Seq::empty());
        return Transcript { requests, result };
    }
    let step = handler(
        ctx,
        claim_id,
        name,
        ticker,
        uri,
        description,
        maximum_mint,
        Some(replies.mint_to),
    );
    if let Some(result) = note_step(step, &mut requests) {
        assert(requests_view(requests@) =~= all.take(1));
        return Transcript { requests, result };
    }
    let step = handler(
        ctx,
        claim_id,
        name,
        ticker,
        uri,
        description,
        maximum_mint,
        Some(replies.create_metadata),
    );
    if let Some(result) = note_step(step, &mut requests) {
        assert(requests_view(requests@) =~= all.take(2));
        return Transcript { requests, result };
    }
    let step = handler(
        ctx,
        claim_id,
        name,
        ticker,
        uri,
        description,
        maximum_mint,
        Some(replies.create_master_edition),
    );
    assert(requests_view(requests@) =~= all.take(3));
    match note_step(step, &mut requests) {
        Some(result) => Transcript { requests, result },
        None => Transcript { requests, result: Err(Failure::OutOfTurn) },
    }
}

} // verus!

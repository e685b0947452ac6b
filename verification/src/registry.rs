use crate::authority::seeds_view;
use crate::errors::Failure;
use crate::state::Address;
use vstd::prelude::*;

verus! {

/// One creator of an item, with the share of the proceeds.
#[derive(Clone, Copy, Debug, PartialEq, Eq)]
pub struct Creator {
    pub address: Address,
    pub verified: bool,
    pub share: u8,
}

/// The collection that an item names, and whether its membership is certified.
#[derive(Clone, Copy, Debug, PartialEq, Eq)]
pub struct Collection {
    pub verified: bool,
    pub key: Address,
}

/// The fields of an item's descriptive record.
#[derive(Clone, Debug, PartialEq, Eq)]
pub struct DataV2 {
    pub name: String,
    pub symbol: String,
    pub uri: String,
    pub seller_fee_basis_points: u16,
    pub creators: Option<Vec<Creator>>,
    pub collection: Option<Collection>,
}

/// [`DataV2`] as a mathematical value.
pub ghost struct DataV2View {
    pub name: Seq<char>,
    pub symbol: Seq<char>,
    pub uri: Seq<char>,
    pub seller_fee_basis_points: u16,
    pub creators: Option<Seq<Creator>>,
    pub collection: Option<Collection>,
}

impl View for DataV2 {
    type V = DataV2View;

    open spec fn view(&self) -> DataV2View {
        DataV2View {
            name: self.name@,
            symbol: self.symbol@,
            uri: self.uri@,
            seller_fee_basis_points: self.seller_fee_basis_points,
            creators: match self.creators {
                Some(list) => Some(list@),
                None => None,
            },
            collection: self.collection,
        }
    }
}

/// The accounts of a mint into a holding account.
#[derive(Clone, Copy, Debug, PartialEq, Eq)]
pub struct MintTo {
    pub mint: Address,
    pub to: Address,
    pub authority: Address,
}

/// The accounts of the creation of a descriptive record.
#[derive(Clone, Copy, Debug, PartialEq, Eq)]
pub struct CreateMetadataAccountsV3 {
    pub metadata: Address,
    pub mint: Address,
    pub mint_authority: Address,
    pub payer: Address,
    pub update_authority: Address,
    pub system_program: Address,
    pub rent: Address,
}

/// The accounts of the creation of a final-edition marker.
#[derive(Clone, Copy, Debug, PartialEq, Eq)]
pub struct CreateMasterEditionV3 {
    pub edition: Address,
    pub mint: Address,
    pub update_authority: Address,
    pub mint_authority: Address,
    pub payer: Address,
    pub metadata: Address,
    pub token_program: Address,
    pub system_program: Address,
    pub rent: Address,
}

/// The accounts of the certification of an item's membership in a collection.
#[derive(Clone, Copy, Debug, PartialEq, Eq)]
pub struct VerifyCollection {
    pub payer: Address,
    pub metadata: Address,
    pub collection_authority: Address,
    pub collection_mint: Address,
    pub collection_metadata: Address,
    pub collection_master_edition: Address,
}

/// One operation asked of a registry.
#[allow(inconsistent_fields)]
#[derive(Clone, Debug, PartialEq, Eq)]
pub enum Call {
    /// Token registry: mint `amount` units.
    MintTo { accounts: MintTo, amount: u64 },
    /// Metadata registry: create the descriptive record.
    CreateMetadataAccountsV3 {
        accounts: CreateMetadataAccountsV3,
        data: DataV2,
        is_mutable: bool,
        update_authority_is_signer: bool,
    },
    /// Metadata registry: create the final-edition marker.
    CreateMasterEditionV3 { accounts: CreateMasterEditionV3, max_supply: Option<u64> },
    /// Metadata registry: certify the membership in the collection.
    VerifyCollection { accounts: VerifyCollection },
}

/// [`Call`] as a mathematical value.
#[allow(inconsistent_fields)]
pub ghost enum CallView {
    MintTo { accounts: MintTo, amount: u64 },
    CreateMetadataAccountsV3 {
        accounts: CreateMetadataAccountsV3,
        data: DataV2View,
        is_mutable: bool,
        update_authority_is_signer: bool,
    },
    CreateMasterEditionV3 { accounts: CreateMasterEditionV3, max_supply: Option<u64> },
    VerifyCollection { accounts: VerifyCollection },
}

impl View for Call {
    type V = CallView;

    open spec fn view(&self) -> CallView {
        match *self {
            Call::MintTo { accounts, amount } => CallView::MintTo { accounts, amount },
            Call::CreateMetadataAccountsV3 {
                accounts,
                data,
                is_mutable,
                update_authority_is_signer,
            } => CallView::CreateMetadataAccountsV3 {
                accounts,
                data: data@,
                is_mutable,
                update_authority_is_signer,
            },
            Call::CreateMasterEditionV3 { accounts, max_supply } => {
                CallView::CreateMasterEditionV3 { accounts, max_supply }
            },
            Call::VerifyCollection { accounts } => CallView::VerifyCollection { accounts },
        }
    }
}

/// A call together with the program that is to serve it and the seeds that sign it.
#[derive(Clone, Debug, PartialEq, Eq)]
pub struct Request {
    pub program: Address,
    pub call: Call,
    pub signer_seeds: Vec<Vec<u8>>,
}

/// [`Request`] as a mathematical value.
pub ghost struct RequestView {
    pub program: Address,
    pub call: CallView,
    pub signer_seeds: Seq<Seq<u8>>,
}

impl View for Request {
    type V = RequestView;

    open spec fn view(&self) -> RequestView {
        RequestView {
            program: self.program,
            call: self.call@,
            signer_seeds: seeds_view(self.signer_seeds@),
        }
    }
}

/// What a registry answers to a call.
#[derive(Clone, Copy, Debug, PartialEq, Eq, Structural)]
pub enum Reply {
    Accepted,
    /// Turned down, with the registry's own code.
    Rejected(u64),
}

/// How far a unit of work has come, named by the call whose answer is awaited.
#[derive(Clone, Copy, Debug, PartialEq, Eq, Structural)]
pub enum Stage {
    /// Nothing has been asked yet.
    Idle,
    /// The mint has been asked for.
    Minting,
    /// The descriptive record has been asked for.
    Describing,
    /// The final-edition marker has been asked for.
    Sealing,
    /// The certification of the membership has been asked for.
    Certifying,
    /// Every call was accepted and the records are written.
    Settled,
    /// The unit of work ended without effect.
    Aborted,
}

/// The requests as mathematical values.
pub open spec fn requests_view(requests: Seq<Request>) -> Seq<RequestView> {
    Seq::new(requests.len(), |i: int| requests[i]@)
}

/// What a whole unit of work did: the requests that it made of the registries, in
/// order, and how it ended.
#[derive(Debug, PartialEq, Eq)]
pub struct Transcript<T> {
    pub requests: Vec<Request>,
    pub result: Result<T, Failure>,
}

impl<T> Transcript<T> {
    /// The transcript of a unit of work that ended with the failure before anything
    /// was asked of a registry.
    pub fn refused(failure: Failure) -> (done: Transcript<T>)
        ensures
            done.result == Err::<T, Failure>(failure),
            requests_view(done.requests@) == Seq::<RequestView>::empty(),
    {
        let requests: Vec<Request> = Vec::new();
        assert(requests_view(requests@) =~= Seq::<RequestView>::empty());
        Transcript { requests, result: Err(failure) }
    }
}

/// The answers of the registries to the three calls of an initialization. An answer
/// behind the first rejection is never asked for.
#[derive(Clone, Copy, Debug, PartialEq, Eq, Structural)]
pub struct InitializeReplies {
    pub mint_to: Reply,
    pub create_metadata: Reply,
    pub create_master_edition: Reply,
}

impl InitializeReplies {
    /// The code of the first rejection, if there is one.
    pub open spec fn rejection(&self) -> Option<u64> {
        match (self.mint_to, self.create_metadata, self.create_master_edition) {
            (Reply::Rejected(code), _, _) => Some(code),
            (_, Reply::Rejected(code), _) => Some(code),
            (_, _, Reply::Rejected(code)) => Some(code),
            _ => None,
        }
    }

    /// How many calls are made: up to and with the first that is rejected.
    pub open spec fn asked(&self) -> int {
        if self.mint_to is Rejected {
            1
        } else if self.create_metadata is Rejected {
            2
        } else {
            3
        }
    }

    /// Every call accepted.
    pub fn accepted() -> (replies: InitializeReplies)
        ensures
            replies == (InitializeReplies {
                mint_to: Reply::Accepted,
                create_metadata: Reply::Accepted,
                create_master_edition: Reply::Accepted,
            }),
    {
        InitializeReplies {
            mint_to: Reply::Accepted,
            create_metadata: Reply::Accepted,
            create_master_edition: Reply::Accepted,
        }
    }
}

/// The answers of the registries to the four calls of a claim. An answer behind the
/// first rejection is never asked for.
#[derive(Clone, Copy, Debug, PartialEq, Eq, Structural)]
pub struct ClaimReplies {
    pub mint_to: Reply,
    pub create_metadata: Reply,
    pub create_master_edition: Reply,
    pub verify_collection: Reply,
}

impl ClaimReplies {
    /// The code of the first rejection, if there is one.
    pub open spec fn rejection(&self) -> Option<u64> {
        match (
            self.mint_to,
            self.create_metadata,
            self.create_master_edition,
            self.verify_collection,
        ) {
            (Reply::Rejected(code), _, _, _) => Some(code),
            (_, Reply::Rejected(code), _, _) => Some(code),
            (_, _, Reply::Rejected(code), _) => Some(code),
            (_, _, _, Reply::Rejected(code)) => Some(code),
            _ => None,
        }
    }

    /// How many calls are made: up to and with the first that is rejected.
    pub open spec fn asked(&self) -> int {
        if self.mint_to is Rejected {
            1
        } else if self.create_metadata is Rejected {
            2
        } else if self.create_master_edition is Rejected {
            3
        } else {
            4
        }
    }

    /// Every call accepted.
    pub fn accepted() -> (replies: ClaimReplies)
        ensures
            replies == (ClaimReplies {
                mint_to: Reply::Accepted,
                create_metadata: Reply::Accepted,
                create_master_edition: Reply::Accepted,
                verify_collection: Reply::Accepted,
            }),
    {
        ClaimReplies {
            mint_to: Reply::Accepted,
            create_metadata: Reply::Accepted,
            create_master_edition: Reply::Accepted,
            verify_collection: Reply::Accepted,
        }
    }
}

/// Puts the request of a step on record, and says how the unit of work ended if the
/// step ended it.
pub fn note_step(step: Result<Option<Request>, Failure>, requests: &mut Vec<Request>) -> (ended:
    Option<Result<(), Failure>>)
    ensures
        match step {
            Ok(Some(request)) => ended is None && final(requests)@ == old(requests)@.push(request),
            Ok(None) => ended == Some(Ok::<(), Failure>(())) && final(requests)@ == old(requests)@,
            Err(failure) => ended == Some(Err::<(), Failure>(failure)) && final(requests)@ == old(
                requests,
            )@,
        },
{
    match step {
        Ok(Some(request)) => {
            requests.push(request);
            None
        },
        Ok(None) => Some(Ok(())),
        Err(failure) => Some(Err(failure)),
    }
}

} // verus!

use crate::errors::ErrorCode;
use crate::errors::Failure;
use crate::instructions::claim_drop::ClaimDrop;
use crate::instructions::initialize_drop::Initialize;
use crate::laws::initialize_keeps_well_formed;
use crate::registry::requests_view;
use crate::registry::ClaimReplies;
use crate::registry::InitializeReplies;
use crate::registry::Request;
use crate::registry::RequestView;
use crate::registry::Stage;
use crate::registry::Transcript;
use crate::state::unclaimed_entry;
use crate::state::Address;
use crate::state::Claimed;
use crate::state::Drop;
use crate::state::Programs;
use vstd::prelude::*;

verus! {

/// A drop record together with the address at which it stands.
#[derive(Clone, Debug, PartialEq, Eq)]
pub struct DropAccount {
    pub key: Address,
    pub data: Drop,
}

/// A ledger entry together with the drop and the requester that it belongs to.
#[derive(Clone, Debug, PartialEq, Eq)]
pub struct ClaimAccount {
    pub claim_id: String,
    pub requester: Address,
    pub data: Claimed,
}

/// The drop records by identity: of two records under one identity the later stands.
pub open spec fn drops_map(drops: Seq<DropAccount>) -> Map<Seq<char>, DropAccount>
    decreases drops.len(),
{
    if drops.len() == 0 {
        Map::empty()
    } else {
        drops_map(drops.drop_last()).insert(drops.last().data.claim_id@, drops.last())
    }
}

/// The ledger entries by drop identity and requester: of two entries under one pair the
/// later stands.
pub open spec fn claims_map(claims: Seq<ClaimAccount>) -> Map<(Seq<char>, Address), Claimed>
    decreases claims.len(),
{
    if claims.len() == 0 {
        Map::empty()
    } else {
        claims_map(claims.drop_last()).insert(
            (claims.last().claim_id@, claims.last().requester),
            claims.last().data,
        )
    }
}

/// Whether `at` is the last place in `drops` that holds a record under `claim_id`, or
/// `at` is `None` and no place holds one.
pub open spec fn is_last_drop(
    drops: Seq<DropAccount>,
    claim_id: Seq<char>,
    at: Option<usize>,
) -> bool {
    match at {
        Some(i) => {
            &&& i < drops.len()
            &&& drops[i as int].data.claim_id@ == claim_id
            &&& forall|j: int|
                i < j < drops.len() ==> (#[trigger] drops[j]).data.claim_id@ != claim_id
        },
        None => forall|j: int|
            0 <= j < drops.len() ==> (#[trigger] drops[j]).data.claim_id@ != claim_id,
    }
}

/// Whether `at` is the last place in `claims` that holds an entry of the pair, or `at`
/// is `None` and no place holds one.
pub open spec fn is_last_claim(
    claims: Seq<ClaimAccount>,
    claim_id: Seq<char>,
    requester: Address,
    at: Option<usize>,
) -> bool {
    match at {
        Some(i) => {
            &&& i < claims.len()
            &&& claims[i as int].claim_id@ == claim_id
            &&& claims[i as int].requester == requester
            &&& forall|j: int|
                i < j < claims.len() ==> !((#[trigger] claims[j]).claim_id@ == claim_id
                    && claims[j].requester == requester)
        },
        None => forall|j: int|
            0 <= j < claims.len() ==> !((#[trigger] claims[j]).claim_id@ == claim_id
                && claims[j].requester == requester),
    }
}

/// The record that stands under an identity is the one at the last place that holds
/// one.
pub proof fn lemma_last_drop_stands(drops: Seq<DropAccount>, claim_id: Seq<char>, at: Option<usize>)
    requires
        is_last_drop(drops, claim_id, at),
    ensures
        match at {
            Some(i) => drops_map(drops).contains_key(claim_id) && drops_map(drops)[claim_id]
                == drops[i as int],
            None => !drops_map(drops).contains_key(claim_id),
        },
    decreases drops.len(),
{
    if drops.len() > 0 {
        let rest = drops.drop_last();
        match at {
            Some(i) => {
                if i < rest.len() {
                    lemma_last_drop_stands(rest, claim_id, at);
                }
            },
            None => {
                lemma_last_drop_stands(rest, claim_id, at);
            },
        }
    }
}

/// Replacing the record at the last place that holds one under an identity, by a
/// record under the same identity, replaces what stands under that identity and
/// nothing else.
pub proof fn lemma_replace_last_drop(drops: Seq<DropAccount>, at: usize, account: DropAccount)
    requires
        is_last_drop(drops, account.data.claim_id@, Some(at)),
    ensures
        drops_map(drops.update(at as int, account)) == drops_map(drops).insert(
            account.data.claim_id@,
            account,
        ),
    decreases drops.len(),
{
    let rest = drops.drop_last();
    let changed = drops.update(at as int, account);
    if at == drops.len() - 1 {
        assert(changed.drop_last() =~= rest);
        assert(drops_map(changed) =~= drops_map(drops).insert(account.data.claim_id@, account));
    } else {
        lemma_replace_last_drop(rest, at, account);
        assert(changed.drop_last() =~= rest.update(at as int, account));
        assert(changed.last() == drops.last());
        assert(drops_map(changed) =~= drops_map(drops).insert(account.data.claim_id@, account));
    }
}

/// The entry that stands under a pair is the one at the last place that holds one.
pub proof fn lemma_last_claim_stands(
    claims: Seq<ClaimAccount>,
    claim_id: Seq<char>,
    requester: Address,
    at: Option<usize>,
)
    requires
        is_last_claim(claims, claim_id, requester, at),
    ensures
        match at {
            Some(i) => claims_map(claims).contains_key((claim_id, requester)) && claims_map(
                claims,
            )[(claim_id, requester)] == claims[i as int].data,
            None => !claims_map(claims).contains_key((claim_id, requester)),
        },
    decreases claims.len(),
{
    if claims.len() > 0 {
        let rest = claims.drop_last();
        match at {
            Some(i) => {
                if i < rest.len() {
                    lemma_last_claim_stands(rest, claim_id, requester, at);
                }
            },
            None => {
                lemma_last_claim_stands(rest, claim_id, requester, at);
            },
        }
    }
}

/// The place of the record that stands under an identity.
pub fn find_drop(drops: &Vec<DropAccount>, claim_id: &String) -> (at: Option<usize>)
    ensures
        is_last_drop(drops@, claim_id@, at),
{
    let mut i: usize = drops.len();
    while i > 0
        invariant
            i <= drops.len(),
            forall|j: int|
                i <= j < drops.len() ==> (#[trigger] drops[j]).data.claim_id@ != claim_id@,
        decreases i,
    {
        i -= 1;
        if drops[i].data.claim_id == *claim_id {
            return Some(i);
        }
    }
    None
}

/// The place of the entry that stands under a pair.
pub fn find_claim(claims: &Vec<ClaimAccount>, claim_id: &String, requester: &Address) -> (at:
    Option<usize>)
    ensures
        is_last_claim(claims@, claim_id@, *requester, at),
{
    let mut i: usize = claims.len();
    while i > 0
        invariant
            i <= claims.len(),
            forall|j: int|
                i <= j < claims.len() ==> !((#[trigger] claims[j]).claim_id@ == claim_id@
                    && claims[j].requester == *requester),
        decreases i,
    {
        i -= 1;
        if claims[i].claim_id == *claim_id && claims[i].requester == *requester {
            return Some(i);
        }
    }
    None
}

/// All drop records and all ledger entries of one program. A unit of work changes it
/// as a whole or not at all.
#[derive(Debug)]
pub struct Ledger {
    program_id: Address,
    programs: Programs,
    drops: Vec<DropAccount>,
    claims: Vec<ClaimAccount>,
}

/// [`Ledger`] as a mathematical value: the drop records by identity, and the ledger
/// entries by identity and requester.
pub ghost struct LedgerView {
    pub program_id: Address,
    pub programs: Programs,
    pub drops: Map<Seq<char>, DropAccount>,
    pub claims: Map<(Seq<char>, Address), Claimed>,
}

impl View for Ledger {
    type V = LedgerView;

    closed spec fn view(&self) -> LedgerView {
        LedgerView {
            program_id: self.program_id,
            programs: self.programs,
            drops: drops_map(self.drops@),
            claims: claims_map(self.claims@),
        }
    }
}

impl LedgerView {
    /// The context of a claim as the ledger fills it in when the claim begins: the
    /// drop record and its address as they stand under the identity, the requester's
    /// entry if there is one and a newly allocated one if not, at the start.
    pub open spec fn loaded(self, ctx: ClaimDrop, claim_id: Seq<char>) -> ClaimDrop
        recommends
            self.drops.contains_key(claim_id),
    {
        ClaimDrop {
            drop_key: self.drops[claim_id].key,
            drop: self.drops[claim_id].data,
            claimed: if self.claims.contains_key((claim_id, ctx.signer)) {
                self.claims[(claim_id, ctx.signer)]
            } else {
                unclaimed_entry()
            },
            stage: Stage::Idle,
            ..ctx
        }
    }

    /// How a claim comes out: there is no such drop; or what the run of the loaded
    /// context gives, with the requester's new entry on success.
    pub open spec fn claim_result(
        self,
        ctx: ClaimDrop,
        claim_id: Seq<char>,
        replies: ClaimReplies,
    ) -> Result<Claimed, Failure> {
        if !self.drops.contains_key(claim_id) {
            Err(Failure::NotInitialized)
        } else {
            match self.loaded(ctx, claim_id).outcome(claim_id, replies) {
                Ok(_) => Ok(self.loaded(ctx, claim_id).settled().claimed),
                Err(failure) => Err(failure),
            }
        }
    }

    /// The requests that a claim makes of the registries.
    pub open spec fn claim_requests(
        self,
        ctx: ClaimDrop,
        claim_id: Seq<char>,
        replies: ClaimReplies,
    ) -> Seq<RequestView> {
        if !self.drops.contains_key(claim_id) {
            Seq::empty()
        } else {
            self.loaded(ctx, claim_id).asked(claim_id, replies)
        }
    }

    /// The ledger after a claim: after success the drop record has one item less of a
    /// finite supply and the requester's entry stands; otherwise nothing has changed.
    pub open spec fn after_claim(
        self,
        ctx: ClaimDrop,
        claim_id: Seq<char>,
        replies: ClaimReplies,
    ) -> LedgerView {
        if self.claim_result(ctx, claim_id, replies) is Ok {
            LedgerView {
                drops: self.drops.insert(
                    claim_id,
                    DropAccount {
                        key: self.drops[claim_id].key,
                        data: self.drops[claim_id].data.after_mint(),
                    },
                ),
                claims: self.claims.insert(
                    (claim_id, ctx.signer),
                    self.loaded(ctx, claim_id).settled().claimed,
                ),
                ..self
            }
        } else {
            self
        }
    }

    /// How an initialization comes out: a record already stands under the identity;
    /// or what the run of the context, taken from its start, gives.
    pub open spec fn initialize_result(
        self,
        claim_id: Seq<char>,
        replies: InitializeReplies,
    ) -> Result<(), Failure> {
        if self.drops.contains_key(claim_id) {
            Err(Failure::AlreadyInUse)
        } else {
            match replies.rejection() {
                Some(code) => Err(Failure::Registry(code)),
                None => Ok(()),
            }
        }
    }
}

impl LedgerView {
    /// The drop record that a successful initialization puts under the identity.
    pub open spec fn new_account(
        ctx: Initialize,
        claim_id: String,
        name: String,
        ticker: String,
        uri: String,
        description: String,
        maximum_mint: u64,
    ) -> DropAccount {
        DropAccount {
            key: ctx.drop_key,
            data: ctx.populated(claim_id, name, ticker, uri, description, maximum_mint),
        }
    }

    /// The ledger after an initialization: after success the new record stands under
    /// the identity; otherwise nothing has changed.
    pub open spec fn after_initialize(
        self,
        ctx: Initialize,
        claim_id: String,
        name: String,
        ticker: String,
        uri: String,
        description: String,
        maximum_mint: u64,
        replies: InitializeReplies,
    ) -> LedgerView {
        if self.initialize_result(claim_id@, replies) is Ok {
            LedgerView {
                drops: self.drops.insert(
                    claim_id@,
                    Self::new_account(ctx, claim_id, name, ticker, uri, description, maximum_mint),
                ),
                ..self
            }
        } else {
            self
        }
    }

    /// The requests that an initialization makes of the registries: none where a
    /// record already stands under the identity.
    pub open spec fn initialize_requests(
        self,
        ctx: Initialize,
        claim_id: Seq<char>,
        name: Seq<char>,
        ticker: Seq<char>,
        uri: Seq<char>,
        replies: InitializeReplies,
    ) -> Seq<RequestView> {
        if self.drops.contains_key(claim_id) {
            Seq::empty()
        } else {
            ctx.at(Stage::Idle).asked(name, ticker, uri, replies)
        }
    }

    /// The requester's entry on the drop as a claim finds it: the one that stands, or a
    /// newly allocated one.
    pub open spec fn entry(self, signer: Address, claim_id: Seq<char>) -> Claimed {
        if self.claims.contains_key((claim_id, signer)) {
            self.claims[(claim_id, signer)]
        } else {
            unclaimed_entry()
        }
    }

    /// The first reason, if any, for which a requester's claim is turned down before
    /// any address is derived: there is no such drop; the requester has claimed it
    /// already; its finite supply is used up.
    pub open spec fn claim_refusal(self, signer: Address, claim_id: Seq<char>) -> Option<Failure> {
        if !self.drops.contains_key(claim_id) {
            Some(Failure::NotInitialized)
        } else if self.entry(signer, claim_id).minted {
            Some(Failure::Code(ErrorCode::ClaimedDrop))
        } else if !self.drops[claim_id].data.open_for_claims() {
            Some(Failure::Code(ErrorCode::MintLimitReached))
        } else {
            None
        }
    }

    /// The context of a requester's claim, with its addresses derived for the ledger's
    /// program from the record that stands under the identity.
    pub open spec fn claim_context(self, signer: Address, claim_id: Seq<char>) -> Result<
        ClaimDrop,
        Failure,
    >
        recommends
            self.drops.contains_key(claim_id),
    {
        ClaimDrop::resolution(
            self.program_id,
            self.programs,
            self.drops[claim_id].key,
            self.drops[claim_id].data,
            self.entry(signer, claim_id),
            signer,
            claim_id,
        )
    }

    /// What a requester's claim by identity alone comes to: how it ends, what it asks
    /// of the registries, and the ledger afterwards. It is turned down for the reason
    /// of [`LedgerView::claim_refusal`], or fails because its context cannot be
    /// derived, both without asking anything or changing anything; or it is the claim
    /// of the derived context.
    pub open spec fn claim_drop(
        self,
        signer: Address,
        claim_id: Seq<char>,
        replies: ClaimReplies,
    ) -> (Result<Claimed, Failure>, Seq<RequestView>, LedgerView) {
        match self.claim_refusal(signer, claim_id) {
            Some(failure) => (Err(failure), Seq::empty(), self),
            None => match self.claim_context(signer, claim_id) {
                Err(failure) => (Err(failure), Seq::empty(), self),
                Ok(ctx) => (
                    self.claim_result(ctx, claim_id, replies),
                    self.claim_requests(ctx, claim_id, replies),
                    self.after_claim(ctx, claim_id, replies),
                ),
            },
        }
    }

    /// What an initialization by identity alone comes to: how it ends, what it asks of
    /// the registries, and the ledger afterwards. It fails because a record already
    /// stands under the identity, or because its context cannot be derived, both
    /// without asking anything or changing anything; or it is the initialization of
    /// the derived context.
    pub open spec fn initialize_drop(
        self,
        signer: Address,
        claim_id: String,
        name: String,
        ticker: String,
        uri: String,
        description: String,
        maximum_mint: u64,
        replies: InitializeReplies,
    ) -> (Result<(), Failure>, Seq<RequestView>, LedgerView) {
        if self.drops.contains_key(claim_id@) {
            (Err(Failure::AlreadyInUse), Seq::empty(), self)
        } else {
            match Initialize::resolution(self.program_id, self.programs, signer, claim_id@) {
                Err(e) => (Err(Failure::Seeds(e)), Seq::empty(), self),
                Ok(ctx) => (
                    self.initialize_result(claim_id@, replies),
                    self.initialize_requests(ctx, claim_id@, name@, ticker@, uri@, replies),
                    self.after_initialize(
                        ctx,
                        claim_id,
                        name,
                        ticker,
                        uri,
                        description,
                        maximum_mint,
                        replies,
                    ),
                ),
            }
        }
    }

    /// What holds of every ledger that the units of work have built: each drop record
    /// stands under its own identity, and each entry that stands is a fulfilled claim.
    pub open spec fn wf(self) -> bool {
        &&& forall|claim_id: Seq<char>| #[trigger]
            self.drops.contains_key(claim_id) ==> self.drops[claim_id].data.claim_id@ == claim_id
        &&& forall|pair: (Seq<char>, Address)| #[trigger]
            self.claims.contains_key(pair) ==> self.claims[pair].minted
    }
}

impl Ledger {
    /// A ledger without records, for the program and its surroundings.
    pub fn new(program_id: Address, programs: Programs) -> (ledger: Ledger)
        ensures
            ledger@ == (LedgerView {
                program_id,
                programs,
                drops: Map::empty(),
                claims: Map::empty(),
            }),
            ledger@.wf(),
    {
        Ledger { program_id, programs, drops: Vec::new(), claims: Vec::new() }
    }

    /// The program that the ledger belongs to.
    pub fn program_id(&self) -> (id: Address)
        ensures
            id == self@.program_id,
    {
        self.program_id
    }

    /// The programs and the rent account that the ledger's units of work name.
    pub fn programs(&self) -> (programs: Programs)
        ensures
            programs == self@.programs,
    {
        self.programs
    }

    /// The drop record that stands under the identity, with its address.
    pub fn drop_account(&self, claim_id: &String) -> (account: Option<&DropAccount>)
        ensures
            account is Some <==> self@.drops.contains_key(claim_id@),
            account matches Some(found) ==> *found == self@.drops[claim_id@],
    {
        let at = find_drop(&self.drops, claim_id);
        proof {
            lemma_last_drop_stands(self.drops@, claim_id@, at);
        }
        match at {
            Some(i) => Some(&self.drops[i]),
            None => None,
        }
    }

    /// The entry of the requester on the drop.
    pub fn claim_entry(&self, claim_id: &String, requester: &Address) -> (entry: Option<Claimed>)
        ensures
            entry == (if self@.claims.contains_key((claim_id@, *requester)) {
                Some(self@.claims[(claim_id@, *requester)])
            } else {
                None
            }),
    {
        let at = find_claim(&self.claims, claim_id, requester);
        proof {
            lemma_last_claim_stands(self.claims@, claim_id@, *requester, at);
        }
        match at {
            Some(i) => Some(self.claims[i].data),
            None => None,
        }
    }

    /// Initializes a drop as one unit of work. The context names the accounts; the
    /// unit takes it from its start. Where a record already stands under the identity
    /// nothing is asked of a registry and nothing changes. Otherwise the calls are
    /// made in order against the given answers, and only if every one is accepted is
    /// the populated record put under the identity.
    pub fn initialize(
        &mut self,
        ctx: Initialize,
        claim_id: String,
        name: String,
        ticker: String,
        uri: String,
        description: String,
        maximum_mint: u64,
        replies: &InitializeReplies,
    ) -> (done: Transcript<()>)
        ensures
            done.result == old(self)@.initialize_result(claim_id@, *replies),
            requests_view(done.requests@) == old(self)@.initialize_requests(
                ctx,
                claim_id@,
                name@,
                ticker@,
                uri@,
                *replies,
            ),
            final(self)@ == old(self)@.after_initialize(
                ctx,
                claim_id,
                name,
                ticker,
                uri,
                description,
                maximum_mint,
                *replies,
            ),
            old(self)@.wf() ==> final(self)@.wf(),
    {
        let at = find_drop(&self.drops, &claim_id);
        proof {
            lemma_last_drop_stands(self.drops@, claim_id@, at);
        }
        if at.is_some() {
            let requests: Vec<Request> = Vec::new();
            assert(requests_view(requests@) =~= Seq::empty());
            return Transcript { requests, result: Err(Failure::AlreadyInUse) };
        }
        let ghost given = ctx;
        let mut ctx = ctx;
        ctx.drop = None;
        ctx.stage = Stage::Idle;
        let done = crate::instructions::initialize_drop::run(
            &mut ctx,
            &claim_id,
            &name,
            &ticker,
            &uri,
            &description,
            maximum_mint,
            replies,
        );
        if let Some(data) = ctx.drop {
            let account = DropAccount { key: ctx.drop_key, data };
            self.drops.push(account);
            assert(self.drops@.drop_last() =~= old(self).drops@);
        }
        proof {
            if old(self)@.wf() {
                initialize_keeps_well_formed(
                    old(self)@,
                    given,
                    claim_id,
                    name,
                    ticker,
                    uri,
                    description,
                    maximum_mint,
                    *replies,
                );
            }
        }
        done
    }

    /// Serves a claim as one unit of work. The context names the accounts; the unit
    /// fills in the drop record, its address and the requester's entry from the
    /// ledger and takes the claim from its start. Where no record stands under the
    /// identity nothing is asked and nothing changes. Otherwise the claim is run
    /// against the given answers, and only if it succeeds are the record and the
    /// entry written.
    pub fn claim(&mut self, ctx: ClaimDrop, claim_id: &String, replies: &ClaimReplies) -> (done:
        Transcript<Claimed>)
        ensures
            done.result == old(self)@.claim_result(ctx, claim_id@, *replies),
            requests_view(done.requests@) == old(self)@.claim_requests(ctx, claim_id@, *replies),
            final(self)@ == old(self)@.after_claim(ctx, claim_id@, *replies),
            old(self)@.wf() ==> final(self)@.wf(),
    {
        let at = find_drop(&self.drops, claim_id);
        proof {
            lemma_last_drop_stands(self.drops@, claim_id@, at);
        }
        let i = match at {
            Some(i) => i,
            None => {
                let requests: Vec<Request> = Vec::new();
                assert(requests_view(requests@) =~= Seq::empty());
                return Transcript { requests, result: Err(Failure::NotInitialized) };
            },
        };
        let found = find_claim(&self.claims, claim_id, &ctx.signer);
        proof {
            lemma_last_claim_stands(self.claims@, claim_id@, ctx.signer, found);
        }
        let mut ctx = ctx;
        ctx.drop_key = self.drops[i].key;
        ctx.drop = self.drops[i].data.clone();
        ctx.claimed = match found {
            Some(j) => self.claims[j].data,
            None => Claimed::unclaimed(),
        };
        ctx.stage = Stage::Idle;
        let done = crate::instructions::claim_drop::run(&mut ctx, claim_id, replies);
        match done.result {
            Ok(_) => {
                let entry = ctx.claimed;
                let account = DropAccount { key: ctx.drop_key, data: ctx.drop };
                proof {
                    lemma_replace_last_drop(self.drops@, i, account);
                }
                self.drops.set(i, account);
                self.claims.push(
                    ClaimAccount { claim_id: claim_id.clone(), requester: ctx.signer, data: entry },
                );
                assert(self.claims@.drop_last() =~= old(self).claims@);
                Transcript { requests: done.requests, result: Ok(entry) }
            },
            Err(failure) => Transcript { requests: done.requests, result: Err(failure) },
        }
    }
}

} // verus!

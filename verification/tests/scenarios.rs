use token_drop::claim_drop;
use token_drop::errors::ErrorCode;
use token_drop::errors::Failure;
use token_drop::errors::SeedsError;
use token_drop::initialize_drop;
use token_drop::ledger::Ledger;
use token_drop::registry::Call;
use token_drop::registry::ClaimReplies;
use token_drop::registry::Collection;
use token_drop::registry::InitializeReplies;
use token_drop::registry::Reply;
use token_drop::state::Address;
use token_drop::state::Programs;

fn address(n: u8) -> Address {
    Address::new([n; 32])
}

fn programs() -> Programs {
    Programs {
        system_program: address(201),
        token_program: address(202),
        associated_token_program: address(203),
        metadata_program: address(204),
        rent: address(205),
    }
}

fn ledger() -> Ledger {
    Ledger::new(address(200), programs())
}

fn text(s: &str) -> String {
    String::from(s)
}

fn start(ledger: &mut Ledger, signer: Address, id: &str, maximum_mint: u64) {
    let done = initialize_drop(
        ledger,
        signer,
        text(id),
        text("N"),
        text("T"),
        text("u"),
        text("desc"),
        maximum_mint,
        &InitializeReplies::accepted(),
    );
    assert_eq!(done.result, Ok(()));
}

fn left(ledger: &Ledger, id: &str) -> u64 {
    ledger.drop_account(&text(id)).unwrap().data.left_mint
}

#[test]
fn finite_drop_of_three_is_claimed_out() {
    let mut ledger = ledger();
    let done = initialize_drop(
        &mut ledger,
        address(1),
        text("d1"),
        text("N"),
        text("T"),
        text("u"),
        text("desc"),
        3,
        &InitializeReplies::accepted(),
    );
    assert_eq!(done.result, Ok(()));
    assert_eq!(done.requests.len(), 3);
    let record = ledger.drop_account(&text("d1")).unwrap().data.clone();
    assert_eq!(record.left_mint, 3);
    assert!(!record.infinite);
    assert_eq!(record.claim_id, "d1");
    assert_eq!(record.name, "N");
    assert_eq!(record.ticker, "T");
    assert_eq!(record.uri, "u");
    assert_eq!(record.description, "desc");
    assert_eq!(record.creator, address(1));

    let a = address(11);
    let b = address(12);
    let c = address(13);
    let d = address(14);
    let all = ClaimReplies::accepted();

    assert!(claim_drop(&mut ledger, a, text("d1"), &all).result.is_ok());
    assert_eq!(left(&ledger, "d1"), 2);
    assert!(claim_drop(&mut ledger, b, text("d1"), &all).result.is_ok());
    assert_eq!(left(&ledger, "d1"), 1);
    assert!(claim_drop(&mut ledger, c, text("d1"), &all).result.is_ok());
    assert_eq!(left(&ledger, "d1"), 0);

    let refused = claim_drop(&mut ledger, d, text("d1"), &all);
    assert_eq!(refused.result, Err(Failure::Code(ErrorCode::MintLimitReached)));
    assert!(refused.requests.is_empty());
    assert_eq!(ledger.claim_entry(&text("d1"), &d), None);

    let again = claim_drop(&mut ledger, a, text("d1"), &all);
    assert_eq!(again.result, Err(Failure::Code(ErrorCode::ClaimedDrop)));
    assert!(again.requests.is_empty());
    assert_eq!(left(&ledger, "d1"), 0);
}

#[test]
fn unlimited_drop_serves_every_requester() {
    let mut ledger = ledger();
    start(&mut ledger, address(1), "d2", 0);
    let record = ledger.drop_account(&text("d2")).unwrap().data.clone();
    assert!(record.infinite);
    assert_eq!(record.left_mint, 0);
    for n in 10..60u8 {
        let done = claim_drop(&mut ledger, address(n), text("d2"), &ClaimReplies::accepted());
        let entry = done.result.unwrap();
        assert!(entry.minted);
        assert_eq!(done.requests.len(), 4);
        assert_eq!(left(&ledger, "d2"), 0);
        assert!(ledger.drop_account(&text("d2")).unwrap().data.infinite);
        assert_eq!(ledger.claim_entry(&text("d2"), &address(n)), Some(entry));
    }
}

#[test]
fn second_initialization_fails_and_keeps_the_record() {
    let mut ledger = ledger();
    start(&mut ledger, address(1), "d1", 3);
    let before = ledger.drop_account(&text("d1")).unwrap().clone();
    let done = initialize_drop(
        &mut ledger,
        address(2),
        text("d1"),
        text("other"),
        text("O"),
        text("v"),
        text("second"),
        0,
        &InitializeReplies::accepted(),
    );
    assert_eq!(done.result, Err(Failure::AlreadyInUse));
    assert!(done.requests.is_empty());
    assert_eq!(ledger.drop_account(&text("d1")), Some(&before));
}

#[test]
fn positive_maximum_is_finite_and_zero_is_unlimited() {
    let mut ledger = ledger();
    start(&mut ledger, address(1), "seven", 7);
    start(&mut ledger, address(1), "none", 0);
    start(&mut ledger, address(1), "most", u64::MAX);
    let seven = ledger.drop_account(&text("seven")).unwrap().data.clone();
    assert_eq!((seven.infinite, seven.left_mint), (false, 7));
    let none = ledger.drop_account(&text("none")).unwrap().data.clone();
    assert_eq!((none.infinite, none.left_mint), (true, 0));
    let most = ledger.drop_account(&text("most")).unwrap().data.clone();
    assert_eq!((most.infinite, most.left_mint), (false, u64::MAX));
}

#[test]
fn first_claim_counts_down_and_marks_the_entry() {
    let mut ledger = ledger();
    start(&mut ledger, address(1), "d1", 5);
    let requester = address(9);
    assert_eq!(ledger.claim_entry(&text("d1"), &requester), None);
    let done = claim_drop(&mut ledger, requester, text("d1"), &ClaimReplies::accepted());
    let entry = done.result.unwrap();
    assert!(entry.minted);
    assert_eq!(left(&ledger, "d1"), 4);
    assert_eq!(ledger.claim_entry(&text("d1"), &requester), Some(entry));
    assert_ne!(entry.master_mint, Address::zero());
    assert_ne!(entry.master_metadata, entry.master_edition);
}

#[test]
fn second_claim_is_refused_whatever_is_left() {
    let mut ledger = ledger();
    start(&mut ledger, address(1), "plenty", 1000);
    start(&mut ledger, address(1), "open", 0);
    let requester = address(9);
    for id in ["plenty", "open"] {
        assert!(claim_drop(&mut ledger, requester, text(id), &ClaimReplies::accepted()).result.is_ok());
        let before = left(&ledger, id);
        for replies in [ClaimReplies::accepted(), answers([1, 0, 0, 0])] {
            let again = claim_drop(&mut ledger, requester, text(id), &replies);
            assert_eq!(again.result, Err(Failure::Code(ErrorCode::ClaimedDrop)));
            assert!(again.requests.is_empty());
            assert_eq!(left(&ledger, id), before);
        }
    }
}

#[test]
fn exhausted_drop_refuses_every_new_requester() {
    let mut ledger = ledger();
    start(&mut ledger, address(1), "one", 1);
    assert!(claim_drop(&mut ledger, address(10), text("one"), &ClaimReplies::accepted()).result.is_ok());
    for n in 11..20u8 {
        let done = claim_drop(&mut ledger, address(n), text("one"), &ClaimReplies::accepted());
        assert_eq!(done.result, Err(Failure::Code(ErrorCode::MintLimitReached)));
        assert!(done.requests.is_empty());
        assert_eq!(ledger.claim_entry(&text("one"), &address(n)), None);
    }
}

#[test]
fn claim_on_unknown_drop_is_not_initialized() {
    let mut ledger = ledger();
    let done = claim_drop(&mut ledger, address(10), text("nowhere"), &ClaimReplies::accepted());
    assert_eq!(done.result, Err(Failure::NotInitialized));
    assert!(done.requests.is_empty());
}

#[test]
fn minted_item_is_certified_against_the_collection() {
    let mut ledger = ledger();
    start(&mut ledger, address(1), "d1", 3);
    let record = ledger.drop_account(&text("d1")).unwrap().data.clone();
    let done = claim_drop(&mut ledger, address(10), text("d1"), &ClaimReplies::accepted());
    let entry = done.result.unwrap();
    assert_eq!(done.requests.len(), 4);
    match &done.requests[0].call {
        Call::MintTo { accounts, amount } => {
            assert_eq!(*amount, 1);
            assert_eq!(accounts.mint, entry.master_mint);
        },
        other => panic!("{:?}", other),
    }
    match &done.requests[1].call {
        Call::CreateMetadataAccountsV3 { accounts, data, is_mutable, update_authority_is_signer } => {
            assert_eq!(accounts.metadata, entry.master_metadata);
            assert_eq!(accounts.mint, entry.master_mint);
            assert_eq!(data.collection, Some(Collection { verified: false, key: record.collection }));
            assert_eq!(data.name, "N");
            assert_eq!(data.symbol, "T");
            assert_eq!(data.uri, "u");
            assert_eq!(data.seller_fee_basis_points, 1000);
            let creators = data.creators.clone().unwrap();
            assert_eq!(creators.len(), 2);
            assert_eq!((creators[0].verified, creators[0].share), (true, 0));
            assert_eq!((creators[1].verified, creators[1].share), (false, 100));
            assert_eq!(creators[1].address, record.creator);
            assert!(*is_mutable);
            assert!(*update_authority_is_signer);
        },
        other => panic!("{:?}", other),
    }
    match &done.requests[2].call {
        Call::CreateMasterEditionV3 { accounts, max_supply } => {
            assert_eq!(accounts.edition, entry.master_edition);
            assert_eq!(*max_supply, Some(0));
        },
        other => panic!("{:?}", other),
    }
    match &done.requests[3].call {
        Call::VerifyCollection { accounts } => {
            assert_eq!(accounts.metadata, entry.master_metadata);
            assert_eq!(accounts.collection_mint, record.collection);
            assert_eq!(accounts.payer, address(10));
        },
        other => panic!("{:?}", other),
    }
}

fn answers(codes: [u64; 4]) -> ClaimReplies {
    let reply = |code: u64| if code == 0 { Reply::Accepted } else { Reply::Rejected(code) };
    ClaimReplies {
        mint_to: reply(codes[0]),
        create_metadata: reply(codes[1]),
        create_master_edition: reply(codes[2]),
        verify_collection: reply(codes[3]),
    }
}

#[test]
fn rejected_call_aborts_the_claim_with_its_code() {
    let cases = [
        ([41, 0, 0, 0], 41, 1),
        ([0, 42, 0, 0], 42, 2),
        ([0, 0, 43, 0], 43, 3),
        ([0, 0, 0, 44], 44, 4),
        ([0, 45, 46, 0], 45, 2),
    ];
    for (codes, code, asked) in cases {
        let mut ledger = ledger();
        start(&mut ledger, address(1), "d1", 3);
        let done = claim_drop(&mut ledger, address(10), text("d1"), &answers(codes));
        assert_eq!(done.result, Err(Failure::Registry(code)));
        assert_eq!(done.requests.len(), asked);
        assert_eq!(left(&ledger, "d1"), 3);
        assert_eq!(ledger.claim_entry(&text("d1"), &address(10)), None);
        let retry = claim_drop(&mut ledger, address(10), text("d1"), &ClaimReplies::accepted());
        assert!(retry.result.is_ok());
        assert_eq!(left(&ledger, "d1"), 2);
    }
}

#[test]
fn rejected_call_aborts_the_initialization() {
    let reply = |code: u64| if code == 0 { Reply::Accepted } else { Reply::Rejected(code) };
    let cases = [([7, 0, 0], 7, 1), ([0, 8, 0], 8, 2), ([0, 0, 9], 9, 3), ([0, 5, 6], 5, 2)];
    for (codes, code, asked) in cases {
        let replies = InitializeReplies {
            mint_to: reply(codes[0]),
            create_metadata: reply(codes[1]),
            create_master_edition: reply(codes[2]),
        };
        let mut ledger = ledger();
        let done = initialize_drop(
            &mut ledger,
            address(1),
            text("d1"),
            text("N"),
            text("T"),
            text("u"),
            text("desc"),
            3,
            &replies,
        );
        assert_eq!(done.result, Err(Failure::Registry(code)));
        assert_eq!(done.requests.len(), asked);
        assert_eq!(ledger.drop_account(&text("d1")), None);
        start(&mut ledger, address(1), "d1", 3);
    }
}

#[test]
fn identity_too_long_for_a_seed_cannot_be_initialized() {
    let mut ledger = ledger();
    let long = "x".repeat(33);
    let done = initialize_drop(
        &mut ledger,
        address(1),
        long.clone(),
        text("N"),
        text("T"),
        text("u"),
        text("desc"),
        3,
        &InitializeReplies::accepted(),
    );
    assert_eq!(done.result, Err(Failure::Seeds(SeedsError::MaxSeedLengthExceeded)));
    assert!(done.requests.is_empty());
    assert_eq!(ledger.drop_account(&long), None);
    start(&mut ledger, address(1), &"x".repeat(32), 3);
}

#[test]
fn drops_and_requesters_do_not_interfere() {
    let mut ledger = ledger();
    start(&mut ledger, address(1), "a", 2);
    start(&mut ledger, address(2), "b", 2);
    let requester = address(10);
    let on_a = claim_drop(&mut ledger, requester, text("a"), &ClaimReplies::accepted()).result.unwrap();
    let on_b = claim_drop(&mut ledger, requester, text("b"), &ClaimReplies::accepted()).result.unwrap();
    assert_ne!(on_a.master_mint, on_b.master_mint);
    assert_eq!(left(&ledger, "a"), 1);
    assert_eq!(left(&ledger, "b"), 1);
    let other = claim_drop(&mut ledger, address(11), text("a"), &ClaimReplies::accepted()).result.unwrap();
    assert_ne!(other.master_mint, on_a.master_mint);
    assert_eq!(left(&ledger, "a"), 0);
    assert_eq!(ledger.claim_entry(&text("a"), &requester), Some(on_a));
    assert_eq!(ledger.claim_entry(&text("b"), &requester), Some(on_b));
}

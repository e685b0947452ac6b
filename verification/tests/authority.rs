use anchor_lang::prelude::Pubkey;
use token_drop::addresses::find_records;
use token_drop::addresses::seeds_of_authority;
use token_drop::addresses::seeds_of_claimed;
use token_drop::addresses::seeds_of_collection_mint;
use token_drop::addresses::seeds_of_drop;
use token_drop::addresses::seeds_of_edition;
use token_drop::addresses::seeds_of_master_mint;
use token_drop::addresses::seeds_of_metadata;
use token_drop::addresses::seeds_of_token_account;
use token_drop::addresses::text_seed;
use token_drop::authority::confirm;
use token_drop::authority::copy_bytes;
use token_drop::authority::derive_with_nonce;
use token_drop::authority::find_with_nonce;
use token_drop::authority::room_for_nonce;
use token_drop::authority::signer_seeds;
use token_drop::authority::signing_context;
use token_drop::errors::Failure;
use token_drop::errors::SeedsError;
use token_drop::instructions::claim_drop::ClaimDrop;
use token_drop::instructions::initialize_drop::Initialize;
use token_drop::state::Address;
use token_drop::state::Claimed;
use token_drop::state::Programs;

fn address(n: u8) -> Address {
    Address::new([n; 32])
}

fn key(address: &Address) -> Pubkey {
    Pubkey::new_from_array(address.bytes)
}

fn programs() -> Programs {
    Programs {
        system_program: address(201),
        token_program: address(202),
        associated_token_program: address(203),
        metadata_program: address(204),
        rent: address(205),
    }
}

/// Seeds of one byte for which the search ends below the highest nonce.
fn seeds_with_a_refused_nonce(program: &Address) -> (Vec<Vec<u8>>, u8) {
    for n in 0..=255u8 {
        let seeds = vec![vec![n]];
        let (_, nonce) = find_with_nonce(&seeds, program).unwrap();
        if nonce < 255 {
            return (seeds, nonce);
        }
    }
    panic!("every search ended at the highest nonce");
}

#[test]
fn derived_address_is_the_program_address() {
    let program = address(200);
    let seeds = vec![b"vault".to_vec(), vec![1, 2, 3]];
    let (expected, nonce) = Pubkey::find_program_address(&[b"vault", &[1, 2, 3]], &key(&program));
    let derived = derive_with_nonce(&seeds, nonce, &program).unwrap();
    assert_eq!(derived.bytes, expected.to_bytes());
    assert_ne!(derived, program);
    let direct = Pubkey::create_program_address(&[b"vault", &[1, 2, 3], &[nonce]], &key(&program));
    assert_eq!(derived.bytes, direct.unwrap().to_bytes());
}

#[test]
fn found_address_is_the_one_its_nonce_derives() {
    let program = address(200);
    for n in 0..40u8 {
        let seeds = vec![vec![n], b"entry".to_vec()];
        let (found, nonce) = find_with_nonce(&seeds, &program).unwrap();
        let (expected, expected_nonce) = Pubkey::find_program_address(&[&[n], b"entry"], &key(&program));
        assert_eq!(found.bytes, expected.to_bytes());
        assert_eq!(nonce, expected_nonce);
        assert_eq!(derive_with_nonce(&seeds, nonce, &program), Ok(found));
    }
}

#[test]
fn derivation_depends_on_the_program() {
    let seeds = vec![b"vault".to_vec()];
    let (one, _) = find_with_nonce(&seeds, &address(1)).unwrap();
    let (two, _) = find_with_nonce(&seeds, &address(2)).unwrap();
    assert_ne!(one, two);
}

#[test]
fn nonce_on_the_curve_is_invalid() {
    let program = address(200);
    let (seeds, nonce) = seeds_with_a_refused_nonce(&program);
    assert_eq!(derive_with_nonce(&seeds, 255, &program), Err(SeedsError::InvalidSeeds));
    assert!(derive_with_nonce(&seeds, nonce, &program).is_ok());
}

#[test]
fn seed_limits_are_enforced() {
    let program = address(200);
    let long = vec![vec![0u8; 33]];
    assert_eq!(derive_with_nonce(&long, 255, &program), Err(SeedsError::MaxSeedLengthExceeded));
    assert_eq!(find_with_nonce(&long, &program), Err(SeedsError::MaxSeedLengthExceeded));
    assert!(!room_for_nonce(&long));

    let full = vec![vec![0u8; 32]];
    assert!(room_for_nonce(&full));
    assert!(find_with_nonce(&full, &program).is_ok());

    let fifteen: Vec<Vec<u8>> = (0..15u8).map(|n| vec![n]).collect();
    assert!(room_for_nonce(&fifteen));
    assert!(find_with_nonce(&fifteen, &program).is_ok());

    let sixteen: Vec<Vec<u8>> = (0..16u8).map(|n| vec![n]).collect();
    assert!(!room_for_nonce(&sixteen));
    assert_eq!(find_with_nonce(&sixteen, &program), Err(SeedsError::MaxSeedLengthExceeded));
    assert_eq!(derive_with_nonce(&sixteen, 255, &program), Err(SeedsError::MaxSeedLengthExceeded));

    let none: Vec<Vec<u8>> = Vec::new();
    assert!(room_for_nonce(&none));
    assert!(find_with_nonce(&none, &program).is_ok());
}

#[test]
fn signer_seeds_are_the_drop_address_and_the_nonce() {
    let drop_key = address(7);
    let seeds = signer_seeds(&drop_key, 254);
    assert_eq!(seeds, vec![vec![7u8; 32], vec![254u8]]);
}

#[test]
fn signing_context_is_handed_to_the_derived_authority_only() {
    let program = address(200);
    let drop_key = address(7);
    let (authority, nonce) = find_with_nonce(&seeds_of_authority(&drop_key), &program).unwrap();

    assert_eq!(
        signing_context(&authority, &drop_key, nonce, &program),
        Ok(vec![vec![7u8; 32], vec![nonce]])
    );
    assert_eq!(
        signing_context(&address(9), &drop_key, nonce, &program),
        Err(Failure::ConstraintSeeds)
    );
    let other_drop = signing_context(&authority, &address(8), nonce, &program);
    assert!(
        other_drop == Err(Failure::ConstraintSeeds)
            || other_drop == Err(Failure::Seeds(SeedsError::InvalidSeeds))
    );
    assert!(signing_context(&authority, &drop_key, nonce, &address(201)).is_err());
}

#[test]
fn wrong_nonce_is_an_authority_mismatch() {
    let program = address(200);
    let drop_key = address(7);
    let (authority, nonce) = find_with_nonce(&seeds_of_authority(&drop_key), &program).unwrap();
    for other in 0..=255u8 {
        if other == nonce {
            continue;
        }
        let context = signing_context(&authority, &drop_key, other, &program);
        assert!(
            context == Err(Failure::ConstraintSeeds)
                || context == Err(Failure::Seeds(SeedsError::InvalidSeeds))
        );
    }
}

#[test]
fn confirm_decides_by_the_derived_address() {
    let authority = address(3);
    let drop_key = address(7);
    assert_eq!(confirm(&authority, &drop_key, 5, Ok(address(3))), Ok(vec![vec![7u8; 32], vec![5u8]]));
    assert_eq!(confirm(&authority, &drop_key, 5, Ok(address(4))), Err(Failure::ConstraintSeeds));
    assert_eq!(
        confirm(&authority, &drop_key, 5, Err(SeedsError::InvalidSeeds)),
        Err(Failure::Seeds(SeedsError::InvalidSeeds))
    );
    assert_eq!(
        confirm(&authority, &drop_key, 5, Err(SeedsError::MaxSeedLengthExceeded)),
        Err(Failure::Seeds(SeedsError::MaxSeedLengthExceeded))
    );
    assert_eq!(
        confirm(&authority, &drop_key, 5, Err(SeedsError::IllegalOwner)),
        Err(Failure::Seeds(SeedsError::IllegalOwner))
    );
}

#[test]
fn seeds_follow_the_account_rules() {
    let id = String::from("d1");
    let drop_key = address(7);
    let requester = address(9);
    let program = address(204);
    let mint = address(5);
    assert_eq!(text_seed("mint"), b"mint".to_vec());
    assert_eq!(text_seed("é"), vec![0xc3, 0xa9]);
    assert_eq!(seeds_of_drop(&id), vec![b"d1".to_vec()]);
    assert_eq!(seeds_of_authority(&drop_key), vec![vec![7u8; 32]]);
    assert_eq!(seeds_of_claimed(&id, &requester), vec![b"d1".to_vec(), vec![9u8; 32]]);
    assert_eq!(seeds_of_collection_mint(&drop_key), vec![b"collection".to_vec(), vec![7u8; 32]]);
    assert_eq!(
        seeds_of_master_mint(&drop_key, &requester),
        vec![b"mint".to_vec(), vec![7u8; 32], vec![9u8; 32]]
    );
    assert_eq!(
        seeds_of_metadata(&program, &mint),
        vec![b"metadata".to_vec(), vec![204u8; 32], vec![5u8; 32]]
    );
    assert_eq!(
        seeds_of_edition(&program, &mint),
        vec![b"metadata".to_vec(), vec![204u8; 32], vec![5u8; 32], b"edition".to_vec()]
    );
    assert_eq!(
        seeds_of_token_account(&requester, &address(202), &mint),
        vec![vec![9u8; 32], vec![202u8; 32], vec![5u8; 32]]
    );
    assert_eq!(copy_bytes(&vec![1, 2, 3]), vec![1, 2, 3]);
}

#[test]
fn records_are_found_under_the_metadata_program() {
    let program = address(204);
    let mint = address(5);
    let (metadata, edition) = find_records(&program, &mint).unwrap();
    let expected_metadata =
        Pubkey::find_program_address(&[b"metadata", &[204u8; 32], &[5u8; 32]], &key(&program)).0;
    let expected_edition = Pubkey::find_program_address(
        &[b"metadata", &[204u8; 32], &[5u8; 32], b"edition"],
        &key(&program),
    )
    .0;
    assert_eq!(metadata.bytes, expected_metadata.to_bytes());
    assert_eq!(edition.bytes, expected_edition.to_bytes());
}

#[test]
fn initialization_context_holds_the_found_addresses() {
    let program = address(200);
    let programs = programs();
    let signer = address(1);
    let id = String::from("d1");
    let ctx = Initialize::resolve(&program, &programs, &signer, &id).unwrap();

    let (drop_key, drop_bump) = Pubkey::find_program_address(&[b"d1"], &key(&program));
    let (head_signer, head_bump) = Pubkey::find_program_address(&[drop_key.as_ref()], &key(&program));
    let (collection_mint, _) =
        Pubkey::find_program_address(&[b"collection", drop_key.as_ref()], &key(&program));
    let (master_token, _) = Pubkey::find_program_address(
        &[head_signer.as_ref(), &[202u8; 32], collection_mint.as_ref()],
        &key(&programs.associated_token_program),
    );
    assert_eq!(ctx.signer, signer);
    assert_eq!(ctx.drop_key.bytes, drop_key.to_bytes());
    assert_eq!(ctx.drop_bump, drop_bump);
    assert_eq!(ctx.head_signer.bytes, head_signer.to_bytes());
    assert_eq!(ctx.head_signer_bump, head_bump);
    assert_eq!(ctx.collection_mint.bytes, collection_mint.to_bytes());
    assert_eq!(ctx.master_token.bytes, master_token.to_bytes());
    assert_eq!(Ok((ctx.master_metadata, ctx.master_edition)), find_records(&programs.metadata_program, &ctx.collection_mint));
    assert_eq!(ctx.drop, None);
    assert_eq!(ctx.metadata_program, programs.metadata_program);
    assert_eq!(ctx.token_program, programs.token_program);
    assert_eq!(ctx.system_program, programs.system_program);
    assert_eq!(ctx.associated_token_program, programs.associated_token_program);
    assert_eq!(ctx.rent, programs.rent);

    assert_eq!(
        derive_with_nonce(&seeds_of_drop(&id), ctx.drop_bump, &program),
        Ok(ctx.drop_key)
    );
    assert_eq!(
        signing_context(&ctx.head_signer, &ctx.drop_key, ctx.head_signer_bump, &program),
        Ok(signer_seeds(&ctx.drop_key, ctx.head_signer_bump))
    );
}

#[test]
fn claim_context_is_derived_from_the_record() {
    let program = address(200);
    let programs = programs();
    let id = String::from("d1");
    let creator = address(1);
    let requester = address(9);
    let init = Initialize::resolve(&program, &programs, &creator, &id).unwrap();
    let drop = token_drop::state::Drop {
        claim_id: id.clone(),
        name: String::from("N"),
        description: String::from("desc"),
        creator,
        collection: init.collection_mint,
        infinite: false,
        left_mint: 3,
        ticker: String::from("T"),
        uri: String::from("u"),
        drop_nonce: init.drop_bump,
        signer_nonce: init.head_signer_bump,
    };
    let ctx = ClaimDrop::resolve(
        &program,
        &programs,
        &init.drop_key,
        &drop,
        Claimed::unclaimed(),
        &requester,
        &id,
    )
    .unwrap();
    assert_eq!(ctx.drop_key, init.drop_key);
    assert_eq!(ctx.head_signer, init.head_signer);
    assert_eq!(ctx.collection_mint, init.collection_mint);
    assert_eq!(ctx.collection_metadata, init.master_metadata);
    assert_eq!(ctx.collection_edition, init.master_edition);
    assert_eq!(ctx.creator, creator);
    assert_eq!(ctx.signer, requester);
    assert_eq!(ctx.drop, drop);
    let (master_mint, _) = Pubkey::find_program_address(
        &[b"mint", &init.drop_key.bytes, &[9u8; 32]],
        &key(&program),
    );
    assert_eq!(ctx.master_mint.bytes, master_mint.to_bytes());
    let (_, claimed_bump) = Pubkey::find_program_address(&[b"d1", &[9u8; 32]], &key(&program));
    assert_eq!(ctx.claimed_bump, claimed_bump);
    let (master_token, _) = Pubkey::find_program_address(
        &[&[9u8; 32], &[202u8; 32], master_mint.as_ref()],
        &key(&programs.associated_token_program),
    );
    assert_eq!(ctx.master_token.bytes, master_token.to_bytes());

    let elsewhere = ClaimDrop::resolve(
        &program,
        &programs,
        &address(77),
        &drop,
        Claimed::unclaimed(),
        &requester,
        &id,
    );
    assert_eq!(elsewhere, Err(Failure::ConstraintSeeds));
}

use ideapad::instructions::{
    collection_mint_instructions, deposit_instruction, deposit_payloads, mint_receipt_instruction,
    pool_setup_instructions, receipt_account_instructions, receipt_collection_verify_instruction,
    receipt_edition_instruction, receipt_metadata_instruction, HostPayload, MINT_ACCOUNT_SPACE,
};
use ideapad::ops::{CreateContributionReward, CreateProject, DepositSol};
use ideapad::records::{ContributionReward, MetadataContent, RewardType};

fn pk(bytes: [u8; 32]) -> solana_pubkey::Pubkey {
    solana_pubkey::Pubkey::new_from_array(bytes)
}

fn addr(n: u8) -> [u8; 32] {
    [n; 32]
}

#[test]
fn pool_setup_builds_initialize_and_validator_registration() {
    let accounts = CreateProject {
        payer: addr(1),
        authority: addr(2),
        pool_mint: addr(3),
        stake_pool: addr(4),
        reserve_stake: addr(5),
        project_fee_account: addr(6),
        validator_list: addr(7),
        stake_pool_withdrawal_authority: addr(8),
        stake_account: addr(9),
        phase_validator: addr(10),
        stake_pool_program: addr(12),
        token_program: addr(13),
    };
    let pool_manager = addr(20);
    let ixs = pool_setup_instructions(&accounts, &pool_manager);
    assert_eq!(ixs.len(), 2);
    let expected_initialize = spl_stake_pool::instruction::initialize(
        &pk(addr(12)),
        &pk(addr(4)),
        &pk(addr(20)),
        &pk(addr(20)),
        &pk(addr(8)),
        &pk(addr(7)),
        &pk(addr(5)),
        &pk(addr(3)),
        &pk(addr(6)),
        &pk(addr(13)),
        None,
        spl_stake_pool::state::Fee { numerator: 1, denominator: 1 },
        spl_stake_pool::state::Fee { numerator: 0, denominator: 0 },
        spl_stake_pool::state::Fee { numerator: 0, denominator: 0 },
        0,
        1,
    );
    assert_eq!(ixs[0], expected_initialize);
    let expected_add_validator = spl_stake_pool::instruction::add_validator_to_pool(
        &pk(addr(12)),
        &pk(addr(4)),
        &pk(addr(8)),
        &pk(addr(5)),
        &pk(addr(8)),
        &pk(addr(7)),
        &pk(addr(9)),
        &pk(addr(10)),
        None,
    );
    assert_eq!(ixs[1], expected_add_validator);
}

#[test]
fn deposit_payload_moves_the_tier_cost() {
    let accounts = DepositSol {
        payer: addr(1),
        wallet: addr(30),
        project: addr(40),
        contribution_reward: addr(41),
        reward_collection_mint: addr(42),
        nft_mint: addr(43),
        reward_token_account: addr(16),
        pool_mint: addr(3),
        stake_pool: addr(4),
        reserve_stake_account: addr(5),
        manager_account: addr(14),
        stake_pool_withdrawal_authority: addr(8),
        lst_token_account: addr(15),
        token_program: addr(13),
    };
    let tier = ContributionReward {
        reward_type: RewardType::Exclusive,
        project: addr(40),
        reward_collection_mint: addr(42),
        cost: 7_777,
        quantity: None,
        bump: 255,
    };
    let ix = deposit_instruction(&accounts, &tier);
    let expected = spl_stake_pool::instruction::deposit_sol(
        &spl_stake_pool::id(),
        &pk(addr(4)),
        &pk(addr(8)),
        &pk(addr(5)),
        &pk(addr(1)),
        &pk(addr(15)),
        &pk(addr(14)),
        &pk(addr(15)),
        &pk(addr(3)),
        &pk(addr(13)),
        7_777,
    );
    assert_eq!(ix, expected);
    assert_eq!(ix.program_id, spl_stake_pool::id());
}

fn old_pk(bytes: [u8; 32]) -> solana_program::pubkey::Pubkey {
    solana_program::pubkey::Pubkey::new_from_array(bytes)
}

fn sample_deposit_accounts() -> DepositSol {
    DepositSol {
        payer: addr(1),
        wallet: addr(30),
        project: addr(40),
        contribution_reward: addr(41),
        reward_collection_mint: addr(42),
        nft_mint: addr(43),
        reward_token_account: addr(16),
        pool_mint: addr(3),
        stake_pool: addr(4),
        reserve_stake_account: addr(5),
        manager_account: addr(14),
        stake_pool_withdrawal_authority: addr(8),
        lst_token_account: addr(15),
        token_program: addr(13),
    }
}

#[test]
fn collection_mint_payloads_allocate_and_initialize_the_tier_mint() {
    let accounts = CreateContributionReward {
        payer: addr(1),
        authority: addr(2),
        project: addr(40),
        reward_collection_mint: addr(42),
        token_program: addr(13),
    };
    let ixs = collection_mint_instructions(&accounts, 777);
    assert_eq!(ixs.len(), 3);
    let expected_allocate = solana_system_interface::instruction::create_account(
        &pk(addr(1)),
        &pk(addr(42)),
        777,
        MINT_ACCOUNT_SPACE,
        &pk(addr(13)),
    );
    assert_eq!(ixs[0], expected_allocate);
    #[allow(deprecated)]
    let expected_initialize = spl_token::instruction::initialize_mint2(
        &spl_token::id(),
        &pk(addr(42)),
        &pk(addr(40)),
        Some(&pk(addr(40))),
        0,
    )
    .expect("token program id accepted");
    assert_eq!(ixs[1], expected_initialize);
    let expected_holding = spl_associated_token_account::instruction::create_associated_token_account(
        &pk(addr(1)),
        &pk(addr(2)),
        &pk(addr(42)),
        &pk(addr(13)),
    );
    assert_eq!(ixs[2], expected_holding);
}

#[test]
fn receipt_account_payloads_create_mint_and_holding_accounts() {
    let accounts = sample_deposit_accounts();
    let vault = addr(50);
    let ixs = receipt_account_instructions(&accounts, &vault, 888);
    assert_eq!(ixs.len(), 4);
    let expected_allocate = solana_system_interface::instruction::create_account(
        &pk(addr(1)),
        &pk(addr(43)),
        888,
        MINT_ACCOUNT_SPACE,
        &pk(addr(13)),
    );
    assert_eq!(ixs[0], expected_allocate);
    #[allow(deprecated)]
    let expected_initialize = spl_token::instruction::initialize_mint2(
        &spl_token::id(),
        &pk(addr(43)),
        &pk(addr(41)),
        Some(&pk(addr(41))),
        0,
    )
    .expect("token program id accepted");
    assert_eq!(ixs[1], expected_initialize);
    let expected_wallet_holding =
        spl_associated_token_account::instruction::create_associated_token_account(
            &pk(addr(1)),
            &pk(addr(30)),
            &pk(addr(42)),
            &pk(addr(13)),
        );
    assert_eq!(ixs[2], expected_wallet_holding);
    let expected_vault_holding =
        spl_associated_token_account::instruction::create_associated_token_account(
            &pk(addr(1)),
            &pk(addr(50)),
            &pk(addr(3)),
            &pk(addr(13)),
        );
    assert_eq!(ixs[3], expected_vault_holding);
}

#[test]
fn receipt_mint_payload_mints_exactly_one_token() {
    let accounts = sample_deposit_accounts();
    let ix = mint_receipt_instruction(&accounts);
    #[allow(deprecated)]
    let expected = spl_token::instruction::mint_to(
        &spl_token::id(),
        &pk(addr(43)),
        &pk(addr(16)),
        &pk(addr(41)),
        &[],
        1,
    )
    .expect("token program id accepted");
    assert_eq!(ix, expected);
}

#[test]
fn receipt_metadata_payload_copies_content_and_binds_collection() {
    let accounts = sample_deposit_accounts();
    let metadata_account = addr(60);
    let collection = MetadataContent {
        name: String::from("Orbital Greenhouse"),
        symbol: String::from("ORBG"),
        uri: String::from("ipfs://collection-card"),
        seller_fee_basis_points: 250,
    };
    let ix = receipt_metadata_instruction(
        &accounts,
        &metadata_account,
        collection,
        Some(String::from("ipfs://tier-card")),
    );
    let expected = mpl_token_metadata::instructions::CreateMetadataAccountV3Builder::new()
        .metadata(old_pk(addr(60)))
        .mint(old_pk(addr(43)))
        .mint_authority(old_pk(addr(41)))
        .payer(old_pk(addr(1)))
        .update_authority(old_pk(addr(41)), true)
        .data(mpl_token_metadata::types::DataV2 {
            name: String::from("Orbital Greenhouse"),
            symbol: String::from("ORBG"),
            uri: String::from("ipfs://tier-card"),
            seller_fee_basis_points: 250,
            creators: None,
            collection: Some(mpl_token_metadata::types::Collection {
                verified: false,
                key: old_pk(addr(42)),
            }),
            uses: None,
        })
        .is_mutable(true)
        .instruction();
    assert_eq!(ix, expected);
}

#[test]
fn receipt_edition_payload_caps_supply_at_one() {
    let accounts = sample_deposit_accounts();
    let ix = receipt_edition_instruction(&accounts, &addr(61), &addr(60));
    let expected = mpl_token_metadata::instructions::CreateMasterEditionV3Builder::new()
        .edition(old_pk(addr(61)))
        .mint(old_pk(addr(43)))
        .update_authority(old_pk(addr(41)))
        .mint_authority(old_pk(addr(41)))
        .payer(old_pk(addr(1)))
        .metadata(old_pk(addr(60)))
        .max_supply(0)
        .instruction();
    assert_eq!(ix, expected);
}

#[test]
fn receipt_verification_payload_names_the_collection_chain() {
    let accounts = sample_deposit_accounts();
    let ix = receipt_collection_verify_instruction(&accounts, &addr(60), &addr(62), &addr(63));
    let expected =
        mpl_token_metadata::instructions::SetAndVerifySizedCollectionItemBuilder::new()
            .metadata(old_pk(addr(60)))
            .collection_authority(old_pk(addr(40)))
            .payer(old_pk(addr(1)))
            .update_authority(old_pk(addr(41)))
            .collection_mint(old_pk(addr(42)))
            .collection(old_pk(addr(62)))
            .collection_master_edition_account(old_pk(addr(63)))
            .instruction();
    assert_eq!(ix, expected);
}

#[test]
fn deposit_batch_holds_the_five_sub_calls_in_order() {
    let accounts = sample_deposit_accounts();
    let tier = ContributionReward {
        reward_type: RewardType::Exclusive,
        project: addr(40),
        reward_collection_mint: addr(42),
        cost: 7_777,
        quantity: None,
        bump: 255,
    };
    let collection = MetadataContent {
        name: String::from("Orbital Greenhouse"),
        symbol: String::from("ORBG"),
        uri: String::from("ipfs://collection-card"),
        seller_fee_basis_points: 250,
    };
    let batch = deposit_payloads(
        &accounts,
        &tier,
        collection,
        None,
        &addr(60),
        &addr(61),
        &addr(62),
        &addr(63),
    );
    assert_eq!(batch.len(), 5);
    match &batch[0] {
        HostPayload::Runtime(ix) => {
            assert_eq!(*ix, deposit_instruction(&accounts, &tier));
        },
        HostPayload::TokenMetadata(_) => panic!("step one is the staking deposit"),
    }
    match &batch[1] {
        HostPayload::Runtime(ix) => {
            assert_eq!(*ix, mint_receipt_instruction(&accounts));
        },
        HostPayload::TokenMetadata(_) => panic!("step two is the receipt mint"),
    }
    assert!(matches!(&batch[2], HostPayload::TokenMetadata(_)));
    match &batch[3] {
        HostPayload::TokenMetadata(ix) => {
            assert_eq!(*ix, receipt_edition_instruction(&accounts, &addr(61), &addr(60)));
        },
        HostPayload::Runtime(_) => panic!("step four is the edition marker"),
    }
    match &batch[4] {
        HostPayload::TokenMetadata(ix) => {
            assert_eq!(
                *ix,
                receipt_collection_verify_instruction(&accounts, &addr(60), &addr(62), &addr(63))
            );
        },
        HostPayload::Runtime(_) => panic!("step five is the verification"),
    }
}

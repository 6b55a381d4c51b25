use ideapad::errors::ProtocolError;
use ideapad::ledger::Ledger;
use ideapad::ops::{
    create_contribution_reward, create_project, deposit_sol, CreateContributionReward,
    CreateProject, DepositOutcome, DepositSol, PoolSetupOutcome,
};
use ideapad::records::{MetadataContent, RewardType};

const PROGRAM_ID: [u8; 32] = [11u8; 32];
const AUTHORITY: [u8; 32] = [2u8; 32];
const POOL_MINT: [u8; 32] = [3u8; 32];
const COLLECTION_MINT: [u8; 32] = [100u8; 32];
const TIER_COST: u64 = 2_500;

fn addr(n: u8) -> [u8; 32] {
    [n; 32]
}

fn collection_metadata() -> MetadataContent {
    MetadataContent {
        name: String::from("Orbital Greenhouse"),
        symbol: String::from("ORBG"),
        uri: String::from("ipfs://collection-card"),
        seller_fee_basis_points: 250,
    }
}

fn funded_ledger() -> (Ledger, [u8; 32], [u8; 32]) {
    let mut ledger = Ledger::new(PROGRAM_ID);
    let accounts = CreateProject {
        payer: addr(1),
        authority: AUTHORITY,
        pool_mint: POOL_MINT,
        stake_pool: addr(4),
        reserve_stake: addr(5),
        project_fee_account: addr(6),
        validator_list: addr(7),
        stake_pool_withdrawal_authority: addr(8),
        stake_account: addr(9),
        phase_validator: addr(10),
        stake_pool_program: addr(12),
        token_program: addr(13),
    };
    let project = create_project(
        &mut ledger,
        &accounts,
        vec![5, 5],
        None,
        100,
        PoolSetupOutcome::Completed,
    )
    .expect("project creation succeeds");
    let tier_accounts = CreateContributionReward {
        payer: addr(1),
        authority: AUTHORITY,
        project,
        reward_collection_mint: COLLECTION_MINT,
        token_program: addr(13),
    };
    let tier = create_contribution_reward(
        &mut ledger,
        &tier_accounts,
        RewardType::Exclusive,
        TIER_COST,
        Some(1),
    )
    .expect("tier creation succeeds");
    (ledger, project, tier)
}

fn deposit_request(project: [u8; 32], tier: [u8; 32], wallet: u8, nft_mint: u8) -> DepositSol {
    DepositSol {
        payer: addr(1),
        wallet: addr(wallet),
        project,
        contribution_reward: tier,
        reward_collection_mint: COLLECTION_MINT,
        nft_mint: addr(nft_mint),
        reward_token_account: addr(16),
        pool_mint: POOL_MINT,
        stake_pool: addr(4),
        reserve_stake_account: addr(5),
        manager_account: addr(14),
        stake_pool_withdrawal_authority: addr(8),
        lst_token_account: addr(15),
        token_program: addr(13),
    }
}

#[test]
fn deposit_mints_one_verified_receipt_and_a_vault() {
    let (mut ledger, project, tier) = funded_ledger();
    let accounts = deposit_request(project, tier, 30, 31);
    let r = deposit_sol(
        &mut ledger,
        &accounts,
        collection_metadata(),
        Some(String::from("ipfs://tier-card")),
        DepositOutcome::Completed,
    );
    assert_eq!(r, Ok(addr(31)));
    assert_eq!(ledger.receipts.len(), 1);
    let receipt = &ledger.receipts[0];
    assert_eq!(receipt.address, addr(31));
    assert_eq!(receipt.data.project, project);
    assert_eq!(receipt.data.reward, tier);
    assert_eq!(receipt.data.owner, addr(30));
    assert!(receipt.data.collection_verified);
    assert_eq!(receipt.data.collection, COLLECTION_MINT);
    assert_eq!(receipt.data.amount, TIER_COST);
    assert_eq!(receipt.data.metadata.name, "Orbital Greenhouse");
    assert_eq!(receipt.data.metadata.symbol, "ORBG");
    assert_eq!(receipt.data.metadata.uri, "ipfs://tier-card");
    assert_eq!(receipt.data.metadata.seller_fee_basis_points, 250);
    assert_eq!(ledger.stake_vaults.len(), 1);
    let vault = &ledger.stake_vaults[0];
    assert_eq!(vault.data.project, project);
    assert_eq!(vault.data.staker, addr(30));
    assert!(!vault.data.is_claimed);
    let (expected, expected_bump) =
        ideapad::addressing::stake_vault_address(&PROGRAM_ID, &project, &addr(30))
            .expect("derivable");
    assert_eq!(vault.address, expected);
    assert_eq!(vault.data.bump, expected_bump);
}

#[test]
fn deposit_without_tier_locator_copies_collection_locator() {
    let (mut ledger, project, tier) = funded_ledger();
    let accounts = deposit_request(project, tier, 30, 31);
    deposit_sol(
        &mut ledger,
        &accounts,
        collection_metadata(),
        None,
        DepositOutcome::Completed,
    )
    .expect("deposit succeeds");
    assert_eq!(ledger.receipts[0].data.metadata.uri, "ipfs://collection-card");
}

#[test]
fn second_deposit_of_same_staker_reuses_vault() {
    let (mut ledger, project, tier) = funded_ledger();
    let first = deposit_request(project, tier, 30, 31);
    deposit_sol(
        &mut ledger,
        &first,
        collection_metadata(),
        None,
        DepositOutcome::Completed,
    )
    .expect("first deposit succeeds");
    let second = deposit_request(project, tier, 30, 32);
    deposit_sol(
        &mut ledger,
        &second,
        collection_metadata(),
        None,
        DepositOutcome::Completed,
    )
    .expect("second deposit succeeds");
    assert_eq!(ledger.receipts.len(), 2);
    assert_eq!(ledger.stake_vaults.len(), 1);
}

#[test]
fn reused_receipt_mint_is_rejected() {
    let (mut ledger, project, tier) = funded_ledger();
    let first = deposit_request(project, tier, 30, 31);
    deposit_sol(
        &mut ledger,
        &first,
        collection_metadata(),
        None,
        DepositOutcome::Completed,
    )
    .expect("first deposit succeeds");
    let second = deposit_request(project, tier, 40, 31);
    let r = deposit_sol(
        &mut ledger,
        &second,
        collection_metadata(),
        None,
        DepositOutcome::Completed,
    );
    assert_eq!(r, Err(ProtocolError::AdmissionConflict));
    assert_eq!(ledger.receipts.len(), 1);
    assert_eq!(ledger.receipts[0].data.owner, addr(30));
    assert_eq!(ledger.stake_vaults.len(), 1);
}

#[test]
fn rejected_sub_calls_persist_nothing() {
    let (mut ledger, project, tier) = funded_ledger();
    let outcomes = [
        DepositOutcome::StakeDepositRejected,
        DepositOutcome::MintRejected,
        DepositOutcome::MetadataRejected,
        DepositOutcome::EditionRejected,
    ];
    for outcome in outcomes {
        let accounts = deposit_request(project, tier, 30, 31);
        let r = deposit_sol(&mut ledger, &accounts, collection_metadata(), None, outcome);
        assert_eq!(r, Err(ProtocolError::ExternalProtocolFailure));
        assert_eq!(ledger.receipts.len(), 0);
        assert_eq!(ledger.stake_vaults.len(), 0);
    }
}

#[test]
fn failed_verification_persists_nothing() {
    let (mut ledger, project, tier) = funded_ledger();
    let accounts = deposit_request(project, tier, 30, 31);
    let r = deposit_sol(
        &mut ledger,
        &accounts,
        collection_metadata(),
        None,
        DepositOutcome::VerificationRejected,
    );
    assert_eq!(r, Err(ProtocolError::VerificationFailure));
    assert_eq!(ledger.receipts.len(), 0);
    assert_eq!(ledger.stake_vaults.len(), 0);
    assert_eq!(ledger.rewards.len(), 1);
    assert_eq!(ledger.projects.len(), 1);
}

#[test]
fn deposit_checks_linkage_before_any_sub_call() {
    let (mut ledger, project, tier) = funded_ledger();

    let mut wrong_collection = deposit_request(project, tier, 30, 31);
    wrong_collection.reward_collection_mint = addr(200);
    let r = deposit_sol(
        &mut ledger,
        &wrong_collection,
        collection_metadata(),
        None,
        DepositOutcome::Completed,
    );
    assert_eq!(r, Err(ProtocolError::PreconditionMismatch));

    let mut wrong_pool_mint = deposit_request(project, tier, 30, 31);
    wrong_pool_mint.pool_mint = addr(201);
    let r = deposit_sol(
        &mut ledger,
        &wrong_pool_mint,
        collection_metadata(),
        None,
        DepositOutcome::Completed,
    );
    assert_eq!(r, Err(ProtocolError::PreconditionMismatch));

    let mut unknown_tier = deposit_request(project, tier, 30, 31);
    unknown_tier.contribution_reward = addr(202);
    let r = deposit_sol(
        &mut ledger,
        &unknown_tier,
        collection_metadata(),
        None,
        DepositOutcome::Completed,
    );
    assert_eq!(r, Err(ProtocolError::PreconditionMismatch));

    let mut unknown_project = deposit_request(project, tier, 30, 31);
    unknown_project.project = addr(203);
    let r = deposit_sol(
        &mut ledger,
        &unknown_project,
        collection_metadata(),
        None,
        DepositOutcome::Completed,
    );
    assert_eq!(r, Err(ProtocolError::PreconditionMismatch));

    assert_eq!(ledger.receipts.len(), 0);
    assert_eq!(ledger.stake_vaults.len(), 0);
}

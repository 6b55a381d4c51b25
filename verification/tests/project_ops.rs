use ideapad::errors::ProtocolError;
use ideapad::ledger::Ledger;
use ideapad::ops::{
    change_state, create_contribution_reward, create_project, ChangeState,
    CreateContributionReward, CreateProject, PoolSetupOutcome,
};
use ideapad::records::{ProjectState, RewardType};

const PROGRAM_ID: [u8; 32] = [11u8; 32];

fn addr(n: u8) -> [u8; 32] {
    [n; 32]
}

fn project_request(authority: [u8; 32]) -> CreateProject {
    CreateProject {
        payer: addr(1),
        authority,
        pool_mint: addr(3),
        stake_pool: addr(4),
        reserve_stake: addr(5),
        project_fee_account: addr(6),
        validator_list: addr(7),
        stake_pool_withdrawal_authority: addr(8),
        stake_account: addr(9),
        phase_validator: addr(10),
        stake_pool_program: addr(12),
        token_program: addr(13),
    }
}

#[test]
fn create_project_admits_draft_record() {
    let mut ledger = Ledger::new(PROGRAM_ID);
    let accounts = project_request(addr(2));
    let r = create_project(
        &mut ledger,
        &accounts,
        vec![1, 2, 3],
        Some(77),
        500,
        PoolSetupOutcome::Completed,
    );
    let project = r.expect("creation succeeds");
    assert_eq!(ledger.project_count(), 1);
    assert_eq!(ledger.projects[0].address, project);
    let data = &ledger.projects[0].data;
    assert_eq!(data.state, ProjectState::Draft);
    assert_eq!(data.authority, addr(2));
    assert_eq!(data.config.redeemption_stamp, Some(77));
    assert_eq!(data.config.min_stake_amount, 500);
    assert_eq!(data.raising_at, None);
    assert_eq!(data.stake_pool, addr(4));
    assert_eq!(data.lst_mint, addr(3));
    assert_eq!(data.contribution_reward_count, 0);
    assert_eq!(data.seed, vec![1, 2, 3]);
    let (expected, expected_bump) = ideapad::addressing::project_address(
        &PROGRAM_ID,
        &vec![1, 2, 3],
    )
    .expect("derivable");
    assert_eq!(project, expected);
    assert_eq!(data.bump, expected_bump);
    assert_eq!(ledger.pool_managers.len(), 1);
    assert_eq!(ledger.pool_managers[0].data.project, project);
}

#[test]
fn duplicate_seed_is_rejected_and_first_record_kept() {
    let mut ledger = Ledger::new(PROGRAM_ID);
    let first = project_request(addr(2));
    create_project(
        &mut ledger,
        &first,
        vec![9, 9],
        None,
        100,
        PoolSetupOutcome::Completed,
    )
    .expect("first creation succeeds");
    let second = project_request(addr(20));
    let r = create_project(
        &mut ledger,
        &second,
        vec![9, 9],
        None,
        200,
        PoolSetupOutcome::Completed,
    );
    assert_eq!(r, Err(ProtocolError::AdmissionConflict));
    assert_eq!(ledger.project_count(), 1);
    assert_eq!(ledger.projects[0].data.authority, addr(2));
    assert_eq!(ledger.projects[0].data.config.min_stake_amount, 100);
}

#[test]
fn facility_rejection_persists_nothing() {
    let mut ledger = Ledger::new(PROGRAM_ID);
    let accounts = project_request(addr(2));
    let r = create_project(
        &mut ledger,
        &accounts,
        vec![1],
        None,
        100,
        PoolSetupOutcome::InitializeRejected,
    );
    assert_eq!(r, Err(ProtocolError::ExternalProtocolFailure));
    assert_eq!(ledger.project_count(), 0);
    assert_eq!(ledger.pool_managers.len(), 0);
    let r = create_project(
        &mut ledger,
        &accounts,
        vec![1],
        None,
        100,
        PoolSetupOutcome::ValidatorRejected,
    );
    assert_eq!(r, Err(ProtocolError::ExternalProtocolFailure));
    assert_eq!(ledger.project_count(), 0);
}

fn ledger_with_project() -> (Ledger, [u8; 32]) {
    let mut ledger = Ledger::new(PROGRAM_ID);
    let accounts = project_request(addr(2));
    let project = create_project(
        &mut ledger,
        &accounts,
        vec![5, 5],
        None,
        100,
        PoolSetupOutcome::Completed,
    )
    .expect("creation succeeds");
    (ledger, project)
}

#[test]
fn three_tiers_get_counter_three_and_distinct_addresses() {
    let (mut ledger, project) = ledger_with_project();
    let mut tiers: Vec<[u8; 32]> = Vec::new();
    for i in 0..3u8 {
        let accounts = CreateContributionReward {
            payer: addr(1),
            authority: addr(2),
            project,
            reward_collection_mint: addr(100 + i),
            token_program: addr(13),
        };
        let tier = create_contribution_reward(
            &mut ledger,
            &accounts,
            RewardType::Exclusive,
            1_000 * (i as u64 + 1),
            Some(10),
        )
        .expect("tier creation succeeds");
        tiers.push(tier);
    }
    assert_eq!(ledger.projects[0].data.contribution_reward_count, 3);
    assert_eq!(ledger.rewards.len(), 3);
    assert_ne!(tiers[0], tiers[1]);
    assert_ne!(tiers[0], tiers[2]);
    assert_ne!(tiers[1], tiers[2]);
    for (i, tier) in tiers.iter().enumerate() {
        assert_eq!(ledger.rewards[i].address, *tier);
        assert_eq!(ledger.rewards[i].data.project, project);
        assert_eq!(ledger.rewards[i].data.cost, 1_000 * (i as u64 + 1));
        let (expected, expected_bump) =
            ideapad::addressing::reward_address(&PROGRAM_ID, &project, i as u8)
                .expect("derivable");
        assert_eq!(*tier, expected);
        assert_eq!(ledger.rewards[i].data.bump, expected_bump);
    }
}

#[test]
fn tier_creation_requires_project_authority() {
    let (mut ledger, project) = ledger_with_project();
    let accounts = CreateContributionReward {
        payer: addr(1),
        authority: addr(66),
        project,
        reward_collection_mint: addr(100),
        token_program: addr(13),
    };
    let r = create_contribution_reward(&mut ledger, &accounts, RewardType::Exclusive, 10, None);
    assert_eq!(r, Err(ProtocolError::AuthorizationFailure));
    assert_eq!(ledger.rewards.len(), 0);
    assert_eq!(ledger.projects[0].data.contribution_reward_count, 0);
}

#[test]
fn tier_creation_rejects_unknown_project() {
    let (mut ledger, _) = ledger_with_project();
    let accounts = CreateContributionReward {
        payer: addr(1),
        authority: addr(2),
        project: addr(250),
        reward_collection_mint: addr(100),
        token_program: addr(13),
    };
    let r = create_contribution_reward(&mut ledger, &accounts, RewardType::Exclusive, 10, None);
    assert_eq!(r, Err(ProtocolError::PreconditionMismatch));
}

#[test]
fn tier_creation_rejects_reused_collection_mint() {
    let (mut ledger, project) = ledger_with_project();
    let accounts = CreateContributionReward {
        payer: addr(1),
        authority: addr(2),
        project,
        reward_collection_mint: addr(100),
        token_program: addr(13),
    };
    create_contribution_reward(&mut ledger, &accounts, RewardType::Exclusive, 10, None)
        .expect("first tier succeeds");
    let r = create_contribution_reward(&mut ledger, &accounts, RewardType::Exclusive, 20, None);
    assert_eq!(r, Err(ProtocolError::AdmissionConflict));
    assert_eq!(ledger.rewards.len(), 1);
    assert_eq!(ledger.projects[0].data.contribution_reward_count, 1);
}

#[test]
fn tier_counter_overflows_at_255_and_stays_there() {
    let (mut ledger, project) = ledger_with_project();
    for i in 0..255u32 {
        let mut mint = [0u8; 32];
        mint[0] = (i % 256) as u8;
        mint[1] = (i / 256) as u8;
        mint[2] = 77;
        let accounts = CreateContributionReward {
            payer: addr(1),
            authority: addr(2),
            project,
            reward_collection_mint: mint,
            token_program: addr(13),
        };
        create_contribution_reward(&mut ledger, &accounts, RewardType::Exclusive, 10, None)
            .expect("tier creation succeeds");
    }
    assert_eq!(ledger.projects[0].data.contribution_reward_count, 255);
    assert_eq!(ledger.rewards.len(), 255);
    let accounts = CreateContributionReward {
        payer: addr(1),
        authority: addr(2),
        project,
        reward_collection_mint: [200u8; 32],
        token_program: addr(13),
    };
    let r = create_contribution_reward(&mut ledger, &accounts, RewardType::Exclusive, 10, None);
    assert_eq!(r, Err(ProtocolError::NumericalOverflow));
    assert_eq!(ledger.projects[0].data.contribution_reward_count, 255);
    assert_eq!(ledger.rewards.len(), 255);
}

#[test]
fn change_state_succeeds_for_authority_only() {
    let (mut ledger, project) = ledger_with_project();
    let unauthorized = ChangeState { payer: addr(1), authority: addr(66), project };
    let r = change_state(&mut ledger, &unauthorized, ProjectState::Raising);
    assert_eq!(r, Err(ProtocolError::AuthorizationFailure));
    assert_eq!(ledger.projects[0].data.state, ProjectState::Draft);

    let authorized = ChangeState { payer: addr(1), authority: addr(2), project };
    change_state(&mut ledger, &authorized, ProjectState::Raising).expect("authority may mutate");
    assert_eq!(ledger.projects[0].data.state, ProjectState::Raising);
    change_state(&mut ledger, &authorized, ProjectState::Complete).expect("any state may follow");
    assert_eq!(ledger.projects[0].data.state, ProjectState::Complete);
}

#[test]
fn change_state_rejects_unknown_project() {
    let (mut ledger, _) = ledger_with_project();
    let accounts = ChangeState { payer: addr(1), authority: addr(2), project: addr(251) };
    let r = change_state(&mut ledger, &accounts, ProjectState::Funded);
    assert_eq!(r, Err(ProtocolError::PreconditionMismatch));
}

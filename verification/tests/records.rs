use ideapad::errors::ProtocolError;
use ideapad::records::{
    receipt_metadata, ContributionReward, MetadataContent, PoolManager, Project, ProjectConfig,
    ProjectState, RewardType, StakeVault,
};

fn blank_project() -> Project {
    Project {
        state: ProjectState::Complete,
        authority: [0u8; 32],
        config: ProjectConfig { redeemption_stamp: None, min_stake_amount: 0 },
        raising_at: Some(1),
        stake_pool: [0u8; 32],
        lst_mint: [0u8; 32],
        contribution_reward_count: 9,
        seed: Vec::new(),
        bump: 0,
    }
}

#[test]
fn project_init_fills_a_draft_record() {
    let mut p = blank_project();
    p.init([2u8; 32], Some(42), 700, [4u8; 32], [3u8; 32], vec![8, 8], 254)
        .expect("init succeeds");
    assert_eq!(p.state, ProjectState::Draft);
    assert_eq!(p.authority, [2u8; 32]);
    assert_eq!(p.config.redeemption_stamp, Some(42));
    assert_eq!(p.config.min_stake_amount, 700);
    assert_eq!(p.raising_at, None);
    assert_eq!(p.stake_pool, [4u8; 32]);
    assert_eq!(p.lst_mint, [3u8; 32]);
    assert_eq!(p.contribution_reward_count, 0);
    assert_eq!(p.seed, vec![8, 8]);
    assert_eq!(p.bump, 254);
}

#[test]
fn project_space_counts_prefix_fields_and_seed() {
    assert_eq!(Project::space(&Vec::new()), 135);
    assert_eq!(Project::space(&vec![0u8; 5]), 140);
}

#[test]
fn counter_increment_is_checked() {
    let mut p = blank_project();
    p.contribution_reward_count = 254;
    assert_eq!(p.increment_contribution_reward_count(), Ok(255));
    assert_eq!(p.contribution_reward_count, 255);
    assert_eq!(
        p.increment_contribution_reward_count(),
        Err(ProtocolError::NumericalOverflow)
    );
    assert_eq!(p.contribution_reward_count, 255);
}

#[test]
fn contribution_reward_init_and_space() {
    let mut t = ContributionReward {
        reward_type: RewardType::Additive,
        project: [0u8; 32],
        reward_collection_mint: [0u8; 32],
        cost: 0,
        quantity: None,
        bump: 0,
    };
    t.init(RewardType::Exclusive, [7u8; 32], [8u8; 32], 99, Some(3), 250)
        .expect("init succeeds");
    assert!(matches!(t.reward_type, RewardType::Exclusive));
    assert_eq!(t.project, [7u8; 32]);
    assert_eq!(t.reward_collection_mint, [8u8; 32]);
    assert_eq!(t.cost, 99);
    assert_eq!(t.quantity, Some(3));
    assert_eq!(t.bump, 250);
    assert_eq!(ContributionReward::space(), 90);
}

#[test]
fn stake_vault_init_and_space() {
    let mut v = StakeVault {
        project: [0u8; 32],
        staker: [0u8; 32],
        is_claimed: true,
        bump: 0,
    };
    v.init([7u8; 32], [9u8; 32], 251).expect("init succeeds");
    assert_eq!(v.project, [7u8; 32]);
    assert_eq!(v.staker, [9u8; 32]);
    assert!(!v.is_claimed);
    assert_eq!(v.bump, 251);
    assert_eq!(StakeVault::space(), 73);
}

#[test]
fn pool_manager_init_and_space() {
    let mut m = PoolManager { project: [0u8; 32], bump: 0 };
    m.init([7u8; 32], 252).expect("init succeeds");
    assert_eq!(m.project, [7u8; 32]);
    assert_eq!(m.bump, 252);
    assert_eq!(PoolManager::space(), 41);
}

#[test]
fn receipt_metadata_copies_collection_fields() {
    let collection = MetadataContent {
        name: String::from("Tidal Farm"),
        symbol: String::from("TIDE"),
        uri: String::from("https://example.org/collection.json"),
        seller_fee_basis_points: 100,
    };
    let m = receipt_metadata(collection, None);
    assert_eq!(m.name, "Tidal Farm");
    assert_eq!(m.symbol, "TIDE");
    assert_eq!(m.uri, "https://example.org/collection.json");
    assert_eq!(m.seller_fee_basis_points, 100);
}

#[test]
fn receipt_metadata_substitutes_tier_locator() {
    let collection = MetadataContent {
        name: String::from("Tidal Farm"),
        symbol: String::from("TIDE"),
        uri: String::from("https://example.org/collection.json"),
        seller_fee_basis_points: 100,
    };
    let m = receipt_metadata(collection, Some(String::from("https://example.org/tier.json")));
    assert_eq!(m.name, "Tidal Farm");
    assert_eq!(m.uri, "https://example.org/tier.json");
}

use ideapad::addressing::{
    address_eq, bytes_eq, master_edition_address, pool_manager_address, project_address,
    reward_address, stake_vault_address, token_metadata_address,
};

fn pk(bytes: [u8; 32]) -> solana_pubkey::Pubkey {
    solana_pubkey::Pubkey::new_from_array(bytes)
}

#[test]
fn project_address_matches_runtime_derivation() {
    let program = [7u8; 32];
    let seed: Vec<u8> = vec![1, 2, 3];
    let (addr, bump) = project_address(&program, &seed).expect("derivable");
    let (expected, expected_bump) =
        solana_pubkey::Pubkey::find_program_address(&[b"project", &[1, 2, 3]], &pk(program));
    assert_eq!(addr, expected.to_bytes());
    assert_eq!(bump, expected_bump);
}

#[test]
fn pool_manager_address_matches_runtime_derivation() {
    let program = [7u8; 32];
    let project = [42u8; 32];
    let (addr, bump) = pool_manager_address(&program, &project).expect("derivable");
    let (expected, expected_bump) =
        solana_pubkey::Pubkey::find_program_address(&[b"pool_manager", &project], &pk(program));
    assert_eq!(addr, expected.to_bytes());
    assert_eq!(bump, expected_bump);
}

#[test]
fn reward_address_matches_runtime_derivation() {
    let program = [9u8; 32];
    let project = [42u8; 32];
    let (addr, bump) = reward_address(&program, &project, 5).expect("derivable");
    let (expected, expected_bump) =
        solana_pubkey::Pubkey::find_program_address(&[b"reward", &project, &[5]], &pk(program));
    assert_eq!(addr, expected.to_bytes());
    assert_eq!(bump, expected_bump);
}

#[test]
fn stake_vault_address_matches_runtime_derivation() {
    let program = [9u8; 32];
    let project = [42u8; 32];
    let staker = [13u8; 32];
    let (addr, bump) = stake_vault_address(&program, &project, &staker).expect("derivable");
    let (expected, expected_bump) = solana_pubkey::Pubkey::find_program_address(
        &[b"stake_vault", &project, &staker],
        &pk(program),
    );
    assert_eq!(addr, expected.to_bytes());
    assert_eq!(bump, expected_bump);
}

#[test]
fn reward_addresses_differ_by_index() {
    let program = [9u8; 32];
    let project = [42u8; 32];
    let (a0, _) = reward_address(&program, &project, 0).expect("derivable");
    let (a1, _) = reward_address(&program, &project, 1).expect("derivable");
    assert_ne!(a0, a1);
}

#[test]
fn address_eq_compares_bytes() {
    let a = [3u8; 32];
    let mut b = [3u8; 32];
    assert!(address_eq(&a, &b));
    b[31] = 4;
    assert!(!address_eq(&a, &b));
}

#[test]
fn bytes_eq_compares_contents() {
    assert!(bytes_eq(&vec![1, 2, 3], &vec![1, 2, 3]));
    assert!(!bytes_eq(&vec![1, 2, 3], &vec![1, 2]));
    assert!(!bytes_eq(&vec![1, 2, 3], &vec![1, 2, 4]));
}

#[test]
fn token_metadata_address_matches_metadata_program_derivation() {
    let program = mpl_token_metadata::ID.to_bytes();
    let mint = [42u8; 32];
    let (addr, bump) = token_metadata_address(&program, &mint).expect("derivable");
    let expected =
        mpl_token_metadata::accounts::Metadata::find_pda(&solana_program::pubkey::Pubkey::new_from_array(mint));
    assert_eq!(addr, expected.0.to_bytes());
    assert_eq!(bump, expected.1);
}

#[test]
fn master_edition_address_matches_metadata_program_derivation() {
    let program = mpl_token_metadata::ID.to_bytes();
    let mint = [42u8; 32];
    let (addr, bump) = master_edition_address(&program, &mint).expect("derivable");
    let expected = mpl_token_metadata::accounts::MasterEdition::find_pda(
        &solana_program::pubkey::Pubkey::new_from_array(mint),
    );
    assert_eq!(addr, expected.0.to_bytes());
    assert_eq!(bump, expected.1);
}

//! The protocol's operation surface.
//!
//! Each operation validates its request against the current records, then
//! commits all of its writes or none of them. Sub-calls into the external
//! staking and token facilities enter here as reported outcomes: the
//! hosting runtime performs them within the same atomic unit, so an
//! operation given a failed outcome persists nothing.

use vstd::prelude::*;

use crate::addressing::{
    pool_manager_address, pool_manager_pda, project_address, project_pda, reward_address,
    reward_pda, stake_vault_address, stake_vault_pda,
};
use crate::errors::ProtocolError;
use crate::ledger::{Ledger, LedgerV};
use crate::records::{
    receipt_metadata, receipt_metadata_content, with_count, with_state, AccountId,
    ContributionReward, ContributionRewardV, MetadataContent, MetadataContentV, PoolManager,
    PoolManagerV, Project, ProjectConfig, ProjectState, ProjectV, Receipt, ReceiptV, Record,
    RecordV, RewardType, StakeVault, StakeVaultV,
};

verus! {

/// What the external staking facility reported for the two initialization
/// sub-calls of project creation.
#[derive(Clone, Copy, Debug, PartialEq, Eq, Structural)]
pub enum PoolSetupOutcome {
    /// The facility initialized and the validator target was registered.
    Completed,
    /// The facility rejected its initialization.
    InitializeRejected,
    /// The facility rejected the validator registration.
    ValidatorRejected,
}

/// The identities a `create_project` request names.
#[derive(Clone, Copy, Debug)]
pub struct CreateProject {
    /// Who funds record storage.
    pub payer: AccountId,
    /// The authority of the new project.
    pub authority: AccountId,
    /// Mint of the staking-receipt token the facility will issue.
    pub pool_mint: AccountId,
    /// The external staking facility to initialize.
    pub stake_pool: AccountId,
    pub reserve_stake: AccountId,
    /// Where the facility's fees accrue.
    pub project_fee_account: AccountId,
    pub validator_list: AccountId,
    pub stake_pool_withdrawal_authority: AccountId,
    pub stake_account: AccountId,
    /// The validator target registered as eligible.
    pub phase_validator: AccountId,
    /// The program that runs the staking facility.
    pub stake_pool_program: AccountId,
    pub token_program: AccountId,
}

/// The project record a successful `create_project` admits.
pub open spec fn fresh_project(
    a: CreateProject,
    seed: Seq<u8>,
    redeemption_stamp: Option<i64>,
    min_stake_amount: u64,
    bump: u8,
) -> ProjectV {
    ProjectV {
        state: ProjectState::Draft,
        authority: a.authority@,
        config: ProjectConfig { redeemption_stamp, min_stake_amount },
        raising_at: None,
        stake_pool: a.stake_pool@,
        lst_mint: a.pool_mint@,
        contribution_reward_count: 0,
        seed: seed,
        bump: bump,
    }
}

/// Why `create_project` fails, or `None` where it succeeds: the runtime
/// must derive both record addresses, neither may be occupied (duplicate
/// seed protection), and the external facility must accept both of its
/// initialization sub-calls.
pub open spec fn create_project_error(
    l: LedgerV,
    a: CreateProject,
    seed: Seq<u8>,
    outcome: PoolSetupOutcome,
) -> Option<ProtocolError> {
    let ppda = project_pda(l.program_id, seed);
    if ppda is None {
        Some(ProtocolError::ExternalProtocolFailure)
    } else {
        let (paddr, pbump) = ppda->0;
        if l.has_project_seed(seed) || l.has_project(paddr) {
            Some(ProtocolError::AdmissionConflict)
        } else {
            let mpda = pool_manager_pda(l.program_id, paddr);
            if mpda is None {
                Some(ProtocolError::ExternalProtocolFailure)
            } else if l.has_pool_manager_at((mpda->0).0) {
                Some(ProtocolError::AdmissionConflict)
            } else if outcome != PoolSetupOutcome::Completed {
                Some(ProtocolError::ExternalProtocolFailure)
            } else {
                None
            }
        }
    }
}

/// The store after a successful `create_project`: the new project and its
/// pool manager are appended, both at their derived addresses; nothing
/// else changes.
pub open spec fn create_project_commit(
    l: LedgerV,
    a: CreateProject,
    seed: Seq<u8>,
    redeemption_stamp: Option<i64>,
    min_stake_amount: u64,
) -> LedgerV {
    let (paddr, pbump) = project_pda(l.program_id, seed)->0;
    let (maddr, mbump) = pool_manager_pda(l.program_id, paddr)->0;
    LedgerV {
        program_id: l.program_id,
        projects: l.projects.push(
            RecordV {
                address: paddr,
                data: fresh_project(a, seed, redeemption_stamp, min_stake_amount, pbump),
            },
        ),
        pool_managers: l.pool_managers.push(
            RecordV { address: maddr, data: PoolManagerV { project: paddr, bump: mbump } },
        ),
        rewards: l.rewards,
        stake_vaults: l.stake_vaults,
        receipts: l.receipts,
    }
}

/// Admit a new project at the address derived from `seed`, together with
/// its pool manager, and initialize the external staking facility.
///
/// Fails with `AdmissionConflict` if a record already occupies either
/// derived address or the seed was used before, and with
/// `ExternalProtocolFailure` if an address cannot be derived or the
/// facility rejected a sub-call. On any failure no record persists.
pub fn create_project(
    ledger: &mut Ledger,
    accounts: &CreateProject,
    seed: Vec<u8>,
    redeemption_stamp: Option<i64>,
    min_stake_amount: u64,
    outcome: PoolSetupOutcome,
) -> (r: Result<AccountId, ProtocolError>)
    requires
        old(ledger).wf(),
    ensures
        final(ledger).wf(),
        match create_project_error(old(ledger)@, *accounts, seed@, outcome) {
            Some(e) => r == Err::<AccountId, ProtocolError>(e) && final(ledger)@ == old(ledger)@,
            None => {
                &&& r matches Ok(addr) && addr@ == (project_pda(
                    old(ledger)@.program_id,
                    seed@,
                )->0).0
                &&& final(ledger)@ == create_project_commit(
                    old(ledger)@,
                    *accounts,
                    seed@,
                    redeemption_stamp,
                    min_stake_amount,
                )
            },
        },
{
    let pid = ledger.program_id;
    let (paddr, pbump) = match project_address(&pid, &seed) {
        Some(x) => x,
        None => {
            return Err(ProtocolError::ExternalProtocolFailure);
        },
    };
    if ledger.seed_taken(&seed) {
        return Err(ProtocolError::AdmissionConflict);
    }
    match ledger.find_project(&paddr) {
        Some(i) => {
            proof {
                assert(ledger@.has_project(paddr@));
            }
            return Err(ProtocolError::AdmissionConflict);
        },
        None => {},
    }
    let (maddr, mbump) = match pool_manager_address(&pid, &paddr) {
        Some(x) => x,
        None => {
            return Err(ProtocolError::ExternalProtocolFailure);
        },
    };
    if ledger.pool_manager_address_taken(&maddr) {
        return Err(ProtocolError::AdmissionConflict);
    }
    match outcome {
        PoolSetupOutcome::Completed => {},
        _ => {
            return Err(ProtocolError::ExternalProtocolFailure);
        },
    }
    let ghost pre = ledger@;
    let ghost seed_v = seed@;
    let project = Project {
        state: ProjectState::Draft,
        authority: accounts.authority,
        config: ProjectConfig { redeemption_stamp, min_stake_amount },
        raising_at: None,
        stake_pool: accounts.stake_pool,
        lst_mint: accounts.pool_mint,
        contribution_reward_count: 0,
        seed,
        bump: pbump,
    };
    ledger.projects.push(Record { address: paddr, data: project });
    ledger.pool_managers.push(Record { address: maddr, data: PoolManager { project: paddr, bump: mbump } });
    proof {
        let post = create_project_commit(pre, *accounts, seed_v, redeemption_stamp, min_stake_amount);
        assert(ledger@.projects =~= post.projects);
        assert(ledger@.pool_managers =~= post.pool_managers);
        assert(ledger@.rewards =~= post.rewards);
        assert(ledger@.stake_vaults =~= post.stake_vaults);
        assert(ledger@.receipts =~= post.receipts);
        assert(ledger@ == post);
        pre.lemma_wf_admit_project(
            paddr@,
            fresh_project(*accounts, seed_v, redeemption_stamp, min_stake_amount, pbump),
            maddr@,
            PoolManagerV { project: paddr@, bump: mbump },
        );
    }
    Ok(paddr)
}

/// The identities a `create_contribution_reward` request names.
#[derive(Clone, Copy, Debug)]
pub struct CreateContributionReward {
    /// Who funds record storage.
    pub payer: AccountId,
    /// The caller claiming to be the project's authority.
    pub authority: AccountId,
    /// Address of the project record the tier belongs to.
    pub project: AccountId,
    /// The fresh mint dedicated to this tier's receipt collection.
    pub reward_collection_mint: AccountId,
    pub token_program: AccountId,
}

/// Why `create_contribution_reward` fails, or `None` where it succeeds:
/// the project must exist and the caller be its authority; the tier slot
/// derived from the current counter and the collection mint must be free;
/// and the counter must not exceed its 8-bit bound.
pub open spec fn create_contribution_reward_error(
    l: LedgerV,
    a: CreateContributionReward,
) -> Option<ProtocolError> {
    if !l.has_project(a.project@) {
        Some(ProtocolError::PreconditionMismatch)
    } else {
        let p = l.project_at(a.project@);
        if p.data.authority != a.authority@ {
            Some(ProtocolError::AuthorizationFailure)
        } else {
            let rpda = reward_pda(l.program_id, a.project@, p.data.contribution_reward_count);
            if rpda is None {
                Some(ProtocolError::ExternalProtocolFailure)
            } else if l.has_reward((rpda->0).0) || l.has_collection_mint(
                a.reward_collection_mint@,
            ) {
                Some(ProtocolError::AdmissionConflict)
            } else if p.data.contribution_reward_count == 255 {
                Some(ProtocolError::NumericalOverflow)
            } else {
                None
            }
        }
    }
}

/// The store after a successful `create_contribution_reward`: the new
/// tier is appended at the address derived from `(project, counter)`, and
/// the project's counter steps by exactly one; nothing else changes.
pub open spec fn create_contribution_reward_commit(
    l: LedgerV,
    a: CreateContributionReward,
    reward_type: RewardType,
    cost: u64,
    quantity: Option<u32>,
) -> LedgerV {
    let i = l.project_index(a.project@);
    let p = l.projects[i];
    let (raddr, rbump) = reward_pda(l.program_id, a.project@, p.data.contribution_reward_count)->0;
    LedgerV {
        program_id: l.program_id,
        projects: l.projects.update(
            i,
            RecordV {
                address: p.address,
                data: with_count(p.data, (p.data.contribution_reward_count + 1) as u8),
            },
        ),
        pool_managers: l.pool_managers,
        rewards: l.rewards.push(
            RecordV {
                address: raddr,
                data: ContributionRewardV {
                    reward_type,
                    project: a.project@,
                    reward_collection_mint: a.reward_collection_mint@,
                    cost,
                    quantity,
                    bump: rbump,
                },
            },
        ),
        stake_vaults: l.stake_vaults,
        receipts: l.receipts,
    }
}

/// Admit a new funding tier for a project, bound to a dedicated receipt
/// collection mint, at the address derived from the project and its
/// current tier counter; then step the counter with a checked increment.
///
/// Requires the caller to match the project's authority. Fails with
/// `NumericalOverflow` once the counter stands at 255, leaving the counter
/// there and admitting nothing. No two tiers ever share an address,
/// because the counter strictly increases and is part of the derivation.
pub fn create_contribution_reward(
    ledger: &mut Ledger,
    accounts: &CreateContributionReward,
    reward_type: RewardType,
    cost: u64,
    quantity: Option<u32>,
) -> (r: Result<AccountId, ProtocolError>)
    requires
        old(ledger).wf(),
    ensures
        final(ledger).wf(),
        match create_contribution_reward_error(old(ledger)@, *accounts) {
            Some(e) => r == Err::<AccountId, ProtocolError>(e) && final(ledger)@ == old(ledger)@,
            None => {
                &&& r matches Ok(addr) && addr@ == (reward_pda(
                    old(ledger)@.program_id,
                    accounts.project@,
                    old(ledger)@.project_at(
                        accounts.project@,
                    ).data.contribution_reward_count,
                )->0).0
                &&& final(ledger)@ == create_contribution_reward_commit(
                    old(ledger)@,
                    *accounts,
                    reward_type,
                    cost,
                    quantity,
                )
            },
        },
{
    let pid = ledger.program_id;
    let i = match ledger.find_project(&accounts.project) {
        Some(i) => i,
        None => {
            return Err(ProtocolError::PreconditionMismatch);
        },
    };
    proof {
        ledger@.lemma_project_index_of(i as int);
    }
    if !crate::addressing::address_eq(&ledger.projects[i].data.authority, &accounts.authority) {
        return Err(ProtocolError::AuthorizationFailure);
    }
    let count = ledger.projects[i].data.contribution_reward_count;
    let (raddr, rbump) = match reward_address(&pid, &accounts.project, count) {
        Some(x) => x,
        None => {
            return Err(ProtocolError::ExternalProtocolFailure);
        },
    };
    match ledger.find_reward(&raddr) {
        Some(k) => {
            proof {
                assert(ledger@.has_reward(raddr@));
            }
            return Err(ProtocolError::AdmissionConflict);
        },
        None => {},
    }
    if ledger.collection_mint_taken(&accounts.reward_collection_mint) {
        return Err(ProtocolError::AdmissionConflict);
    }
    let ghost pre = ledger@;
    let mut rec = ledger.projects.remove(i);
    match rec.data.increment_contribution_reward_count() {
        Ok(_) => {},
        Err(e) => {
            ledger.projects.insert(i, rec);
            proof {
                assert(ledger@.projects =~= pre.projects);
                assert(ledger@ == pre);
            }
            return Err(e);
        },
    }
    ledger.projects.insert(i, rec);
    ledger.rewards.push(
        Record {
            address: raddr,
            data: ContributionReward {
                reward_type,
                project: accounts.project,
                reward_collection_mint: accounts.reward_collection_mint,
                cost,
                quantity,
                bump: rbump,
            },
        },
    );
    proof {
        let post = create_contribution_reward_commit(pre, *accounts, reward_type, cost, quantity);
        assert(ledger@.projects =~= post.projects);
        assert(ledger@.pool_managers =~= post.pool_managers);
        assert(ledger@.rewards =~= post.rewards);
        assert(ledger@.stake_vaults =~= post.stake_vaults);
        assert(ledger@.receipts =~= post.receipts);
        assert(ledger@ == post);
        pre.lemma_wf_add_reward(
            i as int,
            raddr@,
            ContributionRewardV {
                reward_type,
                project: accounts.project@,
                reward_collection_mint: accounts.reward_collection_mint@,
                cost,
                quantity,
                bump: rbump,
            },
        );
    }
    Ok(raddr)
}

/// What the external facilities reported for the five sub-calls of a
/// deposit: the staking facility's deposit, the receipt mint, the metadata
/// attachment, the fixed-edition marker, and the collection-membership
/// verification. The first rejection aborts the whole operation.
#[derive(Clone, Copy, Debug, PartialEq, Eq, Structural)]
pub enum DepositOutcome {
    /// All five sub-calls completed.
    Completed,
    /// The staking facility rejected the deposit.
    StakeDepositRejected,
    /// The token facility rejected minting the receipt.
    MintRejected,
    /// The token facility rejected attaching the metadata.
    MetadataRejected,
    /// The token facility rejected the fixed-edition marker.
    EditionRejected,
    /// The receipt's membership in the tier collection could not be
    /// confirmed.
    VerificationRejected,
}

/// The identities a `deposit_sol` request names.
#[derive(Clone, Copy, Debug)]
pub struct DepositSol {
    /// Who funds the transaction and the deposit.
    pub payer: AccountId,
    /// The contributor receiving the receipt.
    pub wallet: AccountId,
    /// Address of the project record.
    pub project: AccountId,
    /// Address of the tier record being funded.
    pub contribution_reward: AccountId,
    /// The tier's receipt collection mint, as the caller sees it.
    pub reward_collection_mint: AccountId,
    /// The fresh mint of the receipt token.
    pub nft_mint: AccountId,
    /// The contributor-owned account the receipt token is minted into.
    pub reward_token_account: AccountId,
    /// The staking-receipt mint, which must match the project's.
    pub pool_mint: AccountId,
    /// The project's external staking facility.
    pub stake_pool: AccountId,
    pub reserve_stake_account: AccountId,
    pub manager_account: AccountId,
    pub stake_pool_withdrawal_authority: AccountId,
    /// The protocol-owned holding account that receives staking receipts.
    pub lst_token_account: AccountId,
    pub token_program: AccountId,
}

/// Why `deposit_sol` fails, or `None` where it succeeds. The linkage
/// checks come before any external sub-call: the tier must belong to the
/// named project, the named collection mint must be the tier's, and the
/// pool mint must be the project's. The receipt mint must be fresh, and
/// the contributor's vault slot free or already theirs. Then a rejected
/// sub-call surfaces as `ExternalProtocolFailure`, and a failed
/// collection-membership confirmation as `VerificationFailure`.
pub open spec fn deposit_sol_error(
    l: LedgerV,
    a: DepositSol,
    outcome: DepositOutcome,
) -> Option<ProtocolError> {
    if !l.has_project(a.project@) {
        Some(ProtocolError::PreconditionMismatch)
    } else if !l.has_reward(a.contribution_reward@) {
        Some(ProtocolError::PreconditionMismatch)
    } else {
        let p = l.project_at(a.project@);
        let t = l.reward_at(a.contribution_reward@);
        if t.data.project != a.project@ {
            Some(ProtocolError::PreconditionMismatch)
        } else if t.data.reward_collection_mint != a.reward_collection_mint@ {
            Some(ProtocolError::PreconditionMismatch)
        } else if a.pool_mint@ != p.data.lst_mint {
            Some(ProtocolError::PreconditionMismatch)
        } else if l.has_receipt_at(a.nft_mint@) {
            Some(ProtocolError::AdmissionConflict)
        } else {
            let vpda = stake_vault_pda(l.program_id, a.project@, a.wallet@);
            if vpda is None {
                Some(ProtocolError::ExternalProtocolFailure)
            } else if !l.has_vault(a.project@, a.wallet@) && l.has_vault_at((vpda->0).0) {
                Some(ProtocolError::AdmissionConflict)
            } else {
                match outcome {
                    DepositOutcome::Completed => None,
                    DepositOutcome::VerificationRejected => Some(
                        ProtocolError::VerificationFailure,
                    ),
                    _ => Some(ProtocolError::ExternalProtocolFailure),
                }
            }
        }
    }
}

/// The store after a successful `deposit_sol`: exactly one new verified
/// receipt, bound to the tier's collection and priced at the tier's cost,
/// plus the contributor's vault if this was their first deposit; nothing
/// else changes.
pub open spec fn deposit_sol_commit(
    l: LedgerV,
    a: DepositSol,
    collection_metadata: MetadataContentV,
    nft_uri: Option<Seq<char>>,
) -> LedgerV {
    let t = l.reward_at(a.contribution_reward@);
    let stake_vaults = if l.has_vault(a.project@, a.wallet@) {
        l.stake_vaults
    } else {
        let (vaddr, vbump) = stake_vault_pda(l.program_id, a.project@, a.wallet@)->0;
        l.stake_vaults.push(
            RecordV {
                address: vaddr,
                data: StakeVaultV {
                    project: a.project@,
                    staker: a.wallet@,
                    is_claimed: false,
                    bump: vbump,
                },
            },
        )
    };
    LedgerV {
        program_id: l.program_id,
        projects: l.projects,
        pool_managers: l.pool_managers,
        rewards: l.rewards,
        stake_vaults: stake_vaults,
        receipts: l.receipts.push(
            RecordV {
                address: a.nft_mint@,
                data: ReceiptV {
                    project: a.project@,
                    reward: a.contribution_reward@,
                    owner: a.wallet@,
                    metadata: receipt_metadata_content(collection_metadata, nft_uri),
                    collection: t.data.reward_collection_mint,
                    collection_verified: true,
                    amount: t.data.cost,
                },
            },
        ),
    }
}

/// Deposit the tier's cost into the project's external staking facility
/// and mint one uniquely identifiable, verified receipt token for the
/// contributor.
///
/// The five external sub-calls run inside the same atomic unit as the
/// record writes, so the operation either persists the receipt (and the
/// contributor's vault, on their first deposit) or nothing at all:
/// partial outcomes never occur. The receipt's metadata copies the
/// collection's name, symbol and royalty, substituting the tier-specific
/// resource locator when one is configured, and its collection reference
/// is the tier's receipt collection.
pub fn deposit_sol(
    ledger: &mut Ledger,
    accounts: &DepositSol,
    collection_metadata: MetadataContent,
    nft_uri: Option<String>,
    outcome: DepositOutcome,
) -> (r: Result<AccountId, ProtocolError>)
    requires
        old(ledger).wf(),
    ensures
        final(ledger).wf(),
        match deposit_sol_error(old(ledger)@, *accounts, outcome) {
            Some(e) => r == Err::<AccountId, ProtocolError>(e) && final(ledger)@ == old(ledger)@,
            None => {
                &&& r == Ok::<AccountId, ProtocolError>(accounts.nft_mint)
                &&& final(ledger)@ == deposit_sol_commit(
                    old(ledger)@,
                    *accounts,
                    collection_metadata@,
                    nft_uri.deep_view(),
                )
            },
        },
{
    let pid = ledger.program_id;
    let pi = match ledger.find_project(&accounts.project) {
        Some(i) => i,
        None => {
            return Err(ProtocolError::PreconditionMismatch);
        },
    };
    proof {
        ledger@.lemma_project_index_of(pi as int);
    }
    let ti = match ledger.find_reward(&accounts.contribution_reward) {
        Some(i) => i,
        None => {
            return Err(ProtocolError::PreconditionMismatch);
        },
    };
    proof {
        ledger@.lemma_reward_index_of(ti as int);
    }
    if !crate::addressing::address_eq(&ledger.rewards[ti].data.project, &accounts.project) {
        return Err(ProtocolError::PreconditionMismatch);
    }
    if !crate::addressing::address_eq(
        &ledger.rewards[ti].data.reward_collection_mint,
        &accounts.reward_collection_mint,
    ) {
        return Err(ProtocolError::PreconditionMismatch);
    }
    if !crate::addressing::address_eq(&accounts.pool_mint, &ledger.projects[pi].data.lst_mint) {
        return Err(ProtocolError::PreconditionMismatch);
    }
    match ledger.find_receipt(&accounts.nft_mint) {
        Some(k) => {
            proof {
                assert(ledger@.has_receipt_at(accounts.nft_mint@));
            }
            return Err(ProtocolError::AdmissionConflict);
        },
        None => {},
    }
    let (vaddr, vbump) = match stake_vault_address(&pid, &accounts.project, &accounts.wallet) {
        Some(x) => x,
        None => {
            return Err(ProtocolError::ExternalProtocolFailure);
        },
    };
    let vault_present = ledger.vault_exists(&accounts.project, &accounts.wallet);
    if !vault_present && ledger.vault_address_taken(&vaddr) {
        return Err(ProtocolError::AdmissionConflict);
    }
    match outcome {
        DepositOutcome::Completed => {},
        DepositOutcome::VerificationRejected => {
            return Err(ProtocolError::VerificationFailure);
        },
        _ => {
            return Err(ProtocolError::ExternalProtocolFailure);
        },
    }
    let ghost pre = ledger@;
    if !vault_present {
        ledger.stake_vaults.push(
            Record {
                address: vaddr,
                data: StakeVault {
                    project: accounts.project,
                    staker: accounts.wallet,
                    is_claimed: false,
                    bump: vbump,
                },
            },
        );
        proof {
            pre.lemma_wf_add_vault(
                vaddr@,
                StakeVaultV {
                    project: accounts.project@,
                    staker: accounts.wallet@,
                    is_claimed: false,
                    bump: vbump,
                },
            );
            assert(ledger@.stake_vaults =~= pre.stake_vaults.push(
                RecordV {
                    address: vaddr@,
                    data: StakeVaultV {
                        project: accounts.project@,
                        staker: accounts.wallet@,
                        is_claimed: false,
                        bump: vbump,
                    },
                },
            ));
            assert(ledger@ == (LedgerV {
                stake_vaults: ledger@.stake_vaults,
                program_id: pre.program_id,
                projects: pre.projects,
                pool_managers: pre.pool_managers,
                rewards: pre.rewards,
                receipts: pre.receipts,
            }));
            assert(ledger@.wf());
        }
    }
    let ghost mid = ledger@;
    let cost = ledger.rewards[ti].data.cost;
    let metadata = receipt_metadata(collection_metadata, nft_uri);
    ledger.receipts.push(
        Record {
            address: accounts.nft_mint,
            data: Receipt {
                project: accounts.project,
                reward: accounts.contribution_reward,
                owner: accounts.wallet,
                metadata,
                collection: accounts.reward_collection_mint,
                collection_verified: true,
                amount: cost,
            },
        },
    );
    proof {
        let rdata = ReceiptV {
            project: accounts.project@,
            reward: accounts.contribution_reward@,
            owner: accounts.wallet@,
            metadata: receipt_metadata_content(collection_metadata@, nft_uri.deep_view()),
            collection: pre.reward_at(accounts.contribution_reward@).data.reward_collection_mint,
            collection_verified: true,
            amount: pre.reward_at(accounts.contribution_reward@).data.cost,
        };
        assert(mid.rewards == pre.rewards);
        assert(mid.reward_index(accounts.contribution_reward@) == pre.reward_index(
            accounts.contribution_reward@,
        ));
        mid.lemma_wf_add_receipt(accounts.nft_mint@, rdata);
        let post = deposit_sol_commit(pre, *accounts, collection_metadata@, nft_uri.deep_view());
        assert(ledger@.receipts =~= post.receipts);
        assert(ledger@.stake_vaults == post.stake_vaults);
        assert(ledger@ == post);
        assert(ledger@ == (LedgerV {
            receipts: ledger@.receipts,
            program_id: mid.program_id,
            projects: mid.projects,
            pool_managers: mid.pool_managers,
            rewards: mid.rewards,
            stake_vaults: mid.stake_vaults,
        }));
        assert(ledger@.wf());
    }
    Ok(accounts.nft_mint)
}

/// The identities a `change_state` request names.
#[derive(Clone, Copy, Debug)]
pub struct ChangeState {
    /// Who funds the transaction.
    pub payer: AccountId,
    /// The caller claiming to be the project's authority.
    pub authority: AccountId,
    /// Address of the project record to mutate.
    pub project: AccountId,
}

/// Why `change_state` fails, or `None` where it succeeds: the project must
/// exist and the caller must be its authority. Any state may follow any
/// other; no transition order is enforced beyond the authority gate.
pub open spec fn change_state_error(l: LedgerV, a: ChangeState) -> Option<ProtocolError> {
    if !l.has_project(a.project@) {
        Some(ProtocolError::PreconditionMismatch)
    } else if l.project_at(a.project@).data.authority != a.authority@ {
        Some(ProtocolError::AuthorizationFailure)
    } else {
        None
    }
}

/// The store after a successful `change_state`: only the named project's
/// `state` field changes.
pub open spec fn change_state_commit(l: LedgerV, a: ChangeState, state: ProjectState) -> LedgerV {
    let i = l.project_index(a.project@);
    let p = l.projects[i];
    LedgerV {
        program_id: l.program_id,
        projects: l.projects.update(
            i,
            RecordV { address: p.address, data: with_state(p.data, state) },
        ),
        pool_managers: l.pool_managers,
        rewards: l.rewards,
        stake_vaults: l.stake_vaults,
        receipts: l.receipts,
    }
}

/// Overwrite the named project's lifecycle state.
///
/// Succeeds exactly when the caller's identity equals the project's
/// authority; otherwise fails with `AuthorizationFailure` (or
/// `PreconditionMismatch` if no project record stands at the named
/// address) and changes nothing.
pub fn change_state(ledger: &mut Ledger, accounts: &ChangeState, state: ProjectState) -> (r: Result<
    (),
    ProtocolError,
>)
    requires
        old(ledger).wf(),
    ensures
        final(ledger).wf(),
        match change_state_error(old(ledger)@, *accounts) {
            Some(e) => r == Err::<(), ProtocolError>(e) && final(ledger)@ == old(ledger)@,
            None => r is Ok && final(ledger)@ == change_state_commit(old(ledger)@, *accounts, state),
        },
{
    let i = match ledger.find_project(&accounts.project) {
        Some(i) => i,
        None => {
            return Err(ProtocolError::PreconditionMismatch);
        },
    };
    proof {
        ledger@.lemma_project_index_of(i as int);
    }
    if !crate::addressing::address_eq(&ledger.projects[i].data.authority, &accounts.authority) {
        return Err(ProtocolError::AuthorizationFailure);
    }
    let ghost pre = ledger@;
    let mut rec = ledger.projects.remove(i);
    rec.data.state = state;
    ledger.projects.insert(i, rec);
    proof {
        let post = change_state_commit(pre, *accounts, state);
        assert(ledger@.projects =~= post.projects);
        assert(ledger@.pool_managers =~= post.pool_managers);
        assert(ledger@.rewards =~= post.rewards);
        assert(ledger@.stake_vaults =~= post.stake_vaults);
        assert(ledger@.receipts =~= post.receipts);
        assert(ledger@ == post);
        pre.lemma_wf_set_state(i as int, state);
    }
    Ok(())
}

} // verus!

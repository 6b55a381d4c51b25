//! The host instruction payloads the operations hand to the runtime.
//!
//! The external staking, token and metadata facilities are driven by
//! submitting instruction values built by their own crates. A payload's
//! bytes are opaque to the proofs — only the hosting runtime reads them —
//! so each builder's result carries a name (`deposit_ix_of`,
//! `mint_to_ix_of`, `create_metadata_ix_of` and the rest), and the
//! verified functions here fix exactly which payloads an operation
//! submits: with which identities, which fee schedule, which amounts and
//! supply caps, and in which order.

use vstd::prelude::*;

use crate::ops::{CreateContributionReward, CreateProject, DepositSol};
use crate::records::{
    receipt_metadata, receipt_metadata_content, AccountId, ContributionReward, MetadataContent,
};

verus! {

/// The instruction payload type of the hosting ledger runtime.
#[verifier::external_type_specification]
#[verifier::external_body]
pub struct ExInstruction(solana_instruction::Instruction);

/// What `spl_stake_pool::instruction::initialize` returns for the given
/// identities, deposit authority, fee schedule and validator capacity:
/// a pure function of its arguments.
pub uninterp spec fn initialize_ix_of(
    program_id: Seq<u8>,
    stake_pool: Seq<u8>,
    manager: Seq<u8>,
    staker: Seq<u8>,
    withdraw_authority: Seq<u8>,
    validator_list: Seq<u8>,
    reserve_stake: Seq<u8>,
    pool_mint: Seq<u8>,
    manager_pool_account: Seq<u8>,
    token_program_id: Seq<u8>,
    deposit_authority: Option<Seq<u8>>,
    fee_numerator: u64,
    fee_denominator: u64,
    withdrawal_fee_numerator: u64,
    withdrawal_fee_denominator: u64,
    deposit_fee_numerator: u64,
    deposit_fee_denominator: u64,
    referral_fee: u8,
    max_validators: u32,
) -> solana_instruction::Instruction;

/// What `spl_stake_pool::instruction::add_validator_to_pool` returns for
/// the given identities and optional seed: a pure function of its
/// arguments.
pub uninterp spec fn add_validator_ix_of(
    program_id: Seq<u8>,
    stake_pool: Seq<u8>,
    staker: Seq<u8>,
    reserve: Seq<u8>,
    stake_pool_withdraw: Seq<u8>,
    validator_list: Seq<u8>,
    stake: Seq<u8>,
    validator: Seq<u8>,
    seed: Option<u32>,
) -> solana_instruction::Instruction;

/// What `spl_stake_pool::instruction::deposit_sol` returns, under the
/// staking facility program's own identity, for the given accounts and
/// amount: a pure function of its arguments.
pub uninterp spec fn deposit_ix_of(
    stake_pool: Seq<u8>,
    stake_pool_withdraw_authority: Seq<u8>,
    reserve_stake_account: Seq<u8>,
    lamports_from: Seq<u8>,
    pool_tokens_to: Seq<u8>,
    manager_fee_account: Seq<u8>,
    referrer_pool_tokens_account: Seq<u8>,
    pool_mint: Seq<u8>,
    token_program_id: Seq<u8>,
    lamports_in: u64,
) -> solana_instruction::Instruction;

/// Relies on `spl_stake_pool::instruction::initialize`: builds the
/// payload that initializes a staking facility with the given identities,
/// fee schedule and validator capacity. The builder is a pure payload
/// constructor and cannot fail.
#[verifier::external_body]
#[allow(clippy::too_many_arguments)]
fn ix_initialize(
    program_id: &AccountId,
    stake_pool: &AccountId,
    manager: &AccountId,
    staker: &AccountId,
    withdraw_authority: &AccountId,
    validator_list: &AccountId,
    reserve_stake: &AccountId,
    pool_mint: &AccountId,
    manager_pool_account: &AccountId,
    token_program_id: &AccountId,
    deposit_authority: Option<AccountId>,
    fee_numerator: u64,
    fee_denominator: u64,
    withdrawal_fee_numerator: u64,
    withdrawal_fee_denominator: u64,
    deposit_fee_numerator: u64,
    deposit_fee_denominator: u64,
    referral_fee: u8,
    max_validators: u32,
) -> (r: solana_instruction::Instruction)
    ensures
        r == initialize_ix_of(
            program_id@,
            stake_pool@,
            manager@,
            staker@,
            withdraw_authority@,
            validator_list@,
            reserve_stake@,
            pool_mint@,
            manager_pool_account@,
            token_program_id@,
            deposit_authority.deep_view(),
            fee_numerator,
            fee_denominator,
            withdrawal_fee_numerator,
            withdrawal_fee_denominator,
            deposit_fee_numerator,
            deposit_fee_denominator,
            referral_fee,
            max_validators,
        ),
{
    let pk = solana_pubkey::Pubkey::new_from_array;
    spl_stake_pool::instruction::initialize(
        &pk(*program_id), &pk(*stake_pool), &pk(*manager), &pk(*staker),
        &pk(*withdraw_authority), &pk(*validator_list), &pk(*reserve_stake), &pk(*pool_mint),
        &pk(*manager_pool_account), &pk(*token_program_id), deposit_authority.map(pk),
        spl_stake_pool::state::Fee { numerator: fee_numerator, denominator: fee_denominator },
        spl_stake_pool::state::Fee { numerator: withdrawal_fee_numerator, denominator: withdrawal_fee_denominator },
        spl_stake_pool::state::Fee { numerator: deposit_fee_numerator, denominator: deposit_fee_denominator },
        referral_fee, max_validators,
    )
}

/// Relies on `spl_stake_pool::instruction::add_validator_to_pool`: builds
/// the payload that registers a validator stake account as an eligible
/// target of the facility. The builder is a pure payload constructor and
/// cannot fail.
#[verifier::external_body]
#[allow(clippy::too_many_arguments)]
fn ix_add_validator_to_pool(
    program_id: &AccountId,
    stake_pool: &AccountId,
    staker: &AccountId,
    reserve: &AccountId,
    stake_pool_withdraw: &AccountId,
    validator_list: &AccountId,
    stake: &AccountId,
    validator: &AccountId,
    seed: Option<u32>,
) -> (r: solana_instruction::Instruction)
    ensures
        r == add_validator_ix_of(
            program_id@,
            stake_pool@,
            staker@,
            reserve@,
            stake_pool_withdraw@,
            validator_list@,
            stake@,
            validator@,
            seed,
        ),
{
    let pk = solana_pubkey::Pubkey::new_from_array;
    spl_stake_pool::instruction::add_validator_to_pool(
        &pk(*program_id), &pk(*stake_pool), &pk(*staker), &pk(*reserve),
        &pk(*stake_pool_withdraw), &pk(*validator_list), &pk(*stake), &pk(*validator),
        seed.and_then(core::num::NonZeroU32::new),
    )
}

/// Relies on `spl_stake_pool::instruction::deposit_sol` and
/// `spl_stake_pool::id`: builds the payload that deposits `lamports_in`
/// into the facility under the facility program's own identity, minting
/// pool tokens to the named holding account. The builder is a pure
/// payload constructor and cannot fail.
#[verifier::external_body]
#[allow(clippy::too_many_arguments)]
fn ix_deposit_sol(
    stake_pool: &AccountId,
    stake_pool_withdraw_authority: &AccountId,
    reserve_stake_account: &AccountId,
    lamports_from: &AccountId,
    pool_tokens_to: &AccountId,
    manager_fee_account: &AccountId,
    referrer_pool_tokens_account: &AccountId,
    pool_mint: &AccountId,
    token_program_id: &AccountId,
    lamports_in: u64,
) -> (r: solana_instruction::Instruction)
    ensures
        r == deposit_ix_of(
            stake_pool@,
            stake_pool_withdraw_authority@,
            reserve_stake_account@,
            lamports_from@,
            pool_tokens_to@,
            manager_fee_account@,
            referrer_pool_tokens_account@,
            pool_mint@,
            token_program_id@,
            lamports_in,
        ),
{
    let pk = solana_pubkey::Pubkey::new_from_array;
    spl_stake_pool::instruction::deposit_sol(
        &spl_stake_pool::id(), &pk(*stake_pool), &pk(*stake_pool_withdraw_authority),
        &pk(*reserve_stake_account), &pk(*lamports_from), &pk(*pool_tokens_to),
        &pk(*manager_fee_account), &pk(*referrer_pool_tokens_account), &pk(*pool_mint),
        &pk(*token_program_id), lamports_in,
    )
}

/// The two payloads that set up a project's staking facility, in
/// submission order: its initialization — the pool manager signs as both
/// manager and staker, with an epoch fee of one, no withdrawal, deposit
/// or referral fees, no deposit authority, and a single-validator
/// capacity — followed by the registration of the one eligible validator
/// target, the withdrawal authority standing as staker.
pub fn pool_setup_instructions(accounts: &CreateProject, pool_manager: &AccountId) -> (r: Vec<
    solana_instruction::Instruction,
>)
    ensures
        r@.len() == 2,
        r@[0] == initialize_ix_of(
            accounts.stake_pool_program@,
            accounts.stake_pool@,
            pool_manager@,
            pool_manager@,
            accounts.stake_pool_withdrawal_authority@,
            accounts.validator_list@,
            accounts.reserve_stake@,
            accounts.pool_mint@,
            accounts.project_fee_account@,
            accounts.token_program@,
            None::<Seq<u8>>,
            1u64,
            1u64,
            0u64,
            0u64,
            0u64,
            0u64,
            0u8,
            1u32,
        ),
        r@[1] == add_validator_ix_of(
            accounts.stake_pool_program@,
            accounts.stake_pool@,
            accounts.stake_pool_withdrawal_authority@,
            accounts.reserve_stake@,
            accounts.stake_pool_withdrawal_authority@,
            accounts.validator_list@,
            accounts.stake_account@,
            accounts.phase_validator@,
            None::<u32>,
        ),
{
    let mut r: Vec<solana_instruction::Instruction> = Vec::new();
    r.push(
        ix_initialize(
            &accounts.stake_pool_program,
            &accounts.stake_pool,
            pool_manager,
            pool_manager,
            &accounts.stake_pool_withdrawal_authority,
            &accounts.validator_list,
            &accounts.reserve_stake,
            &accounts.pool_mint,
            &accounts.project_fee_account,
            &accounts.token_program,
            None,
            1,
            1,
            0,
            0,
            0,
            0,
            0,
            1,
        ),
    );
    r.push(
        ix_add_validator_to_pool(
            &accounts.stake_pool_program,
            &accounts.stake_pool,
            &accounts.stake_pool_withdrawal_authority,
            &accounts.reserve_stake,
            &accounts.stake_pool_withdrawal_authority,
            &accounts.validator_list,
            &accounts.stake_account,
            &accounts.phase_validator,
            None,
        ),
    );
    proof {
        assert(None::<AccountId>.deep_view() == None::<Seq<u8>>);
    }
    r
}

/// The staking facility deposit payload for one contribution: the payer
/// funds it, the amount is exactly the tier's cost, and the minted pool
/// tokens arrive in the protocol-owned holding account, which also
/// stands as the referrer; the manager account takes the facility's fee.
pub fn deposit_instruction(
    accounts: &DepositSol,
    contribution_reward: &ContributionReward,
) -> (r: solana_instruction::Instruction)
    ensures
        r == deposit_ix_of(
            accounts.stake_pool@,
            accounts.stake_pool_withdrawal_authority@,
            accounts.reserve_stake_account@,
            accounts.payer@,
            accounts.lst_token_account@,
            accounts.manager_account@,
            accounts.lst_token_account@,
            accounts.pool_mint@,
            accounts.token_program@,
            contribution_reward.cost,
        ),
{
    ix_deposit_sol(
        &accounts.stake_pool,
        &accounts.stake_pool_withdrawal_authority,
        &accounts.reserve_stake_account,
        &accounts.payer,
        &accounts.lst_token_account,
        &accounts.manager_account,
        &accounts.lst_token_account,
        &accounts.pool_mint,
        &accounts.token_program,
        contribution_reward.cost,
    )
}

/// The instruction payload type of the token-metadata program's crate,
/// which targets the previous runtime generation; the host ports it when
/// it submits.
#[verifier::external_type_specification]
#[verifier::external_body]
pub struct ExTokenMetadataInstruction(solana_program::instruction::Instruction);

/// Size in bytes of a token-mint account in the token program's layout.
pub const MINT_ACCOUNT_SPACE: u64 = 82;

/// What `solana_system_interface::instruction::create_account` returns
/// for the given funder, new account, lamports, size and owning program:
/// a pure function of its arguments.
pub uninterp spec fn create_account_ix_of(
    from: Seq<u8>,
    to: Seq<u8>,
    lamports: u64,
    space: u64,
    owner: Seq<u8>,
) -> solana_instruction::Instruction;

/// What `spl_token::instruction::initialize_mint2` returns, under the
/// token program's own identity, for the given mint, authorities and
/// decimals: a pure function of its arguments.
pub uninterp spec fn initialize_mint_ix_of(
    mint: Seq<u8>,
    mint_authority: Seq<u8>,
    freeze_authority: Option<Seq<u8>>,
    decimals: u8,
) -> solana_instruction::Instruction;

/// What `spl_associated_token_account::instruction::create_associated_token_account`
/// returns for the given funder, owning wallet, mint and token program: a
/// pure function of its arguments.
pub uninterp spec fn holding_account_ix_of(
    funding: Seq<u8>,
    wallet: Seq<u8>,
    mint: Seq<u8>,
    token_program: Seq<u8>,
) -> solana_instruction::Instruction;

/// What `spl_token::instruction::mint_to` returns, under the token
/// program's own identity and with no multisignature signers, for the
/// given mint, destination, authority and amount: a pure function of its
/// arguments.
pub uninterp spec fn mint_to_ix_of(
    mint: Seq<u8>,
    to: Seq<u8>,
    authority: Seq<u8>,
    amount: u64,
) -> solana_instruction::Instruction;

/// What the token-metadata program crate's metadata-creation builder
/// returns for the given accounts and content, with no creators list: a
/// pure function of its arguments.
pub uninterp spec fn create_metadata_ix_of(
    metadata: Seq<u8>,
    mint: Seq<u8>,
    authority: Seq<u8>,
    payer: Seq<u8>,
    name: Seq<char>,
    symbol: Seq<char>,
    uri: Seq<char>,
    seller_fee_basis_points: u16,
    collection: Option<Seq<u8>>,
    update_authority_is_signer: bool,
    is_mutable: bool,
) -> solana_program::instruction::Instruction;

/// What the token-metadata program crate's fixed-edition builder returns
/// for the given accounts and supply cap: a pure function of its
/// arguments.
pub uninterp spec fn create_edition_ix_of(
    edition: Seq<u8>,
    metadata: Seq<u8>,
    mint: Seq<u8>,
    authority: Seq<u8>,
    payer: Seq<u8>,
    max_supply: u64,
) -> solana_program::instruction::Instruction;

/// What the token-metadata program crate's sized-collection verification
/// builder returns for the given accounts: a pure function of its
/// arguments.
pub uninterp spec fn verify_collection_ix_of(
    metadata: Seq<u8>,
    collection_authority: Seq<u8>,
    payer: Seq<u8>,
    update_authority: Seq<u8>,
    collection_mint: Seq<u8>,
    collection_metadata: Seq<u8>,
    collection_master_edition: Seq<u8>,
) -> solana_program::instruction::Instruction;

/// Relies on `solana_system_interface::instruction::create_account`:
/// builds the payload that allocates a new account of `space` bytes owned
/// by `owner`, funded by `from`. A pure payload constructor; it cannot
/// fail.
#[verifier::external_body]
fn ix_create_account(
    from: &AccountId,
    to: &AccountId,
    lamports: u64,
    space: u64,
    owner: &AccountId,
) -> (r: solana_instruction::Instruction)
    ensures
        r == create_account_ix_of(from@, to@, lamports, space, owner@),
{
    let pk = solana_pubkey::Pubkey::new_from_array;
    solana_system_interface::instruction::create_account(
        &pk(*from), &pk(*to), lamports, space, &pk(*owner),
    )
}

/// Relies on `spl_token::instruction::initialize_mint2` and
/// `spl_token::id`: builds the payload that initializes a mint with the
/// given authorities and decimals. The builder errs only on a foreign
/// token program id; called with the token program's own id it cannot
/// fail.
#[verifier::external_body]
fn ix_initialize_mint(
    mint: &AccountId,
    mint_authority: &AccountId,
    freeze_authority: Option<AccountId>,
    decimals: u8,
) -> (r: solana_instruction::Instruction)
    ensures
        r == initialize_mint_ix_of(mint@, mint_authority@, freeze_authority.deep_view(), decimals),
{
    let pk = solana_pubkey::Pubkey::new_from_array;
    let freeze = freeze_authority.map(pk);
    #[allow(deprecated)]
    spl_token::instruction::initialize_mint2(
        &spl_token::id(), &pk(*mint), &pk(*mint_authority), freeze.as_ref(), decimals,
    )
    .unwrap()
}

/// Relies on
/// `spl_associated_token_account::instruction::create_associated_token_account`:
/// builds the payload that creates the associated holding account of
/// `wallet` for `mint`, funded by `funding`. A pure payload constructor;
/// it cannot fail.
#[verifier::external_body]
fn ix_create_holding_account(
    funding: &AccountId,
    wallet: &AccountId,
    mint: &AccountId,
    token_program: &AccountId,
) -> (r: solana_instruction::Instruction)
    ensures
        r == holding_account_ix_of(funding@, wallet@, mint@, token_program@),
{
    let pk = solana_pubkey::Pubkey::new_from_array;
    spl_associated_token_account::instruction::create_associated_token_account(
        &pk(*funding), &pk(*wallet), &pk(*mint), &pk(*token_program),
    )
}

/// Relies on `spl_token::instruction::mint_to` and `spl_token::id`:
/// builds the payload that mints `amount` tokens of `mint` into `to`,
/// signed by `authority` alone. The builder errs only on a foreign token
/// program id; called with the token program's own id it cannot fail.
#[verifier::external_body]
fn ix_mint_to(
    mint: &AccountId,
    to: &AccountId,
    authority: &AccountId,
    amount: u64,
) -> (r: solana_instruction::Instruction)
    ensures
        r == mint_to_ix_of(mint@, to@, authority@, amount),
{
    let pk = solana_pubkey::Pubkey::new_from_array;
    #[allow(deprecated)]
    spl_token::instruction::mint_to(
        &spl_token::id(), &pk(*mint), &pk(*to), &pk(*authority), &[], amount,
    )
    .unwrap()
}

/// Relies on `mpl_token_metadata::instructions::CreateMetadataAccountV3Builder`:
/// builds the payload that attaches metadata to `mint`. The collection
/// reference enters unverified, as the token-metadata program demands of
/// a reference no collection authority has signed for; no creators list
/// is attached. A pure payload constructor; it cannot fail.
#[verifier::external_body]
#[allow(clippy::too_many_arguments)]
fn ix_create_metadata(
    metadata: &AccountId,
    mint: &AccountId,
    authority: &AccountId,
    payer: &AccountId,
    name: String,
    symbol: String,
    uri: String,
    seller_fee_basis_points: u16,
    collection: Option<AccountId>,
    update_authority_is_signer: bool,
    is_mutable: bool,
) -> (r: solana_program::instruction::Instruction)
    ensures
        r == create_metadata_ix_of(
            metadata@,
            mint@,
            authority@,
            payer@,
            name@,
            symbol@,
            uri@,
            seller_fee_basis_points,
            collection.deep_view(),
            update_authority_is_signer,
            is_mutable,
        ),
{
    let p = |b: [u8; 32]| solana_program::pubkey::Pubkey::new_from_array(b);
    mpl_token_metadata::instructions::CreateMetadataAccountV3Builder::new()
        .metadata(p(*metadata)).mint(p(*mint)).mint_authority(p(*authority))
        .payer(p(*payer)).update_authority(p(*authority), update_authority_is_signer)
        .data(mpl_token_metadata::types::DataV2 {
            name, symbol, uri, seller_fee_basis_points,
            creators: None,
            collection: collection.map(|k| mpl_token_metadata::types::Collection { verified: false, key: p(k) }),
            uses: None,
        })
        .is_mutable(is_mutable)
        .instruction()
}

/// Relies on `mpl_token_metadata::instructions::CreateMasterEditionV3Builder`:
/// builds the payload that creates the edition marker of `mint`, capping
/// its supply at `max_supply` further tokens. A pure payload constructor;
/// it cannot fail.
#[verifier::external_body]
fn ix_create_master_edition(
    edition: &AccountId,
    metadata: &AccountId,
    mint: &AccountId,
    authority: &AccountId,
    payer: &AccountId,
    max_supply: u64,
) -> (r: solana_program::instruction::Instruction)
    ensures
        r == create_edition_ix_of(edition@, metadata@, mint@, authority@, payer@, max_supply),
{
    let p = |b: [u8; 32]| solana_program::pubkey::Pubkey::new_from_array(b);
    mpl_token_metadata::instructions::CreateMasterEditionV3Builder::new()
        .edition(p(*edition)).mint(p(*mint)).update_authority(p(*authority))
        .mint_authority(p(*authority)).payer(p(*payer)).metadata(p(*metadata))
        .max_supply(max_supply)
        .instruction()
}

/// Relies on
/// `mpl_token_metadata::instructions::SetAndVerifySizedCollectionItemBuilder`:
/// builds the payload that verifies a metadata account's membership in a
/// sized collection. A pure payload constructor; it cannot fail.
#[verifier::external_body]
fn ix_set_and_verify_sized_collection_item(
    metadata: &AccountId,
    collection_authority: &AccountId,
    payer: &AccountId,
    update_authority: &AccountId,
    collection_mint: &AccountId,
    collection_metadata: &AccountId,
    collection_master_edition: &AccountId,
) -> (r: solana_program::instruction::Instruction)
    ensures
        r == verify_collection_ix_of(
            metadata@,
            collection_authority@,
            payer@,
            update_authority@,
            collection_mint@,
            collection_metadata@,
            collection_master_edition@,
        ),
{
    let p = |b: [u8; 32]| solana_program::pubkey::Pubkey::new_from_array(b);
    mpl_token_metadata::instructions::SetAndVerifySizedCollectionItemBuilder::new()
        .metadata(p(*metadata)).collection_authority(p(*collection_authority))
        .payer(p(*payer)).update_authority(p(*update_authority))
        .collection_mint(p(*collection_mint)).collection(p(*collection_metadata))
        .collection_master_edition_account(p(*collection_master_edition))
        .instruction()
}

/// The three payloads that create a tier's dedicated receipt collection
/// mint and the authority's holding account for it, in submission order:
/// allocate the mint account (rent paid by the payer, owned by the token
/// program), initialize it with no decimals and the project as mint and
/// freeze authority, and create the associated holding account.
pub fn collection_mint_instructions(accounts: &CreateContributionReward, mint_rent: u64) -> (r: Vec<
    solana_instruction::Instruction,
>)
    ensures
        r@.len() == 3,
        r@[0] == create_account_ix_of(
            accounts.payer@,
            accounts.reward_collection_mint@,
            mint_rent,
            MINT_ACCOUNT_SPACE,
            accounts.token_program@,
        ),
        r@[1] == initialize_mint_ix_of(
            accounts.reward_collection_mint@,
            accounts.project@,
            Some(accounts.project@),
            0u8,
        ),
        r@[2] == holding_account_ix_of(
            accounts.payer@,
            accounts.authority@,
            accounts.reward_collection_mint@,
            accounts.token_program@,
        ),
{
    let mut r: Vec<solana_instruction::Instruction> = Vec::new();
    r.push(
        ix_create_account(
            &accounts.payer,
            &accounts.reward_collection_mint,
            mint_rent,
            MINT_ACCOUNT_SPACE,
            &accounts.token_program,
        ),
    );
    r.push(
        ix_initialize_mint(
            &accounts.reward_collection_mint,
            &accounts.project,
            Some(accounts.project),
            0,
        ),
    );
    r.push(
        ix_create_holding_account(
            &accounts.payer,
            &accounts.authority,
            &accounts.reward_collection_mint,
            &accounts.token_program,
        ),
    );
    proof {
        assert(Some(accounts.project).deep_view() == Some(accounts.project@));
    }
    r
}

/// The four payloads that create the accounts a deposit writes into, in
/// submission order: allocate the fresh receipt mint (rent paid by the
/// payer), initialize it with no decimals and the tier record as mint and
/// freeze authority, create the contributor's holding account for the
/// tier collection, and create the vault's holding account for the
/// staking-receipt tokens.
pub fn receipt_account_instructions(
    accounts: &DepositSol,
    stake_vault: &AccountId,
    mint_rent: u64,
) -> (r: Vec<solana_instruction::Instruction>)
    ensures
        r@.len() == 4,
        r@[0] == create_account_ix_of(
            accounts.payer@,
            accounts.nft_mint@,
            mint_rent,
            MINT_ACCOUNT_SPACE,
            accounts.token_program@,
        ),
        r@[1] == initialize_mint_ix_of(
            accounts.nft_mint@,
            accounts.contribution_reward@,
            Some(accounts.contribution_reward@),
            0u8,
        ),
        r@[2] == holding_account_ix_of(
            accounts.payer@,
            accounts.wallet@,
            accounts.reward_collection_mint@,
            accounts.token_program@,
        ),
        r@[3] == holding_account_ix_of(
            accounts.payer@,
            stake_vault@,
            accounts.pool_mint@,
            accounts.token_program@,
        ),
{
    let mut r: Vec<solana_instruction::Instruction> = Vec::new();
    r.push(
        ix_create_account(
            &accounts.payer,
            &accounts.nft_mint,
            mint_rent,
            MINT_ACCOUNT_SPACE,
            &accounts.token_program,
        ),
    );
    r.push(
        ix_initialize_mint(
            &accounts.nft_mint,
            &accounts.contribution_reward,
            Some(accounts.contribution_reward),
            0,
        ),
    );
    r.push(
        ix_create_holding_account(
            &accounts.payer,
            &accounts.wallet,
            &accounts.reward_collection_mint,
            &accounts.token_program,
        ),
    );
    r.push(
        ix_create_holding_account(
            &accounts.payer,
            stake_vault,
            &accounts.pool_mint,
            &accounts.token_program,
        ),
    );
    proof {
        assert(Some(accounts.contribution_reward).deep_view() == Some(
            accounts.contribution_reward@,
        ));
    }
    r
}

/// The receipt-mint payload of one deposit: exactly one token of the
/// receipt mint into the contributor's account, the tier record as
/// authority.
pub fn mint_receipt_instruction(accounts: &DepositSol) -> (r: solana_instruction::Instruction)
    ensures
        r == mint_to_ix_of(
            accounts.nft_mint@,
            accounts.reward_token_account@,
            accounts.contribution_reward@,
            1u64,
        ),
{
    ix_mint_to(&accounts.nft_mint, &accounts.reward_token_account, &accounts.contribution_reward, 1)
}

/// The metadata payload of one deposit: the receipt's content is derived
/// from the collection's metadata and the tier's optional resource
/// locator, its collection reference is the tier's receipt collection,
/// and the tier record signs as mint and update authority.
pub fn receipt_metadata_instruction(
    accounts: &DepositSol,
    metadata_account: &AccountId,
    collection_metadata: MetadataContent,
    nft_uri: Option<String>,
) -> (r: solana_program::instruction::Instruction)
    ensures
        ({
            let content = receipt_metadata_content(collection_metadata@, nft_uri.deep_view());
            r == create_metadata_ix_of(
                metadata_account@,
                accounts.nft_mint@,
                accounts.contribution_reward@,
                accounts.payer@,
                content.name,
                content.symbol,
                content.uri,
                content.seller_fee_basis_points,
                Some(accounts.reward_collection_mint@),
                true,
                true,
            )
        }),
{
    let content = receipt_metadata(collection_metadata, nft_uri);
    let r = ix_create_metadata(
        metadata_account,
        &accounts.nft_mint,
        &accounts.contribution_reward,
        &accounts.payer,
        content.name,
        content.symbol,
        content.uri,
        content.seller_fee_basis_points,
        Some(accounts.reward_collection_mint),
        true,
        true,
    );
    proof {
        assert(Some(accounts.reward_collection_mint).deep_view() == Some(
            accounts.reward_collection_mint@,
        ));
    }
    r
}

/// The fixed-edition payload of one deposit: the receipt's supply is
/// capped at exactly one (no further minting possible).
pub fn receipt_edition_instruction(
    accounts: &DepositSol,
    edition_account: &AccountId,
    metadata_account: &AccountId,
) -> (r: solana_program::instruction::Instruction)
    ensures
        r == create_edition_ix_of(
            edition_account@,
            metadata_account@,
            accounts.nft_mint@,
            accounts.contribution_reward@,
            accounts.payer@,
            0u64,
        ),
{
    ix_create_master_edition(
        edition_account,
        metadata_account,
        &accounts.nft_mint,
        &accounts.contribution_reward,
        &accounts.payer,
        0,
    )
}

/// The verification payload of one deposit: the receipt's membership in
/// the tier's sized collection is confirmed, the project signing as
/// collection authority.
pub fn receipt_collection_verify_instruction(
    accounts: &DepositSol,
    metadata_account: &AccountId,
    collection_metadata_account: &AccountId,
    collection_edition_account: &AccountId,
) -> (r: solana_program::instruction::Instruction)
    ensures
        r == verify_collection_ix_of(
            metadata_account@,
            accounts.project@,
            accounts.payer@,
            accounts.contribution_reward@,
            accounts.reward_collection_mint@,
            collection_metadata_account@,
            collection_edition_account@,
        ),
{
    ix_set_and_verify_sized_collection_item(
        metadata_account,
        &accounts.project,
        &accounts.payer,
        &accounts.contribution_reward,
        &accounts.reward_collection_mint,
        collection_metadata_account,
        collection_edition_account,
    )
}

/// One instruction of an operation's batch, tagged with the runtime
/// generation its building crate targets; the host ports the earlier
/// generation when it submits.
pub enum HostPayload {
    Runtime(solana_instruction::Instruction),
    TokenMetadata(solana_program::instruction::Instruction),
}

/// The five sub-calls of one deposit, in their fixed order: the staking
/// facility deposit of the tier's cost, the single-token receipt mint,
/// the metadata attachment, the fixed-edition marker, and the
/// collection-membership verification. The host submits them as one
/// atomic batch; the first rejection aborts the whole operation.
#[allow(clippy::too_many_arguments)]
pub fn deposit_payloads(
    accounts: &DepositSol,
    contribution_reward: &ContributionReward,
    collection_metadata: MetadataContent,
    nft_uri: Option<String>,
    metadata_account: &AccountId,
    edition_account: &AccountId,
    collection_metadata_account: &AccountId,
    collection_edition_account: &AccountId,
) -> (r: Vec<HostPayload>)
    ensures
        r@.len() == 5,
        r@[0] == HostPayload::Runtime(
            deposit_ix_of(
                accounts.stake_pool@,
                accounts.stake_pool_withdrawal_authority@,
                accounts.reserve_stake_account@,
                accounts.payer@,
                accounts.lst_token_account@,
                accounts.manager_account@,
                accounts.lst_token_account@,
                accounts.pool_mint@,
                accounts.token_program@,
                contribution_reward.cost,
            ),
        ),
        r@[1] == HostPayload::Runtime(
            mint_to_ix_of(
                accounts.nft_mint@,
                accounts.reward_token_account@,
                accounts.contribution_reward@,
                1u64,
            ),
        ),
        r@[2] == HostPayload::TokenMetadata(
            ({
                let content = receipt_metadata_content(
                    collection_metadata@,
                    nft_uri.deep_view(),
                );
                create_metadata_ix_of(
                    metadata_account@,
                    accounts.nft_mint@,
                    accounts.contribution_reward@,
                    accounts.payer@,
                    content.name,
                    content.symbol,
                    content.uri,
                    content.seller_fee_basis_points,
                    Some(accounts.reward_collection_mint@),
                    true,
                    true,
                )
            }),
        ),
        r@[3] == HostPayload::TokenMetadata(
            create_edition_ix_of(
                edition_account@,
                metadata_account@,
                accounts.nft_mint@,
                accounts.contribution_reward@,
                accounts.payer@,
                0u64,
            ),
        ),
        r@[4] == HostPayload::TokenMetadata(
            verify_collection_ix_of(
                metadata_account@,
                accounts.project@,
                accounts.payer@,
                accounts.contribution_reward@,
                accounts.reward_collection_mint@,
                collection_metadata_account@,
                collection_edition_account@,
            ),
        ),
{
    let mut r: Vec<HostPayload> = Vec::new();
    r.push(HostPayload::Runtime(deposit_instruction(accounts, contribution_reward)));
    r.push(HostPayload::Runtime(mint_receipt_instruction(accounts)));
    r.push(
        HostPayload::TokenMetadata(
            receipt_metadata_instruction(accounts, metadata_account, collection_metadata, nft_uri),
        ),
    );
    r.push(
        HostPayload::TokenMetadata(
            receipt_edition_instruction(accounts, edition_account, metadata_account),
        ),
    );
    r.push(
        HostPayload::TokenMetadata(
            receipt_collection_verify_instruction(
                accounts,
                metadata_account,
                collection_metadata_account,
                collection_edition_account,
            ),
        ),
    );
    r
}

} // verus!

//! The persistent records of the protocol and their mathematical views.
//!
//! A record is a uniquely addressed, persistent structured value. Each kind
//! of record stores, besides its typed fields, the bump byte (its address
//! disambiguator) needed to reconstruct its derived address.

use vstd::prelude::*;

verus! {

/// A 32-byte account address, as the hosting ledger runtime uses it.
pub type AccountId = [u8; 32];

/// The lifecycle state of a funding campaign.
#[derive(Clone, Copy, Debug, PartialEq, Eq, Structural)]
pub enum ProjectState {
    Draft,
    Raising,
    Funded,
    Complete,
}

/// Campaign parameters fixed at creation time.
#[derive(Clone, Copy, Debug, PartialEq, Eq, Structural)]
pub struct ProjectConfig {
    /// Optional deadline after which receipts may be redeemed.
    pub redeemption_stamp: Option<i64>,
    /// Minimum stake the campaign accepts.
    pub min_stake_amount: u64,
}

/// One funding campaign.
#[derive(Debug)]
pub struct Project {
    pub state: ProjectState,
    /// The identity empowered to mutate this project.
    pub authority: AccountId,
    pub config: ProjectConfig,
    pub raising_at: Option<i64>,
    /// Address of the external pooled-staking facility of this project.
    pub stake_pool: AccountId,
    /// Mint of the staking-receipt token the facility issues.
    pub lst_mint: AccountId,
    /// Count used for contribution reward address derivation; increases by
    /// exactly one per tier created.
    pub contribution_reward_count: u8,
    /// The byte sequence that co-determines this record's address.
    pub seed: Vec<u8>,
    pub bump: u8,
}

/// The mathematical value of a [`Project`].
pub ghost struct ProjectV {
    pub state: ProjectState,
    pub authority: Seq<u8>,
    pub config: ProjectConfig,
    pub raising_at: Option<i64>,
    pub stake_pool: Seq<u8>,
    pub lst_mint: Seq<u8>,
    pub contribution_reward_count: u8,
    pub seed: Seq<u8>,
    pub bump: u8,
}

impl View for Project {
    type V = ProjectV;

    open spec fn view(&self) -> ProjectV {
        ProjectV {
            state: self.state,
            authority: self.authority@,
            config: self.config,
            raising_at: self.raising_at,
            stake_pool: self.stake_pool@,
            lst_mint: self.lst_mint@,
            contribution_reward_count: self.contribution_reward_count,
            seed: self.seed@,
            bump: self.bump,
        }
    }
}

impl Project {
    /// Fill a freshly admitted project record. The campaign starts in
    /// `Draft` with no tiers.
    pub fn init(
        &mut self,
        authority: AccountId,
        redeemption_stamp: Option<i64>,
        min_stake_amount: u64,
        stake_pool: AccountId,
        lst_mint: AccountId,
        seed: Vec<u8>,
        bump: u8,
    ) -> (r: Result<(), crate::errors::ProtocolError>)
        ensures
            r is Ok,
            final(self)@ == (ProjectV {
                state: ProjectState::Draft,
                authority: authority@,
                config: ProjectConfig { redeemption_stamp, min_stake_amount },
                raising_at: None::<i64>,
                stake_pool: stake_pool@,
                lst_mint: lst_mint@,
                contribution_reward_count: 0u8,
                seed: seed@,
                bump,
            }),
    {
        let config = ProjectConfig { redeemption_stamp, min_stake_amount };
        self.authority = authority;
        self.config = config;
        self.state = ProjectState::Draft;
        self.bump = bump;
        self.raising_at = None;
        self.contribution_reward_count = 0;
        self.seed = seed;
        self.stake_pool = stake_pool;
        self.lst_mint = lst_mint;
        Ok(())
    }

    /// Required storage for a project record: an 8-byte discriminator
    /// prefix, the fixed-width fields, and a length-prefixed seed.
    pub fn space(seed: &Vec<u8>) -> (r: usize)
        requires
            seed@.len() + 135 <= usize::MAX,
        ensures
            r == 135 + seed@.len(),
    {
        8 + 1 + 32 + 32 + 32 + 24 + 1 + 1 + 4 + seed.len()
    }

    /// The checked tier-counter increment: steps the stored count by
    /// exactly one, or fails rather than wraps once the 8-bit bound is
    /// reached, leaving the count at 255.
    pub fn increment_contribution_reward_count(&mut self) -> (r: Result<
        u8,
        crate::errors::ProtocolError,
    >)
        ensures
            old(self)@.contribution_reward_count < 255 ==> {
                &&& r == Ok::<u8, crate::errors::ProtocolError>(
                    (old(self)@.contribution_reward_count + 1) as u8,
                )
                &&& final(self)@ == with_count(
                    old(self)@,
                    (old(self)@.contribution_reward_count + 1) as u8,
                )
            },
            old(self)@.contribution_reward_count == 255 ==> {
                &&& r == Err::<u8, crate::errors::ProtocolError>(
                    crate::errors::ProtocolError::NumericalOverflow,
                )
                &&& final(self)@ == old(self)@
            },
    {
        if self.contribution_reward_count < 255 {
            self.contribution_reward_count = self.contribution_reward_count + 1;
            Ok(self.contribution_reward_count)
        } else {
            Err(crate::errors::ProtocolError::NumericalOverflow)
        }
    }
}

/// A project value with its lifecycle state replaced.
pub open spec fn with_state(p: ProjectV, state: ProjectState) -> ProjectV {
    ProjectV {
        state: state,
        authority: p.authority,
        config: p.config,
        raising_at: p.raising_at,
        stake_pool: p.stake_pool,
        lst_mint: p.lst_mint,
        contribution_reward_count: p.contribution_reward_count,
        seed: p.seed,
        bump: p.bump,
    }
}

/// A project value with its tier counter replaced.
pub open spec fn with_count(p: ProjectV, contribution_reward_count: u8) -> ProjectV {
    ProjectV {
        state: p.state,
        authority: p.authority,
        config: p.config,
        raising_at: p.raising_at,
        stake_pool: p.stake_pool,
        lst_mint: p.lst_mint,
        contribution_reward_count: contribution_reward_count,
        seed: p.seed,
        bump: p.bump,
    }
}

/// How a tier combines with the tiers below it. Only `Exclusive` behaviour
/// is implemented; `Additive` is reserved until its combination rule is
/// specified.
#[derive(Clone, Copy, Debug, PartialEq, Eq, Structural)]
pub enum RewardType {
    Additive,
    Exclusive,
}

/// One funding tier of a project, bound permanently to the project and to a
/// dedicated receipt-token collection.
#[derive(Debug)]
pub struct ContributionReward {
    pub reward_type: RewardType,
    /// Address of the owning project record.
    pub project: AccountId,
    /// Mint of the collection that receipts of this tier belong to.
    pub reward_collection_mint: AccountId,
    /// Amount a contributor deposits to obtain this tier's receipt.
    pub cost: u64,
    /// Remaining supply; `None` means unlimited. Stored only: no flow in
    /// this core decrements or enforces it.
    pub quantity: Option<u32>,
    pub bump: u8,
}

/// The mathematical value of a [`ContributionReward`].
pub ghost struct ContributionRewardV {
    pub reward_type: RewardType,
    pub project: Seq<u8>,
    pub reward_collection_mint: Seq<u8>,
    pub cost: u64,
    pub quantity: Option<u32>,
    pub bump: u8,
}

impl View for ContributionReward {
    type V = ContributionRewardV;

    open spec fn view(&self) -> ContributionRewardV {
        ContributionRewardV {
            reward_type: self.reward_type,
            project: self.project@,
            reward_collection_mint: self.reward_collection_mint@,
            cost: self.cost,
            quantity: self.quantity,
            bump: self.bump,
        }
    }
}

impl ContributionReward {
    /// Fill a freshly admitted tier record.
    pub fn init(
        &mut self,
        reward_type: RewardType,
        project: AccountId,
        reward_collection_mint: AccountId,
        cost: u64,
        quantity: Option<u32>,
        bump: u8,
    ) -> (r: Result<(), crate::errors::ProtocolError>)
        ensures
            r is Ok,
            final(self)@ == (ContributionRewardV {
                reward_type,
                project: project@,
                reward_collection_mint: reward_collection_mint@,
                cost,
                quantity,
                bump,
            }),
    {
        self.reward_type = reward_type;
        self.project = project;
        self.reward_collection_mint = reward_collection_mint;
        self.cost = cost;
        self.quantity = quantity;
        self.bump = bump;
        Ok(())
    }

    /// Required storage for a tier record.
    pub fn space() -> (r: usize)
        ensures
            r == 90,
    {
        8 + 1 + 32 + 32 + 8 + 8 + 1
    }
}

/// Per-contributor claim marker, created at deposit time and mutated only
/// by future redemption logic.
#[derive(Debug)]
pub struct StakeVault {
    /// Address of the owning project record.
    pub project: AccountId,
    /// The contributor this vault belongs to.
    pub staker: AccountId,
    pub is_claimed: bool,
    pub bump: u8,
}

/// The mathematical value of a [`StakeVault`].
pub ghost struct StakeVaultV {
    pub project: Seq<u8>,
    pub staker: Seq<u8>,
    pub is_claimed: bool,
    pub bump: u8,
}

impl View for StakeVault {
    type V = StakeVaultV;

    open spec fn view(&self) -> StakeVaultV {
        StakeVaultV {
            project: self.project@,
            staker: self.staker@,
            is_claimed: self.is_claimed,
            bump: self.bump,
        }
    }
}

impl StakeVault {
    /// Fill a freshly admitted vault record; the receipt starts unclaimed.
    pub fn init(&mut self, project: AccountId, staker: AccountId, bump: u8) -> (r: Result<
        (),
        crate::errors::ProtocolError,
    >)
        ensures
            r is Ok,
            final(self)@ == (StakeVaultV {
                project: project@,
                staker: staker@,
                is_claimed: false,
                bump,
            }),
    {
        self.project = project;
        self.staker = staker;
        self.is_claimed = false;
        self.bump = bump;
        Ok(())
    }

    /// Required storage for a vault record.
    pub fn space() -> (r: usize)
        ensures
            r == 73,
    {
        8 + 32 + 32 + 1
    }
}

/// Authority proxy that lets the protocol act as the administrative signer
/// over the external staking facility of a project, without exposing any
/// private key.
#[derive(Debug)]
pub struct PoolManager {
    /// Address of the owning project record.
    pub project: AccountId,
    pub bump: u8,
}

/// The mathematical value of a [`PoolManager`].
pub ghost struct PoolManagerV {
    pub project: Seq<u8>,
    pub bump: u8,
}

impl View for PoolManager {
    type V = PoolManagerV;

    open spec fn view(&self) -> PoolManagerV {
        PoolManagerV { project: self.project@, bump: self.bump }
    }
}

impl PoolManager {
    /// Fill a freshly admitted pool manager record.
    pub fn init(&mut self, project: AccountId, bump: u8) -> (r: Result<
        (),
        crate::errors::ProtocolError,
    >)
        ensures
            r is Ok,
            final(self)@ == (PoolManagerV { project: project@, bump }),
    {
        self.project = project;
        self.bump = bump;
        Ok(())
    }

    /// Required storage for a pool manager record.
    pub fn space() -> (r: usize)
        ensures
            r == 41,
    {
        8 + 32 + 1
    }
}

/// The descriptive fields attached to a minted receipt token.
#[derive(Clone, Debug)]
pub struct MetadataContent {
    pub name: String,
    pub symbol: String,
    /// Resource locator of the token's descriptive document.
    pub uri: String,
    /// Royalty share, in basis points.
    pub seller_fee_basis_points: u16,
}

/// The mathematical value of a [`MetadataContent`].
pub ghost struct MetadataContentV {
    pub name: Seq<char>,
    pub symbol: Seq<char>,
    pub uri: Seq<char>,
    pub seller_fee_basis_points: u16,
}

impl View for MetadataContent {
    type V = MetadataContentV;

    open spec fn view(&self) -> MetadataContentV {
        MetadataContentV {
            name: self.name@,
            symbol: self.symbol@,
            uri: self.uri@,
            seller_fee_basis_points: self.seller_fee_basis_points,
        }
    }
}

/// The metadata of a freshly minted receipt: name, symbol and royalty are
/// copied from the reward collection's metadata, and the resource locator
/// is replaced by the tier-specific one when one is configured.
pub open spec fn receipt_metadata_content(
    collection_metadata: MetadataContentV,
    nft_uri: Option<Seq<char>>,
) -> MetadataContentV {
    MetadataContentV {
        name: collection_metadata.name,
        symbol: collection_metadata.symbol,
        uri: match nft_uri {
            Some(uri) => uri,
            None => collection_metadata.uri,
        },
        seller_fee_basis_points: collection_metadata.seller_fee_basis_points,
    }
}

/// Build the metadata of a receipt from its collection's metadata and the
/// tier's optional resource locator.
pub fn receipt_metadata(collection_metadata: MetadataContent, nft_uri: Option<String>) -> (r:
    MetadataContent)
    ensures
        r@ == receipt_metadata_content(collection_metadata@, nft_uri.deep_view()),
{
    let uri = match nft_uri {
        Some(u) => u,
        None => collection_metadata.uri,
    };
    MetadataContent {
        name: collection_metadata.name,
        symbol: collection_metadata.symbol,
        uri,
        seller_fee_basis_points: collection_metadata.seller_fee_basis_points,
    }
}

/// The minted proof of one contribution: a fixed-supply token bound to one
/// project and one tier, held by the contributor.
#[derive(Debug)]
pub struct Receipt {
    /// Address of the project the contribution funded.
    pub project: AccountId,
    /// Address of the tier record the contribution bought.
    pub reward: AccountId,
    /// The contributor's wallet.
    pub owner: AccountId,
    /// Descriptive metadata attached to the token.
    pub metadata: MetadataContent,
    /// The tier's receipt collection this token is a member of.
    pub collection: AccountId,
    /// Whether the collection membership was confirmed. Only verified
    /// receipts persist: a deposit whose verification step fails writes
    /// nothing.
    pub collection_verified: bool,
    /// The deposited amount, the tier's cost.
    pub amount: u64,
}

/// The mathematical value of a [`Receipt`].
pub ghost struct ReceiptV {
    pub project: Seq<u8>,
    pub reward: Seq<u8>,
    pub owner: Seq<u8>,
    pub metadata: MetadataContentV,
    pub collection: Seq<u8>,
    pub collection_verified: bool,
    pub amount: u64,
}

impl View for Receipt {
    type V = ReceiptV;

    open spec fn view(&self) -> ReceiptV {
        ReceiptV {
            project: self.project@,
            reward: self.reward@,
            owner: self.owner@,
            metadata: self.metadata@,
            collection: self.collection@,
            collection_verified: self.collection_verified,
            amount: self.amount,
        }
    }
}

/// A record together with the derived address it is stored at.
#[derive(Debug)]
pub struct Record<T> {
    pub address: AccountId,
    pub data: T,
}

/// The mathematical value of a [`Record`].
pub ghost struct RecordV<V> {
    pub address: Seq<u8>,
    pub data: V,
}

impl<T: View> View for Record<T> {
    type V = RecordV<T::V>;

    open spec fn view(&self) -> RecordV<T::V> {
        RecordV { address: self.address@, data: self.data@ }
    }
}

} // verus!

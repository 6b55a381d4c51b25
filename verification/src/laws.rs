//! The protocol's guarantees, stated and proved over the operations'
//! specifications.

use vstd::prelude::*;

use crate::errors::ProtocolError;
use crate::ledger::LedgerV;
use crate::ops::{
    change_state_commit, change_state_error, create_contribution_reward_commit,
    create_contribution_reward_error, create_project_error, deposit_sol_commit, deposit_sol_error,
    ChangeState, CreateContributionReward, CreateProject, DepositOutcome, DepositSol,
    PoolSetupOutcome,
};
use crate::addressing::{project_pda, reward_pda};
use crate::records::{MetadataContentV, ProjectState, RecordV, RewardType};

verus! {

/// In every well-formed store, a project's tier counter equals the number
/// of tiers created for it — after N successful tier creations against a
/// fresh project the counter reads N — and no two tiers occupy the same
/// address.
pub proof fn lemma_tier_counter_matches_tiers(l: LedgerV, i: int)
    requires
        l.wf(),
        0 <= i < l.projects.len(),
    ensures
        l.projects[i].data.contribution_reward_count == l.tier_count_of(l.projects[i].address),
        forall|j: int, k: int|
            0 <= j < l.rewards.len() && 0 <= k < l.rewards.len() && j != k ==> (
            #[trigger] l.rewards[j]).address != (#[trigger] l.rewards[k]).address,
{
}

/// One successful tier creation steps its project's counter by exactly
/// one, adds exactly one tier for it, and preserves well-formedness.
pub proof fn lemma_tier_creation_step(
    l: LedgerV,
    a: CreateContributionReward,
    reward_type: RewardType,
    cost: u64,
    quantity: Option<u32>,
)
    requires
        l.wf(),
        create_contribution_reward_error(l, a) is None,
    ensures
        ({
            let l2 = create_contribution_reward_commit(l, a, reward_type, cost, quantity);
            &&& l2.wf()
            &&& l2.has_project(a.project@)
            &&& l2.project_at(a.project@).data.contribution_reward_count == l.project_at(
                a.project@,
            ).data.contribution_reward_count + 1
            &&& l2.tier_count_of(a.project@) == l.tier_count_of(a.project@) + 1
            &&& l2.projects.len() == l.projects.len()
            &&& l2.rewards.len() == l.rewards.len() + 1
        }),
{
    broadcast use Seq::lemma_filter_push;

    let i = l.project_index(a.project@);
    assert(0 <= i < l.projects.len() && l.projects[i].address == a.project@);
    let p = l.projects[i];
    let (raddr, rbump) = reward_pda(l.program_id, a.project@, p.data.contribution_reward_count)->0;
    let rdata = crate::records::ContributionRewardV {
        reward_type,
        project: a.project@,
        reward_collection_mint: a.reward_collection_mint@,
        cost,
        quantity,
        bump: rbump,
    };
    l.lemma_wf_add_reward(i, raddr, rdata);
    let l2 = create_contribution_reward_commit(l, a, reward_type, cost, quantity);
    assert(l2.wf());
    assert(l2.projects[i].address == a.project@);
    assert(l2.has_project(a.project@));
    let j = l2.project_index(a.project@);
    assert(0 <= j < l2.projects.len() && l2.projects[j].address == a.project@);
    assert(l.projects[j].address == a.project@);
    assert(j == i);
    assert(l2.project_at(a.project@).data.contribution_reward_count
        == p.data.contribution_reward_count + 1);
    assert(crate::ledger::reward_owned_by(a.project@)(
        RecordV { address: raddr, data: rdata },
    ));
    assert(l2.tier_count_of(a.project@) == l.tier_count_of(a.project@) + 1);
}

/// One request of a sequence of tier creations.
pub ghost struct TierRequest {
    pub accounts: CreateContributionReward,
    pub reward_type: RewardType,
    pub cost: u64,
    pub quantity: Option<u32>,
}

/// The store after a sequence of tier creations, each committed on the
/// store the previous one left.
pub open spec fn apply_tier_creations(l: LedgerV, reqs: Seq<TierRequest>) -> LedgerV
    decreases reqs.len(),
{
    if reqs.len() == 0 {
        l
    } else {
        apply_tier_creations(
            create_contribution_reward_commit(
                l,
                reqs[0].accounts,
                reqs[0].reward_type,
                reqs[0].cost,
                reqs[0].quantity,
            ),
            reqs.drop_first(),
        )
    }
}

/// Whether every creation of the sequence succeeds on the store it sees.
pub open spec fn tier_creations_succeed(l: LedgerV, reqs: Seq<TierRequest>) -> bool
    decreases reqs.len(),
{
    reqs.len() == 0 || (create_contribution_reward_error(l, reqs[0].accounts) is None
        && tier_creations_succeed(
        create_contribution_reward_commit(
            l,
            reqs[0].accounts,
            reqs[0].reward_type,
            reqs[0].cost,
            reqs[0].quantity,
        ),
        reqs.drop_first(),
    ))
}

/// After any sequence of N successful tier creations against one project,
/// the project's tier counter has grown by exactly N, it owns exactly N
/// more tiers, and the store is still well-formed — so, against a fresh
/// project, the counter reads N and each tier occupies a distinct
/// address.
pub proof fn lemma_tier_creation_sequence(l: LedgerV, reqs: Seq<TierRequest>, project: Seq<u8>)
    requires
        l.wf(),
        l.has_project(project),
        tier_creations_succeed(l, reqs),
        forall|k: int| 0 <= k < reqs.len() ==> (#[trigger] reqs[k]).accounts.project@ == project,
    ensures
        ({
            let ln = apply_tier_creations(l, reqs);
            &&& ln.wf()
            &&& ln.has_project(project)
            &&& ln.project_at(project).data.contribution_reward_count == l.project_at(
                project,
            ).data.contribution_reward_count + reqs.len()
            &&& ln.tier_count_of(project) == l.tier_count_of(project) + reqs.len()
        }),
    decreases reqs.len(),
{
    if reqs.len() > 0 {
        let r0 = reqs[0];
        assert(r0.accounts.project@ == project);
        let l1 = create_contribution_reward_commit(
            l,
            r0.accounts,
            r0.reward_type,
            r0.cost,
            r0.quantity,
        );
        lemma_tier_creation_step(l, r0.accounts, r0.reward_type, r0.cost, r0.quantity);
        assert forall|k: int| 0 <= k < reqs.drop_first().len() implies (
        #[trigger] reqs.drop_first()[k]).accounts.project@ == project by {
            assert(reqs.drop_first()[k] == reqs[k + 1]);
        }
        lemma_tier_creation_sequence(l1, reqs.drop_first(), project);
    }
}

/// A project's identity is immutable after creation: a tier creation
/// moves only the owning project's counter, and every project keeps its
/// address, authority, seed and state.
pub proof fn lemma_tier_creation_preserves_identity(
    l: LedgerV,
    a: CreateContributionReward,
    reward_type: RewardType,
    cost: u64,
    quantity: Option<u32>,
    k: int,
)
    requires
        l.wf(),
        create_contribution_reward_error(l, a) is None,
        0 <= k < l.projects.len(),
    ensures
        ({
            let l2 = create_contribution_reward_commit(l, a, reward_type, cost, quantity);
            &&& l2.projects[k].address == l.projects[k].address
            &&& l2.projects[k].data.authority == l.projects[k].data.authority
            &&& l2.projects[k].data.seed == l.projects[k].data.seed
            &&& l2.projects[k].data.state == l.projects[k].data.state
        }),
{
}

/// A state change rewrites only the named project's `state`: every
/// project keeps its address, authority and seed.
pub proof fn lemma_change_state_preserves_identity(
    l: LedgerV,
    a: ChangeState,
    state: ProjectState,
    k: int,
)
    requires
        l.wf(),
        change_state_error(l, a) is None,
        0 <= k < l.projects.len(),
    ensures
        ({
            let l2 = change_state_commit(l, a, state);
            &&& l2.projects[k].address == l.projects[k].address
            &&& l2.projects[k].data.authority == l.projects[k].data.authority
            &&& l2.projects[k].data.seed == l.projects[k].data.seed
        }),
{
}

/// Every tier, vault and receipt in a well-formed store carries a valid
/// back-reference: admission, not garbage collection, keeps ownership
/// sound.
pub proof fn lemma_records_reference_their_project(l: LedgerV)
    requires
        l.wf(),
    ensures
        forall|k: int|
            0 <= k < l.rewards.len() ==> l.has_project((#[trigger] l.rewards[k]).data.project),
        forall|k: int|
            0 <= k < l.stake_vaults.len() ==> l.has_project(
                (#[trigger] l.stake_vaults[k]).data.project,
            ),
        forall|k: int|
            0 <= k < l.receipts.len() ==> l.has_reward((#[trigger] l.receipts[k]).data.reward),
{
    assert forall|k: int| 0 <= k < l.receipts.len() implies l.has_reward(
        (#[trigger] l.receipts[k]).data.reward,
    ) by {
        let j = choose|j: int|
            0 <= j < l.rewards.len() && (#[trigger] l.rewards[j]).address
                == l.receipts[k].data.reward && l.rewards[j].data.reward_collection_mint
                == l.receipts[k].data.collection && l.rewards[j].data.project
                == l.receipts[k].data.project;
        assert(l.rewards[j].address == l.receipts[k].data.reward);
    }
}

/// A tier creation against a project whose counter stands at 255 never
/// succeeds, and — once the tier slot and collection mint are free, as
/// they are for every slot the strictly increasing counter has not used —
/// it fails with `NumericalOverflow`. The failing operation leaves the
/// store, and with it the counter, unchanged.
pub proof fn lemma_tier_counter_overflow(l: LedgerV, a: CreateContributionReward)
    requires
        l.wf(),
        l.has_project(a.project@),
        l.project_at(a.project@).data.authority == a.authority@,
        l.project_at(a.project@).data.contribution_reward_count == 255,
    ensures
        create_contribution_reward_error(l, a) is Some,
        ({
            let rpda = reward_pda(l.program_id, a.project@, 255);
            rpda is Some && !l.has_reward((rpda->0).0) && !l.has_collection_mint(
                a.reward_collection_mint@,
            ) ==> create_contribution_reward_error(l, a) == Some(
                ProtocolError::NumericalOverflow,
            )
        }),
{
}

/// `change_state` succeeds exactly when the caller's identity equals the
/// project's authority. An unauthorized call fails with
/// `AuthorizationFailure`, and — the failing operation writing nothing —
/// the project's state is unchanged; an authorized call overwrites
/// exactly the named project's state.
pub proof fn lemma_change_state_authority(l: LedgerV, a: ChangeState, state: ProjectState)
    requires
        l.wf(),
        l.has_project(a.project@),
    ensures
        change_state_error(l, a) is None <==> l.project_at(a.project@).data.authority
            == a.authority@,
        l.project_at(a.project@).data.authority != a.authority@ ==> change_state_error(l, a)
            == Some(ProtocolError::AuthorizationFailure),
        change_state_error(l, a) is None ==> ({
            let l2 = change_state_commit(l, a, state);
            &&& l2.project_at(a.project@).data.state == state
            &&& l2.project_at(a.project@).data.authority == l.project_at(
                a.project@,
            ).data.authority
            &&& l2.projects.len() == l.projects.len()
            &&& forall|k: int|
                0 <= k < l.projects.len() && k != l.project_index(a.project@) ==> (
                #[trigger] l2.projects[k]) == l.projects[k]
        }),
{
    let i = l.project_index(a.project@);
    assert(0 <= i < l.projects.len() && l.projects[i].address == a.project@);
    if change_state_error(l, a) is None {
        let l2 = change_state_commit(l, a, state);
        assert(l2.projects[i].address == a.project@);
        assert(l2.has_project(a.project@));
        let j = l2.project_index(a.project@);
        assert(0 <= j < l2.projects.len() && l2.projects[j].address == a.project@);
        assert(l.projects[j].address == a.project@);
        assert(j == i);
    }
}

/// Two `create_project` calls with identical seed bytes: once a project
/// created from the seed stands in the store, a second creation with that
/// seed fails — with `AdmissionConflict` whenever its address derives at
/// all — and, the failing operation writing nothing, the first record is
/// unaffected.
pub proof fn lemma_duplicate_seed_conflict(
    l: LedgerV,
    a: CreateProject,
    seed: Seq<u8>,
    outcome: PoolSetupOutcome,
)
    requires
        l.wf(),
        l.has_project_seed(seed),
    ensures
        create_project_error(l, a, seed, outcome) is Some,
        project_pda(l.program_id, seed) is Some ==> create_project_error(l, a, seed, outcome)
            == Some(ProtocolError::AdmissionConflict),
{
}

/// Receipt mints are never reused: in every well-formed store no two
/// receipts share an address, and a deposit whose receipt mint is already
/// taken — as the second of two attempts naming the same mint — fails
/// with `AdmissionConflict` before any external sub-call. (The tier's
/// remaining quantity is stored but not enforced by this core; what holds
/// of two competing deposits is this address uniqueness.)
pub proof fn lemma_receipt_mint_unique(l: LedgerV, a: DepositSol, outcome: DepositOutcome)
    requires
        l.wf(),
        l.has_project(a.project@),
        l.has_reward(a.contribution_reward@),
        l.reward_at(a.contribution_reward@).data.project == a.project@,
        l.reward_at(a.contribution_reward@).data.reward_collection_mint
            == a.reward_collection_mint@,
        l.project_at(a.project@).data.lst_mint == a.pool_mint@,
        l.has_receipt_at(a.nft_mint@),
    ensures
        deposit_sol_error(l, a, outcome) == Some(ProtocolError::AdmissionConflict),
        forall|j: int, k: int|
            0 <= j < l.receipts.len() && 0 <= k < l.receipts.len() && j != k ==> (
            #[trigger] l.receipts[j]).address != (#[trigger] l.receipts[k]).address,
{
}

/// A deposit is all-or-nothing. On success it appends exactly one new
/// receipt — verified, bound to the tier's receipt collection, priced at
/// the tier's cost, at the fresh mint address — leaves every existing
/// record of every kind as it was, and grows the project's reserve by
/// exactly the tier's cost. (On failure, the operation's contract says
/// the store is unchanged.)
pub proof fn lemma_deposit_all_or_nothing(
    l: LedgerV,
    a: DepositSol,
    collection_metadata: MetadataContentV,
    nft_uri: Option<Seq<char>>,
    outcome: DepositOutcome,
)
    requires
        l.wf(),
        deposit_sol_error(l, a, outcome) is None,
    ensures
        ({
            let l2 = deposit_sol_commit(l, a, collection_metadata, nft_uri);
            let t = l.reward_at(a.contribution_reward@);
            &&& l2.receipts.len() == l.receipts.len() + 1
            &&& forall|k: int| 0 <= k < l.receipts.len() ==> (#[trigger] l2.receipts[k]) == l.receipts[k]
            &&& l2.receipts.last().address == a.nft_mint@
            &&& !l.has_receipt_at(a.nft_mint@)
            &&& l2.receipts.last().data.collection_verified
            &&& l2.receipts.last().data.collection == t.data.reward_collection_mint
            &&& l2.receipts.last().data.amount == t.data.cost
            &&& l2.receipts.last().data.owner == a.wallet@
            &&& l2.projects == l.projects
            &&& l2.rewards == l.rewards
            &&& l2.pool_managers == l.pool_managers
            &&& l2.reserve_of(a.project@) == l.reserve_of(a.project@) + t.data.cost
        }),
{
    broadcast use Seq::lemma_filter_push;

    let l2 = deposit_sol_commit(l, a, collection_metadata, nft_uri);
    let t = l.reward_at(a.contribution_reward@);
    let newr = l2.receipts.last();
    assert(l2.receipts == l.receipts.push(newr));
    assert(crate::ledger::receipt_owned_by(a.project@)(newr));
    assert(l2.receipts_of(a.project@) == l.receipts_of(a.project@).push(newr));
    let s = l.receipts_of(a.project@);
    let f = |acc: int, r: crate::records::RecordV<crate::records::ReceiptV>| acc
        + r.data.amount;
    assert(s.push(newr).drop_last() =~= s);
    assert(s.push(newr).fold_left(0, f) == f(s.fold_left(0, f), newr));
}

} // verus!

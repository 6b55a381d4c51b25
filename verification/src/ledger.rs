//! The content-addressed record store.
//!
//! All persistent state of the protocol is the records held here, keyed by
//! their derived addresses. Creation is insert-if-absent; lookup is direct
//! keyed access. The hosting runtime serializes the operations that touch a
//! record and commits each operation's writes together or not at all, so
//! the store is only ever observed in a well-formed state ([`LedgerV::wf`]).

use vstd::prelude::*;

use crate::addressing::{address_eq, bytes_eq};
use crate::records::{
    AccountId, ContributionReward, ContributionRewardV, PoolManager, PoolManagerV, Project,
    ProjectState, ProjectV, Receipt, ReceiptV, Record, RecordV, StakeVault, StakeVaultV,
};

verus! {

/// All records of one deployment of the protocol.
#[derive(Debug)]
pub struct Ledger {
    /// The identity of the protocol program itself; every record address is
    /// derived under it.
    pub program_id: AccountId,
    pub projects: Vec<Record<Project>>,
    pub pool_managers: Vec<Record<PoolManager>>,
    pub rewards: Vec<Record<ContributionReward>>,
    pub stake_vaults: Vec<Record<StakeVault>>,
    pub receipts: Vec<Record<Receipt>>,
}

/// The mathematical value of a [`Ledger`].
pub ghost struct LedgerV {
    pub program_id: Seq<u8>,
    pub projects: Seq<RecordV<ProjectV>>,
    pub pool_managers: Seq<RecordV<PoolManagerV>>,
    pub rewards: Seq<RecordV<ContributionRewardV>>,
    pub stake_vaults: Seq<RecordV<StakeVaultV>>,
    pub receipts: Seq<RecordV<ReceiptV>>,
}

impl View for Ledger {
    type V = LedgerV;

    open spec fn view(&self) -> LedgerV {
        LedgerV {
            program_id: self.program_id@,
            projects: self.projects@.map_values(|r: Record<Project>| r@),
            pool_managers: self.pool_managers@.map_values(|r: Record<PoolManager>| r@),
            rewards: self.rewards@.map_values(|r: Record<ContributionReward>| r@),
            stake_vaults: self.stake_vaults@.map_values(|r: Record<StakeVault>| r@),
            receipts: self.receipts@.map_values(|r: Record<Receipt>| r@),
        }
    }
}

/// Whether a tier record belongs to the project at `address`.
pub open spec fn reward_owned_by(address: Seq<u8>) -> spec_fn(RecordV<ContributionRewardV>) -> bool {
    |r: RecordV<ContributionRewardV>| r.data.project == address
}

/// Whether a receipt funded the project at `address`.
pub open spec fn receipt_owned_by(address: Seq<u8>) -> spec_fn(RecordV<ReceiptV>) -> bool {
    |r: RecordV<ReceiptV>| r.data.project == address
}

/// A filter on elements a sequence does not hold selects nothing.
pub proof fn lemma_filter_empty<A>(s: Seq<A>, pred: spec_fn(A) -> bool)
    requires
        forall|i: int| 0 <= i < s.len() ==> !pred(#[trigger] s[i]),
    ensures
        s.filter(pred).len() == 0,
    decreases s.len(),
{
    reveal(Seq::filter);
    if s.len() > 0 {
        assert(!pred(s[s.len() - 1]));
        lemma_filter_empty(s.drop_last(), pred);
    }
}

impl LedgerV {
    /// Whether a project record occupies `address`.
    pub open spec fn has_project(self, address: Seq<u8>) -> bool {
        exists|i: int| 0 <= i < self.projects.len() && (#[trigger] self.projects[i]).address == address
    }

    /// The position of the project record at `address`.
    pub open spec fn project_index(self, address: Seq<u8>) -> int {
        choose|i: int| 0 <= i < self.projects.len() && (#[trigger] self.projects[i]).address == address
    }

    /// The project record at `address`.
    pub open spec fn project_at(self, address: Seq<u8>) -> RecordV<ProjectV> {
        self.projects[self.project_index(address)]
    }

    /// Whether a project record was created from `seed`.
    pub open spec fn has_project_seed(self, seed: Seq<u8>) -> bool {
        exists|i: int| 0 <= i < self.projects.len() && (#[trigger] self.projects[i]).data.seed == seed
    }

    /// Whether a tier record occupies `address`.
    pub open spec fn has_reward(self, address: Seq<u8>) -> bool {
        exists|i: int| 0 <= i < self.rewards.len() && (#[trigger] self.rewards[i]).address == address
    }

    /// The position of the tier record at `address`.
    pub open spec fn reward_index(self, address: Seq<u8>) -> int {
        choose|i: int| 0 <= i < self.rewards.len() && (#[trigger] self.rewards[i]).address == address
    }

    /// The tier record at `address`.
    pub open spec fn reward_at(self, address: Seq<u8>) -> RecordV<ContributionRewardV> {
        self.rewards[self.reward_index(address)]
    }

    /// Whether a tier record uses `mint` as its receipt collection.
    pub open spec fn has_collection_mint(self, mint: Seq<u8>) -> bool {
        exists|i: int|
            0 <= i < self.rewards.len() && (#[trigger] self.rewards[i]).data.reward_collection_mint
                == mint
    }

    /// Whether a pool manager record occupies `address`.
    pub open spec fn has_pool_manager_at(self, address: Seq<u8>) -> bool {
        exists|i: int|
            0 <= i < self.pool_managers.len() && (#[trigger] self.pool_managers[i]).address
                == address
    }

    /// Whether a vault record occupies `address`.
    pub open spec fn has_vault_at(self, address: Seq<u8>) -> bool {
        exists|i: int|
            0 <= i < self.stake_vaults.len() && (#[trigger] self.stake_vaults[i]).address == address
    }

    /// Whether `staker` already has a vault under the given project.
    pub open spec fn has_vault(self, project: Seq<u8>, staker: Seq<u8>) -> bool {
        exists|i: int|
            0 <= i < self.stake_vaults.len() && (#[trigger] self.stake_vaults[i]).data.project
                == project && self.stake_vaults[i].data.staker == staker
    }

    /// Whether a receipt token with mint `address` exists.
    pub open spec fn has_receipt_at(self, address: Seq<u8>) -> bool {
        exists|i: int|
            0 <= i < self.receipts.len() && (#[trigger] self.receipts[i]).address == address
    }

    /// How many tiers the project at `address` owns.
    pub open spec fn tier_count_of(self, address: Seq<u8>) -> nat {
        self.rewards.filter(reward_owned_by(address)).len()
    }

    /// The receipts funding the project at `address`.
    pub open spec fn receipts_of(self, address: Seq<u8>) -> Seq<RecordV<ReceiptV>> {
        self.receipts.filter(receipt_owned_by(address))
    }

    /// Total value deposited into the project at `address`: the sum of its
    /// receipts' amounts.
    pub open spec fn reserve_of(self, address: Seq<u8>) -> int {
        self.receipts_of(address).fold_left(0, |acc: int, r: RecordV<ReceiptV>| acc + r.data.amount)
    }

    /// Well-formedness: what every operation preserves.
    ///
    /// - no two projects share an address or a seed;
    /// - pool managers stand in lockstep with projects: the `i`-th manager
    ///   belongs to the `i`-th project, and no two share an address;
    /// - each project's tier counter equals the number of its tiers;
    /// - every tier, vault and receipt points back to an existing project,
    ///   and no two of a kind share an address;
    /// - no two tiers share a receipt collection mint; no two vaults serve
    ///   the same contributor under the same project;
    /// - every receipt is a verified member of the collection of an
    ///   existing tier of its project.
    pub open spec fn wf(self) -> bool {
        &&& self.program_id.len() == 32
        &&& forall|i: int, j: int|
            0 <= i < self.projects.len() && 0 <= j < self.projects.len() && i != j ==> {
                &&& (#[trigger] self.projects[i]).address != (#[trigger] self.projects[j]).address
                &&& self.projects[i].data.seed != self.projects[j].data.seed
            }
        &&& self.pool_managers.len() == self.projects.len()
        &&& forall|i: int|
            0 <= i < self.projects.len() ==> (#[trigger] self.pool_managers[i]).data.project
                == self.projects[i].address
        &&& forall|i: int, j: int|
            0 <= i < self.pool_managers.len() && 0 <= j < self.pool_managers.len() && i != j
                ==> (#[trigger] self.pool_managers[i]).address
                != (#[trigger] self.pool_managers[j]).address
        &&& forall|i: int|
            0 <= i < self.projects.len() ==> (#[trigger] self.projects[i]).data.contribution_reward_count
                == self.tier_count_of(self.projects[i].address)
        &&& forall|i: int|
            0 <= i < self.rewards.len() ==> self.has_project((#[trigger] self.rewards[i]).data.project)
        &&& forall|i: int, j: int|
            0 <= i < self.rewards.len() && 0 <= j < self.rewards.len() && i != j ==> {
                &&& (#[trigger] self.rewards[i]).address != (#[trigger] self.rewards[j]).address
                &&& self.rewards[i].data.reward_collection_mint
                    != self.rewards[j].data.reward_collection_mint
            }
        &&& forall|i: int|
            0 <= i < self.stake_vaults.len() ==> self.has_project(
                (#[trigger] self.stake_vaults[i]).data.project,
            )
        &&& forall|i: int, j: int|
            0 <= i < self.stake_vaults.len() && 0 <= j < self.stake_vaults.len() && i != j ==> {
                &&& (#[trigger] self.stake_vaults[i]).address
                    != (#[trigger] self.stake_vaults[j]).address
                &&& !(self.stake_vaults[i].data.project == self.stake_vaults[j].data.project
                    && self.stake_vaults[i].data.staker == self.stake_vaults[j].data.staker)
            }
        &&& forall|i: int, j: int|
            0 <= i < self.receipts.len() && 0 <= j < self.receipts.len() && i != j
                ==> (#[trigger] self.receipts[i]).address != (#[trigger] self.receipts[j]).address
        &&& forall|i: int|
            0 <= i < self.receipts.len() ==> {
                &&& (#[trigger] self.receipts[i]).data.collection_verified
                &&& exists|j: int|
                    0 <= j < self.rewards.len() && (#[trigger] self.rewards[j]).address
                        == self.receipts[i].data.reward && self.rewards[j].data.reward_collection_mint
                        == self.receipts[i].data.collection && self.rewards[j].data.project
                        == self.receipts[i].data.project
            }
    }

    /// In a well-formed ledger an address determines its project record.
    pub proof fn lemma_project_index_of(self, i: int)
        requires
            self.wf(),
            0 <= i < self.projects.len(),
        ensures
            self.has_project(self.projects[i].address),
            self.project_index(self.projects[i].address) == i,
            self.project_at(self.projects[i].address) == self.projects[i],
    {
        let a = self.projects[i].address;
        assert(self.has_project(a));
        let j = self.project_index(a);
        assert(0 <= j < self.projects.len() && self.projects[j].address == a);
        assert(j == i);
    }

    /// Admitting a fresh project together with its pool manager preserves
    /// well-formedness.
    pub proof fn lemma_wf_admit_project(
        self,
        paddr: Seq<u8>,
        pdata: ProjectV,
        maddr: Seq<u8>,
        mdata: PoolManagerV,
    )
        requires
            self.wf(),
            !self.has_project(paddr),
            !self.has_project_seed(pdata.seed),
            !self.has_pool_manager_at(maddr),
            pdata.contribution_reward_count == 0,
            mdata.project == paddr,
        ensures
            (LedgerV {
                program_id: self.program_id,
                projects: self.projects.push(RecordV { address: paddr, data: pdata }),
                pool_managers: self.pool_managers.push(RecordV { address: maddr, data: mdata }),
                rewards: self.rewards,
                stake_vaults: self.stake_vaults,
                receipts: self.receipts,
            }).wf(),
    {
        let new = LedgerV {
            program_id: self.program_id,
            projects: self.projects.push(RecordV { address: paddr, data: pdata }),
            pool_managers: self.pool_managers.push(RecordV { address: maddr, data: mdata }),
            rewards: self.rewards,
            stake_vaults: self.stake_vaults,
            receipts: self.receipts,
        };
        let n = self.projects.len() as int;
        assert forall|k: int| 0 <= k < self.rewards.len() implies !(reward_owned_by(paddr)(
            #[trigger] self.rewards[k],
        )) by {
            let rp = self.rewards[k].data.project;
            assert(self.has_project(rp));
            let j = choose|j: int|
                0 <= j < self.projects.len() && (#[trigger] self.projects[j]).address == rp;
            assert(self.projects[j].address != paddr);
        }
        lemma_filter_empty(self.rewards, reward_owned_by(paddr));
        assert forall|i: int| 0 <= i < new.projects.len() implies (
        #[trigger] new.projects[i]).data.contribution_reward_count == new.tier_count_of(
            new.projects[i].address,
        ) by {
            if i < n {
                assert(new.projects[i] == self.projects[i]);
                assert(new.tier_count_of(self.projects[i].address) == self.tier_count_of(
                    self.projects[i].address,
                ));
            } else {
                assert(new.projects[i].address == paddr);
                assert(new.tier_count_of(paddr) == 0);
            }
        }
        assert forall|k: int| 0 <= k < new.rewards.len() implies new.has_project(
            (#[trigger] new.rewards[k]).data.project,
        ) by {
            let rp = new.rewards[k].data.project;
            assert(self.has_project(rp));
            let j = choose|j: int|
                0 <= j < self.projects.len() && (#[trigger] self.projects[j]).address == rp;
            assert((new.projects[j]).address == rp);
        }
        assert forall|k: int| 0 <= k < new.stake_vaults.len() implies new.has_project(
            (#[trigger] new.stake_vaults[k]).data.project,
        ) by {
            let rp = new.stake_vaults[k].data.project;
            assert(self.has_project(rp));
            let j = choose|j: int|
                0 <= j < self.projects.len() && (#[trigger] self.projects[j]).address == rp;
            assert((new.projects[j]).address == rp);
        }
        assert(new.wf());
    }

    /// Replacing one project's lifecycle state preserves well-formedness.
    pub proof fn lemma_wf_set_state(self, i: int, state: ProjectState)
        requires
            self.wf(),
            0 <= i < self.projects.len(),
        ensures
            (LedgerV {
                program_id: self.program_id,
                projects: self.projects.update(
                    i,
                    RecordV {
                        address: self.projects[i].address,
                        data: crate::records::with_state(self.projects[i].data, state),
                    },
                ),
                pool_managers: self.pool_managers,
                rewards: self.rewards,
                stake_vaults: self.stake_vaults,
                receipts: self.receipts,
            }).wf(),
    {
        let new = LedgerV {
            program_id: self.program_id,
            projects: self.projects.update(
                i,
                RecordV {
                    address: self.projects[i].address,
                    data: crate::records::with_state(self.projects[i].data, state),
                },
            ),
            pool_managers: self.pool_managers,
            rewards: self.rewards,
            stake_vaults: self.stake_vaults,
            receipts: self.receipts,
        };
        assert forall|k: int| 0 <= k < new.projects.len() implies (#[trigger] new.projects[k]).address
            == self.projects[k].address && new.projects[k].data.seed == self.projects[k].data.seed
            && new.projects[k].data.contribution_reward_count
            == self.projects[k].data.contribution_reward_count by {}
        assert forall|k: int| 0 <= k < new.projects.len() implies (
        #[trigger] new.projects[k]).data.contribution_reward_count == new.tier_count_of(
            new.projects[k].address,
        ) by {
            assert(new.tier_count_of(self.projects[k].address) == self.tier_count_of(
                self.projects[k].address,
            ));
        }
        assert forall|k: int| 0 <= k < new.rewards.len() implies new.has_project(
            (#[trigger] new.rewards[k]).data.project,
        ) by {
            let rp = new.rewards[k].data.project;
            assert(self.has_project(rp));
            let j = choose|j: int|
                0 <= j < self.projects.len() && (#[trigger] self.projects[j]).address == rp;
            assert((new.projects[j]).address == rp);
        }
        assert forall|k: int| 0 <= k < new.stake_vaults.len() implies new.has_project(
            (#[trigger] new.stake_vaults[k]).data.project,
        ) by {
            let rp = new.stake_vaults[k].data.project;
            assert(self.has_project(rp));
            let j = choose|j: int|
                0 <= j < self.projects.len() && (#[trigger] self.projects[j]).address == rp;
            assert((new.projects[j]).address == rp);
        }
        assert(new.wf());
    }

    /// Admitting a fresh tier under project `i` while stepping that
    /// project's counter preserves well-formedness.
    pub proof fn lemma_wf_add_reward(self, i: int, raddr: Seq<u8>, rdata: ContributionRewardV)
        requires
            self.wf(),
            0 <= i < self.projects.len(),
            rdata.project == self.projects[i].address,
            !self.has_reward(raddr),
            !self.has_collection_mint(rdata.reward_collection_mint),
            self.projects[i].data.contribution_reward_count < 255,
        ensures
            (LedgerV {
                program_id: self.program_id,
                projects: self.projects.update(
                    i,
                    RecordV {
                        address: self.projects[i].address,
                        data: crate::records::with_count(
                            self.projects[i].data,
                            (self.projects[i].data.contribution_reward_count + 1) as u8,
                        ),
                    },
                ),
                pool_managers: self.pool_managers,
                rewards: self.rewards.push(RecordV { address: raddr, data: rdata }),
                stake_vaults: self.stake_vaults,
                receipts: self.receipts,
            }).wf(),
    {
        broadcast use Seq::lemma_filter_push;

        let new = LedgerV {
            program_id: self.program_id,
            projects: self.projects.update(
                i,
                RecordV {
                    address: self.projects[i].address,
                    data: crate::records::with_count(
                        self.projects[i].data,
                        (self.projects[i].data.contribution_reward_count + 1) as u8,
                    ),
                },
            ),
            pool_managers: self.pool_managers,
            rewards: self.rewards.push(RecordV { address: raddr, data: rdata }),
            stake_vaults: self.stake_vaults,
            receipts: self.receipts,
        };
        let newr = RecordV { address: raddr, data: rdata };
        assert forall|k: int| 0 <= k < new.projects.len() implies (#[trigger] new.projects[k]).address
            == self.projects[k].address && new.projects[k].data.seed
            == self.projects[k].data.seed by {}
        assert forall|k: int| 0 <= k < new.projects.len() implies (
        #[trigger] new.projects[k]).data.contribution_reward_count == new.tier_count_of(
            new.projects[k].address,
        ) by {
            let a = self.projects[k].address;
            assert(self.rewards.push(newr).filter(reward_owned_by(a)) == if reward_owned_by(a)(
                newr,
            ) {
                self.rewards.filter(reward_owned_by(a)).push(newr)
            } else {
                self.rewards.filter(reward_owned_by(a))
            });
            if k == i {
                assert(reward_owned_by(a)(newr));
            } else {
                assert(self.projects[i].address != a);
                assert(!reward_owned_by(a)(newr));
            }
        }
        assert forall|k: int| 0 <= k < new.rewards.len() implies new.has_project(
            (#[trigger] new.rewards[k]).data.project,
        ) by {
            if k < self.rewards.len() {
                let rp = new.rewards[k].data.project;
                assert(self.has_project(rp));
                let j = choose|j: int|
                    0 <= j < self.projects.len() && (#[trigger] self.projects[j]).address == rp;
                assert((new.projects[j]).address == rp);
            } else {
                assert((new.projects[i]).address == rdata.project);
            }
        }
        assert forall|k: int| 0 <= k < new.stake_vaults.len() implies new.has_project(
            (#[trigger] new.stake_vaults[k]).data.project,
        ) by {
            let rp = new.stake_vaults[k].data.project;
            assert(self.has_project(rp));
            let j = choose|j: int|
                0 <= j < self.projects.len() && (#[trigger] self.projects[j]).address == rp;
            assert((new.projects[j]).address == rp);
        }
        assert forall|k: int| 0 <= k < new.receipts.len() implies (
        #[trigger] new.receipts[k]).data.collection_verified && exists|j: int|
            0 <= j < new.rewards.len() && (#[trigger] new.rewards[j]).address
                == new.receipts[k].data.reward && new.rewards[j].data.reward_collection_mint
                == new.receipts[k].data.collection && new.rewards[j].data.project
                == new.receipts[k].data.project by {
            let j = choose|j: int|
                0 <= j < self.rewards.len() && (#[trigger] self.rewards[j]).address
                    == self.receipts[k].data.reward && self.rewards[j].data.reward_collection_mint
                    == self.receipts[k].data.collection && self.rewards[j].data.project
                    == self.receipts[k].data.project;
            assert((new.rewards[j]).address == new.receipts[k].data.reward);
        }
        assert(new.wf());
    }

    /// Admitting a fresh stake vault preserves well-formedness.
    pub proof fn lemma_wf_add_vault(self, vaddr: Seq<u8>, vdata: StakeVaultV)
        requires
            self.wf(),
            self.has_project(vdata.project),
            !self.has_vault_at(vaddr),
            !self.has_vault(vdata.project, vdata.staker),
        ensures
            (LedgerV {
                program_id: self.program_id,
                projects: self.projects,
                pool_managers: self.pool_managers,
                rewards: self.rewards,
                stake_vaults: self.stake_vaults.push(RecordV { address: vaddr, data: vdata }),
                receipts: self.receipts,
            }).wf(),
    {
        let new = LedgerV {
            program_id: self.program_id,
            projects: self.projects,
            pool_managers: self.pool_managers,
            rewards: self.rewards,
            stake_vaults: self.stake_vaults.push(RecordV { address: vaddr, data: vdata }),
            receipts: self.receipts,
        };
        let n = self.stake_vaults.len() as int;
        assert forall|k1: int, k2: int|
            0 <= k1 < new.stake_vaults.len() && 0 <= k2 < new.stake_vaults.len() && k1
                != k2 implies {
            &&& (#[trigger] new.stake_vaults[k1]).address != (
            #[trigger] new.stake_vaults[k2]).address
            &&& !(new.stake_vaults[k1].data.project == new.stake_vaults[k2].data.project
                && new.stake_vaults[k1].data.staker == new.stake_vaults[k2].data.staker)
        } by {
            if k1 < n && k2 < n {
                assert(new.stake_vaults[k1] == self.stake_vaults[k1]);
                assert(new.stake_vaults[k2] == self.stake_vaults[k2]);
            } else if k1 == n {
                assert(new.stake_vaults[k2] == self.stake_vaults[k2]);
            } else {
                assert(new.stake_vaults[k1] == self.stake_vaults[k1]);
            }
        }
        assert forall|k: int| 0 <= k < new.stake_vaults.len() implies new.has_project(
            (#[trigger] new.stake_vaults[k]).data.project,
        ) by {
            let rp = new.stake_vaults[k].data.project;
            if k < n {
                assert(new.stake_vaults[k] == self.stake_vaults[k]);
            } else {
                assert(rp == vdata.project);
            }
            assert(self.has_project(rp));
            let j = choose|j: int|
                0 <= j < self.projects.len() && (#[trigger] self.projects[j]).address == rp;
            assert((new.projects)[j].address == rp);
        }
        assert(new.wf());
    }

    /// Admitting a fresh, verified receipt bound to an existing tier
    /// preserves well-formedness.
    pub proof fn lemma_wf_add_receipt(self, mint: Seq<u8>, rdata: ReceiptV)
        requires
            self.wf(),
            !self.has_receipt_at(mint),
            rdata.collection_verified,
            self.has_reward(rdata.reward),
            self.reward_at(rdata.reward).data.reward_collection_mint == rdata.collection,
            self.reward_at(rdata.reward).data.project == rdata.project,
        ensures
            (LedgerV {
                program_id: self.program_id,
                projects: self.projects,
                pool_managers: self.pool_managers,
                rewards: self.rewards,
                stake_vaults: self.stake_vaults,
                receipts: self.receipts.push(RecordV { address: mint, data: rdata }),
            }).wf(),
    {
        let new = LedgerV {
            program_id: self.program_id,
            projects: self.projects,
            pool_managers: self.pool_managers,
            rewards: self.rewards,
            stake_vaults: self.stake_vaults,
            receipts: self.receipts.push(RecordV { address: mint, data: rdata }),
        };
        let n = self.receipts.len() as int;
        assert forall|k1: int, k2: int|
            0 <= k1 < new.receipts.len() && 0 <= k2 < new.receipts.len() && k1 != k2 implies (
        #[trigger] new.receipts[k1]).address != (#[trigger] new.receipts[k2]).address by {
            if k1 < n && k2 < n {
                assert(new.receipts[k1] == self.receipts[k1]);
                assert(new.receipts[k2] == self.receipts[k2]);
            } else if k1 == n {
                assert(new.receipts[k2] == self.receipts[k2]);
            } else {
                assert(new.receipts[k1] == self.receipts[k1]);
            }
        }
        assert forall|k: int| 0 <= k < new.receipts.len() implies (
        #[trigger] new.receipts[k]).data.collection_verified && exists|j: int|
            0 <= j < new.rewards.len() && (#[trigger] new.rewards[j]).address
                == new.receipts[k].data.reward && new.rewards[j].data.reward_collection_mint
                == new.receipts[k].data.collection && new.rewards[j].data.project
                == new.receipts[k].data.project by {
            if k < n {
                assert(new.receipts[k] == self.receipts[k]);
                let j = choose|j: int|
                    0 <= j < self.rewards.len() && (#[trigger] self.rewards[j]).address
                        == self.receipts[k].data.reward
                        && self.rewards[j].data.reward_collection_mint
                        == self.receipts[k].data.collection && self.rewards[j].data.project
                        == self.receipts[k].data.project;
                assert((new.rewards[j]).address == new.receipts[k].data.reward);
            } else {
                let j = self.reward_index(rdata.reward);
                assert((new.rewards[j]).address == new.receipts[k].data.reward);
            }
        }
        assert(new.wf());
    }

    /// In a well-formed ledger an address determines its tier record.
    pub proof fn lemma_reward_index_of(self, i: int)
        requires
            self.wf(),
            0 <= i < self.rewards.len(),
        ensures
            self.has_reward(self.rewards[i].address),
            self.reward_index(self.rewards[i].address) == i,
            self.reward_at(self.rewards[i].address) == self.rewards[i],
    {
        let a = self.rewards[i].address;
        assert(self.has_reward(a));
        let j = self.reward_index(a);
        assert(0 <= j < self.rewards.len() && self.rewards[j].address == a);
        assert(j == i);
    }
}

impl Ledger {
    /// Well-formedness of the store, stated over its view.
    pub open spec fn wf(&self) -> bool {
        self@.wf()
    }

    /// An empty store for the protocol deployed as `program_id`.
    pub fn new(program_id: AccountId) -> (r: Ledger)
        ensures
            r@ == (LedgerV {
                program_id: program_id@,
                projects: Seq::<RecordV<ProjectV>>::empty(),
                pool_managers: Seq::<RecordV<PoolManagerV>>::empty(),
                rewards: Seq::<RecordV<ContributionRewardV>>::empty(),
                stake_vaults: Seq::<RecordV<StakeVaultV>>::empty(),
                receipts: Seq::<RecordV<ReceiptV>>::empty(),
            }),
            r.wf(),
    {
        let r = Ledger {
            program_id,
            projects: Vec::new(),
            pool_managers: Vec::new(),
            rewards: Vec::new(),
            stake_vaults: Vec::new(),
            receipts: Vec::new(),
        };
        proof {
            assert(r@.projects =~= Seq::<RecordV<ProjectV>>::empty());
            assert(r@.pool_managers =~= Seq::<RecordV<PoolManagerV>>::empty());
            assert(r@.rewards =~= Seq::<RecordV<ContributionRewardV>>::empty());
            assert(r@.stake_vaults =~= Seq::<RecordV<StakeVaultV>>::empty());
            assert(r@.receipts =~= Seq::<RecordV<ReceiptV>>::empty());
            assert(r@.rewards.filter(
                |rec: RecordV<ContributionRewardV>| rec.data.project == Seq::<u8>::empty(),
            ).len() == 0);
        }
        r
    }

    /// How many projects the store holds.
    pub fn project_count(&self) -> (r: usize)
        ensures
            r == self@.projects.len(),
    {
        self.projects.len()
    }

    /// Find the project record at `address`.
    pub fn find_project(&self, address: &AccountId) -> (r: Option<usize>)
        ensures
            r matches Some(i) ==> 0 <= i < self@.projects.len() && self@.projects[i as int].address
                == address@,
            r is None ==> !self@.has_project(address@),
    {
        let ghost v = self@;
        let mut i: usize = 0;
        while i < self.projects.len()
            invariant
                i <= self.projects.len(),
                v == self@,
                v.projects.len() == self.projects.len(),
                forall|j: int| 0 <= j < i ==> (#[trigger] v.projects[j]).address != address@,
            decreases self.projects.len() - i,
        {
            if address_eq(&self.projects[i].address, address) {
                return Some(i);
            }
            i = i + 1;
        }
        None
    }

    /// Whether a pool manager record occupies `address`.
    pub fn pool_manager_address_taken(&self, address: &AccountId) -> (r: bool)
        ensures
            r == self@.has_pool_manager_at(address@),
    {
        let ghost v = self@;
        let mut i: usize = 0;
        while i < self.pool_managers.len()
            invariant
                i <= self.pool_managers.len(),
                v == self@,
                v.pool_managers.len() == self.pool_managers.len(),
                forall|j: int| 0 <= j < i ==> (#[trigger] v.pool_managers[j]).address != address@,
            decreases self.pool_managers.len() - i,
        {
            if address_eq(&self.pool_managers[i].address, address) {
                proof {
                    assert((v.pool_managers[i as int]).address == address@);
                }
                return true;
            }
            i = i + 1;
        }
        false
    }

    /// Whether a project created from `seed` exists.
    pub fn seed_taken(&self, seed: &Vec<u8>) -> (r: bool)
        ensures
            r == self@.has_project_seed(seed@),
    {
        let ghost v = self@;
        let mut i: usize = 0;
        while i < self.projects.len()
            invariant
                i <= self.projects.len(),
                v == self@,
                v.projects.len() == self.projects.len(),
                forall|j: int| 0 <= j < i ==> (#[trigger] v.projects[j]).data.seed != seed@,
            decreases self.projects.len() - i,
        {
            if bytes_eq(&self.projects[i].data.seed, seed) {
                proof {
                    assert((v.projects[i as int]).data.seed == seed@);
                }
                return true;
            }
            i = i + 1;
        }
        false
    }

    /// Find the tier record at `address`.
    pub fn find_reward(&self, address: &AccountId) -> (r: Option<usize>)
        ensures
            r matches Some(i) ==> 0 <= i < self@.rewards.len() && self@.rewards[i as int].address
                == address@,
            r is None ==> !self@.has_reward(address@),
    {
        let ghost v = self@;
        let mut i: usize = 0;
        while i < self.rewards.len()
            invariant
                i <= self.rewards.len(),
                v == self@,
                v.rewards.len() == self.rewards.len(),
                forall|j: int| 0 <= j < i ==> (#[trigger] v.rewards[j]).address != address@,
            decreases self.rewards.len() - i,
        {
            if address_eq(&self.rewards[i].address, address) {
                return Some(i);
            }
            i = i + 1;
        }
        None
    }

    /// Whether a tier already uses `mint` as its receipt collection.
    pub fn collection_mint_taken(&self, mint: &AccountId) -> (r: bool)
        ensures
            r == self@.has_collection_mint(mint@),
    {
        let ghost v = self@;
        let mut i: usize = 0;
        while i < self.rewards.len()
            invariant
                i <= self.rewards.len(),
                v == self@,
                v.rewards.len() == self.rewards.len(),
                forall|j: int|
                    0 <= j < i ==> (#[trigger] v.rewards[j]).data.reward_collection_mint != mint@,
            decreases self.rewards.len() - i,
        {
            if address_eq(&self.rewards[i].data.reward_collection_mint, mint) {
                proof {
                    assert((v.rewards[i as int]).data.reward_collection_mint == mint@);
                }
                return true;
            }
            i = i + 1;
        }
        false
    }

    /// Whether a vault record occupies `address`.
    pub fn vault_address_taken(&self, address: &AccountId) -> (r: bool)
        ensures
            r == self@.has_vault_at(address@),
    {
        let ghost v = self@;
        let mut i: usize = 0;
        while i < self.stake_vaults.len()
            invariant
                i <= self.stake_vaults.len(),
                v == self@,
                v.stake_vaults.len() == self.stake_vaults.len(),
                forall|j: int| 0 <= j < i ==> (#[trigger] v.stake_vaults[j]).address != address@,
            decreases self.stake_vaults.len() - i,
        {
            if address_eq(&self.stake_vaults[i].address, address) {
                proof {
                    assert((v.stake_vaults[i as int]).address == address@);
                }
                return true;
            }
            i = i + 1;
        }
        false
    }

    /// Whether `staker` already has a vault under the given project.
    pub fn vault_exists(&self, project: &AccountId, staker: &AccountId) -> (r: bool)
        ensures
            r == self@.has_vault(project@, staker@),
    {
        let ghost v = self@;
        let mut i: usize = 0;
        while i < self.stake_vaults.len()
            invariant
                i <= self.stake_vaults.len(),
                v == self@,
                v.stake_vaults.len() == self.stake_vaults.len(),
                forall|j: int|
                    0 <= j < i ==> !((#[trigger] v.stake_vaults[j]).data.project == project@
                        && v.stake_vaults[j].data.staker == staker@),
            decreases self.stake_vaults.len() - i,
        {
            if address_eq(&self.stake_vaults[i].data.project, project) && address_eq(
                &self.stake_vaults[i].data.staker,
                staker,
            ) {
                proof {
                    assert((v.stake_vaults[i as int]).data.project == project@);
                }
                return true;
            }
            i = i + 1;
        }
        false
    }

    /// Find the receipt token with mint `address`.
    pub fn find_receipt(&self, address: &AccountId) -> (r: Option<usize>)
        ensures
            r matches Some(i) ==> 0 <= i < self@.receipts.len() && self@.receipts[i as int].address
                == address@,
            r is None ==> !self@.has_receipt_at(address@),
    {
        let ghost v = self@;
        let mut i: usize = 0;
        while i < self.receipts.len()
            invariant
                i <= self.receipts.len(),
                v == self@,
                v.receipts.len() == self.receipts.len(),
                forall|j: int| 0 <= j < i ==> (#[trigger] v.receipts[j]).address != address@,
            decreases self.receipts.len() - i,
        {
            if address_eq(&self.receipts[i].address, address) {
                return Some(i);
            }
            i = i + 1;
        }
        None
    }
}

} // verus!

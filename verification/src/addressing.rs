//! Deterministic addressing: every persistent record's address is derived
//! from a record-kind tag and stable seeds, so creation, lookup and
//! uniqueness checks need no external index.
//!
//! The derivation itself is the hosting runtime's program-address scheme;
//! this module names its result ([`pda_of`]) and states each record kind's
//! seed tuple bit for bit.

use vstd::prelude::*;

use crate::records::AccountId;

verus! {

/// What the runtime's program-address derivation returns for a seed tuple
/// and a deriving program: an address and its bump byte, or `None` when no
/// bump yields a valid address. The result depends on the arguments alone.
pub uninterp spec fn pda_of(seeds: Seq<Seq<u8>>, program_id: Seq<u8>) -> Option<(Seq<u8>, u8)>;

/// Relies on `solana_pubkey::Pubkey::try_find_program_address`: finds the
/// derived address and bump for the seed tuple under the given program, or
/// `None` in the statistically improbable event that no bump byte yields a
/// valid address, or when a seed is over-long. The result is a pure
/// function of the seeds and the program id; the call never panics.
#[verifier::external_body]
fn derive_program_address(seeds: &Vec<Vec<u8>>, program_id: &AccountId) -> (r: Option<
    (AccountId, u8),
>)
    ensures
        r matches Some(ab) ==> pda_of(seeds.deep_view(), program_id@) == Some((ab.0@, ab.1)),
        r is None ==> pda_of(seeds.deep_view(), program_id@) is None,
{
    let seed_slices: Vec<&[u8]> = seeds.iter().map(|s| s.as_slice()).collect();
    let program = solana_pubkey::Pubkey::new_from_array(*program_id);
    solana_pubkey::Pubkey::try_find_program_address(&seed_slices, &program)
        .map(|(address, bump)| (address.to_bytes(), bump))
}

/// The record-kind tag of project records: the bytes of `"project"`.
pub open spec fn tag_project() -> Seq<u8> {
    seq![112u8, 114u8, 111u8, 106u8, 101u8, 99u8, 116u8]
}

/// The record-kind tag of pool manager records: the bytes of
/// `"pool_manager"`.
pub open spec fn tag_pool_manager() -> Seq<u8> {
    seq![112u8, 111u8, 111u8, 108u8, 95u8, 109u8, 97u8, 110u8, 97u8, 103u8, 101u8, 114u8]
}

/// The record-kind tag of contribution reward records: the bytes of
/// `"reward"`.
pub open spec fn tag_reward() -> Seq<u8> {
    seq![114u8, 101u8, 119u8, 97u8, 114u8, 100u8]
}

/// The record-kind tag of stake vault records: the bytes of
/// `"stake_vault"`.
pub open spec fn tag_stake_vault() -> Seq<u8> {
    seq![115u8, 116u8, 97u8, 107u8, 101u8, 95u8, 118u8, 97u8, 117u8, 108u8, 116u8]
}

fn tag_project_bytes() -> (r: Vec<u8>)
    ensures
        r@ == tag_project(),
{
    let r: Vec<u8> = vec![112u8, 114u8, 111u8, 106u8, 101u8, 99u8, 116u8];
    proof {
        assert(r@ =~= tag_project());
    }
    r
}

fn tag_pool_manager_bytes() -> (r: Vec<u8>)
    ensures
        r@ == tag_pool_manager(),
{
    let r: Vec<u8> = vec![
        112u8,
        111u8,
        111u8,
        108u8,
        95u8,
        109u8,
        97u8,
        110u8,
        97u8,
        103u8,
        101u8,
        114u8,
    ];
    proof {
        assert(r@ =~= tag_pool_manager());
    }
    r
}

fn tag_reward_bytes() -> (r: Vec<u8>)
    ensures
        r@ == tag_reward(),
{
    let r: Vec<u8> = vec![114u8, 101u8, 119u8, 97u8, 114u8, 100u8];
    proof {
        assert(r@ =~= tag_reward());
    }
    r
}

fn tag_stake_vault_bytes() -> (r: Vec<u8>)
    ensures
        r@ == tag_stake_vault(),
{
    let r: Vec<u8> = vec![115u8, 116u8, 97u8, 107u8, 101u8, 95u8, 118u8, 97u8, 117u8, 108u8, 116u8];
    proof {
        assert(r@ =~= tag_stake_vault());
    }
    r
}

/// The record-kind tag of token metadata accounts: the bytes of
/// `"metadata"`.
pub open spec fn tag_metadata() -> Seq<u8> {
    seq![109u8, 101u8, 116u8, 97u8, 100u8, 97u8, 116u8, 97u8]
}

/// The suffix tag of fixed-edition marker accounts: the bytes of
/// `"edition"`.
pub open spec fn tag_edition() -> Seq<u8> {
    seq![101u8, 100u8, 105u8, 116u8, 105u8, 111u8, 110u8]
}

fn tag_metadata_bytes() -> (r: Vec<u8>)
    ensures
        r@ == tag_metadata(),
{
    let r: Vec<u8> = vec![109u8, 101u8, 116u8, 97u8, 100u8, 97u8, 116u8, 97u8];
    proof {
        assert(r@ =~= tag_metadata());
    }
    r
}

fn tag_edition_bytes() -> (r: Vec<u8>)
    ensures
        r@ == tag_edition(),
{
    let r: Vec<u8> = vec![101u8, 100u8, 105u8, 116u8, 105u8, 111u8, 110u8];
    proof {
        assert(r@ =~= tag_edition());
    }
    r
}

/// Copy a byte vector.
pub fn copy_bytes(src: &Vec<u8>) -> (r: Vec<u8>)
    ensures
        r@ == src@,
{
    let mut out: Vec<u8> = Vec::new();
    let mut i: usize = 0;
    while i < src.len()
        invariant
            i <= src@.len(),
            out@ == src@.take(i as int),
        decreases src@.len() - i,
    {
        out.push(src[i]);
        proof {
            assert(out@ =~= src@.take(i + 1));
        }
        i = i + 1;
    }
    proof {
        assert(out@ =~= src@);
    }
    out
}

/// Copy an address into a seed vector.
pub fn address_bytes(address: &AccountId) -> (r: Vec<u8>)
    ensures
        r@ == address@,
{
    let mut out: Vec<u8> = Vec::new();
    let mut i: usize = 0;
    while i < 32
        invariant
            i <= 32,
            out@ == address@.take(i as int),
        decreases 32 - i,
    {
        out.push(address[i]);
        proof {
            assert(out@ =~= address@.take(i + 1));
        }
        i = i + 1;
    }
    proof {
        assert(out@ =~= address@);
    }
    out
}

/// Whether two byte vectors hold the same bytes.
pub fn bytes_eq(a: &Vec<u8>, b: &Vec<u8>) -> (r: bool)
    ensures
        r == (a@ == b@),
{
    if a.len() != b.len() {
        return false;
    }
    let mut i: usize = 0;
    while i < a.len()
        invariant
            i <= a@.len(),
            a@.len() == b@.len(),
            forall|j: int| 0 <= j < i ==> a@[j] == b@[j],
        decreases a@.len() - i,
    {
        if a[i] != b[i] {
            return false;
        }
        i = i + 1;
    }
    proof {
        assert(a@ =~= b@);
    }
    true
}

/// Whether two addresses hold the same bytes.
pub fn address_eq(a: &AccountId, b: &AccountId) -> (r: bool)
    ensures
        r == (a@ == b@),
{
    let mut i: usize = 0;
    while i < 32
        invariant
            i <= 32,
            forall|j: int| 0 <= j < i ==> a@[j] == b@[j],
        decreases 32 - i,
    {
        if a[i] != b[i] {
            return false;
        }
        i = i + 1;
    }
    proof {
        assert(a@ =~= b@);
    }
    true
}

/// The seed tuple of a project record.
pub open spec fn project_seeds(seed: Seq<u8>) -> Seq<Seq<u8>> {
    seq![tag_project(), seed]
}

/// The derived address and bump of the project record with the given seed.
pub open spec fn project_pda(program_id: Seq<u8>, seed: Seq<u8>) -> Option<(Seq<u8>, u8)> {
    pda_of(project_seeds(seed), program_id)
}

/// The seed tuple of a pool manager record.
pub open spec fn pool_manager_seeds(project: Seq<u8>) -> Seq<Seq<u8>> {
    seq![tag_pool_manager(), project]
}

/// The derived address and bump of the pool manager of the given project.
pub open spec fn pool_manager_pda(program_id: Seq<u8>, project: Seq<u8>) -> Option<(Seq<u8>, u8)> {
    pda_of(pool_manager_seeds(project), program_id)
}

/// The seed tuple of a contribution reward record: the owning project and
/// the project's tier count at creation time.
pub open spec fn reward_seeds(project: Seq<u8>, index: u8) -> Seq<Seq<u8>> {
    seq![tag_reward(), project, seq![index]]
}

/// The derived address and bump of tier `index` of the given project.
pub open spec fn reward_pda(program_id: Seq<u8>, project: Seq<u8>, index: u8) -> Option<
    (Seq<u8>, u8),
> {
    pda_of(reward_seeds(project, index), program_id)
}

/// The seed tuple of a stake vault record: the owning project and the
/// contributor.
pub open spec fn stake_vault_seeds(project: Seq<u8>, staker: Seq<u8>) -> Seq<Seq<u8>> {
    seq![tag_stake_vault(), project, staker]
}

/// The derived address and bump of the vault of the given contributor.
pub open spec fn stake_vault_pda(program_id: Seq<u8>, project: Seq<u8>, staker: Seq<u8>) -> Option<
    (Seq<u8>, u8),
> {
    pda_of(stake_vault_seeds(project, staker), program_id)
}

/// Derive the address of the project record with the given seed.
pub fn project_address(program_id: &AccountId, seed: &Vec<u8>) -> (r: Option<(AccountId, u8)>)
    ensures
        r matches Some(ab) ==> project_pda(program_id@, seed@) == Some((ab.0@, ab.1)),
        r is None ==> project_pda(program_id@, seed@) is None,
{
    let mut seeds: Vec<Vec<u8>> = Vec::new();
    seeds.push(tag_project_bytes());
    seeds.push(copy_bytes(seed));
    proof {
        assert(seeds.deep_view() =~~= project_seeds(seed@));
    }
    derive_program_address(&seeds, program_id)
}

/// Derive the address of the pool manager record of the given project.
pub fn pool_manager_address(program_id: &AccountId, project: &AccountId) -> (r: Option<
    (AccountId, u8),
>)
    ensures
        r matches Some(ab) ==> pool_manager_pda(program_id@, project@) == Some((ab.0@, ab.1)),
        r is None ==> pool_manager_pda(program_id@, project@) is None,
{
    let mut seeds: Vec<Vec<u8>> = Vec::new();
    seeds.push(tag_pool_manager_bytes());
    seeds.push(address_bytes(project));
    proof {
        assert(seeds.deep_view() =~~= pool_manager_seeds(project@));
    }
    derive_program_address(&seeds, program_id)
}

/// Derive the address of tier `index` of the given project.
pub fn reward_address(program_id: &AccountId, project: &AccountId, index: u8) -> (r: Option<
    (AccountId, u8),
>)
    ensures
        r matches Some(ab) ==> reward_pda(program_id@, project@, index) == Some((ab.0@, ab.1)),
        r is None ==> reward_pda(program_id@, project@, index) is None,
{
    let mut seeds: Vec<Vec<u8>> = Vec::new();
    seeds.push(tag_reward_bytes());
    seeds.push(address_bytes(project));
    let mut index_seed: Vec<u8> = Vec::new();
    index_seed.push(index);
    seeds.push(index_seed);
    proof {
        assert(seeds.deep_view() =~~= reward_seeds(project@, index));
    }
    derive_program_address(&seeds, program_id)
}

/// Derive the address of the vault of the given contributor under the
/// given project.
pub fn stake_vault_address(program_id: &AccountId, project: &AccountId, staker: &AccountId) -> (r:
    Option<(AccountId, u8)>)
    ensures
        r matches Some(ab) ==> stake_vault_pda(program_id@, project@, staker@) == Some(
            (ab.0@, ab.1),
        ),
        r is None ==> stake_vault_pda(program_id@, project@, staker@) is None,
{
    let mut seeds: Vec<Vec<u8>> = Vec::new();
    seeds.push(tag_stake_vault_bytes());
    seeds.push(address_bytes(project));
    seeds.push(address_bytes(staker));
    proof {
        assert(seeds.deep_view() =~~= stake_vault_seeds(project@, staker@));
    }
    derive_program_address(&seeds, program_id)
}

/// The seed tuple of a token metadata account under the token-metadata
/// program.
pub open spec fn token_metadata_seeds(token_metadata_program: Seq<u8>, mint: Seq<u8>) -> Seq<
    Seq<u8>,
> {
    seq![tag_metadata(), token_metadata_program, mint]
}

/// The derived address and bump of the metadata account of `mint`.
pub open spec fn token_metadata_pda(token_metadata_program: Seq<u8>, mint: Seq<u8>) -> Option<
    (Seq<u8>, u8),
> {
    pda_of(token_metadata_seeds(token_metadata_program, mint), token_metadata_program)
}

/// The seed tuple of a fixed-edition marker account under the
/// token-metadata program.
pub open spec fn master_edition_seeds(token_metadata_program: Seq<u8>, mint: Seq<u8>) -> Seq<
    Seq<u8>,
> {
    seq![tag_metadata(), token_metadata_program, mint, tag_edition()]
}

/// The derived address and bump of the fixed-edition marker of `mint`.
pub open spec fn master_edition_pda(token_metadata_program: Seq<u8>, mint: Seq<u8>) -> Option<
    (Seq<u8>, u8),
> {
    pda_of(master_edition_seeds(token_metadata_program, mint), token_metadata_program)
}

/// Derive the address of the metadata account of `mint`, which lives
/// under the token-metadata program's own derivation.
pub fn token_metadata_address(token_metadata_program: &AccountId, mint: &AccountId) -> (r: Option<
    (AccountId, u8),
>)
    ensures
        r matches Some(ab) ==> token_metadata_pda(token_metadata_program@, mint@) == Some(
            (ab.0@, ab.1),
        ),
        r is None ==> token_metadata_pda(token_metadata_program@, mint@) is None,
{
    let mut seeds: Vec<Vec<u8>> = Vec::new();
    seeds.push(tag_metadata_bytes());
    seeds.push(address_bytes(token_metadata_program));
    seeds.push(address_bytes(mint));
    proof {
        assert(seeds.deep_view() =~~= token_metadata_seeds(token_metadata_program@, mint@));
    }
    derive_program_address(&seeds, token_metadata_program)
}

/// Derive the address of the fixed-edition marker account of `mint`,
/// which lives under the token-metadata program's own derivation.
pub fn master_edition_address(token_metadata_program: &AccountId, mint: &AccountId) -> (r: Option<
    (AccountId, u8),
>)
    ensures
        r matches Some(ab) ==> master_edition_pda(token_metadata_program@, mint@) == Some(
            (ab.0@, ab.1),
        ),
        r is None ==> master_edition_pda(token_metadata_program@, mint@) is None,
{
    let mut seeds: Vec<Vec<u8>> = Vec::new();
    seeds.push(tag_metadata_bytes());
    seeds.push(address_bytes(token_metadata_program));
    seeds.push(address_bytes(mint));
    seeds.push(tag_edition_bytes());
    proof {
        assert(seeds.deep_view() =~~= master_edition_seeds(token_metadata_program@, mint@));
    }
    derive_program_address(&seeds, token_metadata_program)
}

} // verus!

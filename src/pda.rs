use vstd::prelude::*;

use crate::error::ErrorCode;
use crate::key::AccountKey;

verus! {

/// The program-derived address of `seeds` under `program_id`, with its bump, or `None` when no
/// bump gives one.
pub uninterp spec fn program_address(seeds: Seq<Seq<u8>>, program_id: Seq<u8>) -> Option<
    (Seq<u8>, u8),
>;

/// The seeds of a derivation, as byte sequences.
pub open spec fn seed_views(seeds: Seq<Vec<u8>>) -> Seq<Seq<u8>> {
    seeds.map_values(|s: Vec<u8>| s@)
}

/// Relies on `solana_program`'s `Pubkey::try_find_program_address`: the search, from bump 255
/// down, for the first address derived from the seeds that lies off the curve; a function of
/// the seeds and the program alone, `None` when no bump gives an address.
#[verifier::external_body]
fn try_find_program_address(seeds: &Vec<Vec<u8>>, program_id: &AccountKey) -> (r: Option<
    (AccountKey, u8),
>)
    ensures
        r matches Some((address, bump)) ==> program_address(seed_views(seeds@), program_id@)
            == Some((address@, bump)),
        r is None ==> program_address(seed_views(seeds@), program_id@) is None,
{
    let slices: Vec<&[u8]> = seeds.iter().map(|s| s.as_slice()).collect();
    let program = anchor_lang::prelude::Pubkey::new_from_array(program_id.to_bytes());
    anchor_lang::prelude::Pubkey::try_find_program_address(&slices, &program).map(
        |(address, bump)| (AccountKey::new(address.to_bytes()), bump),
    )
}

/// `b"policy"`.
pub open spec fn policy_seed() -> Seq<u8> {
    seq![112u8, 111, 108, 105, 99, 121]
}

/// `b"progress"`.
pub open spec fn progress_seed() -> Seq<u8> {
    seq![112u8, 114, 111, 103, 114, 101, 115, 115]
}

/// `b"vault"`.
pub open spec fn vault_seed() -> Seq<u8> {
    seq![118u8, 97, 117, 108, 116]
}

/// `b"investor_fee_pos_owner"`.
pub open spec fn position_owner_seed() -> Seq<u8> {
    seq![
        105u8, 110, 118, 101, 115, 116, 111, 114, 95, 102, 101, 101, 95, 112, 111, 115, 95, 111,
        119, 110, 101, 114,
    ]
}

/// `b"treasury"`.
pub open spec fn treasury_seed() -> Seq<u8> {
    seq![116u8, 114, 101, 97, 115, 117, 114, 121]
}

/// The outcome of a derivation: the address and bump, or `InvalidPda` when there is none.
pub open spec fn derivation(seeds: Seq<Seq<u8>>, program_id: AccountKey) -> Result<
    (Seq<u8>, u8),
    ErrorCode,
> {
    match program_address(seeds, program_id@) {
        Some(found) => Ok(found),
        None => Err(ErrorCode::InvalidPda),
    }
}

/// Whether `r` is the derivation of `seeds`.
pub open spec fn derived(
    r: Result<(AccountKey, u8), ErrorCode>,
    seeds: Seq<Seq<u8>>,
    program_id: AccountKey,
) -> bool {
    match r {
        Ok((address, bump)) => derivation(seeds, program_id) == Ok::<(Seq<u8>, u8), ErrorCode>(
            (address@, bump),
        ),
        Err(e) => derivation(seeds, program_id) == Err::<(Seq<u8>, u8), ErrorCode>(e),
    }
}

fn key_bytes(key: &AccountKey) -> (r: Vec<u8>)
    ensures
        r@ == key@,
{
    let mut v: Vec<u8> = Vec::new();
    let mut i: usize = 0;
    while i < 32
        invariant
            0 <= i <= 32,
            key@.len() == 32,
            v@ == key@.subrange(0, i as int),
        decreases 32 - i,
    {
        v.push(key.bytes[i]);
        i = i + 1;
        assert(v@ =~= key@.subrange(0, i as int));
    }
    assert(key@.subrange(0, 32) =~= key@);
    v
}

fn find(seeds: &Vec<Vec<u8>>, program_id: &AccountKey) -> (r: Result<(AccountKey, u8), ErrorCode>)
    ensures
        derived(r, seed_views(seeds@), *program_id),
{
    match try_find_program_address(seeds, program_id) {
        Some(found) => Ok(found),
        None => Err(ErrorCode::InvalidPda),
    }
}

/// Address derivation of the program's records.
pub struct PdaUtils;

impl PdaUtils {
    /// The address of a vault's policy record: seeds `policy` and the vault.
    pub fn derive_policy_config_pda(program_id: &AccountKey, vault: &AccountKey) -> (r: Result<
        (AccountKey, u8),
        ErrorCode,
    >)
        ensures
            derived(r, seq![policy_seed(), vault@], *program_id),
    {
        let seeds: Vec<Vec<u8>> = vec![vec![112u8, 111, 108, 105, 99, 121], key_bytes(vault)];
        assert(seed_views(seeds@) =~= seq![policy_seed(), vault@]);
        find(&seeds, program_id)
    }

    /// The address of a vault's progress record: seeds `progress` and the vault.
    pub fn derive_distribution_progress_pda(program_id: &AccountKey, vault: &AccountKey) -> (r:
        Result<(AccountKey, u8), ErrorCode>)
        ensures
            derived(r, seq![progress_seed(), vault@], *program_id),
    {
        let seeds: Vec<Vec<u8>> = vec![
            vec![112u8, 114, 111, 103, 114, 101, 115, 115],
            key_bytes(vault),
        ];
        assert(seed_views(seeds@) =~= seq![progress_seed(), vault@]);
        find(&seeds, program_id)
    }

    /// The address that owns a vault's honorary position: seeds `vault`, the vault and
    /// `investor_fee_pos_owner`.
    pub fn derive_position_owner_pda(program_id: &AccountKey, vault: &AccountKey) -> (r: Result<
        (AccountKey, u8),
        ErrorCode,
    >)
        ensures
            derived(r, seq![vault_seed(), vault@, position_owner_seed()], *program_id),
    {
        let seeds: Vec<Vec<u8>> = vec![
            vec![118u8, 97, 117, 108, 116],
            key_bytes(vault),
            vec![
                105u8, 110, 118, 101, 115, 116, 111, 114, 95, 102, 101, 101, 95, 112, 111, 115, 95,
                111, 119, 110, 101, 114,
            ],
        ];
        assert(seed_views(seeds@) =~= seq![vault_seed(), vault@, position_owner_seed()]);
        find(&seeds, program_id)
    }

    /// The address of a program-owned treasury: seeds `vault`, the vault, `treasury` and the
    /// quote mint.
    pub fn derive_treasury_ata_pda(
        program_id: &AccountKey,
        vault: &AccountKey,
        quote_mint: &AccountKey,
    ) -> (r: Result<(AccountKey, u8), ErrorCode>)
        ensures
            derived(r, seq![vault_seed(), vault@, treasury_seed(), quote_mint@], *program_id),
    {
        let seeds: Vec<Vec<u8>> = vec![
            vec![118u8, 97, 117, 108, 116],
            key_bytes(vault),
            vec![116u8, 114, 101, 97, 115, 117, 114, 121],
            key_bytes(quote_mint),
        ];
        assert(seed_views(seeds@) =~= seq![vault_seed(), vault@, treasury_seed(), quote_mint@]);
        find(&seeds, program_id)
    }

    /// Whether `pda` and `bump` are the policy record's derivation.
    pub fn validate_policy_config_pda(
        program_id: &AccountKey,
        vault: &AccountKey,
        pda: &AccountKey,
        bump: u8,
    ) -> (r: bool)
        ensures
            r == (derivation(seq![policy_seed(), vault@], *program_id) == Ok::<
                (Seq<u8>, u8),
                ErrorCode,
            >((pda@, bump))),
    {
        match Self::derive_policy_config_pda(program_id, vault) {
            Ok((address, b)) => address.same_as(pda) && b == bump,
            Err(_) => false,
        }
    }

    /// Whether `pda` and `bump` are the progress record's derivation.
    pub fn validate_distribution_progress_pda(
        program_id: &AccountKey,
        vault: &AccountKey,
        pda: &AccountKey,
        bump: u8,
    ) -> (r: bool)
        ensures
            r == (derivation(seq![progress_seed(), vault@], *program_id) == Ok::<
                (Seq<u8>, u8),
                ErrorCode,
            >((pda@, bump))),
    {
        match Self::derive_distribution_progress_pda(program_id, vault) {
            Ok((address, b)) => address.same_as(pda) && b == bump,
            Err(_) => false,
        }
    }

    /// Whether `pda` and `bump` are the position owner's derivation.
    pub fn validate_position_owner_pda(
        program_id: &AccountKey,
        vault: &AccountKey,
        pda: &AccountKey,
        bump: u8,
    ) -> (r: bool)
        ensures
            r == (derivation(seq![vault_seed(), vault@, position_owner_seed()], *program_id)
                == Ok::<(Seq<u8>, u8), ErrorCode>((pda@, bump))),
    {
        match Self::derive_position_owner_pda(program_id, vault) {
            Ok((address, b)) => address.same_as(pda) && b == bump,
            Err(_) => false,
        }
    }
}

} // verus!

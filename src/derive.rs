//! Derived addresses: custodial authorities, lock records, associated token
//! accounts and the concentrated engine's protocol positions.
use vstd::prelude::*;
use crate::keys::{
    clmm_auth_label, clmm_auth_seed, cp_auth_label, cp_auth_seed, cp_engine_auth_label,
    cp_engine_auth_seed, keys_equal, locked_liquidity_label, locked_liquidity_seed,
    locked_position_label, locked_position_seed, protocol_position_label, protocol_position_seed,
    Address, ASSOCIATED_TOKEN_PROGRAM_ID, CLMM_PROGRAM_ID, CPMM_PROGRAM_ID,
};

verus! {

/// The program address and bump seed that the address search finds for
/// `seeds` under `program`, or `None` where it finds none.
pub uninterp spec fn program_address(seeds: Seq<Seq<u8>>, program: Seq<u8>) -> Option<(Seq<u8>, u8)>;

/// The search succeeds only with at most fifteen seeds (the bump seed is the
/// sixteenth) of at most 32 bytes each.
pub open spec fn seeds_in_bounds(seeds: Seq<Seq<u8>>) -> bool {
    seeds.len() <= 15 && forall|i: int| 0 <= i < seeds.len() ==> (#[trigger] seeds[i]).len() <= 32
}

pub open spec fn seeds_view(seeds: Seq<Vec<u8>>) -> Seq<Seq<u8>> {
    seeds.map_values(|s: Vec<u8>| s@)
}

/// Relies on `Pubkey::try_find_program_address` of solana-program (through
/// anchor-lang): a pure function of the seeds and the program identifier,
/// which fails when the seeds are too many or too long.
#[verifier::external_body]
fn find_program_address(seeds: &Vec<Vec<u8>>, program: &Address) -> (r: Option<(Address, u8)>)
    ensures
        match r {
            Some((k, bump)) => program_address(seeds_view(seeds@), program@) == Some((k@, bump)),
            None => program_address(seeds_view(seeds@), program@) is None,
        },
        r is Some ==> seeds_in_bounds(seeds_view(seeds@)),
{
    let slices: Vec<&[u8]> = seeds.iter().map(|s| s.as_slice()).collect();
    let id = anchor_lang::prelude::Pubkey::new_from_array(*program);
    anchor_lang::prelude::Pubkey::try_find_program_address(&slices, &id).map(
        |(k, bump)| (k.to_bytes(), bump),
    )
}

/// `key` is the address derived from `seeds` under `program`.
pub open spec fn is_derived(key: Seq<u8>, seeds: Seq<Seq<u8>>, program: Seq<u8>) -> bool {
    match program_address(seeds, program) {
        Some((k, _)) => k == key,
        None => false,
    }
}

/// Whether `key` is the address derived from `seeds` under `program`.
pub fn check_derived(key: &Address, seeds: &Vec<Vec<u8>>, program: &Address) -> (r: bool)
    ensures
        r == is_derived(key@, seeds_view(seeds@), program@),
{
    match find_program_address(seeds, program) {
        Some((k, _)) => keys_equal(&k, key),
        None => false,
    }
}

/// Seeds of the custodial authority of concentrated positions.
pub open spec fn clmm_authority_seeds() -> Seq<Seq<u8>> {
    seq![clmm_auth_label()]
}

/// Seeds of the custodial authority of constant-product stakes.
pub open spec fn cp_authority_seeds() -> Seq<Seq<u8>> {
    seq![cp_auth_label()]
}

/// Seeds of the lock record of a concentrated position.
pub open spec fn locked_position_seeds(fee_mint: Seq<u8>) -> Seq<Seq<u8>> {
    seq![locked_position_label(), fee_mint]
}

/// Seeds of the lock record of a constant-product stake.
pub open spec fn locked_liquidity_seeds(fee_mint: Seq<u8>) -> Seq<Seq<u8>> {
    seq![locked_liquidity_label(), fee_mint]
}

/// Seeds of the associated token account of `wallet` for `mint`.
pub open spec fn associated_seeds(wallet: Seq<u8>, token_program: Seq<u8>, mint: Seq<u8>) -> Seq<Seq<u8>> {
    seq![wallet, token_program, mint]
}

/// Big-endian bytes of a tick index.
pub open spec fn tick_bytes(t: i32) -> Seq<u8> {
    let u = t as u32;
    seq![(u >> 24u32) as u8, (u >> 16u32) as u8, (u >> 8u32) as u8, u as u8]
}

/// Seeds of the concentrated engine's protocol position of a tick range.
pub open spec fn protocol_position_seeds(pool: Seq<u8>, lower: i32, upper: i32) -> Seq<Seq<u8>> {
    seq![protocol_position_label(), pool, tick_bytes(lower), tick_bytes(upper)]
}

fn one_seed(a: Vec<u8>) -> (r: Vec<Vec<u8>>)
    ensures
        seeds_view(r@) == seq![a@],
{
    let mut r: Vec<Vec<u8>> = Vec::new();
    r.push(a);
    assert(seeds_view(r@) =~= seq![a@]);
    r
}

fn two_seeds(a: Vec<u8>, b: Vec<u8>) -> (r: Vec<Vec<u8>>)
    ensures
        seeds_view(r@) == seq![a@, b@],
{
    let mut r: Vec<Vec<u8>> = Vec::new();
    r.push(a);
    r.push(b);
    assert(seeds_view(r@) =~= seq![a@, b@]);
    r
}

fn key_bytes(k: &Address) -> (r: Vec<u8>)
    ensures
        r@ == k@,
{
    let mut r: Vec<u8> = Vec::new();
    let mut i: usize = 0;
    while i < 32
        invariant
            i <= 32,
            k@.len() == 32,
            r@ == k@.subrange(0, i as int),
        decreases 32 - i,
    {
        r.push(k[i]);
        i = i + 1;
        assert(r@ =~= k@.subrange(0, i as int));
    }
    assert(k@.subrange(0, 32) =~= k@);
    r
}

fn tick_be_bytes(t: i32) -> (r: Vec<u8>)
    ensures
        r@ == tick_bytes(t),
{
    let u: u32 = t as u32;
    let r: Vec<u8> = vec![(u >> 24u32) as u8, (u >> 16u32) as u8, (u >> 8u32) as u8, u as u8];
    assert(r@ =~= tick_bytes(t));
    r
}

/// Whether `key` is the custodial authority of concentrated positions.
pub fn is_clmm_authority(key: &Address, program: &Address) -> (r: bool)
    ensures
        r == is_derived(key@, clmm_authority_seeds(), program@),
{
    let seeds = one_seed(clmm_auth_seed());
    check_derived(key, &seeds, program)
}

/// Whether `key` is the custodial authority of constant-product stakes.
pub fn is_cp_authority(key: &Address, program: &Address) -> (r: bool)
    ensures
        r == is_derived(key@, cp_authority_seeds(), program@),
{
    let seeds = one_seed(cp_auth_seed());
    check_derived(key, &seeds, program)
}

/// Whether `key` is the constant-product engine's vault and mint authority.
pub fn is_cp_engine_authority(key: &Address) -> (r: bool)
    ensures
        r == is_derived(key@, seq![cp_engine_auth_label()], CPMM_PROGRAM_ID@),
{
    let seeds = one_seed(cp_engine_auth_seed());
    check_derived(key, &seeds, &CPMM_PROGRAM_ID)
}

/// Whether `key` is the lock record of a concentrated position keyed by `fee_mint`.
pub fn is_locked_position_address(key: &Address, fee_mint: &Address, program: &Address) -> (r: bool)
    ensures
        r == is_derived(key@, locked_position_seeds(fee_mint@), program@),
{
    let seeds = two_seeds(locked_position_seed(), key_bytes(fee_mint));
    check_derived(key, &seeds, program)
}

/// Whether `key` is the lock record of a constant-product stake keyed by `fee_mint`.
pub fn is_locked_liquidity_address(key: &Address, fee_mint: &Address, program: &Address) -> (r: bool)
    ensures
        r == is_derived(key@, locked_liquidity_seeds(fee_mint@), program@),
{
    let seeds = two_seeds(locked_liquidity_seed(), key_bytes(fee_mint));
    check_derived(key, &seeds, program)
}

/// Whether `key` is the associated token account of `wallet` for `mint`
/// under `token_program`.
pub fn is_associated_account(key: &Address, wallet: &Address, token_program: &Address, mint: &Address) -> (r:
    bool)
    ensures
        r == is_derived(key@, associated_seeds(wallet@, token_program@, mint@), ASSOCIATED_TOKEN_PROGRAM_ID@),
{
    let mut seeds: Vec<Vec<u8>> = Vec::new();
    seeds.push(key_bytes(wallet));
    seeds.push(key_bytes(token_program));
    seeds.push(key_bytes(mint));
    assert(seeds_view(seeds@) =~= associated_seeds(wallet@, token_program@, mint@));
    check_derived(key, &seeds, &ASSOCIATED_TOKEN_PROGRAM_ID)
}

/// Whether `key` is the concentrated engine's protocol position of the tick
/// range `lower..upper` in `pool`.
pub fn is_protocol_position_address(key: &Address, pool: &Address, lower: i32, upper: i32) -> (r: bool)
    ensures
        r == is_derived(key@, protocol_position_seeds(pool@, lower, upper), CLMM_PROGRAM_ID@),
{
    let mut seeds: Vec<Vec<u8>> = Vec::new();
    seeds.push(protocol_position_seed());
    seeds.push(key_bytes(pool));
    seeds.push(tick_be_bytes(lower));
    seeds.push(tick_be_bytes(upper));
    assert(seeds_view(seeds@) =~= protocol_position_seeds(pool@, lower, upper));
    check_derived(key, &seeds, &CLMM_PROGRAM_ID)
}

/// The bump seed of the concentrated-position lock record at `key`, keyed by
/// `fee_mint`; `None` where `key` is not that record's address.
pub fn locked_position_bump(key: &Address, fee_mint: &Address, program: &Address) -> (r: Option<u8>)
    ensures
        r is Some <==> is_derived(key@, locked_position_seeds(fee_mint@), program@),
        r matches Some(b) ==> program_address(locked_position_seeds(fee_mint@), program@) == Some((key@, b)),
{
    let seeds = two_seeds(locked_position_seed(), key_bytes(fee_mint));
    match find_program_address(&seeds, program) {
        Some((k, bump)) => if keys_equal(&k, key) {
            Some(bump)
        } else {
            None
        },
        None => None,
    }
}

/// Two lock records at distinct addresses, each derived from its own
/// entitlement mint, are bound to distinct mints: an entitlement mint keys
/// at most one record of each kind.
pub proof fn lemma_entitlement_mint_unique(key_1: Seq<u8>, key_2: Seq<u8>, mint_1: Seq<u8>, mint_2: Seq<u8>, program: Seq<u8>)
    requires
        key_1 != key_2,
    ensures
        is_derived(key_1, locked_position_seeds(mint_1), program) && is_derived(key_2, locked_position_seeds(mint_2), program)
            ==> mint_1 != mint_2,
        is_derived(key_1, locked_liquidity_seeds(mint_1), program) && is_derived(key_2, locked_liquidity_seeds(mint_2), program)
            ==> mint_1 != mint_2,
{
}

} // verus!

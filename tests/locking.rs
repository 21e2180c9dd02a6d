use anchor_lang::prelude::Pubkey;
use liquidity_locking::clmm::{
    collect_clmm_fees_and_rewards, lock_clmm_position, CollectClmmFeeAndReward, HarvestRequest,
    LockClmmPosition,
};
use liquidity_locking::cp::{
    collect_cp_fees, lock_cp_liquidity, pool_invariant, settle_cp_fees, CollectCpFee, FeeRequest,
    LockCpLiquidity,
};
use liquidity_locking::derive::{is_clmm_authority, is_cp_authority, is_protocol_position_address};
use liquidity_locking::fee::accrued_fee_amount;
use liquidity_locking::keys::{
    keys_equal, Address, ASSOCIATED_TOKEN_PROGRAM_ID, CLMM_PROGRAM_ID, CPMM_PROGRAM_ID,
    LOCKING_PROGRAM_ID, TOKEN_2022_PROGRAM_ID, TOKEN_PROGRAM_ID,
};
use liquidity_locking::states::{
    LockError, LockedClmmPositionState, LockedCpLiquidityState, TokenAccountSnapshot,
};

fn pda(seeds: &[&[u8]], program: &Address) -> (Address, u8) {
    let (k, b) = Pubkey::find_program_address(seeds, &Pubkey::new_from_array(*program));
    (k.to_bytes(), b)
}

fn ata(wallet: &Address, token_program: &Address, mint: &Address) -> Address {
    pda(&[wallet, token_program, mint], &ASSOCIATED_TOKEN_PROGRAM_ID).0
}

fn key(n: u8) -> Address {
    [n; 32]
}

fn cp_authority() -> Address {
    pda(&[b"lock_cp_authority_seed"], &LOCKING_PROGRAM_ID).0
}

fn clmm_authority() -> Address {
    pda(&[b"program_authority_seed"], &LOCKING_PROGRAM_ID).0
}

fn cp_record(locked: u64, supply: u64, k: u128) -> LockedCpLiquidityState {
    LockedCpLiquidityState {
        locked_lp_amount: locked,
        claimed_lp_amount: 0,
        unclaimed_lp_amount: 0,
        last_lp: supply,
        last_k: k,
        recent_epoch: 0,
        pool_id: key(1),
        fee_nft_mint: key(2),
        locked_owner: key(3),
        locked_lp_mint: key(4),
        padding: [0; 8],
    }
}

fn lock_cp_ctx(balance: u64) -> LockCpLiquidity {
    let authority = cp_authority();
    let fee_mint = key(20);
    let lp_mint = key(4);
    let owner = key(3);
    let fee_owner = key(21);
    LockCpLiquidity {
        authority,
        liquidity_owner: owner,
        fee_nft_owner: fee_owner,
        fee_nft_mint: fee_mint,
        fee_nft_mint_exists: false,
        fee_nft_account: ata(&fee_owner, &TOKEN_PROGRAM_ID, &fee_mint),
        pool_state: key(1),
        pool_lp_mint: lp_mint,
        pool_token_0_vault: key(80),
        pool_token_1_vault: key(81),
        token_0_vault: key(80),
        token_1_vault: key(81),
        locked_liquidity: pda(&[b"locked_liquidity", &fee_mint], &LOCKING_PROGRAM_ID).0,
        locked_liquidity_exists: false,
        lp_mint,
        liquidity_owner_lp: TokenAccountSnapshot { key: key(30), mint: lp_mint, owner, amount: balance },
        locked_lp_vault: ata(&authority, &TOKEN_PROGRAM_ID, &lp_mint),
        token_program: TOKEN_PROGRAM_ID,
        lp_supply: 1_000,
        vault_0_amount: 100,
        vault_1_amount: 100,
        epoch: 7,
    }
}

fn collect_cp_ctx(record: LockedCpLiquidityState, r0: u64, r1: u64, supply: u64) -> CollectCpFee {
    let authority = cp_authority();
    let fee_owner = key(21);
    CollectCpFee {
        authority,
        fee_nft_owner: fee_owner,
        fee_nft_account: TokenAccountSnapshot {
            key: key(40),
            mint: record.fee_nft_mint,
            owner: fee_owner,
            amount: 1,
        },
        locked_liquidity: record,
        cpmm_program: CPMM_PROGRAM_ID,
        cp_authority: pda(&[b"vault_and_lp_mint_auth_seed"], &CPMM_PROGRAM_ID).0,
        pool_state: record.pool_id,
        lp_mint: record.locked_lp_mint,
        locked_lp_vault: ata(&authority, &TOKEN_PROGRAM_ID, &record.locked_lp_mint),
        token_program: TOKEN_PROGRAM_ID,
        pool_token_0_vault: key(80),
        pool_token_1_vault: key(81),
        token_0_vault: TokenAccountSnapshot { key: key(80), mint: key(82), owner: key(1), amount: r0 },
        token_1_vault: TokenAccountSnapshot { key: key(81), mint: key(83), owner: key(1), amount: r1 },
        recipient_token_0_account: TokenAccountSnapshot { key: key(84), mint: key(82), owner: fee_owner, amount: 0 },
        recipient_token_1_account: TokenAccountSnapshot { key: key(85), mint: key(83), owner: fee_owner, amount: 0 },
        lp_supply: supply,
        vault_0_amount: r0,
        vault_1_amount: r1,
        epoch: 9,
    }
}

#[test]
fn fee_of_invariant_growth_example() {
    assert_eq!(accrued_fee_amount(1_000, 1_000, 10_000, 1_000, 10_100), 4);
}

#[test]
fn fee_without_growth_is_zero() {
    assert_eq!(accrued_fee_amount(1_000, 1_000, 10_000, 1_000, 10_000), 0);
    assert_eq!(accrued_fee_amount(0, 1_000, 10_000, 1_000, 10_100), 0);
}

#[test]
fn fee_when_value_per_token_falls_is_zero() {
    assert_eq!(accrued_fee_amount(1_000, 1_000, 10_100, 1_000, 10_000), 0);
}

#[test]
fn fee_with_unmeasurable_snapshot_is_zero() {
    assert_eq!(accrued_fee_amount(1_000, 0, 10_000, 1_000, 10_100), 0);
    assert_eq!(accrued_fee_amount(1_000, 1_000, 10_000, 1_000, 0), 0);
}

#[test]
fn fee_supply_growth_dilutes() {
    // Supply doubles and the invariant quadruples: a proportional deposit, no fee.
    assert_eq!(accrued_fee_amount(1_000, 1_000, 10_000, 2_000, 40_000), 0);
    // Invariant quadruples with supply unchanged: value per token doubles, half is fee.
    assert_eq!(accrued_fee_amount(1_000, 1_000, 10_000, 1_000, 40_000), 500);
}

#[test]
fn fee_on_large_pools_does_not_overflow() {
    // Supply 1e12 and reserves 1e12 each: k = 1e24, far past 128-bit squares.
    let k = pool_invariant(1_000_000_000_000, 1_000_000_000_000);
    assert_eq!(accrued_fee_amount(1_000_000_000, 1_000_000_000_000, k, 1_000_000_000_000, k), 0);
    // Invariant grows by a factor of four at constant supply: half is fee.
    assert_eq!(accrued_fee_amount(1_000_000_000, 1_000_000_000_000, k, 1_000_000_000_000, 4 * k), 500_000_000);
    // Extreme values.
    assert_eq!(accrued_fee_amount(u64::MAX, u64::MAX, u128::MAX, u64::MAX, u128::MAX), 0);
    assert_eq!(accrued_fee_amount(u64::MAX, u64::MAX, u128::MAX / 4, u64::MAX, u128::MAX), 9_223_372_036_854_775_807);
}

#[test]
fn pool_invariant_is_product() {
    assert_eq!(pool_invariant(100, 101), 10_100);
    assert_eq!(pool_invariant(u64::MAX, u64::MAX), (u64::MAX as u128) * (u64::MAX as u128));
}

#[test]
fn fee_request_from_amount() {
    assert_eq!(FeeRequest::from_amount(u64::MAX), FeeRequest::All);
    assert_eq!(FeeRequest::from_amount(5), FeeRequest::Exact(5));
}

#[test]
fn settle_example_collects_growth() {
    let mut rec = cp_record(1_000, 1_000, 10_000);
    let w = settle_cp_fees(&mut rec, 1_000, 10_100, FeeRequest::All, 3);
    assert_eq!(w, 4);
    assert_eq!(rec.claimed_lp_amount, 4);
    assert_eq!(rec.unclaimed_lp_amount, 0);
    assert_eq!(rec.last_k, 10_100);
    assert_eq!(rec.last_lp, 1_000);
    assert_eq!(rec.recent_epoch, 3);
    assert_eq!(rec.locked_lp_amount, 1_000);
}

#[test]
fn second_collect_all_is_empty() {
    let mut rec = cp_record(1_000, 1_000, 10_000);
    assert_eq!(settle_cp_fees(&mut rec, 1_000, 10_100, FeeRequest::All, 3), 4);
    assert_eq!(settle_cp_fees(&mut rec, 1_000, 10_100, FeeRequest::All, 4), 0);
    assert_eq!(rec.claimed_lp_amount, 4);
    assert_eq!(rec.unclaimed_lp_amount, 0);
}

#[test]
fn request_is_clamped_to_owed() {
    let mut rec = cp_record(1_000, 1_000, 10_000);
    assert_eq!(settle_cp_fees(&mut rec, 1_000, 10_100, FeeRequest::Exact(100), 3), 4);
    assert_eq!(rec.unclaimed_lp_amount, 0);
    let mut rec = cp_record(1_000, 1_000, 10_000);
    assert_eq!(settle_cp_fees(&mut rec, 1_000, 10_100, FeeRequest::Exact(1), 3), 1);
    assert_eq!(rec.claimed_lp_amount, 1);
    assert_eq!(rec.unclaimed_lp_amount, 3);
    // What stays owed is kept and paid later.
    assert_eq!(settle_cp_fees(&mut rec, 1_000, 10_100, FeeRequest::All, 4), 3);
    assert_eq!(rec.claimed_lp_amount, 4);
    assert_eq!(rec.unclaimed_lp_amount, 0);
}

#[test]
fn second_collect_all_after_pool_growth_is_empty() {
    // Locked at supply 1000 and k 1e6; the pool is now at supply 1e12 and k 1e24.
    let mut rec = cp_record(1_000, 1_000, 1_000_000);
    let k_now: u128 = 1_000_000_000_000_000_000_000_000;
    assert_eq!(settle_cp_fees(&mut rec, 1_000_000_000_000, k_now, FeeRequest::All, 3), 0);
    assert_eq!(settle_cp_fees(&mut rec, 1_000_000_000_000, k_now, FeeRequest::All, 4), 0);
    assert_eq!(rec.last_k, k_now);
    assert_eq!(rec.unclaimed_lp_amount, 0);
}

#[test]
fn lock_cp_creates_record() {
    let ctx = lock_cp_ctx(5_000);
    let plan = lock_cp_liquidity(&ctx, &LOCKING_PROGRAM_ID, 1_000, true).unwrap();
    assert_eq!(plan.record.locked_lp_amount, 1_000);
    assert_eq!(plan.record.claimed_lp_amount, 0);
    assert_eq!(plan.record.unclaimed_lp_amount, 0);
    assert_eq!(plan.record.last_lp, 1_000);
    assert_eq!(plan.record.last_k, 10_000);
    assert_eq!(plan.record.fee_nft_mint, ctx.fee_nft_mint);
    assert_eq!(plan.record.recent_epoch, 7);
    assert_eq!(plan.lp_transfer_amount, 1_000);
    assert_eq!(plan.fee_nft_amount, 1);
    assert_eq!(plan.fee_nft_decimals, 0);
    assert_eq!(plan.fee_nft_mint_authority, ctx.authority);
    assert!(plan.with_metadata);
}

#[test]
fn lock_cp_errors() {
    let ctx = lock_cp_ctx(500);
    assert_eq!(lock_cp_liquidity(&ctx, &LOCKING_PROGRAM_ID, 0, false).unwrap_err(), LockError::ZeroAmount);
    assert_eq!(lock_cp_liquidity(&ctx, &LOCKING_PROGRAM_ID, 501, false).unwrap_err(), LockError::InsufficientBalance);
    assert!(lock_cp_liquidity(&ctx, &LOCKING_PROGRAM_ID, 500, false).is_ok());
    let mut c = ctx;
    c.locked_liquidity_exists = true;
    assert_eq!(lock_cp_liquidity(&c, &LOCKING_PROGRAM_ID, 10, false).unwrap_err(), LockError::AlreadyLocked);
    let mut c = ctx;
    c.fee_nft_mint_exists = true;
    assert_eq!(lock_cp_liquidity(&c, &LOCKING_PROGRAM_ID, 10, false).unwrap_err(), LockError::AlreadyLocked);
    let mut c = ctx;
    c.pool_lp_mint = key(9);
    assert_eq!(lock_cp_liquidity(&c, &LOCKING_PROGRAM_ID, 10, false).unwrap_err(), LockError::PoolMismatch);
    let mut c = ctx;
    c.token_1_vault = key(9);
    assert_eq!(lock_cp_liquidity(&c, &LOCKING_PROGRAM_ID, 10, false).unwrap_err(), LockError::PoolMismatch);
    let mut c = ctx;
    c.authority = key(9);
    assert_eq!(lock_cp_liquidity(&c, &LOCKING_PROGRAM_ID, 10, false).unwrap_err(), LockError::InvalidAuthority);
    let mut c = ctx;
    c.locked_liquidity = key(9);
    assert_eq!(lock_cp_liquidity(&c, &LOCKING_PROGRAM_ID, 10, false).unwrap_err(), LockError::InvalidLockRecord);
    let mut c = ctx;
    c.liquidity_owner_lp.mint = key(9);
    assert_eq!(lock_cp_liquidity(&c, &LOCKING_PROGRAM_ID, 10, false).unwrap_err(), LockError::MintMismatch);
    let mut c = ctx;
    c.liquidity_owner_lp.owner = key(9);
    assert_eq!(lock_cp_liquidity(&c, &LOCKING_PROGRAM_ID, 10, false).unwrap_err(), LockError::OwnerMismatch);
    let mut c = ctx;
    c.token_program = TOKEN_2022_PROGRAM_ID;
    assert_eq!(lock_cp_liquidity(&c, &LOCKING_PROGRAM_ID, 10, false).unwrap_err(), LockError::InvalidTokenProgram);
    let mut c = ctx;
    c.locked_lp_vault = key(9);
    assert_eq!(lock_cp_liquidity(&c, &LOCKING_PROGRAM_ID, 10, false).unwrap_err(), LockError::InvalidCustodyAccount);
    let mut c = ctx;
    c.fee_nft_account = key(9);
    assert_eq!(lock_cp_liquidity(&c, &LOCKING_PROGRAM_ID, 10, false).unwrap_err(), LockError::InvalidEntitlementAccount);
}

#[test]
fn lock_then_collect_yields_nothing() {
    let ctx = lock_cp_ctx(5_000);
    let plan = lock_cp_liquidity(&ctx, &LOCKING_PROGRAM_ID, 1_000, false).unwrap();
    let mut c = collect_cp_ctx(plan.record, 100, 100, 1_000);
    assert_eq!(collect_cp_fees(&mut c, &LOCKING_PROGRAM_ID, FeeRequest::All), Ok(0));
    assert_eq!(c.locked_liquidity.unclaimed_lp_amount, 0);
    assert_eq!(c.locked_liquidity.claimed_lp_amount, 0);
}

#[test]
fn lock_then_collect_on_large_pool_yields_nothing() {
    let mut ctx = lock_cp_ctx(5_000_000_000);
    ctx.lp_supply = 1_000_000_000_000;
    ctx.vault_0_amount = 1_000_000_000_000;
    ctx.vault_1_amount = 1_000_000_000_000;
    let plan = lock_cp_liquidity(&ctx, &LOCKING_PROGRAM_ID, 1_000_000_000, false).unwrap();
    let mut c = collect_cp_ctx(plan.record, 1_000_000_000_000, 1_000_000_000_000, 1_000_000_000_000);
    assert_eq!(collect_cp_fees(&mut c, &LOCKING_PROGRAM_ID, FeeRequest::All), Ok(0));
    assert_eq!(c.locked_liquidity.unclaimed_lp_amount, 0);
    assert_eq!(c.locked_liquidity.claimed_lp_amount, 0);
}

#[test]
fn collect_cp_example() {
    let ctx = lock_cp_ctx(5_000);
    let plan = lock_cp_liquidity(&ctx, &LOCKING_PROGRAM_ID, 1_000, false).unwrap();
    let mut c = collect_cp_ctx(plan.record, 100, 101, 1_000);
    assert_eq!(collect_cp_fees(&mut c, &LOCKING_PROGRAM_ID, FeeRequest::from_amount(u64::MAX)), Ok(4));
    assert_eq!(c.locked_liquidity.last_k, 10_100);
    assert_eq!(c.locked_liquidity.claimed_lp_amount, 4);
    assert_eq!(c.locked_liquidity.recent_epoch, 9);
    assert_eq!(collect_cp_fees(&mut c, &LOCKING_PROGRAM_ID, FeeRequest::All), Ok(0));
}

#[test]
fn collect_cp_rejects_foreign_entitlement() {
    let rec = cp_record(1_000, 1_000, 10_000);
    let mut c = collect_cp_ctx(rec, 100, 101, 1_000);
    c.fee_nft_account.mint = key(99);
    assert_eq!(collect_cp_fees(&mut c, &LOCKING_PROGRAM_ID, FeeRequest::All), Err(LockError::EntitlementMismatch));
    assert_eq!(c.locked_liquidity.last_k, 10_000);
    for amount in [0u64, 1, 4, u64::MAX] {
        let mut c2 = c;
        assert!(collect_cp_fees(&mut c2, &LOCKING_PROGRAM_ID, FeeRequest::from_amount(amount)).is_err());
    }
}

#[test]
fn collect_cp_errors() {
    let rec = cp_record(1_000, 1_000, 10_000);
    let base = collect_cp_ctx(rec, 100, 101, 1_000);
    let mut c = base;
    c.fee_nft_account.amount = 0;
    assert_eq!(collect_cp_fees(&mut c, &LOCKING_PROGRAM_ID, FeeRequest::All), Err(LockError::InvalidTokenAmount));
    let mut c = base;
    c.fee_nft_account.owner = key(9);
    assert_eq!(collect_cp_fees(&mut c, &LOCKING_PROGRAM_ID, FeeRequest::All), Err(LockError::OwnerMismatch));
    let mut c = base;
    c.cpmm_program = CLMM_PROGRAM_ID;
    assert_eq!(collect_cp_fees(&mut c, &LOCKING_PROGRAM_ID, FeeRequest::All), Err(LockError::InvalidProgram));
    let mut c = base;
    c.cp_authority = key(9);
    assert_eq!(collect_cp_fees(&mut c, &LOCKING_PROGRAM_ID, FeeRequest::All), Err(LockError::InvalidEngineAuthority));
    let mut c = base;
    c.pool_state = key(9);
    assert_eq!(collect_cp_fees(&mut c, &LOCKING_PROGRAM_ID, FeeRequest::All), Err(LockError::PoolMismatch));
    let mut c = base;
    c.lp_mint = key(9);
    assert_eq!(collect_cp_fees(&mut c, &LOCKING_PROGRAM_ID, FeeRequest::All), Err(LockError::MintMismatch));
    let mut c = base;
    c.locked_lp_vault = key(9);
    assert_eq!(collect_cp_fees(&mut c, &LOCKING_PROGRAM_ID, FeeRequest::All), Err(LockError::InvalidCustodyAccount));
    let mut c = base;
    c.token_0_vault.key = key(9);
    assert_eq!(collect_cp_fees(&mut c, &LOCKING_PROGRAM_ID, FeeRequest::All), Err(LockError::PoolMismatch));
    let mut c = base;
    c.recipient_token_0_account.mint = key(9);
    assert_eq!(collect_cp_fees(&mut c, &LOCKING_PROGRAM_ID, FeeRequest::All), Err(LockError::RecipientMismatch));
    assert_eq!(c.locked_liquidity.last_k, 10_000);
}

#[test]
fn authorities_are_derived() {
    let cp = cp_authority();
    let clmm = clmm_authority();
    assert!(is_cp_authority(&cp, &LOCKING_PROGRAM_ID));
    assert!(is_clmm_authority(&clmm, &LOCKING_PROGRAM_ID));
    assert!(!is_cp_authority(&clmm, &LOCKING_PROGRAM_ID));
    assert!(!is_clmm_authority(&cp, &LOCKING_PROGRAM_ID));
    assert!(!is_clmm_authority(&LOCKING_PROGRAM_ID, &LOCKING_PROGRAM_ID));
    assert!(!keys_equal(&cp, &clmm));
}

#[test]
fn protocol_position_uses_big_endian_ticks() {
    let pool = key(50);
    let lower: i32 = -120;
    let upper: i32 = 360;
    let expected = pda(
        &[b"position", &pool, &lower.to_be_bytes(), &upper.to_be_bytes()],
        &CLMM_PROGRAM_ID,
    )
    .0;
    assert!(is_protocol_position_address(&expected, &pool, lower, upper));
    assert!(!is_protocol_position_address(&expected, &pool, upper, lower));
}

fn lock_clmm_ctx() -> LockClmmPosition {
    let authority = clmm_authority();
    let position_mint = key(60);
    let owner = key(61);
    let fee_mint = key(62);
    let fee_owner = key(63);
    LockClmmPosition {
        authority,
        position_nft_owner: owner,
        fee_nft_owner: fee_owner,
        position_nft_account: TokenAccountSnapshot { key: key(64), mint: position_mint, owner, amount: 1 },
        personal_position: key(65),
        personal_position_nft_mint: position_mint,
        personal_position_pool_id: key(50),
        position_nft_mint: position_mint,
        locked_nft_account: ata(&authority, &TOKEN_2022_PROGRAM_ID, &position_mint),
        locked_position: pda(&[b"locked_position", &fee_mint], &LOCKING_PROGRAM_ID).0,
        locked_position_exists: false,
        fee_nft_mint: fee_mint,
        fee_nft_mint_exists: false,
        fee_nft_account: ata(&fee_owner, &TOKEN_PROGRAM_ID, &fee_mint),
        fee_nft_token_program: TOKEN_PROGRAM_ID,
        locked_nft_token_program: TOKEN_2022_PROGRAM_ID,
        epoch: 11,
    }
}

#[test]
fn lock_clmm_creates_record() {
    let ctx = lock_clmm_ctx();
    let plan = lock_clmm_position(&ctx, &LOCKING_PROGRAM_ID, false).unwrap();
    let bump = pda(&[b"locked_position", &ctx.fee_nft_mint], &LOCKING_PROGRAM_ID).1;
    assert_eq!(plan.record.bump, [bump]);
    assert_eq!(plan.record.fee_nft_mint, ctx.fee_nft_mint);
    assert_eq!(plan.record.position_id, ctx.personal_position);
    assert_eq!(plan.record.pool_id, ctx.personal_position_pool_id);
    assert_eq!(plan.record.locked_nft_account, ctx.locked_nft_account);
    assert_eq!(plan.record.recent_epoch, 11);
    assert_eq!(plan.position_transfer_amount, 1);
    assert_eq!(plan.fee_nft_amount, 1);
    assert_eq!(plan.fee_nft_decimals, 0);
    assert_eq!(plan.fee_nft_mint_authority, ctx.authority);
    assert!(!plan.with_metadata);
}

#[test]
fn lock_clmm_errors() {
    let ctx = lock_clmm_ctx();
    let mut c = ctx;
    c.position_nft_account.amount = 2;
    assert_eq!(lock_clmm_position(&c, &LOCKING_PROGRAM_ID, true).unwrap_err(), LockError::InvalidTokenAmount);
    let mut c = ctx;
    c.personal_position_nft_mint = key(9);
    assert_eq!(lock_clmm_position(&c, &LOCKING_PROGRAM_ID, true).unwrap_err(), LockError::MintMismatch);
    let mut c = ctx;
    c.locked_position_exists = true;
    assert_eq!(lock_clmm_position(&c, &LOCKING_PROGRAM_ID, true).unwrap_err(), LockError::AlreadyLocked);
    let mut c = ctx;
    c.fee_nft_mint_exists = true;
    assert_eq!(lock_clmm_position(&c, &LOCKING_PROGRAM_ID, true).unwrap_err(), LockError::AlreadyLocked);
    let mut c = ctx;
    c.locked_nft_token_program = key(9);
    assert_eq!(lock_clmm_position(&c, &LOCKING_PROGRAM_ID, true).unwrap_err(), LockError::InvalidTokenProgram);
    let mut c = ctx;
    c.fee_nft_mint = key(9);
    assert_eq!(lock_clmm_position(&c, &LOCKING_PROGRAM_ID, true).unwrap_err(), LockError::InvalidLockRecord);
    let mut c = ctx;
    c.locked_nft_account = key(9);
    assert_eq!(lock_clmm_position(&c, &LOCKING_PROGRAM_ID, true).unwrap_err(), LockError::InvalidCustodyAccount);
}

fn collect_clmm_ctx() -> CollectClmmFeeAndReward {
    let lock = lock_clmm_ctx();
    let record: LockedClmmPositionState = lock_clmm_position(&lock, &LOCKING_PROGRAM_ID, false).unwrap().record;
    let pool = key(50);
    let holder = key(70);
    CollectClmmFeeAndReward {
        authority: lock.authority,
        fee_nft_owner: holder,
        fee_nft_account: TokenAccountSnapshot { key: key(71), mint: record.fee_nft_mint, owner: holder, amount: 1 },
        locked_position_key: lock.locked_position,
        locked_position: record,
        clmm_program: CLMM_PROGRAM_ID,
        locked_nft_account: TokenAccountSnapshot {
            key: record.locked_nft_account,
            mint: lock.position_nft_mint,
            owner: lock.authority,
            amount: 1,
        },
        personal_position: record.position_id,
        personal_position_nft_mint: lock.position_nft_mint,
        personal_position_pool_id: pool,
        tick_lower_index: -60,
        tick_upper_index: 60,
        pool_state: pool,
        pool_token_vault_0: key(72),
        pool_token_vault_1: key(73),
        protocol_position: pda(&[b"position", &pool, &(-60i32).to_be_bytes(), &60i32.to_be_bytes()], &CLMM_PROGRAM_ID).0,
        protocol_position_pool_id: pool,
        token_0_vault: TokenAccountSnapshot { key: key(72), mint: key(74), owner: pool, amount: 10 },
        token_1_vault: TokenAccountSnapshot { key: key(73), mint: key(75), owner: pool, amount: 10 },
        tick_array_lower_pool_id: pool,
        tick_array_upper_pool_id: pool,
        recipient_token_0_account: TokenAccountSnapshot { key: key(76), mint: key(74), owner: holder, amount: 0 },
        recipient_token_1_account: TokenAccountSnapshot { key: key(77), mint: key(75), owner: holder, amount: 0 },
        epoch: 12,
    }
}

#[test]
fn collect_clmm_harvests_without_principal() {
    let mut c = collect_clmm_ctx();
    let r = collect_clmm_fees_and_rewards(&mut c, &LOCKING_PROGRAM_ID);
    assert_eq!(r, Ok(HarvestRequest { liquidity: 0, amount_0_min: 0, amount_1_min: 0 }));
    assert_eq!(c.locked_position.recent_epoch, 12);
}

#[test]
fn collect_clmm_rejects_foreign_entitlement() {
    let mut c = collect_clmm_ctx();
    c.fee_nft_account.mint = key(99);
    assert_eq!(collect_clmm_fees_and_rewards(&mut c, &LOCKING_PROGRAM_ID), Err(LockError::EntitlementMismatch));
    assert_eq!(c.locked_position.recent_epoch, 11);
}

#[test]
fn collect_clmm_errors() {
    let base = collect_clmm_ctx();
    let mut c = base;
    c.fee_nft_account.amount = 0;
    assert_eq!(collect_clmm_fees_and_rewards(&mut c, &LOCKING_PROGRAM_ID), Err(LockError::InvalidTokenAmount));
    let mut c = base;
    c.locked_position_key = key(9);
    assert_eq!(collect_clmm_fees_and_rewards(&mut c, &LOCKING_PROGRAM_ID), Err(LockError::InvalidLockRecord));
    let mut c = base;
    c.tick_upper_index = 120;
    assert_eq!(collect_clmm_fees_and_rewards(&mut c, &LOCKING_PROGRAM_ID), Err(LockError::PositionMismatch));
    let mut c = base;
    c.token_0_vault.key = key(9);
    assert_eq!(collect_clmm_fees_and_rewards(&mut c, &LOCKING_PROGRAM_ID), Err(LockError::PoolMismatch));
    let mut c = base;
    c.recipient_token_1_account.mint = key(9);
    assert_eq!(collect_clmm_fees_and_rewards(&mut c, &LOCKING_PROGRAM_ID), Err(LockError::RecipientMismatch));
    let mut c = base;
    c.locked_nft_account.owner = key(9);
    assert_eq!(collect_clmm_fees_and_rewards(&mut c, &LOCKING_PROGRAM_ID), Err(LockError::InvalidCustodyAccount));
}

#[test]
fn record_sizes() {
    assert_eq!(LockedCpLiquidityState::LEN, 8 + 4 * 8 + 16 + 8 + 32 * 4 + 64);
    assert_eq!(LockedClmmPositionState::LEN, 8 + 1 + 32 * 5 + 8 + 64);
}

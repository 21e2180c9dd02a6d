//! Locking constant-product liquidity and collecting its fees.
use vstd::prelude::*;
use crate::derive::{
    associated_seeds, cp_authority_seeds, is_associated_account, is_cp_authority,
    is_cp_engine_authority, is_derived, is_locked_liquidity_address, locked_liquidity_seeds,
};
use crate::fee::{
    accrued_fee, accrued_fee_amount, lemma_accrued_fee_bounds,
    lemma_no_growth_no_fee,
};
use crate::keys::{cp_engine_auth_label, keys_equal, Address, CPMM_PROGRAM_ID, TOKEN_PROGRAM_ID};
use crate::states::{LockError, LockedCpLiquidityState, TokenAccountSnapshot};

verus! {

/// How much of the owed fee to withdraw.
#[derive(Debug, Clone, Copy, PartialEq, Eq, Structural)]
pub enum FeeRequest {
    /// At most this many liquidity tokens.
    Exact(u64),
    /// Everything that is owed.
    All,
}

impl FeeRequest {
    /// Reads an amount, where `u64::MAX` asks for everything owed.
    pub fn from_amount(amount: u64) -> (r: FeeRequest)
        ensures
            amount == u64::MAX ==> r == FeeRequest::All,
            amount < u64::MAX ==> r == FeeRequest::Exact(amount),
    {
        if amount == u64::MAX {
            FeeRequest::All
        } else {
            FeeRequest::Exact(amount)
        }
    }
}

/// The pool invariant of two reserves.
pub open spec fn invariant_of(reserve_0: u64, reserve_1: u64) -> int {
    reserve_0 * reserve_1
}

/// The constant-product invariant `k = reserve_0 * reserve_1`.
pub fn pool_invariant(reserve_0: u64, reserve_1: u64) -> (k: u128)
    ensures
        k == invariant_of(reserve_0, reserve_1),
{
    proof {
        assert(reserve_0 as int * reserve_1 as int <= u64::MAX as int * u64::MAX as int) by (nonlinear_arith)
            requires
                reserve_0 <= u64::MAX,
                reserve_1 <= u64::MAX,
        ;
    }
    (reserve_0 as u128) * (reserve_1 as u128)
}

/// Fee owed once the pool state `(s_now, k_now)` is accounted for.
pub open spec fn owed_after(rec: LockedCpLiquidityState, s_now: u64, k_now: u128) -> int {
    rec.unclaimed_lp_amount + accrued_fee(rec.principal(), rec.last_lp as int, rec.last_k as int, s_now as int, k_now as int)
}

/// What a request withdraws of `owed`: the request, clamped to `owed`.
pub open spec fn withdrawal(owed: int, request: FeeRequest) -> int {
    match request {
        FeeRequest::All => owed,
        FeeRequest::Exact(n) => if n >= owed { owed } else { n as int },
    }
}

/// The record after a collection that withdrew `withdrawn`.
pub open spec fn settled(rec: LockedCpLiquidityState, s_now: u64, k_now: u128, withdrawn: int, epoch: u64) -> LockedCpLiquidityState {
    LockedCpLiquidityState {
        claimed_lp_amount: (rec.claimed_lp_amount + withdrawn) as u64,
        unclaimed_lp_amount: (owed_after(rec, s_now, k_now) - withdrawn) as u64,
        last_lp: s_now,
        last_k: k_now,
        recent_epoch: epoch,
        ..rec
    }
}

/// Brings the record up to the pool state `(s_now, k_now)` and withdraws the
/// requested part of what is owed. Returns the liquidity tokens to withdraw
/// from custody.
pub fn settle_cp_fees(
    rec: &mut LockedCpLiquidityState,
    s_now: u64,
    k_now: u128,
    request: FeeRequest,
    epoch: u64,
) -> (w: u64)
    requires
        old(rec).wf(),
    ensures
        final(rec).wf(),
        w == withdrawal(owed_after(*old(rec), s_now, k_now), request),
        *final(rec) == settled(*old(rec), s_now, k_now, w as int, epoch),
        w <= owed_after(*old(rec), s_now, k_now),
{
    let principal: u64 = rec.locked_lp_amount - rec.claimed_lp_amount - rec.unclaimed_lp_amount;
    let accrued = accrued_fee_amount(principal, rec.last_lp, rec.last_k, s_now, k_now);
    let owed: u64 = rec.unclaimed_lp_amount + accrued;
    let withdrawn: u64 = match request {
        FeeRequest::All => owed,
        FeeRequest::Exact(n) => if n >= owed {
            owed
        } else {
            n
        },
    };
    rec.claimed_lp_amount = rec.claimed_lp_amount + withdrawn;
    rec.unclaimed_lp_amount = owed - withdrawn;
    rec.last_lp = s_now;
    rec.last_k = k_now;
    rec.recent_epoch = epoch;
    withdrawn
}

/// The accounts of a request to lock constant-product liquidity.
#[derive(Debug, Clone, Copy)]
pub struct LockCpLiquidity {
    /// Custodial authority of constant-product stakes.
    pub authority: Address,
    /// Signer who locks the liquidity.
    pub liquidity_owner: Address,
    /// Who receives the entitlement token.
    pub fee_nft_owner: Address,
    /// The fresh entitlement mint.
    pub fee_nft_mint: Address,
    /// A mint already stands at that address.
    pub fee_nft_mint_exists: bool,
    /// Where the entitlement token is minted to.
    pub fee_nft_account: Address,
    /// The pool of the stake.
    pub pool_state: Address,
    /// Liquidity-token mint named by the pool.
    pub pool_lp_mint: Address,
    /// Vault of token 0 named by the pool.
    pub pool_token_0_vault: Address,
    /// Vault of token 1 named by the pool.
    pub pool_token_1_vault: Address,
    /// The vault of token 0 passed with the request.
    pub token_0_vault: Address,
    /// The vault of token 1 passed with the request.
    pub token_1_vault: Address,
    /// Address of the lock record to create.
    pub locked_liquidity: Address,
    /// A record already stands at that address.
    pub locked_liquidity_exists: bool,
    /// The liquidity-token mint.
    pub lp_mint: Address,
    /// The owner's liquidity-token account.
    pub liquidity_owner_lp: TokenAccountSnapshot,
    /// Custody vault of the locked tokens.
    pub locked_lp_vault: Address,
    /// Token program of the liquidity and entitlement tokens.
    pub token_program: Address,
    /// Pool total supply of liquidity tokens now.
    pub lp_supply: u64,
    /// Pool reserve of token 0 now.
    pub vault_0_amount: u64,
    /// Pool reserve of token 1 now.
    pub vault_1_amount: u64,
    /// Current epoch.
    pub epoch: u64,
}

/// The first check that a constant-product lock fails, if any.
pub open spec fn lock_cp_error(ctx: LockCpLiquidity, program: Seq<u8>, lp_amount: u64) -> Option<LockError> {
    if lp_amount == 0 {
        Some(LockError::ZeroAmount)
    } else if !is_derived(ctx.authority@, cp_authority_seeds(), program) {
        Some(LockError::InvalidAuthority)
    } else if ctx.token_program@ != TOKEN_PROGRAM_ID@ {
        Some(LockError::InvalidTokenProgram)
    } else if ctx.lp_mint@ != ctx.pool_lp_mint@ || ctx.token_0_vault@ != ctx.pool_token_0_vault@
        || ctx.token_1_vault@ != ctx.pool_token_1_vault@ {
        Some(LockError::PoolMismatch)
    } else if ctx.liquidity_owner_lp.mint@ != ctx.lp_mint@ {
        Some(LockError::MintMismatch)
    } else if ctx.liquidity_owner_lp.owner@ != ctx.liquidity_owner@ {
        Some(LockError::OwnerMismatch)
    } else if lp_amount > ctx.liquidity_owner_lp.amount {
        Some(LockError::InsufficientBalance)
    } else if !is_derived(ctx.locked_liquidity@, locked_liquidity_seeds(ctx.fee_nft_mint@), program) {
        Some(LockError::InvalidLockRecord)
    } else if ctx.locked_liquidity_exists || ctx.fee_nft_mint_exists {
        Some(LockError::AlreadyLocked)
    } else if !is_derived(ctx.locked_lp_vault@, associated_seeds(ctx.authority@, ctx.token_program@, ctx.lp_mint@), crate::keys::ASSOCIATED_TOKEN_PROGRAM_ID@) {
        Some(LockError::InvalidCustodyAccount)
    } else if !is_derived(ctx.fee_nft_account@, associated_seeds(ctx.fee_nft_owner@, ctx.token_program@, ctx.fee_nft_mint@), crate::keys::ASSOCIATED_TOKEN_PROGRAM_ID@) {
        Some(LockError::InvalidEntitlementAccount)
    } else {
        None
    }
}

/// The record that a constant-product lock creates.
pub open spec fn new_cp_record(ctx: LockCpLiquidity, lp_amount: u64) -> LockedCpLiquidityState {
    LockedCpLiquidityState {
        locked_lp_amount: lp_amount,
        claimed_lp_amount: 0,
        unclaimed_lp_amount: 0,
        last_lp: ctx.lp_supply,
        last_k: invariant_of(ctx.vault_0_amount, ctx.vault_1_amount) as u128,
        recent_epoch: ctx.epoch,
        pool_id: ctx.pool_state,
        fee_nft_mint: ctx.fee_nft_mint,
        locked_owner: ctx.liquidity_owner,
        locked_lp_mint: ctx.lp_mint,
        padding: [0u64, 0, 0, 0, 0, 0, 0, 0],
    }
}

/// What a successful constant-product lock does.
#[derive(Debug, Clone, Copy)]
pub struct CpLockPlan {
    /// The record to create at the context's `locked_liquidity`.
    pub record: LockedCpLiquidityState,
    /// Liquidity tokens moved from the owner's account to the custody vault.
    pub lp_transfer_amount: u64,
    /// Decimals of the entitlement mint created at `fee_nft_mint`.
    pub fee_nft_decimals: u8,
    /// Mint authority of the entitlement mint: the custodial authority.
    pub fee_nft_mint_authority: Address,
    /// Entitlement tokens minted to `fee_nft_account`, the whole supply.
    pub fee_nft_amount: u64,
    /// Whether descriptive metadata is created for the entitlement token.
    pub with_metadata: bool,
}

/// Checks a request to lock `lp_amount` liquidity tokens and says what the
/// lock does: move them into custody, create the record with the pool state
/// snapshotted, and mint one entitlement token.
pub fn lock_cp_liquidity(ctx: &LockCpLiquidity, program: &Address, lp_amount: u64, with_metadata: bool) -> (r:
    Result<CpLockPlan, LockError>)
    ensures
        r is Ok <==> lock_cp_error(*ctx, program@, lp_amount) is None,
        r matches Err(e) ==> lock_cp_error(*ctx, program@, lp_amount) == Some(e),
        r matches Ok(plan) ==> plan.record == new_cp_record(*ctx, lp_amount) && plan.record.wf()
            && plan.lp_transfer_amount == lp_amount && plan.fee_nft_amount == 1
            && plan.fee_nft_decimals == 0 && plan.fee_nft_mint_authority == ctx.authority
            && plan.with_metadata == with_metadata,
{
    if lp_amount == 0 {
        return Err(LockError::ZeroAmount);
    }
    if !is_cp_authority(&ctx.authority, program) {
        return Err(LockError::InvalidAuthority);
    }
    if !keys_equal(&ctx.token_program, &TOKEN_PROGRAM_ID) {
        return Err(LockError::InvalidTokenProgram);
    }
    if !keys_equal(&ctx.lp_mint, &ctx.pool_lp_mint) || !keys_equal(&ctx.token_0_vault, &ctx.pool_token_0_vault)
        || !keys_equal(&ctx.token_1_vault, &ctx.pool_token_1_vault) {
        return Err(LockError::PoolMismatch);
    }
    if !keys_equal(&ctx.liquidity_owner_lp.mint, &ctx.lp_mint) {
        return Err(LockError::MintMismatch);
    }
    if !keys_equal(&ctx.liquidity_owner_lp.owner, &ctx.liquidity_owner) {
        return Err(LockError::OwnerMismatch);
    }
    if lp_amount > ctx.liquidity_owner_lp.amount {
        return Err(LockError::InsufficientBalance);
    }
    if !is_locked_liquidity_address(&ctx.locked_liquidity, &ctx.fee_nft_mint, program) {
        return Err(LockError::InvalidLockRecord);
    }
    if ctx.locked_liquidity_exists || ctx.fee_nft_mint_exists {
        return Err(LockError::AlreadyLocked);
    }
    if !is_associated_account(&ctx.locked_lp_vault, &ctx.authority, &ctx.token_program, &ctx.lp_mint) {
        return Err(LockError::InvalidCustodyAccount);
    }
    if !is_associated_account(&ctx.fee_nft_account, &ctx.fee_nft_owner, &ctx.token_program, &ctx.fee_nft_mint) {
        return Err(LockError::InvalidEntitlementAccount);
    }
    let record = LockedCpLiquidityState {
        locked_lp_amount: lp_amount,
        claimed_lp_amount: 0,
        unclaimed_lp_amount: 0,
        last_lp: ctx.lp_supply,
        last_k: pool_invariant(ctx.vault_0_amount, ctx.vault_1_amount),
        recent_epoch: ctx.epoch,
        pool_id: ctx.pool_state,
        fee_nft_mint: ctx.fee_nft_mint,
        locked_owner: ctx.liquidity_owner,
        locked_lp_mint: ctx.lp_mint,
        padding: [0u64, 0, 0, 0, 0, 0, 0, 0],
    };
    Ok(
        CpLockPlan {
            record,
            lp_transfer_amount: lp_amount,
            fee_nft_decimals: 0,
            fee_nft_mint_authority: ctx.authority,
            fee_nft_amount: 1,
            with_metadata,
        },
    )
}

/// The accounts of a request to collect the fees of a constant-product stake.
#[derive(Debug, Clone, Copy)]
pub struct CollectCpFee {
    /// Custodial authority of constant-product stakes.
    pub authority: Address,
    /// Signer who presents the entitlement token.
    pub fee_nft_owner: Address,
    /// The account holding the presented entitlement token.
    pub fee_nft_account: TokenAccountSnapshot,
    /// The lock record, updated by the request.
    pub locked_liquidity: LockedCpLiquidityState,
    /// The constant-product engine.
    pub cpmm_program: Address,
    /// The engine's vault and mint authority.
    pub cp_authority: Address,
    /// The pool of the stake.
    pub pool_state: Address,
    /// The liquidity-token mint.
    pub lp_mint: Address,
    /// Custody vault of the locked tokens.
    pub locked_lp_vault: Address,
    /// Token program of the liquidity token.
    pub token_program: Address,
    /// Vault of token 0 named by the pool.
    pub pool_token_0_vault: Address,
    /// Vault of token 1 named by the pool.
    pub pool_token_1_vault: Address,
    /// Vault of token 0.
    pub token_0_vault: TokenAccountSnapshot,
    /// Vault of token 1.
    pub token_1_vault: TokenAccountSnapshot,
    /// Receives token 0.
    pub recipient_token_0_account: TokenAccountSnapshot,
    /// Receives token 1.
    pub recipient_token_1_account: TokenAccountSnapshot,
    /// Pool total supply of liquidity tokens now.
    pub lp_supply: u64,
    /// Pool reserve of token 0 now.
    pub vault_0_amount: u64,
    /// Pool reserve of token 1 now.
    pub vault_1_amount: u64,
    /// Current epoch.
    pub epoch: u64,
}

/// The first account check that a constant-product collection fails, if any.
pub open spec fn collect_cp_error(ctx: CollectCpFee, program: Seq<u8>) -> Option<LockError> {
    let rec = ctx.locked_liquidity;
    if !is_derived(ctx.authority@, cp_authority_seeds(), program) {
        Some(LockError::InvalidAuthority)
    } else if ctx.fee_nft_account.mint@ != rec.fee_nft_mint@ {
        Some(LockError::EntitlementMismatch)
    } else if ctx.fee_nft_account.owner@ != ctx.fee_nft_owner@ {
        Some(LockError::OwnerMismatch)
    } else if ctx.fee_nft_account.amount != 1 {
        Some(LockError::InvalidTokenAmount)
    } else if ctx.cpmm_program@ != CPMM_PROGRAM_ID@ {
        Some(LockError::InvalidProgram)
    } else if !is_derived(ctx.cp_authority@, seq![cp_engine_auth_label()], CPMM_PROGRAM_ID@) {
        Some(LockError::InvalidEngineAuthority)
    } else if ctx.pool_state@ != rec.pool_id@ {
        Some(LockError::PoolMismatch)
    } else if ctx.lp_mint@ != rec.locked_lp_mint@ {
        Some(LockError::MintMismatch)
    } else if ctx.token_program@ != TOKEN_PROGRAM_ID@ {
        Some(LockError::InvalidTokenProgram)
    } else if !is_derived(ctx.locked_lp_vault@, associated_seeds(ctx.authority@, ctx.token_program@, ctx.lp_mint@), crate::keys::ASSOCIATED_TOKEN_PROGRAM_ID@) {
        Some(LockError::InvalidCustodyAccount)
    } else if ctx.token_0_vault.key@ != ctx.pool_token_0_vault@ || ctx.token_1_vault.key@ != ctx.pool_token_1_vault@ {
        Some(LockError::PoolMismatch)
    } else if ctx.recipient_token_0_account.mint@ != ctx.token_0_vault.mint@ || ctx.recipient_token_1_account.mint@
        != ctx.token_1_vault.mint@ {
        Some(LockError::RecipientMismatch)
    } else {
        None
    }
}

/// Checks a request to collect the fees of a constant-product stake, brings
/// its record up to the pool's current supply and invariant, and returns the
/// liquidity tokens to withdraw from custody through the engine: the
/// request, clamped to what is owed. On any error the record is unchanged.
pub fn collect_cp_fees(ctx: &mut CollectCpFee, program: &Address, request: FeeRequest) -> (r: Result<
    u64,
    LockError,
>)
    requires
        old(ctx).locked_liquidity.wf(),
    ensures
        final(ctx).locked_liquidity.wf(),
        ({
            let c = *old(ctx);
            let k = invariant_of(c.vault_0_amount, c.vault_1_amount) as u128;
            match collect_cp_error(c, program@) {
                Some(e) => r == Err::<u64, LockError>(e) && *final(ctx) == c,
                None => {
                    let w = withdrawal(owed_after(c.locked_liquidity, c.lp_supply, k), request);
                    r == Ok::<u64, LockError>(w as u64) && *final(ctx) == (CollectCpFee {
                        locked_liquidity: settled(c.locked_liquidity, c.lp_supply, k, w, c.epoch),
                        ..c
                    })
                },
            }
        }),
{
    if !is_cp_authority(&ctx.authority, program) {
        return Err(LockError::InvalidAuthority);
    }
    if !keys_equal(&ctx.fee_nft_account.mint, &ctx.locked_liquidity.fee_nft_mint) {
        return Err(LockError::EntitlementMismatch);
    }
    if !keys_equal(&ctx.fee_nft_account.owner, &ctx.fee_nft_owner) {
        return Err(LockError::OwnerMismatch);
    }
    if ctx.fee_nft_account.amount != 1 {
        return Err(LockError::InvalidTokenAmount);
    }
    if !keys_equal(&ctx.cpmm_program, &CPMM_PROGRAM_ID) {
        return Err(LockError::InvalidProgram);
    }
    if !is_cp_engine_authority(&ctx.cp_authority) {
        return Err(LockError::InvalidEngineAuthority);
    }
    if !keys_equal(&ctx.pool_state, &ctx.locked_liquidity.pool_id) {
        return Err(LockError::PoolMismatch);
    }
    if !keys_equal(&ctx.lp_mint, &ctx.locked_liquidity.locked_lp_mint) {
        return Err(LockError::MintMismatch);
    }
    if !keys_equal(&ctx.token_program, &TOKEN_PROGRAM_ID) {
        return Err(LockError::InvalidTokenProgram);
    }
    if !is_associated_account(&ctx.locked_lp_vault, &ctx.authority, &ctx.token_program, &ctx.lp_mint) {
        return Err(LockError::InvalidCustodyAccount);
    }
    if !keys_equal(&ctx.token_0_vault.key, &ctx.pool_token_0_vault) || !keys_equal(
        &ctx.token_1_vault.key,
        &ctx.pool_token_1_vault,
    ) {
        return Err(LockError::PoolMismatch);
    }
    if !keys_equal(&ctx.recipient_token_0_account.mint, &ctx.token_0_vault.mint) || !keys_equal(
        &ctx.recipient_token_1_account.mint,
        &ctx.token_1_vault.mint,
    ) {
        return Err(LockError::RecipientMismatch);
    }
    let k = pool_invariant(ctx.vault_0_amount, ctx.vault_1_amount);
    let s = ctx.lp_supply;
    let epoch = ctx.epoch;
    Ok(settle_cp_fees(&mut ctx.locked_liquidity, s, k, request, epoch))
}

/// One collection on the record, as `collect_cp_fees` performs it once the
/// accounts are checked.
pub open spec fn collect_step(rec: LockedCpLiquidityState, s_now: u64, k_now: u128, request: FeeRequest, epoch: u64) -> LockedCpLiquidityState {
    settled(rec, s_now, k_now, withdrawal(owed_after(rec, s_now, k_now), request), epoch)
}

/// A sequence of collections, each against the pool state `(supply, k)`
/// given with it.
pub open spec fn collect_steps(rec: LockedCpLiquidityState, steps: Seq<(u64, u128, FeeRequest, u64)>) -> LockedCpLiquidityState
    decreases steps.len(),
{
    if steps.len() == 0 {
        rec
    } else {
        let st = steps.last();
        collect_step(collect_steps(rec, steps.drop_last()), st.0, st.1, st.2, st.3)
    }
}

/// A request never withdraws more than is owed, and a request for more than
/// is owed withdraws exactly what is owed.
pub proof fn lemma_withdrawal_clamped(owed: int, request: FeeRequest)
    requires
        0 <= owed,
    ensures
        0 <= withdrawal(owed, request) <= owed,
        request matches FeeRequest::Exact(n) ==> (n >= owed ==> withdrawal(owed, request) == owed),
        request matches FeeRequest::Exact(n) ==> (n < owed ==> withdrawal(owed, request) == n),
        request == FeeRequest::All ==> withdrawal(owed, request) == owed,
{
}

/// What is owed after accounting lies between what was owed and what the
/// principal plus what was owed amount to.
pub proof fn lemma_owed_bounds(rec: LockedCpLiquidityState, s_now: u64, k_now: u128)
    requires
        rec.wf(),
    ensures
        rec.unclaimed_lp_amount <= owed_after(rec, s_now, k_now) <= rec.unclaimed_lp_amount + rec.principal(),
{
    lemma_accrued_fee_bounds(rec.principal(), rec.last_lp as int, rec.last_k as int, s_now as int, k_now as int);
}

/// One collection keeps the record well formed and never lowers the
/// claimed amount.
pub proof fn lemma_collect_step_monotone(rec: LockedCpLiquidityState, s_now: u64, k_now: u128, request: FeeRequest, epoch: u64)
    requires
        rec.wf(),
    ensures
        collect_step(rec, s_now, k_now, request, epoch).wf(),
        collect_step(rec, s_now, k_now, request, epoch).claimed_lp_amount >= rec.claimed_lp_amount,
{
    lemma_owed_bounds(rec, s_now, k_now);
    lemma_withdrawal_clamped(owed_after(rec, s_now, k_now), request);
}

/// Across any sequence of collections the record stays well formed (what is
/// owed is never negative, claimed plus owed never exceeds the deposit) and
/// the claimed amount never decreases.
pub proof fn lemma_claimed_non_decreasing(rec: LockedCpLiquidityState, steps: Seq<(u64, u128, FeeRequest, u64)>)
    requires
        rec.wf(),
    ensures
        collect_steps(rec, steps).wf(),
        collect_steps(rec, steps).unclaimed_lp_amount >= 0,
        collect_steps(rec, steps).claimed_lp_amount >= rec.claimed_lp_amount,
    decreases steps.len(),
{
    if steps.len() > 0 {
        let st = steps.last();
        lemma_claimed_non_decreasing(rec, steps.drop_last());
        lemma_collect_step_monotone(collect_steps(rec, steps.drop_last()), st.0, st.1, st.2, st.3);
    }
}

/// A collection against the pool state snapshotted at lock time owes
/// nothing, so it withdraws nothing and leaves nothing owed.
pub proof fn lemma_collect_after_lock_is_empty(ctx: LockCpLiquidity, lp_amount: u64, request: FeeRequest, epoch: u64)
    ensures
        ({
            let rec = new_cp_record(ctx, lp_amount);
            let k = invariant_of(ctx.vault_0_amount, ctx.vault_1_amount) as u128;
            &&& owed_after(rec, ctx.lp_supply, k) == 0
            &&& withdrawal(owed_after(rec, ctx.lp_supply, k), request) == 0
            &&& collect_step(rec, ctx.lp_supply, k, request, epoch).unclaimed_lp_amount == 0
        }),
{
    let rec = new_cp_record(ctx, lp_amount);
    lemma_no_growth_no_fee(rec.principal(), rec.last_lp as int, rec.last_k as int);
}

/// On a pool that did not change, a second collection of everything owed
/// withdraws nothing and leaves nothing owed.
pub proof fn lemma_second_collect_all_is_empty(rec: LockedCpLiquidityState, s_now: u64, k_now: u128, epoch_1: u64, epoch_2: u64)
    requires
        rec.wf(),
    ensures
        ({
            let once = collect_step(rec, s_now, k_now, FeeRequest::All, epoch_1);
            let twice = collect_step(once, s_now, k_now, FeeRequest::All, epoch_2);
            &&& once.unclaimed_lp_amount == 0
            &&& owed_after(once, s_now, k_now) == 0
            &&& withdrawal(owed_after(once, s_now, k_now), FeeRequest::All) == 0
            &&& twice.claimed_lp_amount == once.claimed_lp_amount
            &&& twice.unclaimed_lp_amount == 0
        }),
{
    let once = collect_step(rec, s_now, k_now, FeeRequest::All, epoch_1);
    lemma_collect_step_monotone(rec, s_now, k_now, FeeRequest::All, epoch_1);
    lemma_no_growth_no_fee(once.principal(), s_now as int, k_now as int);
}

/// A lock that passes its checks creates a fresh entitlement mint and its
/// record where no record stood, at the address derived from the
/// entitlement mint that the record stores.
pub proof fn lemma_cp_lock_binds_fresh_mint(ctx: LockCpLiquidity, program: Seq<u8>, lp_amount: u64)
    requires
        lock_cp_error(ctx, program, lp_amount) is None,
    ensures
        !ctx.locked_liquidity_exists,
        !ctx.fee_nft_mint_exists,
        new_cp_record(ctx, lp_amount).fee_nft_mint == ctx.fee_nft_mint,
        is_derived(ctx.locked_liquidity@, locked_liquidity_seeds(new_cp_record(ctx, lp_amount).fee_nft_mint@), program),
{
}

} // verus!

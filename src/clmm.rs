//! Locking concentrated-liquidity positions and harvesting their fees and
//! rewards.
use vstd::prelude::*;
use crate::derive::{
    associated_seeds, clmm_authority_seeds, is_associated_account, is_clmm_authority, is_derived,
    is_locked_position_address, is_protocol_position_address, locked_position_bump,
    locked_position_seeds, program_address, protocol_position_seeds,
};
use crate::keys::{
    is_token_program, keys_equal, Address, ASSOCIATED_TOKEN_PROGRAM_ID, CLMM_PROGRAM_ID,
    TOKEN_2022_PROGRAM_ID, TOKEN_PROGRAM_ID,
};
use crate::states::{LockError, LockedClmmPositionState, TokenAccountSnapshot};

verus! {

/// The accounts of a request to lock a concentrated position.
#[derive(Debug, Clone, Copy)]
pub struct LockClmmPosition {
    /// Custodial authority of concentrated positions.
    pub authority: Address,
    /// Signer who owns the position token.
    pub position_nft_owner: Address,
    /// Who receives the entitlement token.
    pub fee_nft_owner: Address,
    /// The account holding the position token.
    pub position_nft_account: TokenAccountSnapshot,
    /// The engine's record of the position.
    pub personal_position: Address,
    /// Position token mint named by the engine's record.
    pub personal_position_nft_mint: Address,
    /// Pool named by the engine's record.
    pub personal_position_pool_id: Address,
    /// The position token mint.
    pub position_nft_mint: Address,
    /// Custody account the position token moves to.
    pub locked_nft_account: Address,
    /// Address of the lock record to create.
    pub locked_position: Address,
    /// A record already stands at that address.
    pub locked_position_exists: bool,
    /// The fresh entitlement mint.
    pub fee_nft_mint: Address,
    /// A mint already stands at that address.
    pub fee_nft_mint_exists: bool,
    /// Where the entitlement token is minted to.
    pub fee_nft_account: Address,
    /// Token program of the entitlement token.
    pub fee_nft_token_program: Address,
    /// Token program of the position token.
    pub locked_nft_token_program: Address,
    /// Current epoch.
    pub epoch: u64,
}

/// The first check that a concentrated lock fails, if any.
pub open spec fn lock_clmm_error(ctx: LockClmmPosition, program: Seq<u8>) -> Option<LockError> {
    if !is_derived(ctx.authority@, clmm_authority_seeds(), program) {
        Some(LockError::InvalidAuthority)
    } else if ctx.position_nft_account.mint@ != ctx.personal_position_nft_mint@ {
        Some(LockError::MintMismatch)
    } else if ctx.position_nft_account.amount != 1 {
        Some(LockError::InvalidTokenAmount)
    } else if ctx.position_nft_account.owner@ != ctx.position_nft_owner@ {
        Some(LockError::OwnerMismatch)
    } else if !is_token_program(ctx.locked_nft_token_program@) {
        Some(LockError::InvalidTokenProgram)
    } else if ctx.position_nft_mint@ != ctx.position_nft_account.mint@ {
        Some(LockError::MintMismatch)
    } else if ctx.fee_nft_token_program@ != TOKEN_PROGRAM_ID@ {
        Some(LockError::InvalidTokenProgram)
    } else if !is_derived(ctx.locked_position@, locked_position_seeds(ctx.fee_nft_mint@), program) {
        Some(LockError::InvalidLockRecord)
    } else if ctx.locked_position_exists || ctx.fee_nft_mint_exists {
        Some(LockError::AlreadyLocked)
    } else if !is_derived(ctx.locked_nft_account@, associated_seeds(ctx.authority@, ctx.locked_nft_token_program@, ctx.position_nft_mint@), ASSOCIATED_TOKEN_PROGRAM_ID@) {
        Some(LockError::InvalidCustodyAccount)
    } else if !is_derived(ctx.fee_nft_account@, associated_seeds(ctx.fee_nft_owner@, ctx.fee_nft_token_program@, ctx.fee_nft_mint@), ASSOCIATED_TOKEN_PROGRAM_ID@) {
        Some(LockError::InvalidEntitlementAccount)
    } else {
        None
    }
}

/// What a successful concentrated lock does.
#[derive(Debug, Clone, Copy)]
pub struct ClmmLockPlan {
    /// The record to create at the context's `locked_position`.
    pub record: LockedClmmPositionState,
    /// Position tokens moved from the owner's account to custody.
    pub position_transfer_amount: u64,
    /// Decimals of the entitlement mint created at `fee_nft_mint`.
    pub fee_nft_decimals: u8,
    /// Mint authority of the entitlement mint: the custodial authority.
    pub fee_nft_mint_authority: Address,
    /// Entitlement tokens minted to `fee_nft_account`, the whole supply.
    pub fee_nft_amount: u64,
    /// Whether descriptive metadata is created for the entitlement token.
    pub with_metadata: bool,
}

/// The record that a concentrated lock creates, with the bump seed of its
/// address.
pub open spec fn new_clmm_record(ctx: LockClmmPosition, bump: u8) -> LockedClmmPositionState {
    LockedClmmPositionState {
        bump: [bump],
        position_owner: ctx.position_nft_owner,
        pool_id: ctx.personal_position_pool_id,
        position_id: ctx.personal_position,
        locked_nft_account: ctx.locked_nft_account,
        fee_nft_mint: ctx.fee_nft_mint,
        recent_epoch: ctx.epoch,
        padding: [0u64, 0, 0, 0, 0, 0, 0, 0],
    }
}

/// Checks a request to lock a concentrated position and says what the lock
/// does: move the single position token into custody, create the record
/// keyed by the entitlement mint, and mint one entitlement token.
pub fn lock_clmm_position(ctx: &LockClmmPosition, program: &Address, with_metadata: bool) -> (r: Result<
    ClmmLockPlan,
    LockError,
>)
    ensures
        r is Ok <==> lock_clmm_error(*ctx, program@) is None,
        r matches Err(e) ==> lock_clmm_error(*ctx, program@) == Some(e),
        r matches Ok(plan) ==> program_address(locked_position_seeds(ctx.fee_nft_mint@), program@) == Some(
            (ctx.locked_position@, plan.record.bump[0]),
        ) && plan.record == new_clmm_record(*ctx, plan.record.bump[0])
            && plan.position_transfer_amount == 1 && plan.fee_nft_amount == 1
            && plan.fee_nft_decimals == 0 && plan.fee_nft_mint_authority == ctx.authority
            && plan.with_metadata == with_metadata,
{
    if !is_clmm_authority(&ctx.authority, program) {
        return Err(LockError::InvalidAuthority);
    }
    if !keys_equal(&ctx.position_nft_account.mint, &ctx.personal_position_nft_mint) {
        return Err(LockError::MintMismatch);
    }
    if ctx.position_nft_account.amount != 1 {
        return Err(LockError::InvalidTokenAmount);
    }
    if !keys_equal(&ctx.position_nft_account.owner, &ctx.position_nft_owner) {
        return Err(LockError::OwnerMismatch);
    }
    if !keys_equal(&ctx.locked_nft_token_program, &TOKEN_PROGRAM_ID) && !keys_equal(
        &ctx.locked_nft_token_program,
        &TOKEN_2022_PROGRAM_ID,
    ) {
        return Err(LockError::InvalidTokenProgram);
    }
    if !keys_equal(&ctx.position_nft_mint, &ctx.position_nft_account.mint) {
        return Err(LockError::MintMismatch);
    }
    if !keys_equal(&ctx.fee_nft_token_program, &TOKEN_PROGRAM_ID) {
        return Err(LockError::InvalidTokenProgram);
    }
    let bump = match locked_position_bump(&ctx.locked_position, &ctx.fee_nft_mint, program) {
        Some(b) => b,
        None => return Err(LockError::InvalidLockRecord),
    };
    if ctx.locked_position_exists || ctx.fee_nft_mint_exists {
        return Err(LockError::AlreadyLocked);
    }
    if !is_associated_account(
        &ctx.locked_nft_account,
        &ctx.authority,
        &ctx.locked_nft_token_program,
        &ctx.position_nft_mint,
    ) {
        return Err(LockError::InvalidCustodyAccount);
    }
    if !is_associated_account(&ctx.fee_nft_account, &ctx.fee_nft_owner, &ctx.fee_nft_token_program, &ctx.fee_nft_mint) {
        return Err(LockError::InvalidEntitlementAccount);
    }
    let record = LockedClmmPositionState {
        bump: [bump],
        position_owner: ctx.position_nft_owner,
        pool_id: ctx.personal_position_pool_id,
        position_id: ctx.personal_position,
        locked_nft_account: ctx.locked_nft_account,
        fee_nft_mint: ctx.fee_nft_mint,
        recent_epoch: ctx.epoch,
        padding: [0u64, 0, 0, 0, 0, 0, 0, 0],
    };
    Ok(
        ClmmLockPlan {
            record,
            position_transfer_amount: 1,
            fee_nft_decimals: 0,
            fee_nft_mint_authority: ctx.authority,
            fee_nft_amount: 1,
            with_metadata,
        },
    )
}

/// The accounts of a request to harvest a locked position's fees and rewards.
#[derive(Debug, Clone, Copy)]
pub struct CollectClmmFeeAndReward {
    /// Custodial authority of concentrated positions.
    pub authority: Address,
    /// Signer who presents the entitlement token.
    pub fee_nft_owner: Address,
    /// The account holding the presented entitlement token.
    pub fee_nft_account: TokenAccountSnapshot,
    /// Address of the lock record.
    pub locked_position_key: Address,
    /// The lock record, updated by the request.
    pub locked_position: LockedClmmPositionState,
    /// The concentrated engine.
    pub clmm_program: Address,
    /// The custody account holding the position token.
    pub locked_nft_account: TokenAccountSnapshot,
    /// The engine's record of the position.
    pub personal_position: Address,
    /// Position token mint named by the engine's record.
    pub personal_position_nft_mint: Address,
    /// Pool named by the engine's record.
    pub personal_position_pool_id: Address,
    /// Lower tick of the position's range.
    pub tick_lower_index: i32,
    /// Upper tick of the position's range.
    pub tick_upper_index: i32,
    /// The pool.
    pub pool_state: Address,
    /// Vault of token 0 named by the pool.
    pub pool_token_vault_0: Address,
    /// Vault of token 1 named by the pool.
    pub pool_token_vault_1: Address,
    /// The engine's protocol position of the tick range.
    pub protocol_position: Address,
    /// Pool named by the protocol position.
    pub protocol_position_pool_id: Address,
    /// Vault of token 0.
    pub token_0_vault: TokenAccountSnapshot,
    /// Vault of token 1.
    pub token_1_vault: TokenAccountSnapshot,
    /// Pool named by the lower tick array.
    pub tick_array_lower_pool_id: Address,
    /// Pool named by the upper tick array.
    pub tick_array_upper_pool_id: Address,
    /// Receives token 0.
    pub recipient_token_0_account: TokenAccountSnapshot,
    /// Receives token 1.
    pub recipient_token_1_account: TokenAccountSnapshot,
    /// Current epoch.
    pub epoch: u64,
}

/// The first check that a concentrated harvest fails, if any.
pub open spec fn collect_clmm_error(ctx: CollectClmmFeeAndReward, program: Seq<u8>) -> Option<LockError> {
    let rec = ctx.locked_position;
    if !is_derived(ctx.authority@, clmm_authority_seeds(), program) {
        Some(LockError::InvalidAuthority)
    } else if ctx.fee_nft_account.mint@ != rec.fee_nft_mint@ {
        Some(LockError::EntitlementMismatch)
    } else if ctx.fee_nft_account.owner@ != ctx.fee_nft_owner@ {
        Some(LockError::OwnerMismatch)
    } else if ctx.fee_nft_account.amount != 1 {
        Some(LockError::InvalidTokenAmount)
    } else if !is_derived(ctx.locked_position_key@, locked_position_seeds(ctx.fee_nft_account.mint@), program) {
        Some(LockError::InvalidLockRecord)
    } else if ctx.clmm_program@ != CLMM_PROGRAM_ID@ {
        Some(LockError::InvalidProgram)
    } else if ctx.locked_nft_account.mint@ != ctx.personal_position_nft_mint@ {
        Some(LockError::MintMismatch)
    } else if ctx.locked_nft_account.amount != 1 {
        Some(LockError::InvalidTokenAmount)
    } else if ctx.locked_nft_account.key@ != rec.locked_nft_account@ || ctx.locked_nft_account.owner@
        != ctx.authority@ {
        Some(LockError::InvalidCustodyAccount)
    } else if ctx.personal_position@ != rec.position_id@ || ctx.personal_position_pool_id@ != ctx.pool_state@
        || !is_derived(ctx.protocol_position@, protocol_position_seeds(ctx.pool_state@, ctx.tick_lower_index, ctx.tick_upper_index), CLMM_PROGRAM_ID@)
        || ctx.protocol_position_pool_id@ != ctx.pool_state@ || ctx.tick_array_lower_pool_id@ != ctx.pool_state@
        || ctx.tick_array_upper_pool_id@ != ctx.pool_state@ {
        Some(LockError::PositionMismatch)
    } else if ctx.token_0_vault.key@ != ctx.pool_token_vault_0@ || ctx.token_1_vault.key@ != ctx.pool_token_vault_1@ {
        Some(LockError::PoolMismatch)
    } else if ctx.recipient_token_0_account.mint@ != ctx.token_0_vault.mint@ || ctx.recipient_token_1_account.mint@
        != ctx.token_1_vault.mint@ {
        Some(LockError::RecipientMismatch)
    } else {
        None
    }
}

/// The call to make on the concentrated engine: decrease the position's
/// liquidity by `liquidity` with the given minimum outputs, collecting what
/// the position has earned.
#[derive(Debug, Clone, Copy, PartialEq, Eq, Structural)]
pub struct HarvestRequest {
    pub liquidity: u128,
    pub amount_0_min: u64,
    pub amount_1_min: u64,
}

/// Checks a request to harvest a locked position's fees and rewards and
/// returns the engine call to make with the custodial authority as owner: a
/// zero liquidity change, so no principal moves. Marks the record with the
/// current epoch; on any error the record is unchanged.
pub fn collect_clmm_fees_and_rewards(ctx: &mut CollectClmmFeeAndReward, program: &Address) -> (r: Result<
    HarvestRequest,
    LockError,
>)
    ensures
        match collect_clmm_error(*old(ctx), program@) {
            Some(e) => r == Err::<HarvestRequest, LockError>(e) && *final(ctx) == *old(ctx),
            None => r == Ok::<HarvestRequest, LockError>(HarvestRequest { liquidity: 0, amount_0_min: 0, amount_1_min: 0 })
                && *final(ctx) == (CollectClmmFeeAndReward {
                    locked_position: LockedClmmPositionState { recent_epoch: old(ctx).epoch, ..old(ctx).locked_position },
                    ..*old(ctx)
                }),
        },
{
    if !is_clmm_authority(&ctx.authority, program) {
        return Err(LockError::InvalidAuthority);
    }
    if !keys_equal(&ctx.fee_nft_account.mint, &ctx.locked_position.fee_nft_mint) {
        return Err(LockError::EntitlementMismatch);
    }
    if !keys_equal(&ctx.fee_nft_account.owner, &ctx.fee_nft_owner) {
        return Err(LockError::OwnerMismatch);
    }
    if ctx.fee_nft_account.amount != 1 {
        return Err(LockError::InvalidTokenAmount);
    }
    if !is_locked_position_address(&ctx.locked_position_key, &ctx.fee_nft_account.mint, program) {
        return Err(LockError::InvalidLockRecord);
    }
    if !keys_equal(&ctx.clmm_program, &CLMM_PROGRAM_ID) {
        return Err(LockError::InvalidProgram);
    }
    if !keys_equal(&ctx.locked_nft_account.mint, &ctx.personal_position_nft_mint) {
        return Err(LockError::MintMismatch);
    }
    if ctx.locked_nft_account.amount != 1 {
        return Err(LockError::InvalidTokenAmount);
    }
    if !keys_equal(&ctx.locked_nft_account.key, &ctx.locked_position.locked_nft_account) || !keys_equal(
        &ctx.locked_nft_account.owner,
        &ctx.authority,
    ) {
        return Err(LockError::InvalidCustodyAccount);
    }
    if !keys_equal(&ctx.personal_position, &ctx.locked_position.position_id) || !keys_equal(
        &ctx.personal_position_pool_id,
        &ctx.pool_state,
    ) || !is_protocol_position_address(
        &ctx.protocol_position,
        &ctx.pool_state,
        ctx.tick_lower_index,
        ctx.tick_upper_index,
    ) || !keys_equal(&ctx.protocol_position_pool_id, &ctx.pool_state) || !keys_equal(
        &ctx.tick_array_lower_pool_id,
        &ctx.pool_state,
    ) || !keys_equal(&ctx.tick_array_upper_pool_id, &ctx.pool_state) {
        return Err(LockError::PositionMismatch);
    }
    if !keys_equal(&ctx.token_0_vault.key, &ctx.pool_token_vault_0) || !keys_equal(
        &ctx.token_1_vault.key,
        &ctx.pool_token_vault_1,
    ) {
        return Err(LockError::PoolMismatch);
    }
    if !keys_equal(&ctx.recipient_token_0_account.mint, &ctx.token_0_vault.mint) || !keys_equal(
        &ctx.recipient_token_1_account.mint,
        &ctx.token_1_vault.mint,
    ) {
        return Err(LockError::RecipientMismatch);
    }
    ctx.locked_position.recent_epoch = ctx.epoch;
    Ok(HarvestRequest { liquidity: 0, amount_0_min: 0, amount_1_min: 0 })
}

/// A presented entitlement token whose mint is not the one stored in the
/// lock record is refused by both kinds of collection.
pub proof fn lemma_foreign_entitlement_rejected(
    clmm: CollectClmmFeeAndReward,
    cp: crate::cp::CollectCpFee,
    program: Seq<u8>,
)
    ensures
        clmm.fee_nft_account.mint@ != clmm.locked_position.fee_nft_mint@ ==> collect_clmm_error(clmm, program) is Some,
        cp.fee_nft_account.mint@ != cp.locked_liquidity.fee_nft_mint@ ==> crate::cp::collect_cp_error(cp, program) is Some,
{
}

/// A lock that passes its checks creates a fresh entitlement mint and its
/// record where no record stood, at the address derived from the
/// entitlement mint that the record stores.
pub proof fn lemma_clmm_lock_binds_fresh_mint(ctx: LockClmmPosition, program: Seq<u8>, bump: u8)
    requires
        lock_clmm_error(ctx, program) is None,
    ensures
        !ctx.locked_position_exists,
        !ctx.fee_nft_mint_exists,
        new_clmm_record(ctx, bump).fee_nft_mint == ctx.fee_nft_mint,
        is_derived(ctx.locked_position@, locked_position_seeds(new_clmm_record(ctx, bump).fee_nft_mint@), program),
{
}

} // verus!

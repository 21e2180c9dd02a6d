//! Lock records and the errors that requests end with.
use vstd::prelude::*;
use crate::keys::Address;

verus! {

/// Why a request was refused. Each request stops at the first failed check.
#[derive(Debug, Clone, Copy, PartialEq, Eq, Structural)]
pub enum LockError {
    /// A custodial authority is not the derived one.
    InvalidAuthority,
    /// The constant-product engine's vault authority is not the derived one.
    InvalidEngineAuthority,
    /// A program account is not the expected program.
    InvalidProgram,
    /// The token program is not one that the asset may live under.
    InvalidTokenProgram,
    /// A token account holds another mint than the one it must hold.
    MintMismatch,
    /// A token account belongs to someone else than the signer.
    OwnerMismatch,
    /// A token account that must hold exactly one unit does not.
    InvalidTokenAmount,
    /// The amount to lock is zero.
    ZeroAmount,
    /// The amount to lock exceeds the owner's balance.
    InsufficientBalance,
    /// The lock record is not at the address derived from the entitlement mint.
    InvalidLockRecord,
    /// A lock record already exists at that address, or the entitlement
    /// mint already exists.
    AlreadyLocked,
    /// The custody account is not the authority's associated account.
    InvalidCustodyAccount,
    /// The entitlement account is not the recipient's associated account.
    InvalidEntitlementAccount,
    /// The presented entitlement token is not the one bound to the record.
    EntitlementMismatch,
    /// The position, pool or tick-range accounts do not belong together.
    PositionMismatch,
    /// The pool is not the one the record was locked in.
    PoolMismatch,
    /// A recipient account holds another mint than the vault it receives from.
    RecipientMismatch,
}

/// One locked constant-product stake.
#[derive(Debug, Clone, Copy)]
pub struct LockedCpLiquidityState {
    /// Liquidity tokens deposited at lock time; never written again.
    pub locked_lp_amount: u64,
    /// Fee tokens withdrawn so far.
    pub claimed_lp_amount: u64,
    /// Fee tokens owed and not yet withdrawn.
    pub unclaimed_lp_amount: u64,
    /// Pool total supply at the last bookkeeping update.
    pub last_lp: u64,
    /// Pool invariant at the last bookkeeping update.
    pub last_k: u128,
    /// Epoch of the last update.
    pub recent_epoch: u64,
    /// The pool the stake belongs to.
    pub pool_id: Address,
    /// Mint of the entitlement token bound to this record.
    pub fee_nft_mint: Address,
    /// Who locked the stake (informational).
    pub locked_owner: Address,
    /// Mint of the locked liquidity token.
    pub locked_lp_mint: Address,
    /// Reserved for later fields.
    pub padding: [u64; 8],
}

impl LockedCpLiquidityState {
    /// Record size in bytes, discriminator included.
    pub const LEN: usize = 8 + 4 * 8 + 16 + 8 + 32 * 4 + 8 * 8;

    /// Fees ever claimed or owed never exceed what was deposited.
    pub open spec fn wf(&self) -> bool {
        self.claimed_lp_amount + self.unclaimed_lp_amount <= self.locked_lp_amount
    }

    /// Escrowed tokens that still stand for the principal.
    pub open spec fn principal(&self) -> int {
        self.locked_lp_amount - self.claimed_lp_amount - self.unclaimed_lp_amount
    }

    pub fn is_well_formed(&self) -> (r: bool)
        ensures
            r == self.wf(),
    {
        self.claimed_lp_amount as u128 + self.unclaimed_lp_amount as u128 <= self.locked_lp_amount as u128
    }
}

/// One locked concentrated-liquidity position.
#[derive(Debug, Clone, Copy)]
pub struct LockedClmmPositionState {
    /// Bump seed of the record's address.
    pub bump: [u8; 1],
    /// Who locked the position (informational).
    pub position_owner: Address,
    /// The pool of the position.
    pub pool_id: Address,
    /// The engine's record of the position.
    pub position_id: Address,
    /// The custody account that holds the position token.
    pub locked_nft_account: Address,
    /// Mint of the entitlement token bound to this record.
    pub fee_nft_mint: Address,
    /// Epoch of the last update.
    pub recent_epoch: u64,
    /// Reserved for later fields.
    pub padding: [u64; 8],
}

impl LockedClmmPositionState {
    /// Record size in bytes, discriminator included.
    pub const LEN: usize = 8 + 1 + 32 * 5 + 8 + 8 * 8;
}

/// A token account as the request sees it.
#[derive(Debug, Clone, Copy)]
pub struct TokenAccountSnapshot {
    pub key: Address,
    pub mint: Address,
    pub owner: Address,
    pub amount: u64,
}

} // verus!

//! The records that the pool operations read: the pool record itself, and
//! plain snapshots of the token mints and token accounts around it.
use vstd::prelude::*;

use crate::keys::Pubkey;

verus! {

/// A token mint as the operations see it.
#[derive(Clone, Copy, Debug)]
pub struct Mint {
    pub key: Pubkey,
    pub mint_authority: Option<Pubkey>,
    pub supply: u64,
    pub decimals: u8,
}

/// A token account as the operations see it.
#[derive(Clone, Copy, Debug)]
pub struct TokenAccount {
    pub key: Pubkey,
    pub mint: Pubkey,
    pub owner: Pubkey,
    pub amount: u64,
}

/// The persistent record of one sale.
#[derive(Clone, Copy, Debug)]
pub struct PoolAccount {
    /// The claim token's mint.
    pub redeemable_mint: Pubkey,
    /// The custody of the native asset.
    pub pool_native: Pubkey,
    /// The native asset's mint, the seed of the pool signer.
    pub native_mint: Pubkey,
    /// The custody of the quote asset.
    pub pool_usdc: Pubkey,
    /// The controller, who amends the schedule and withdraws the proceeds.
    pub distribution_authority: Pubkey,
    /// The nonce that derives the pool signer from `native_mint`.
    pub nonce: u8,
    /// The native asset deposited at creation.
    pub num_ico_tokens: u64,
    /// The sale opens after this instant.
    pub start_ico_ts: i64,
    /// The sale closes at this instant.
    pub end_ico_ts: i64,
    /// Redemption and withdrawal open after this instant.
    pub withdraw_native_ts: i64,
}

/// The phase of a sale, a function of the time alone.
#[derive(Clone, Copy, Debug, PartialEq, Eq, Structural)]
pub enum Phase {
    PreSale,
    OpenSale,
    Settling,
    PostSale,
}

/// The size of the stored record: an 8-byte type tag, five identities, the
/// nonce, the deposit and three timestamps.
pub const POOL_ACCOUNT_LEN: usize = 8 + 32 * 5 + 1 + 8 + 8 * 3;

impl PoolAccount {
    /// The checkpoints are in order.
    pub open spec fn schedule_ok(&self) -> bool {
        self.start_ico_ts < self.end_ico_ts <= self.withdraw_native_ts
    }

    /// What holds of every pool record after its creation.
    pub open spec fn wf(&self) -> bool {
        &&& self.schedule_ok()
        &&& self.num_ico_tokens > 0
        &&& self.pool_usdc@ != self.pool_native@
    }

    pub open spec fn phase_at(&self, now: i64) -> Phase {
        if now < self.start_ico_ts {
            Phase::PreSale
        } else if now < self.end_ico_ts {
            Phase::OpenSale
        } else if now < self.withdraw_native_ts {
            Phase::Settling
        } else {
            Phase::PostSale
        }
    }

    /// The phase of the sale at `now`.
    pub fn phase(&self, now: i64) -> (r: Phase)
        ensures
            r == self.phase_at(now),
    {
        if now < self.start_ico_ts {
            Phase::PreSale
        } else if now < self.end_ico_ts {
            Phase::OpenSale
        } else if now < self.withdraw_native_ts {
            Phase::Settling
        } else {
            Phase::PostSale
        }
    }
}

} // verus!

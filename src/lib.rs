//! Escrow-and-exchange engine for a fixed-supply token sale pool.
//!
//! The library decides whether each pool operation is allowed and how much
//! value it moves; moving the value is left to the token program, which
//! receives the [`TokenCommand`](pool::TokenCommand)s that an operation returns.

pub mod accounts;
pub mod context;
pub mod error;
pub mod exchange;
pub mod keys;
pub mod ledger;
pub mod pool;

pub use accounts::{Mint, Phase, PoolAccount, TokenAccount, POOL_ACCOUNT_LEN};
pub use context::{
    ExchangeRedeemableForNative, ExchangeUsdcForRedeemable, InitializePool, ModifyIcoTime,
    WithdrawPoolUsdc,
};
pub use error::ErrorCode;
pub use exchange::redeem_amount;
pub use keys::{is_derived_signer, signer_matches, Pubkey};
pub use pool::{
    exchange_redeemable_for_native, exchange_usdc_for_redeemable, ico_over, initialize_pool,
    modify_ico_time, unrestricted_phase, future_start_time, withdraw_pool_usdc, TokenCommand,
};

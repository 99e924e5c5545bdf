//! The accounts that each pool operation reads, as plain snapshots, with the
//! checks that tie them to one another and to the pool record.
use vstd::prelude::*;

use crate::accounts::{Mint, PoolAccount, TokenAccount};
use crate::error::ErrorCode;
use crate::keys::{derives, is_derived_signer, signer_matches, Pubkey};

verus! {

/// Whether `authority` is set and is `key`.
pub open spec fn is_authority(authority: Option<Pubkey>, key: Pubkey) -> bool {
    authority is Some && authority->0@ == key@
}

/// The accounts of pool creation.
#[derive(Clone, Copy, Debug)]
pub struct InitializePool {
    /// The pool record; none until the pool is created.
    pub pool_account: Option<PoolAccount>,
    pub pool_signer: Pubkey,
    pub redeemable_mint: Mint,
    pub usdc_mint: Mint,
    pub native_mint: Mint,
    pub pool_native: TokenAccount,
    pub pool_usdc: TokenAccount,
    pub distribution_authority: Pubkey,
    pub payer: Pubkey,
    pub payer_is_signer: bool,
    pub creator_native: TokenAccount,
    pub program_id: Pubkey,
    /// The current time, in seconds.
    pub clock: i64,
}

impl InitializePool {
    /// The first account check that fails, if any.
    pub open spec fn constraint_error(&self) -> Option<ErrorCode> {
        if self.pool_account is Some {
            Some(ErrorCode::PoolExists)
        } else if !is_authority(self.redeemable_mint.mint_authority, self.pool_signer) {
            Some(ErrorCode::Unauthorized)
        } else if self.redeemable_mint.supply != 0 {
            Some(ErrorCode::InvalidAccount)
        } else if self.usdc_mint.decimals != self.redeemable_mint.decimals {
            Some(ErrorCode::InvalidAccount)
        } else if self.pool_native.mint@ != self.native_mint.key@ {
            Some(ErrorCode::InvalidAccount)
        } else if self.pool_native.owner@ != self.pool_signer@ {
            Some(ErrorCode::InvalidAccount)
        } else if self.pool_usdc.owner@ != self.pool_signer@ {
            Some(ErrorCode::InvalidAccount)
        } else if self.pool_usdc.key@ == self.pool_native.key@ {
            Some(ErrorCode::InvalidAccount)
        } else if !self.payer_is_signer {
            Some(ErrorCode::Unauthorized)
        } else {
            None
        }
    }

    /// Checks that the record is new, that the claim token's mint is fresh
    /// and controlled by the pool signer, with the quote asset's decimals,
    /// that both custodies are distinct and held by the pool signer, and that
    /// the payer signed.
    pub fn constraints(&self) -> (r: Result<(), ErrorCode>)
        ensures
            r == match self.constraint_error() {
                Some(e) => Err(e),
                None => Ok(()),
            },
    {
        if self.pool_account.is_some() {
            return Err(ErrorCode::PoolExists);
        }
        if !signer_matches(self.redeemable_mint.mint_authority, &self.pool_signer) {
            return Err(ErrorCode::Unauthorized);
        }
        if self.redeemable_mint.supply != 0 {
            return Err(ErrorCode::InvalidAccount);
        }
        if self.usdc_mint.decimals != self.redeemable_mint.decimals {
            return Err(ErrorCode::InvalidAccount);
        }
        if !self.pool_native.mint.same_as(&self.native_mint.key) {
            return Err(ErrorCode::InvalidAccount);
        }
        if !self.pool_native.owner.same_as(&self.pool_signer) {
            return Err(ErrorCode::InvalidAccount);
        }
        if !self.pool_usdc.owner.same_as(&self.pool_signer) {
            return Err(ErrorCode::InvalidAccount);
        }
        if self.pool_usdc.key.same_as(&self.pool_native.key) {
            return Err(ErrorCode::InvalidAccount);
        }
        if !self.payer_is_signer {
            return Err(ErrorCode::Unauthorized);
        }
        Ok(())
    }

    /// Checks that `nonce` derives the supplied pool signer from the native
    /// asset's mint.
    pub fn accounts(&self, nonce: u8) -> (r: Result<(), ErrorCode>)
        ensures
            r == if derives(self.pool_native.mint@, nonce, self.program_id@, self.pool_signer@) {
                Ok(())
            } else {
                Err(ErrorCode::InvalidNonce)
            },
    {
        if is_derived_signer(&self.pool_native.mint, nonce, &self.program_id, &self.pool_signer) {
            Ok(())
        } else {
            Err(ErrorCode::InvalidNonce)
        }
    }
}

/// The accounts of a schedule amendment.
#[derive(Clone, Copy, Debug)]
pub struct ModifyIcoTime {
    pub pool_account: PoolAccount,
    pub distribution_authority: Pubkey,
    pub distribution_authority_is_signer: bool,
    pub payer_is_signer: bool,
}

impl ModifyIcoTime {
    pub open spec fn constraint_error(&self) -> Option<ErrorCode> {
        if self.pool_account.distribution_authority@ != self.distribution_authority@ {
            Some(ErrorCode::Unauthorized)
        } else if !self.distribution_authority_is_signer || !self.payer_is_signer {
            Some(ErrorCode::Unauthorized)
        } else {
            None
        }
    }

    /// Checks that the pool's controller and the payer signed.
    pub fn constraints(&self) -> (r: Result<(), ErrorCode>)
        ensures
            r == match self.constraint_error() {
                Some(e) => Err(e),
                None => Ok(()),
            },
    {
        if !self.pool_account.distribution_authority.same_as(&self.distribution_authority) {
            return Err(ErrorCode::Unauthorized);
        }
        if !self.distribution_authority_is_signer || !self.payer_is_signer {
            return Err(ErrorCode::Unauthorized);
        }
        Ok(())
    }
}

/// The accounts of a buy-in.
#[derive(Clone, Copy, Debug)]
pub struct ExchangeUsdcForRedeemable {
    pub pool_account: PoolAccount,
    pub pool_signer: Pubkey,
    pub redeemable_mint: Mint,
    pub pool_usdc: TokenAccount,
    pub user_authority: Pubkey,
    pub user_authority_is_signer: bool,
    pub user_usdc: TokenAccount,
    pub user_redeemable: TokenAccount,
    pub program_id: Pubkey,
    /// The current time, in seconds.
    pub clock: i64,
}

impl ExchangeUsdcForRedeemable {
    pub open spec fn constraint_error(&self) -> Option<ErrorCode> {
        let pool = self.pool_account;
        if pool.redeemable_mint@ != self.redeemable_mint.key@ {
            Some(ErrorCode::InvalidAccount)
        } else if pool.pool_usdc@ != self.pool_usdc.key@ {
            Some(ErrorCode::InvalidAccount)
        } else if !derives(pool.native_mint@, pool.nonce, self.program_id@, self.pool_signer@) {
            Some(ErrorCode::Unauthorized)
        } else if !is_authority(self.redeemable_mint.mint_authority, self.pool_signer) {
            Some(ErrorCode::Unauthorized)
        } else if self.pool_usdc.owner@ != self.pool_signer@ {
            Some(ErrorCode::InvalidAccount)
        } else if !self.user_authority_is_signer {
            Some(ErrorCode::Unauthorized)
        } else if self.user_usdc.owner@ != self.user_authority@ {
            Some(ErrorCode::Unauthorized)
        } else if self.user_redeemable.owner@ != self.user_authority@ {
            Some(ErrorCode::Unauthorized)
        } else if self.user_usdc.key@ == pool.pool_native@ || self.user_redeemable.key@
            == pool.pool_native@ {
            Some(ErrorCode::InvalidAccount)
        } else {
            None
        }
    }

    /// Checks that the mint and the quote custody are the pool's, that the
    /// pool signer is the derived one and controls both, that the buyer
    /// signed and owns both of their accounts, and that neither of those is
    /// the native custody.
    pub fn constraints(&self) -> (r: Result<(), ErrorCode>)
        ensures
            r == match self.constraint_error() {
                Some(e) => Err(e),
                None => Ok(()),
            },
    {
        let pool = &self.pool_account;
        if !pool.redeemable_mint.same_as(&self.redeemable_mint.key) {
            return Err(ErrorCode::InvalidAccount);
        }
        if !pool.pool_usdc.same_as(&self.pool_usdc.key) {
            return Err(ErrorCode::InvalidAccount);
        }
        if !is_derived_signer(&pool.native_mint, pool.nonce, &self.program_id, &self.pool_signer) {
            return Err(ErrorCode::Unauthorized);
        }
        if !signer_matches(self.redeemable_mint.mint_authority, &self.pool_signer) {
            return Err(ErrorCode::Unauthorized);
        }
        if !self.pool_usdc.owner.same_as(&self.pool_signer) {
            return Err(ErrorCode::InvalidAccount);
        }
        if !self.user_authority_is_signer {
            return Err(ErrorCode::Unauthorized);
        }
        if !self.user_usdc.owner.same_as(&self.user_authority) {
            return Err(ErrorCode::Unauthorized);
        }
        if !self.user_redeemable.owner.same_as(&self.user_authority) {
            return Err(ErrorCode::Unauthorized);
        }
        if self.user_usdc.key.same_as(&pool.pool_native) || self.user_redeemable.key.same_as(
            &pool.pool_native,
        ) {
            return Err(ErrorCode::InvalidAccount);
        }
        Ok(())
    }
}

/// The accounts of a redemption.
#[derive(Clone, Copy, Debug)]
pub struct ExchangeRedeemableForNative {
    pub pool_account: PoolAccount,
    pub pool_signer: Pubkey,
    pub redeemable_mint: Mint,
    pub pool_native: TokenAccount,
    pub user_authority: Pubkey,
    pub user_authority_is_signer: bool,
    pub user_native: TokenAccount,
    pub user_redeemable: TokenAccount,
    pub program_id: Pubkey,
    /// The current time, in seconds.
    pub clock: i64,
}

impl ExchangeRedeemableForNative {
    pub open spec fn constraint_error(&self) -> Option<ErrorCode> {
        let pool = self.pool_account;
        if pool.redeemable_mint@ != self.redeemable_mint.key@ {
            Some(ErrorCode::InvalidAccount)
        } else if pool.pool_native@ != self.pool_native.key@ {
            Some(ErrorCode::InvalidAccount)
        } else if !derives(pool.native_mint@, pool.nonce, self.program_id@, self.pool_signer@) {
            Some(ErrorCode::Unauthorized)
        } else if !is_authority(self.redeemable_mint.mint_authority, self.pool_signer) {
            Some(ErrorCode::Unauthorized)
        } else if self.pool_native.owner@ != self.pool_signer@ {
            Some(ErrorCode::InvalidAccount)
        } else if !self.user_authority_is_signer {
            Some(ErrorCode::Unauthorized)
        } else if self.user_native.owner@ != self.user_authority@ {
            Some(ErrorCode::Unauthorized)
        } else if self.user_redeemable.owner@ != self.user_authority@ {
            Some(ErrorCode::Unauthorized)
        } else if self.user_native.key@ == pool.pool_native@ || self.user_redeemable.key@
            == pool.pool_native@ {
            Some(ErrorCode::InvalidAccount)
        } else {
            None
        }
    }

    /// Checks that the mint and the native custody are the pool's, that the
    /// pool signer is the derived one and controls both, that the holder
    /// signed and owns both of their accounts, and that neither of those is
    /// the native custody.
    pub fn constraints(&self) -> (r: Result<(), ErrorCode>)
        ensures
            r == match self.constraint_error() {
                Some(e) => Err(e),
                None => Ok(()),
            },
    {
        let pool = &self.pool_account;
        if !pool.redeemable_mint.same_as(&self.redeemable_mint.key) {
            return Err(ErrorCode::InvalidAccount);
        }
        if !pool.pool_native.same_as(&self.pool_native.key) {
            return Err(ErrorCode::InvalidAccount);
        }
        if !is_derived_signer(&pool.native_mint, pool.nonce, &self.program_id, &self.pool_signer) {
            return Err(ErrorCode::Unauthorized);
        }
        if !signer_matches(self.redeemable_mint.mint_authority, &self.pool_signer) {
            return Err(ErrorCode::Unauthorized);
        }
        if !self.pool_native.owner.same_as(&self.pool_signer) {
            return Err(ErrorCode::InvalidAccount);
        }
        if !self.user_authority_is_signer {
            return Err(ErrorCode::Unauthorized);
        }
        if !self.user_native.owner.same_as(&self.user_authority) {
            return Err(ErrorCode::Unauthorized);
        }
        if !self.user_redeemable.owner.same_as(&self.user_authority) {
            return Err(ErrorCode::Unauthorized);
        }
        if self.user_native.key.same_as(&pool.pool_native) || self.user_redeemable.key.same_as(
            &pool.pool_native,
        ) {
            return Err(ErrorCode::InvalidAccount);
        }
        Ok(())
    }
}

/// The accounts of a withdrawal of the sale's proceeds.
#[derive(Clone, Copy, Debug)]
pub struct WithdrawPoolUsdc {
    pub pool_account: PoolAccount,
    pub pool_signer: Pubkey,
    pub pool_usdc: TokenAccount,
    pub distribution_authority: Pubkey,
    pub distribution_authority_is_signer: bool,
    pub payer_is_signer: bool,
    pub creator_usdc: TokenAccount,
    pub program_id: Pubkey,
    /// The current time, in seconds.
    pub clock: i64,
}

impl WithdrawPoolUsdc {
    pub open spec fn constraint_error(&self) -> Option<ErrorCode> {
        let pool = self.pool_account;
        if pool.pool_usdc@ != self.pool_usdc.key@ {
            Some(ErrorCode::InvalidAccount)
        } else if pool.distribution_authority@ != self.distribution_authority@ {
            Some(ErrorCode::Unauthorized)
        } else if !derives(pool.native_mint@, pool.nonce, self.program_id@, self.pool_signer@) {
            Some(ErrorCode::Unauthorized)
        } else if self.pool_usdc.owner@ != self.pool_signer@ {
            Some(ErrorCode::InvalidAccount)
        } else if !self.distribution_authority_is_signer || !self.payer_is_signer {
            Some(ErrorCode::Unauthorized)
        } else if self.creator_usdc.key@ == pool.pool_native@ {
            Some(ErrorCode::InvalidAccount)
        } else {
            None
        }
    }

    /// Checks that the quote custody is the pool's and is controlled by the
    /// derived pool signer, that the pool's controller and the payer signed,
    /// and that the proceeds do not go to the native custody.
    pub fn constraints(&self) -> (r: Result<(), ErrorCode>)
        ensures
            r == match self.constraint_error() {
                Some(e) => Err(e),
                None => Ok(()),
            },
    {
        let pool = &self.pool_account;
        if !pool.pool_usdc.same_as(&self.pool_usdc.key) {
            return Err(ErrorCode::InvalidAccount);
        }
        if !pool.distribution_authority.same_as(&self.distribution_authority) {
            return Err(ErrorCode::Unauthorized);
        }
        if !is_derived_signer(&pool.native_mint, pool.nonce, &self.program_id, &self.pool_signer) {
            return Err(ErrorCode::Unauthorized);
        }
        if !self.pool_usdc.owner.same_as(&self.pool_signer) {
            return Err(ErrorCode::InvalidAccount);
        }
        if !self.distribution_authority_is_signer || !self.payer_is_signer {
            return Err(ErrorCode::Unauthorized);
        }
        if self.creator_usdc.key.same_as(&pool.pool_native) {
            return Err(ErrorCode::InvalidAccount);
        }
        Ok(())
    }
}

} // verus!

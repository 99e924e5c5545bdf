//! The reasons for which a pool operation is refused.
use vstd::prelude::*;

verus! {

/// Why an operation was refused. A refused operation changes nothing and
/// moves no value.
#[derive(Clone, Copy, Debug, PartialEq, Eq, Structural)]
pub enum ErrorCode {
    /// The sale must start after the pool is created.
    IcoFuture,
    /// The sale checkpoints are not in order.
    SeqTimes,
    /// The sale has not started.
    StartIcoTime,
    /// The sale has ended.
    EndIcoTime,
    /// Redemption has not opened yet.
    IcoNotOver,
    /// The buyer holds less quote asset than offered.
    LowUsdc,
    /// The holder has fewer claim tokens than offered.
    LowRedeemable,
    /// The quote total and the claim-token total differ.
    UsdcNotEqRedeem,
    /// The nonce does not derive the supplied pool signer.
    InvalidNonce,
    /// A zero amount, or a zero deposit.
    InvalidParam,
    /// Quote asset cannot be withdrawn after depositing.
    UsdcWithdrawNotAllowed,
    /// Claim tokens are still outstanding.
    WithdrawTokensNotAllowed,
    /// An identity that must sign did not, or is not the one the pool names.
    Unauthorized,
    /// An account is not the one the pool names, or has the wrong mint,
    /// owner or supply.
    InvalidAccount,
    /// The pool record already exists.
    PoolExists,
    /// A division by zero or an overflow in the exchange rate.
    ArithmeticFault,
}

impl ErrorCode {
    /// The message that describes the error.
    pub fn message(&self) -> &'static str {
        match self {
            ErrorCode::IcoFuture => "ICO must start in the future",
            ErrorCode::SeqTimes => "ICO times are non-sequential",
            ErrorCode::StartIcoTime => "ICO has not started",
            ErrorCode::EndIcoTime => "ICO has ended",
            ErrorCode::IcoNotOver => "ICO has not finished yet",
            ErrorCode::LowUsdc => "Insufficient USDC",
            ErrorCode::LowRedeemable => "Insufficient redeemable tokens",
            ErrorCode::UsdcNotEqRedeem => "USDC total and redeemable total don't match",
            ErrorCode::InvalidNonce => "Given nonce is invalid",
            ErrorCode::InvalidParam => "Invalid param",
            ErrorCode::UsdcWithdrawNotAllowed => "Cannot withdraw USDC after depositing",
            ErrorCode::WithdrawTokensNotAllowed => "Tokens still need to be redeemed",
            ErrorCode::Unauthorized => "Signer is not authorized",
            ErrorCode::InvalidAccount => "Account does not match the pool",
            ErrorCode::PoolExists => "Pool account already in use",
            ErrorCode::ArithmeticFault => "Exchange rate overflow or division by zero",
        }
    }
}

} // verus!

//! The pool's operations: each checks its accounts, the phase and its
//! arguments, and returns the token movements that carry it out.
use vstd::prelude::*;

use crate::accounts::PoolAccount;
use crate::context::{
    ExchangeRedeemableForNative, ExchangeUsdcForRedeemable, InitializePool, ModifyIcoTime,
    WithdrawPoolUsdc,
};
use crate::error::ErrorCode;
use crate::exchange::{redeem_amount, redeem_amount_spec};
use crate::keys::{derives, Pubkey};

verus! {

/// One movement for the token program to carry out. A movement signed by the
/// pool is authorised by the pool signer, derived from the pool's native
/// mint and nonce.
#[derive(Clone, Copy, Debug)]
pub enum TokenCommand {
    /// Move `amount` from `from` to `to`.
    Transfer { from: Pubkey, to: Pubkey, authority: Pubkey, amount: u64, signed_by_pool: bool },
    /// Create `amount` new tokens of `mint` in `to`; always signed by the pool.
    MintTo { mint: Pubkey, to: Pubkey, authority: Pubkey, amount: u64 },
    /// Destroy `amount` tokens of `mint` held in `from`.
    Burn { mint: Pubkey, from: Pubkey, authority: Pubkey, amount: u64 },
}

/// Pool creation must happen before the sale starts.
pub fn future_start_time(now: i64, start_ico_ts: i64) -> (r: Result<(), ErrorCode>)
    ensures
        r == if now < start_ico_ts {
            Ok(())
        } else {
            Err(ErrorCode::IcoFuture)
        },
{
    if !(now < start_ico_ts) {
        return Err(ErrorCode::IcoFuture);
    }
    Ok(())
}

/// Buying in is open strictly after the start and before the end of the
/// sale.
pub fn unrestricted_phase(pool: &PoolAccount, now: i64) -> (r: Result<(), ErrorCode>)
    ensures
        r == if !(pool.start_ico_ts < now) {
            Err(ErrorCode::StartIcoTime)
        } else if !(now < pool.end_ico_ts) {
            Err(ErrorCode::EndIcoTime)
        } else {
            Ok(())
        },
{
    if !(pool.start_ico_ts < now) {
        return Err(ErrorCode::StartIcoTime);
    }
    if !(now < pool.end_ico_ts) {
        return Err(ErrorCode::EndIcoTime);
    }
    Ok(())
}

/// Redemption and withdrawal are open strictly after `withdraw_native_ts`.
pub fn ico_over(pool: &PoolAccount, now: i64) -> (r: Result<(), ErrorCode>)
    ensures
        r == if pool.withdraw_native_ts < now {
            Ok(())
        } else {
            Err(ErrorCode::IcoNotOver)
        },
{
    if !(pool.withdraw_native_ts < now) {
        return Err(ErrorCode::IcoNotOver);
    }
    Ok(())
}

/// The record that pool creation writes.
pub open spec fn new_pool_account(
    ctx: InitializePool,
    num_ico_tokens: u64,
    nonce: u8,
    start_ico_ts: i64,
    end_ico_ts: i64,
    withdraw_native_ts: i64,
) -> PoolAccount {
    PoolAccount {
        redeemable_mint: ctx.redeemable_mint.key,
        pool_native: ctx.pool_native.key,
        native_mint: ctx.pool_native.mint,
        pool_usdc: ctx.pool_usdc.key,
        distribution_authority: ctx.distribution_authority,
        nonce,
        num_ico_tokens,
        start_ico_ts,
        end_ico_ts,
        withdraw_native_ts,
    }
}

/// Why pool creation is refused, if it is.
pub open spec fn initialize_pool_error(
    ctx: InitializePool,
    num_ico_tokens: u64,
    nonce: u8,
    start_ico_ts: i64,
    end_ico_ts: i64,
    withdraw_native_ts: i64,
) -> Option<ErrorCode> {
    if ctx.constraint_error() is Some {
        ctx.constraint_error()
    } else if !derives(ctx.pool_native.mint@, nonce, ctx.program_id@, ctx.pool_signer@) {
        Some(ErrorCode::InvalidNonce)
    } else if !(ctx.clock < start_ico_ts) {
        Some(ErrorCode::IcoFuture)
    } else if !(start_ico_ts < end_ico_ts && end_ico_ts <= withdraw_native_ts) {
        Some(ErrorCode::SeqTimes)
    } else if num_ico_tokens == 0 {
        Some(ErrorCode::InvalidParam)
    } else {
        None
    }
}

/// Creates the pool: writes its record into `ctx.pool_account` and returns
/// the deposit of `num_ico_tokens` native asset from the creator into the
/// pool's native custody. A refusal leaves `ctx` as it was.
pub fn initialize_pool(
    ctx: &mut InitializePool,
    num_ico_tokens: u64,
    nonce: u8,
    start_ico_ts: i64,
    end_ico_ts: i64,
    withdraw_native_ts: i64,
) -> (r: Result<Vec<TokenCommand>, ErrorCode>)
    ensures
        match initialize_pool_error(
            *old(ctx),
            num_ico_tokens,
            nonce,
            start_ico_ts,
            end_ico_ts,
            withdraw_native_ts,
        ) {
            Some(e) => r == Err::<Vec<TokenCommand>, ErrorCode>(e) && *final(ctx) == *old(ctx),
            None => {
                &&& r is Ok
                &&& r->Ok_0@ == seq![
                    TokenCommand::Transfer {
                        from: old(ctx).creator_native.key,
                        to: old(ctx).pool_native.key,
                        authority: old(ctx).payer,
                        amount: num_ico_tokens,
                        signed_by_pool: false,
                    },
                ]
                &&& *final(ctx) == (InitializePool {
                    pool_account: Some(
                        new_pool_account(
                            *old(ctx),
                            num_ico_tokens,
                            nonce,
                            start_ico_ts,
                            end_ico_ts,
                            withdraw_native_ts,
                        ),
                    ),
                    ..*old(ctx)
                })
            },
        },
        r is Ok ==> final(ctx).pool_account is Some && final(ctx).pool_account->0.wf(),
{
    ctx.constraints()?;
    ctx.accounts(nonce)?;
    future_start_time(ctx.clock, start_ico_ts)?;
    if !(start_ico_ts < end_ico_ts && end_ico_ts <= withdraw_native_ts) {
        return Err(ErrorCode::SeqTimes);
    }
    if num_ico_tokens == 0 {
        return Err(ErrorCode::InvalidParam);
    }
    ctx.pool_account = Some(
        PoolAccount {
            redeemable_mint: ctx.redeemable_mint.key,
            pool_native: ctx.pool_native.key,
            native_mint: ctx.pool_native.mint,
            pool_usdc: ctx.pool_usdc.key,
            distribution_authority: ctx.distribution_authority,
            nonce,
            num_ico_tokens,
            start_ico_ts,
            end_ico_ts,
            withdraw_native_ts,
        },
    );
    let deposit = TokenCommand::Transfer {
        from: ctx.creator_native.key,
        to: ctx.pool_native.key,
        authority: ctx.payer,
        amount: num_ico_tokens,
        signed_by_pool: false,
    };
    Ok(vec![deposit])
}

/// Why a schedule amendment is refused, if it is.
pub open spec fn modify_ico_time_error(
    ctx: ModifyIcoTime,
    start_ico_ts: i64,
    end_ico_ts: i64,
    withdraw_native_ts: i64,
) -> Option<ErrorCode> {
    if ctx.constraint_error() is Some {
        ctx.constraint_error()
    } else if !(start_ico_ts < end_ico_ts && end_ico_ts < withdraw_native_ts) {
        Some(ErrorCode::SeqTimes)
    } else {
        None
    }
}

/// Replaces the three checkpoints of the sale, at any phase, on the
/// controller's signature. Unlike creation, the end of the sale must come
/// strictly before redemption opens. A refusal leaves `ctx` as it was.
pub fn modify_ico_time(
    ctx: &mut ModifyIcoTime,
    start_ico_ts: i64,
    end_ico_ts: i64,
    withdraw_native_ts: i64,
) -> (r: Result<(), ErrorCode>)
    ensures
        match modify_ico_time_error(*old(ctx), start_ico_ts, end_ico_ts, withdraw_native_ts) {
            Some(e) => r == Err::<(), ErrorCode>(e) && *final(ctx) == *old(ctx),
            None => r is Ok && *final(ctx) == (ModifyIcoTime {
                pool_account: PoolAccount {
                    start_ico_ts,
                    end_ico_ts,
                    withdraw_native_ts,
                    ..old(ctx).pool_account
                },
                ..*old(ctx)
            }),
        },
        old(ctx).pool_account.wf() ==> final(ctx).pool_account.wf(),
{
    ctx.constraints()?;
    if !(start_ico_ts < end_ico_ts && end_ico_ts < withdraw_native_ts) {
        return Err(ErrorCode::SeqTimes);
    }
    ctx.pool_account.start_ico_ts = start_ico_ts;
    ctx.pool_account.end_ico_ts = end_ico_ts;
    ctx.pool_account.withdraw_native_ts = withdraw_native_ts;
    Ok(())
}

/// Why a buy-in is refused, if it is.
pub open spec fn buy_in_error(ctx: ExchangeUsdcForRedeemable, amount: u64) -> Option<ErrorCode> {
    if ctx.constraint_error() is Some {
        ctx.constraint_error()
    } else if !(ctx.pool_account.start_ico_ts < ctx.clock) {
        Some(ErrorCode::StartIcoTime)
    } else if !(ctx.clock < ctx.pool_account.end_ico_ts) {
        Some(ErrorCode::EndIcoTime)
    } else if amount == 0 {
        Some(ErrorCode::InvalidParam)
    } else if ctx.user_usdc.amount < amount {
        Some(ErrorCode::LowUsdc)
    } else {
        None
    }
}

/// The movements of an accepted buy-in: the buyer pays `amount` quote asset
/// into the pool's quote custody, and receives `amount` new claim tokens.
pub open spec fn buy_in_commands(ctx: ExchangeUsdcForRedeemable, amount: u64) -> Seq<TokenCommand> {
    seq![
        TokenCommand::Transfer {
            from: ctx.user_usdc.key,
            to: ctx.pool_usdc.key,
            authority: ctx.user_authority,
            amount,
            signed_by_pool: false,
        },
        TokenCommand::MintTo {
            mint: ctx.redeemable_mint.key,
            to: ctx.user_redeemable.key,
            authority: ctx.pool_signer,
            amount,
        },
    ]
}

/// What a buy-in returns.
pub open spec fn buy_in_spec(ctx: ExchangeUsdcForRedeemable, amount: u64) -> Result<
    Seq<TokenCommand>,
    ErrorCode,
> {
    match buy_in_error(ctx, amount) {
        Some(e) => Err(e),
        None => Ok(buy_in_commands(ctx, amount)),
    }
}

/// Buys in during the open sale: one claim token for each unit of quote
/// asset paid.
pub fn exchange_usdc_for_redeemable(ctx: &ExchangeUsdcForRedeemable, amount: u64) -> (r: Result<
    Vec<TokenCommand>,
    ErrorCode,
>)
    ensures
        match r {
            Ok(cmds) => buy_in_spec(*ctx, amount) == Ok::<Seq<TokenCommand>, ErrorCode>(cmds@),
            Err(e) => buy_in_spec(*ctx, amount) == Err::<Seq<TokenCommand>, ErrorCode>(e),
        },
{
    ctx.constraints()?;
    unrestricted_phase(&ctx.pool_account, ctx.clock)?;
    if amount == 0 {
        return Err(ErrorCode::InvalidParam);
    }
    if ctx.user_usdc.amount < amount {
        return Err(ErrorCode::LowUsdc);
    }
    let payment = TokenCommand::Transfer {
        from: ctx.user_usdc.key,
        to: ctx.pool_usdc.key,
        authority: ctx.user_authority,
        amount,
        signed_by_pool: false,
    };
    let claim = TokenCommand::MintTo {
        mint: ctx.redeemable_mint.key,
        to: ctx.user_redeemable.key,
        authority: ctx.pool_signer,
        amount,
    };
    let cmds = vec![payment, claim];
    assert(cmds@ =~= buy_in_commands(*ctx, amount));
    Ok(cmds)
}

/// Why a redemption is refused before the exchange rate is formed, if it
/// is.
pub open spec fn redeem_error(ctx: ExchangeRedeemableForNative, amount: u64) -> Option<ErrorCode> {
    if ctx.constraint_error() is Some {
        ctx.constraint_error()
    } else if !(ctx.pool_account.withdraw_native_ts < ctx.clock) {
        Some(ErrorCode::IcoNotOver)
    } else if amount == 0 {
        Some(ErrorCode::InvalidParam)
    } else if ctx.user_redeemable.amount < amount {
        Some(ErrorCode::LowRedeemable)
    } else {
        None
    }
}

/// The movements of an accepted redemption: the holder's `amount` claim
/// tokens are burned, and `owed` native asset leaves the pool's custody for
/// the holder.
pub open spec fn redeem_commands(ctx: ExchangeRedeemableForNative, amount: u64, owed: u64) -> Seq<
    TokenCommand,
> {
    seq![
        TokenCommand::Burn {
            mint: ctx.redeemable_mint.key,
            from: ctx.user_redeemable.key,
            authority: ctx.user_authority,
            amount,
        },
        TokenCommand::Transfer {
            from: ctx.pool_native.key,
            to: ctx.user_native.key,
            authority: ctx.pool_signer,
            amount: owed,
            signed_by_pool: true,
        },
    ]
}

/// What a redemption returns.
pub open spec fn redeem_spec(ctx: ExchangeRedeemableForNative, amount: u64) -> Result<
    Seq<TokenCommand>,
    ErrorCode,
> {
    match redeem_error(ctx, amount) {
        Some(e) => Err(e),
        None => match redeem_amount_spec(amount, ctx.pool_native.amount, ctx.redeemable_mint.supply) {
            Ok(owed) => Ok(redeem_commands(ctx, amount, owed)),
            Err(e) => Err(e),
        },
    }
}

/// Redeems claim tokens once redemption is open, for the holder's share of
/// the native custody: `amount * balance / supply`, rounded down.
pub fn exchange_redeemable_for_native(ctx: &ExchangeRedeemableForNative, amount: u64) -> (r:
    Result<Vec<TokenCommand>, ErrorCode>)
    ensures
        match r {
            Ok(cmds) => redeem_spec(*ctx, amount) == Ok::<Seq<TokenCommand>, ErrorCode>(cmds@),
            Err(e) => redeem_spec(*ctx, amount) == Err::<Seq<TokenCommand>, ErrorCode>(e),
        },
{
    ctx.constraints()?;
    ico_over(&ctx.pool_account, ctx.clock)?;
    if amount == 0 {
        return Err(ErrorCode::InvalidParam);
    }
    if ctx.user_redeemable.amount < amount {
        return Err(ErrorCode::LowRedeemable);
    }
    let owed = redeem_amount(amount, ctx.pool_native.amount, ctx.redeemable_mint.supply)?;
    let burn = TokenCommand::Burn {
        mint: ctx.redeemable_mint.key,
        from: ctx.user_redeemable.key,
        authority: ctx.user_authority,
        amount,
    };
    let payout = TokenCommand::Transfer {
        from: ctx.pool_native.key,
        to: ctx.user_native.key,
        authority: ctx.pool_signer,
        amount: owed,
        signed_by_pool: true,
    };
    let cmds = vec![burn, payout];
    assert(cmds@ =~= redeem_commands(*ctx, amount, owed));
    Ok(cmds)
}

/// Why a withdrawal of proceeds is refused, if it is.
pub open spec fn withdraw_error(ctx: WithdrawPoolUsdc) -> Option<ErrorCode> {
    if ctx.constraint_error() is Some {
        ctx.constraint_error()
    } else if !(ctx.pool_account.withdraw_native_ts < ctx.clock) {
        Some(ErrorCode::IcoNotOver)
    } else {
        None
    }
}

/// The movement of an accepted withdrawal: `amount` quote asset from the
/// pool's quote custody to the controller's account, signed by the pool.
pub open spec fn withdraw_pool_commands(ctx: WithdrawPoolUsdc, amount: u64) -> Seq<TokenCommand> {
    seq![
        TokenCommand::Transfer {
            from: ctx.pool_usdc.key,
            to: ctx.creator_usdc.key,
            authority: ctx.pool_signer,
            amount,
            signed_by_pool: true,
        },
    ]
}

/// Sends `amount` of the sale's quote proceeds to the controller once
/// redemption is open. The amount is not bounded here: the token program
/// refuses a transfer beyond the custody's balance.
pub fn withdraw_pool_usdc(ctx: &WithdrawPoolUsdc, amount: u64) -> (r: Result<
    Vec<TokenCommand>,
    ErrorCode,
>)
    ensures
        match withdraw_error(*ctx) {
            Some(e) => r == Err::<Vec<TokenCommand>, ErrorCode>(e),
            None => r is Ok && r->Ok_0@ == withdraw_pool_commands(*ctx, amount),
        },
{
    ctx.constraints()?;
    ico_over(&ctx.pool_account, ctx.clock)?;
    let proceeds = TokenCommand::Transfer {
        from: ctx.pool_usdc.key,
        to: ctx.creator_usdc.key,
        authority: ctx.pool_signer,
        amount,
        signed_by_pool: true,
    };
    Ok(vec![proceeds])
}

/// Creation accepts exactly the ordered schedules with a nonzero deposit:
/// once the accounts, the nonce and the start time have passed, a schedule
/// out of order is refused with `SeqTimes`, a zero deposit with
/// `InvalidParam`, and an accepted creation records a well-formed pool.
pub proof fn lemma_creation_checks_schedule_and_deposit(
    ctx: InitializePool,
    num_ico_tokens: u64,
    nonce: u8,
    start_ico_ts: i64,
    end_ico_ts: i64,
    withdraw_native_ts: i64,
)
    requires
        ctx.constraint_error() is None,
        derives(ctx.pool_native.mint@, nonce, ctx.program_id@, ctx.pool_signer@),
        ctx.clock < start_ico_ts,
    ensures
        !(start_ico_ts < end_ico_ts <= withdraw_native_ts) ==> initialize_pool_error(
            ctx,
            num_ico_tokens,
            nonce,
            start_ico_ts,
            end_ico_ts,
            withdraw_native_ts,
        ) == Some(ErrorCode::SeqTimes),
        start_ico_ts < end_ico_ts <= withdraw_native_ts && num_ico_tokens == 0
            ==> initialize_pool_error(
            ctx,
            num_ico_tokens,
            nonce,
            start_ico_ts,
            end_ico_ts,
            withdraw_native_ts,
        ) == Some(ErrorCode::InvalidParam),
        initialize_pool_error(
            ctx,
            num_ico_tokens,
            nonce,
            start_ico_ts,
            end_ico_ts,
            withdraw_native_ts,
        ) is None <==> (start_ico_ts < end_ico_ts <= withdraw_native_ts && num_ico_tokens > 0),
        start_ico_ts < end_ico_ts <= withdraw_native_ts && num_ico_tokens > 0 ==> new_pool_account(
            ctx,
            num_ico_tokens,
            nonce,
            start_ico_ts,
            end_ico_ts,
            withdraw_native_ts,
        ).wf(),
{
}

} // verus!

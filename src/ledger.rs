//! What the token movements that the operations return do to supplies and
//! balances, and what a run of buy-ins does to the pool.
use vstd::prelude::*;

use crate::accounts::PoolAccount;
use crate::context::{ExchangeRedeemableForNative, ExchangeUsdcForRedeemable, WithdrawPoolUsdc};
use crate::exchange::native_owed;
use crate::pool::{buy_in_spec, redeem_spec, withdraw_error, withdraw_pool_commands, TokenCommand};

verus! {

/// The change that one movement makes to the supply of `mint`.
pub open spec fn supply_change(cmd: TokenCommand, mint: Seq<u8>) -> int {
    match cmd {
        TokenCommand::MintTo { mint: m, amount, .. } => if m@ == mint {
            amount as int
        } else {
            0
        },
        TokenCommand::Burn { mint: m, amount, .. } => if m@ == mint {
            -(amount as int)
        } else {
            0
        },
        TokenCommand::Transfer { .. } => 0,
    }
}

/// The change that one movement makes to the balance of `account`.
pub open spec fn balance_change(cmd: TokenCommand, account: Seq<u8>) -> int {
    match cmd {
        TokenCommand::Transfer { from, to, amount, .. } => (if to@ == account {
            amount as int
        } else {
            0
        }) - (if from@ == account {
            amount as int
        } else {
            0
        }),
        TokenCommand::MintTo { to, amount, .. } => if to@ == account {
            amount as int
        } else {
            0
        },
        TokenCommand::Burn { from, amount, .. } => if from@ == account {
            -(amount as int)
        } else {
            0
        },
    }
}

/// The change that a run of movements makes to the supply of `mint`.
pub open spec fn commands_supply_change(cmds: Seq<TokenCommand>, mint: Seq<u8>) -> int
    decreases cmds.len(),
{
    if cmds.len() == 0 {
        0
    } else {
        supply_change(cmds[0], mint) + commands_supply_change(cmds.drop_first(), mint)
    }
}

/// The change that a run of movements makes to the balance of `account`.
pub open spec fn commands_balance_change(cmds: Seq<TokenCommand>, account: Seq<u8>) -> int
    decreases cmds.len(),
{
    if cmds.len() == 0 {
        0
    } else {
        balance_change(cmds[0], account) + commands_balance_change(cmds.drop_first(), account)
    }
}

/// The movements of a buy-in attempt: none where it is refused.
pub open spec fn attempt_commands(ctx: ExchangeUsdcForRedeemable, amount: u64) -> Seq<TokenCommand> {
    match buy_in_spec(ctx, amount) {
        Ok(cmds) => cmds,
        Err(_) => Seq::empty(),
    }
}

/// The movements of a run of buy-in attempts, in order.
pub open spec fn buy_ins_commands(ctxs: Seq<ExchangeUsdcForRedeemable>, amounts: Seq<u64>) -> Seq<
    TokenCommand,
>
    decreases ctxs.len(),
{
    if ctxs.len() == 0 || amounts.len() == 0 {
        Seq::empty()
    } else {
        attempt_commands(ctxs[0], amounts[0]) + buy_ins_commands(
            ctxs.drop_first(),
            amounts.drop_first(),
        )
    }
}

/// The sum of the amounts of the buy-in attempts that are accepted.
pub open spec fn accepted_total(ctxs: Seq<ExchangeUsdcForRedeemable>, amounts: Seq<u64>) -> int
    decreases ctxs.len(),
{
    if ctxs.len() == 0 || amounts.len() == 0 {
        0
    } else {
        (if buy_in_spec(ctxs[0], amounts[0]) is Ok {
            amounts[0] as int
        } else {
            0
        }) + accepted_total(ctxs.drop_first(), amounts.drop_first())
    }
}

/// Splitting a run of movements splits the change it makes to a supply.
pub proof fn lemma_supply_change_append(a: Seq<TokenCommand>, b: Seq<TokenCommand>, mint: Seq<u8>)
    ensures
        commands_supply_change(a + b, mint) == commands_supply_change(a, mint)
            + commands_supply_change(b, mint),
    decreases a.len(),
{
    if a.len() == 0 {
        assert(a + b =~= b);
    } else {
        assert((a + b).drop_first() =~= a.drop_first() + b);
        lemma_supply_change_append(a.drop_first(), b, mint);
    }
}

/// Splitting a run of movements splits the change it makes to a balance.
pub proof fn lemma_balance_change_append(a: Seq<TokenCommand>, b: Seq<TokenCommand>, account: Seq<u8>)
    ensures
        commands_balance_change(a + b, account) == commands_balance_change(a, account)
            + commands_balance_change(b, account),
    decreases a.len(),
{
    if a.len() == 0 {
        assert(a + b =~= b);
    } else {
        assert((a + b).drop_first() =~= a.drop_first() + b);
        lemma_balance_change_append(a.drop_first(), b, account);
    }
}

/// Over any run of buy-in attempts against one pool record, the claim
/// token's supply grows by exactly the sum of the accepted amounts, and the
/// balance of the native custody does not change.
pub proof fn lemma_buy_ins_mint_paid_amounts(
    pool: PoolAccount,
    ctxs: Seq<ExchangeUsdcForRedeemable>,
    amounts: Seq<u64>,
)
    requires
        pool.wf(),
        forall|i: int| 0 <= i < ctxs.len() ==> (#[trigger] ctxs[i]).pool_account == pool,
    ensures
        commands_supply_change(buy_ins_commands(ctxs, amounts), pool.redeemable_mint@)
            == accepted_total(ctxs, amounts),
        commands_balance_change(buy_ins_commands(ctxs, amounts), pool.pool_native@) == 0,
    decreases ctxs.len(),
{
    if ctxs.len() == 0 || amounts.len() == 0 {
    } else {
        let first = attempt_commands(ctxs[0], amounts[0]);
        let rest = buy_ins_commands(ctxs.drop_first(), amounts.drop_first());
        assert(ctxs[0].pool_account == pool);
        assert forall|i: int| 0 <= i < ctxs.drop_first().len() implies (
        #[trigger] ctxs.drop_first()[i]).pool_account == pool by {
            assert(ctxs.drop_first()[i] == ctxs[i + 1]);
        }
        lemma_buy_ins_mint_paid_amounts(pool, ctxs.drop_first(), amounts.drop_first());
        lemma_supply_change_append(first, rest, pool.redeemable_mint@);
        lemma_balance_change_append(first, rest, pool.pool_native@);
        reveal_with_fuel(commands_supply_change, 3);
        reveal_with_fuel(commands_balance_change, 3);
        if buy_in_spec(ctxs[0], amounts[0]) is Ok {
            let c = first;
            assert(c.drop_first().drop_first() =~= Seq::<TokenCommand>::empty());
        }
    }
}

/// An accepted redemption burns exactly the claim from the claim token's
/// supply and takes exactly what the claim is owed out of the native custody:
/// both totals shrink together, as the redemption model has it.
pub proof fn lemma_redemption_moves_owed_share(ctx: ExchangeRedeemableForNative, amount: u64)
    requires
        ctx.pool_account.wf(),
        redeem_spec(ctx, amount) is Ok,
    ensures
        commands_supply_change(redeem_spec(ctx, amount)->Ok_0, ctx.pool_account.redeemable_mint@)
            == -(amount as int),
        commands_balance_change(redeem_spec(ctx, amount)->Ok_0, ctx.pool_account.pool_native@)
            == -native_owed(
            amount as int,
            ctx.pool_native.amount as int,
            ctx.redeemable_mint.supply as int,
        ),
{
    reveal_with_fuel(commands_supply_change, 3);
    reveal_with_fuel(commands_balance_change, 3);
    let c = redeem_spec(ctx, amount)->Ok_0;
    assert(c.drop_first().drop_first() =~= Seq::<TokenCommand>::empty());
}

/// A withdrawal of proceeds moves quote asset only: the native custody's
/// balance does not change.
pub proof fn lemma_withdraw_leaves_native_custody(ctx: WithdrawPoolUsdc, amount: u64)
    requires
        ctx.pool_account.wf(),
        withdraw_error(ctx) is None,
    ensures
        commands_balance_change(withdraw_pool_commands(ctx, amount), ctx.pool_account.pool_native@)
            == 0,
{
    reveal_with_fuel(commands_balance_change, 2);
    let c = withdraw_pool_commands(ctx, amount);
    assert(c.drop_first() =~= Seq::<TokenCommand>::empty());
}

} // verus!

use ico_platform::{
    exchange_redeemable_for_native, exchange_usdc_for_redeemable, future_start_time, ico_over,
    initialize_pool, is_derived_signer, modify_ico_time, redeem_amount, signer_matches,
    unrestricted_phase, withdraw_pool_usdc, ErrorCode, ExchangeRedeemableForNative,
    ExchangeUsdcForRedeemable, InitializePool, Mint, ModifyIcoTime, Phase, PoolAccount, Pubkey,
    TokenAccount, TokenCommand, WithdrawPoolUsdc, POOL_ACCOUNT_LEN,
};

const START: i64 = 1_000;
const END: i64 = 2_000;
const REDEEM: i64 = 3_000;

fn key(n: u8) -> Pubkey {
    Pubkey::new_from_array([n; 32])
}

fn program_id() -> Pubkey {
    key(200)
}

fn native_mint_key() -> Pubkey {
    key(1)
}

/// The pool signer that the native mint derives, and its nonce.
fn pool_signer() -> (Pubkey, u8) {
    let id = anchor_lang::prelude::Pubkey::new_from_array(program_id().bytes);
    let (signer, nonce) =
        anchor_lang::prelude::Pubkey::find_program_address(&[&native_mint_key().bytes], &id);
    (Pubkey::new_from_array(signer.to_bytes()), nonce)
}

fn token_account(k: u8, mint: Pubkey, owner: Pubkey, amount: u64) -> TokenAccount {
    TokenAccount { key: key(k), mint, owner, amount }
}

fn mint(k: u8, authority: Option<Pubkey>, supply: u64) -> Mint {
    Mint { key: key(k), mint_authority: authority, supply, decimals: 6 }
}

fn init_ctx() -> InitializePool {
    let (signer, _) = pool_signer();
    InitializePool {
        pool_account: None,
        pool_signer: signer,
        redeemable_mint: mint(2, Some(signer), 0),
        usdc_mint: mint(3, None, 5_000),
        native_mint: mint(1, None, 1_000_000),
        pool_native: token_account(10, native_mint_key(), signer, 0),
        pool_usdc: token_account(11, key(3), signer, 0),
        distribution_authority: key(20),
        payer: key(21),
        payer_is_signer: true,
        creator_native: token_account(12, native_mint_key(), key(21), 1_000_000),
        program_id: program_id(),
        clock: 500,
    }
}

fn created_pool(deposit: u64) -> PoolAccount {
    let (_, nonce) = pool_signer();
    let mut ctx = init_ctx();
    initialize_pool(&mut ctx, deposit, nonce, START, END, REDEEM).unwrap();
    ctx.pool_account.unwrap()
}

fn buy_ctx(pool: PoolAccount, user: u8, usdc: u64, supply: u64, now: i64) -> ExchangeUsdcForRedeemable {
    let (signer, _) = pool_signer();
    ExchangeUsdcForRedeemable {
        pool_account: pool,
        pool_signer: signer,
        redeemable_mint: mint(2, Some(signer), supply),
        pool_usdc: token_account(11, key(3), signer, 0),
        user_authority: key(user),
        user_authority_is_signer: true,
        user_usdc: token_account(user + 1, key(3), key(user), usdc),
        user_redeemable: token_account(user + 2, key(2), key(user), 0),
        program_id: program_id(),
        clock: now,
    }
}

fn redeem_ctx(
    pool: PoolAccount,
    user: u8,
    held: u64,
    supply: u64,
    balance: u64,
    now: i64,
) -> ExchangeRedeemableForNative {
    let (signer, _) = pool_signer();
    ExchangeRedeemableForNative {
        pool_account: pool,
        pool_signer: signer,
        redeemable_mint: mint(2, Some(signer), supply),
        pool_native: token_account(10, native_mint_key(), signer, balance),
        user_authority: key(user),
        user_authority_is_signer: true,
        user_native: token_account(user + 3, native_mint_key(), key(user), 0),
        user_redeemable: token_account(user + 2, key(2), key(user), held),
        program_id: program_id(),
        clock: now,
    }
}

fn withdraw_ctx(pool: PoolAccount, now: i64) -> WithdrawPoolUsdc {
    let (signer, _) = pool_signer();
    WithdrawPoolUsdc {
        pool_account: pool,
        pool_signer: signer,
        pool_usdc: token_account(11, key(3), signer, 1_000),
        distribution_authority: key(20),
        distribution_authority_is_signer: true,
        payer_is_signer: true,
        creator_usdc: token_account(30, key(3), key(20), 0),
        program_id: program_id(),
        clock: now,
    }
}

fn minted(cmds: &[TokenCommand]) -> u64 {
    let mut total = 0;
    for c in cmds {
        if let TokenCommand::MintTo { amount, .. } = c {
            total += amount;
        }
    }
    total
}

fn paid_out_of(cmds: &[TokenCommand], account: Pubkey) -> u64 {
    let mut total = 0;
    for c in cmds {
        if let TokenCommand::Transfer { from, amount, .. } = c {
            if from.bytes == account.bytes {
                total += amount;
            }
        }
    }
    total
}

#[test]
fn derived_signer_is_recognised() {
    let (signer, nonce) = pool_signer();
    assert!(is_derived_signer(&native_mint_key(), nonce, &program_id(), &signer));
    assert!(!is_derived_signer(&native_mint_key(), nonce, &program_id(), &native_mint_key()));
    assert!(!is_derived_signer(&native_mint_key(), nonce, &program_id(), &key(99)));
    assert!(signer_matches(Some(signer), &signer));
    assert!(!signer_matches(None, &signer));
}

#[test]
fn initialize_records_pool_and_deposits() {
    let (signer, nonce) = pool_signer();
    let mut ctx = init_ctx();
    let cmds = initialize_pool(&mut ctx, 1_000_000, nonce, START, END, REDEEM).unwrap();
    let pool = ctx.pool_account.unwrap();
    assert_eq!(pool.num_ico_tokens, 1_000_000);
    assert_eq!(pool.nonce, nonce);
    assert_eq!(pool.native_mint.bytes, native_mint_key().bytes);
    assert_eq!(pool.pool_native.bytes, key(10).bytes);
    assert_eq!(pool.pool_usdc.bytes, key(11).bytes);
    assert_eq!(pool.redeemable_mint.bytes, key(2).bytes);
    assert_eq!((pool.start_ico_ts, pool.end_ico_ts, pool.withdraw_native_ts), (START, END, REDEEM));
    assert!(pool.start_ico_ts < pool.end_ico_ts && pool.end_ico_ts <= pool.withdraw_native_ts);
    assert_eq!(cmds.len(), 1);
    match cmds[0] {
        TokenCommand::Transfer { from, to, authority, amount, signed_by_pool } => {
            assert_eq!(from.bytes, key(12).bytes);
            assert_eq!(to.bytes, key(10).bytes);
            assert_eq!(authority.bytes, key(21).bytes);
            assert_eq!(amount, 1_000_000);
            assert!(!signed_by_pool);
        }
        _ => panic!("expected a transfer"),
    }
    let _ = signer;
}

#[test]
fn initialize_accepts_end_equal_to_redeem_open() {
    let (_, nonce) = pool_signer();
    let mut ctx = init_ctx();
    assert!(initialize_pool(&mut ctx, 10, nonce, START, END, END).is_ok());
}

#[test]
fn initialize_zero_deposit_is_invalid_param() {
    let (_, nonce) = pool_signer();
    let mut ctx = init_ctx();
    let r = initialize_pool(&mut ctx, 0, nonce, START, END, REDEEM);
    assert_eq!(r.unwrap_err(), ErrorCode::InvalidParam);
    assert!(ctx.pool_account.is_none());
}

#[test]
fn initialize_rejects_unordered_schedule() {
    let (_, nonce) = pool_signer();
    let mut ctx = init_ctx();
    assert_eq!(initialize_pool(&mut ctx, 10, nonce, END, START, REDEEM).unwrap_err(), ErrorCode::SeqTimes);
    assert_eq!(initialize_pool(&mut ctx, 10, nonce, START, START, REDEEM).unwrap_err(), ErrorCode::SeqTimes);
    assert_eq!(initialize_pool(&mut ctx, 10, nonce, START, REDEEM, END).unwrap_err(), ErrorCode::SeqTimes);
    assert!(ctx.pool_account.is_none());
}

#[test]
fn initialize_requires_future_start() {
    let (_, nonce) = pool_signer();
    let mut ctx = init_ctx();
    ctx.clock = START;
    assert_eq!(initialize_pool(&mut ctx, 10, nonce, START, END, REDEEM).unwrap_err(), ErrorCode::IcoFuture);
    assert_eq!(future_start_time(START - 1, START), Ok(()));
    assert_eq!(future_start_time(START, START), Err(ErrorCode::IcoFuture));
}

#[test]
fn initialize_rejects_wrong_nonce() {
    let (_, nonce) = pool_signer();
    let mut ctx = init_ctx();
    let r = initialize_pool(&mut ctx, 10, nonce.wrapping_add(1), START, END, REDEEM);
    assert_eq!(r.unwrap_err(), ErrorCode::InvalidNonce);
}

#[test]
fn initialize_only_once() {
    let (_, nonce) = pool_signer();
    let mut ctx = init_ctx();
    initialize_pool(&mut ctx, 10, nonce, START, END, REDEEM).unwrap();
    let r = initialize_pool(&mut ctx, 20, nonce, START, END, REDEEM);
    assert_eq!(r.unwrap_err(), ErrorCode::PoolExists);
    assert_eq!(ctx.pool_account.unwrap().num_ico_tokens, 10);
}

#[test]
fn initialize_checks_accounts() {
    let (_, nonce) = pool_signer();
    let mut ctx = init_ctx();
    ctx.redeemable_mint.supply = 1;
    assert_eq!(initialize_pool(&mut ctx, 10, nonce, START, END, REDEEM).unwrap_err(), ErrorCode::InvalidAccount);
    let mut ctx = init_ctx();
    ctx.redeemable_mint.mint_authority = Some(key(21));
    assert_eq!(initialize_pool(&mut ctx, 10, nonce, START, END, REDEEM).unwrap_err(), ErrorCode::Unauthorized);
    let mut ctx = init_ctx();
    ctx.usdc_mint.decimals = 9;
    assert_eq!(initialize_pool(&mut ctx, 10, nonce, START, END, REDEEM).unwrap_err(), ErrorCode::InvalidAccount);
    let mut ctx = init_ctx();
    ctx.pool_usdc.key = key(10);
    assert_eq!(initialize_pool(&mut ctx, 10, nonce, START, END, REDEEM).unwrap_err(), ErrorCode::InvalidAccount);
    let mut ctx = init_ctx();
    ctx.payer_is_signer = false;
    assert_eq!(initialize_pool(&mut ctx, 10, nonce, START, END, REDEEM).unwrap_err(), ErrorCode::Unauthorized);
}

#[test]
fn modify_schedule_is_strict() {
    let pool = created_pool(10);
    let mut ctx = ModifyIcoTime {
        pool_account: pool,
        distribution_authority: key(20),
        distribution_authority_is_signer: true,
        payer_is_signer: true,
    };
    assert_eq!(modify_ico_time(&mut ctx, 10, 20, 20), Err(ErrorCode::SeqTimes));
    assert_eq!(ctx.pool_account.end_ico_ts, END);
    assert_eq!(modify_ico_time(&mut ctx, 10, 20, 30), Ok(()));
    let p = ctx.pool_account;
    assert_eq!((p.start_ico_ts, p.end_ico_ts, p.withdraw_native_ts), (10, 20, 30));
    assert_eq!(p.num_ico_tokens, 10);
}

#[test]
fn modify_requires_controller() {
    let pool = created_pool(10);
    let mut ctx = ModifyIcoTime {
        pool_account: pool,
        distribution_authority: key(21),
        distribution_authority_is_signer: true,
        payer_is_signer: true,
    };
    assert_eq!(modify_ico_time(&mut ctx, 10, 20, 30), Err(ErrorCode::Unauthorized));
    ctx.distribution_authority = key(20);
    ctx.distribution_authority_is_signer = false;
    assert_eq!(modify_ico_time(&mut ctx, 10, 20, 30), Err(ErrorCode::Unauthorized));
    assert_eq!(ctx.pool_account.start_ico_ts, START);
}

#[test]
fn buy_in_mints_one_for_one() {
    let pool = created_pool(1_000_000);
    let ctx = buy_ctx(pool, 40, 500, 0, START + 1);
    let cmds = exchange_usdc_for_redeemable(&ctx, 300).unwrap();
    assert_eq!(cmds.len(), 2);
    match cmds[0] {
        TokenCommand::Transfer { from, to, amount, signed_by_pool, .. } => {
            assert_eq!(from.bytes, key(41).bytes);
            assert_eq!(to.bytes, key(11).bytes);
            assert_eq!(amount, 300);
            assert!(!signed_by_pool);
        }
        _ => panic!("expected a transfer"),
    }
    match cmds[1] {
        TokenCommand::MintTo { mint, to, authority, amount } => {
            assert_eq!(mint.bytes, key(2).bytes);
            assert_eq!(to.bytes, key(42).bytes);
            assert_eq!(authority.bytes, pool_signer().0.bytes);
            assert_eq!(amount, 300);
        }
        _ => panic!("expected a mint"),
    }
}

#[test]
fn buy_ins_add_up_and_leave_native_custody() {
    let pool = created_pool(1_000_000);
    let mut all = Vec::new();
    let attempts: [(u8, u64, u64); 4] = [(40, 500, 300), (50, 700, 700), (60, 10, 0), (70, 5, 6)];
    for (user, held, amount) in attempts {
        if let Ok(cmds) = exchange_usdc_for_redeemable(&buy_ctx(pool, user, held, 0, START + 5), amount) {
            all.extend(cmds);
        }
    }
    assert_eq!(minted(&all), 1_000);
    assert_eq!(paid_out_of(&all, pool.pool_native), 0);
}

#[test]
fn buy_in_boundaries() {
    let pool = created_pool(1_000_000);
    assert_eq!(exchange_usdc_for_redeemable(&buy_ctx(pool, 40, 500, 0, START), 1).unwrap_err(), ErrorCode::StartIcoTime);
    assert!(exchange_usdc_for_redeemable(&buy_ctx(pool, 40, 500, 0, START + 1), 1).is_ok());
    assert!(exchange_usdc_for_redeemable(&buy_ctx(pool, 40, 500, 0, END - 1), 1).is_ok());
    assert_eq!(exchange_usdc_for_redeemable(&buy_ctx(pool, 40, 500, 0, END), 1).unwrap_err(), ErrorCode::EndIcoTime);
    assert_eq!(unrestricted_phase(&pool, START), Err(ErrorCode::StartIcoTime));
    assert_eq!(unrestricted_phase(&pool, END), Err(ErrorCode::EndIcoTime));
}

#[test]
fn buy_in_rejections() {
    let pool = created_pool(1_000_000);
    let ctx = buy_ctx(pool, 40, 500, 0, START + 1);
    assert_eq!(exchange_usdc_for_redeemable(&ctx, 0).unwrap_err(), ErrorCode::InvalidParam);
    assert_eq!(exchange_usdc_for_redeemable(&ctx, 501).unwrap_err(), ErrorCode::LowUsdc);
    let mut bad = ctx;
    bad.pool_signer = key(99);
    assert_eq!(exchange_usdc_for_redeemable(&bad, 1).unwrap_err(), ErrorCode::Unauthorized);
    let mut bad = ctx;
    bad.redeemable_mint.key = key(98);
    assert_eq!(exchange_usdc_for_redeemable(&bad, 1).unwrap_err(), ErrorCode::InvalidAccount);
    let mut bad = ctx;
    bad.user_authority_is_signer = false;
    assert_eq!(exchange_usdc_for_redeemable(&bad, 1).unwrap_err(), ErrorCode::Unauthorized);
}

#[test]
fn redeem_boundary_and_rejections() {
    let pool = created_pool(1_000_000);
    let at_open = redeem_ctx(pool, 40, 300, 1_000, 1_000_000, REDEEM);
    assert_eq!(exchange_redeemable_for_native(&at_open, 300).unwrap_err(), ErrorCode::IcoNotOver);
    let ctx = redeem_ctx(pool, 40, 300, 1_000, 1_000_000, REDEEM + 1);
    assert_eq!(exchange_redeemable_for_native(&ctx, 0).unwrap_err(), ErrorCode::InvalidParam);
    assert_eq!(exchange_redeemable_for_native(&ctx, 301).unwrap_err(), ErrorCode::LowRedeemable);
    let empty = redeem_ctx(pool, 40, 300, 0, 1_000_000, REDEEM + 1);
    assert_eq!(exchange_redeemable_for_native(&empty, 300).unwrap_err(), ErrorCode::ArithmeticFault);
    assert_eq!(ico_over(&pool, REDEEM), Err(ErrorCode::IcoNotOver));
    assert_eq!(ico_over(&pool, REDEEM + 1), Ok(()));
}

#[test]
fn withdraw_boundary_and_transfer() {
    let pool = created_pool(1_000_000);
    assert_eq!(withdraw_pool_usdc(&withdraw_ctx(pool, REDEEM), 1_000).unwrap_err(), ErrorCode::IcoNotOver);
    let cmds = withdraw_pool_usdc(&withdraw_ctx(pool, REDEEM + 1), 1_000).unwrap();
    assert_eq!(cmds.len(), 1);
    match cmds[0] {
        TokenCommand::Transfer { from, to, authority, amount, signed_by_pool } => {
            assert_eq!(from.bytes, key(11).bytes);
            assert_eq!(to.bytes, key(30).bytes);
            assert_eq!(authority.bytes, pool_signer().0.bytes);
            assert_eq!(amount, 1_000);
            assert!(signed_by_pool);
        }
        _ => panic!("expected a transfer"),
    }
    let mut other = withdraw_ctx(pool, REDEEM + 1);
    other.distribution_authority = key(21);
    assert_eq!(withdraw_pool_usdc(&other, 1).unwrap_err(), ErrorCode::Unauthorized);
}

#[test]
fn sale_of_a_million_to_two_buyers() {
    let pool = created_pool(1_000_000);
    let first = exchange_usdc_for_redeemable(&buy_ctx(pool, 40, 300, 0, START + 1), 300).unwrap();
    let second = exchange_usdc_for_redeemable(&buy_ctx(pool, 50, 700, 300, START + 2), 700).unwrap();
    assert_eq!(minted(&first) + minted(&second), 1_000);

    let r1 = exchange_redeemable_for_native(&redeem_ctx(pool, 40, 300, 1_000, 1_000_000, REDEEM + 1), 300).unwrap();
    let out1 = paid_out_of(&r1, pool.pool_native);
    assert_eq!(out1, 300_000);
    let r2 = exchange_redeemable_for_native(
        &redeem_ctx(pool, 50, 700, 700, 1_000_000 - out1, REDEEM + 1),
        700,
    ).unwrap();
    let out2 = paid_out_of(&r2, pool.pool_native);
    assert_eq!(out2, 700_000);
    assert_eq!(out1 + out2, 1_000_000);
    match r2[0] {
        TokenCommand::Burn { mint, from, amount, .. } => {
            assert_eq!(mint.bytes, key(2).bytes);
            assert_eq!(from.bytes, key(52).bytes);
            assert_eq!(amount, 700);
        }
        _ => panic!("expected a burn"),
    }
}

#[test]
fn redeem_rate_rounds_down() {
    assert_eq!(redeem_amount(300, 1_000_000, 1_000), Ok(300_000));
    assert_eq!(redeem_amount(700, 700_000, 700), Ok(700_000));
    assert_eq!(redeem_amount(1, 7, 10), Ok(0));
    assert_eq!(redeem_amount(2, 2, 3), Ok(1));
    assert_eq!(redeem_amount(u64::MAX, u64::MAX, u64::MAX), Ok(u64::MAX));
    assert_eq!(redeem_amount(1, 1, 0), Err(ErrorCode::ArithmeticFault));
    assert_eq!(redeem_amount(u64::MAX, u64::MAX, 1), Err(ErrorCode::ArithmeticFault));
}

#[test]
fn split_redemption_within_one_unit() {
    // balance 7 against supply 10: 1 then 2, against 3 at once
    let x = redeem_amount(1, 7, 10).unwrap();
    let y = redeem_amount(2, 7 - x, 9).unwrap();
    let z = redeem_amount(3, 7, 10).unwrap();
    assert_eq!((x, y, z), (0, 1, 2));
    assert!(x + y <= z && z <= x + y + 1);
    // balance 5 against supply 4: 1 then 1, against 2 at once
    let x = redeem_amount(1, 5, 4).unwrap();
    let y = redeem_amount(1, 5 - x, 3).unwrap();
    let z = redeem_amount(2, 5, 4).unwrap();
    assert_eq!(x + y, z);
}

#[test]
fn full_redemption_pays_out_custody() {
    let mut balance: u64 = 1_000;
    let mut supply: u64 = 7;
    let mut paid: u64 = 0;
    // 428, then 143, then the remaining 429
    for claim in [3u64, 1, 3] {
        let owed = redeem_amount(claim, balance, supply).unwrap();
        paid += owed;
        balance -= owed;
        supply -= claim;
    }
    assert_eq!(supply, 0);
    assert!(paid <= 1_000);
    assert_eq!(paid + balance, 1_000);
    assert_eq!(paid, 1_000);
}

#[test]
fn phase_follows_time() {
    let pool = created_pool(10);
    assert_eq!(pool.phase(START - 1), Phase::PreSale);
    assert_eq!(pool.phase(START), Phase::OpenSale);
    assert_eq!(pool.phase(END - 1), Phase::OpenSale);
    assert_eq!(pool.phase(END), Phase::Settling);
    assert_eq!(pool.phase(REDEEM), Phase::PostSale);
}

#[test]
fn record_size_and_messages() {
    assert_eq!(POOL_ACCOUNT_LEN, 201);
    assert_eq!(ErrorCode::SeqTimes.message(), "ICO times are non-sequential");
    assert_eq!(ErrorCode::InvalidNonce.message(), "Given nonce is invalid");
}

#[test]
fn custody_cannot_stand_for_a_user_account() {
    let pool = created_pool(1_000_000);
    let mut ctx = redeem_ctx(pool, 40, 300, 1_000, 1_000_000, REDEEM + 1);
    ctx.user_native.key = pool.pool_native;
    assert_eq!(exchange_redeemable_for_native(&ctx, 300).unwrap_err(), ErrorCode::InvalidAccount);
    let mut w = withdraw_ctx(pool, REDEEM + 1);
    w.creator_usdc.key = pool.pool_native;
    assert_eq!(withdraw_pool_usdc(&w, 1).unwrap_err(), ErrorCode::InvalidAccount);
    let mut b = buy_ctx(pool, 40, 500, 0, START + 1);
    b.user_redeemable.key = pool.pool_native;
    assert_eq!(exchange_usdc_for_redeemable(&b, 1).unwrap_err(), ErrorCode::InvalidAccount);
}

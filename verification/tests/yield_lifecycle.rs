//! End-to-end lifecycle of the yield market: creation, oracle syncs, and
//! quotes, including every error path.

use ncn_matcher::codec::read_u64_at;
use ncn_matcher::errors::{CommonFault, YieldFault, YieldMatcherError};
use ncn_matcher::record::{AccountMeta, CTX_SIZE};
use ncn_matcher::yield_instructions::process_instruction;
use ncn_matcher::yield_pricing::{process_init, process_match, process_oracle_sync};
use ncn_matcher::yield_state::{
    read_base_spread, read_current_yield, read_impact_k, read_last_update_slot,
    read_liquidity_notional, read_max_fill, read_max_spread, read_ncn_performance_feed,
    read_ncn_yield_feed, read_regime_code, read_yield_30d_avg, read_yield_7d_avg,
    read_yield_mark, read_yield_vol_spread, verify_magic,
};

const LP_KEY: [u8; 32] = [5u8; 32];
const YIELD_FEED_KEY: [u8; 32] = [11u8; 32];
const PERF_FEED_KEY: [u8; 32] = [13u8; 32];

fn meta(key: [u8; 32], is_signer: bool, is_writable: bool) -> AccountMeta {
    AccountMeta { key, is_signer, is_writable }
}

fn fresh_ctx() -> Vec<u8> {
    vec![0u8; CTX_SIZE]
}

fn init_payload(
    mode: u8,
    base: u32,
    vol: u32,
    max: u32,
    impact: u32,
    liquidity: u128,
    max_fill: u128,
    yield_feed: [u8; 32],
    perf_feed: [u8; 32],
) -> Vec<u8> {
    let mut d = vec![0x02u8, mode];
    d.extend_from_slice(&base.to_le_bytes());
    d.extend_from_slice(&vol.to_le_bytes());
    d.extend_from_slice(&max.to_le_bytes());
    d.extend_from_slice(&impact.to_le_bytes());
    d.extend_from_slice(&liquidity.to_le_bytes());
    d.extend_from_slice(&max_fill.to_le_bytes());
    d.extend_from_slice(&yield_feed);
    d.extend_from_slice(&perf_feed);
    d
}

fn sync_payload(current_yield: u64, mark: u64, regime: u8, avg_7d: u64, avg_30d: u64) -> Vec<u8> {
    let mut d = vec![0x03u8];
    d.extend_from_slice(&current_yield.to_le_bytes());
    d.extend_from_slice(&mark.to_le_bytes());
    d.push(regime);
    d.extend_from_slice(&avg_7d.to_le_bytes());
    d.extend_from_slice(&avg_30d.to_le_bytes());
    d
}

fn default_init(ctx: &mut Vec<u8>) {
    let lp = meta(LP_KEY, false, false);
    let ctx_meta = meta([0u8; 32], false, true);
    let payload = init_payload(0, 20, 30, 200, 0, 1_000_000, 250_000, YIELD_FEED_KEY,
        PERF_FEED_KEY);
    process_init(&lp, &ctx_meta, ctx, &payload).unwrap();
}

fn default_sync(ctx: &mut Vec<u8>, mark: u64, regime: u8, slot: u64) {
    let yf = meta(YIELD_FEED_KEY, false, false);
    let pf = meta(PERF_FEED_KEY, false, false);
    let ctx_meta = meta([0u8; 32], false, true);
    let payload = sync_payload(800, mark, regime, 790, 810);
    process_oracle_sync(&yf, &pf, &ctx_meta, ctx, &payload, slot).unwrap();
}

#[test]
fn test_yield_init_round_trip() {
    let mut ctx = fresh_ctx();
    let lp = meta(LP_KEY, false, false);
    let ctx_meta = meta([2u8; 32], false, true);
    let payload = init_payload(1, 15, 25, 300, 7, 987_654_321, 55_555, YIELD_FEED_KEY,
        PERF_FEED_KEY);
    assert_eq!(process_init(&lp, &ctx_meta, &mut ctx, &payload), Ok(()));
    assert!(verify_magic(&ctx));
    assert_eq!(read_base_spread(&ctx), 15);
    assert_eq!(read_yield_vol_spread(&ctx), 25);
    assert_eq!(read_max_spread(&ctx), 300);
    assert_eq!(read_impact_k(&ctx), 7);
    assert_eq!(read_current_yield(&ctx), 0);
    assert_eq!(read_yield_mark(&ctx), 0);
    assert_eq!(read_last_update_slot(&ctx), 0);
    assert_eq!(read_regime_code(&ctx), 2);
    assert_eq!(read_yield_7d_avg(&ctx), 0);
    assert_eq!(read_yield_30d_avg(&ctx), 0);
    assert_eq!(read_liquidity_notional(&ctx), 987_654_321);
    assert_eq!(read_max_fill(&ctx), 55_555);
    assert_eq!(read_ncn_yield_feed(&ctx), YIELD_FEED_KEY.to_vec());
    assert_eq!(read_ncn_performance_feed(&ctx), PERF_FEED_KEY.to_vec());
}

#[test]
fn test_yield_double_init_rejected() {
    let mut ctx = fresh_ctx();
    default_init(&mut ctx);
    let lp = meta(LP_KEY, false, false);
    let ctx_meta = meta([0u8; 32], false, true);
    let payload = init_payload(0, 20, 30, 200, 0, 0, 0, YIELD_FEED_KEY, PERF_FEED_KEY);
    assert_eq!(
        process_init(&lp, &ctx_meta, &mut ctx, &payload),
        Err(YieldFault::Common(CommonFault::AlreadyInitialized))
    );
}

#[test]
fn test_yield_match_not_synced() {
    let mut ctx = fresh_ctx();
    default_init(&mut ctx);
    let lp = meta(LP_KEY, true, false);
    assert_eq!(
        process_match(&lp, &mut ctx, 0),
        Err(YieldFault::Matcher(YieldMatcherError::OracleNotSynced))
    );
}

#[test]
fn test_yield_sync_and_match() {
    let mut ctx = fresh_ctx();
    default_init(&mut ctx);
    default_sync(&mut ctx, 800_000_000, 4, 5);
    assert_eq!(read_current_yield(&ctx), 800);
    assert_eq!(read_yield_mark(&ctx), 800_000_000);
    assert_eq!(read_last_update_slot(&ctx), 5);
    assert_eq!(read_regime_code(&ctx), 4);
    assert_eq!(read_yield_7d_avg(&ctx), 790);
    assert_eq!(read_yield_30d_avg(&ctx), 810);

    let lp = meta(LP_KEY, true, false);
    assert_eq!(process_match(&lp, &mut ctx, 5), Ok(807_600_000));
    assert_eq!(read_u64_at(&ctx, 0), 807_600_000);
}

#[test]
fn test_yield_match_stale_oracle() {
    let mut ctx = fresh_ctx();
    default_init(&mut ctx);
    default_sync(&mut ctx, 800_000_000, 2, 5);
    let lp = meta(LP_KEY, true, false);
    assert_eq!(process_match(&lp, &mut ctx, 105), Ok(804_000_000));
    assert_eq!(
        process_match(&lp, &mut ctx, 106),
        Err(YieldFault::Matcher(YieldMatcherError::OracleStale))
    );
}

#[test]
fn test_yield_match_unauthorized() {
    let mut ctx = fresh_ctx();
    default_init(&mut ctx);
    default_sync(&mut ctx, 800_000_000, 2, 5);
    let unsigned = meta(LP_KEY, false, false);
    assert_eq!(
        process_match(&unsigned, &mut ctx, 5),
        Err(YieldFault::Common(CommonFault::AuthorizationError))
    );
    let wrong = meta([4u8; 32], true, false);
    assert_eq!(
        process_match(&wrong, &mut ctx, 5),
        Err(YieldFault::Common(CommonFault::AuthorizationError))
    );
}

#[test]
fn test_yield_match_overflow() {
    let mut ctx = fresh_ctx();
    default_init(&mut ctx);
    default_sync(&mut ctx, u64::MAX, 2, 5);
    let lp = meta(LP_KEY, true, false);
    assert_eq!(
        process_match(&lp, &mut ctx, 5),
        Err(YieldFault::Matcher(YieldMatcherError::ArithmeticOverflow))
    );
}

#[test]
fn test_yield_sync_rejections() {
    let mut ctx = fresh_ctx();
    default_init(&mut ctx);
    let ctx_meta = meta([0u8; 32], false, true);
    let pf = meta(PERF_FEED_KEY, false, false);
    let yf = meta(YIELD_FEED_KEY, false, false);

    let wrong_yf = meta([12u8; 32], false, false);
    assert_eq!(
        process_oracle_sync(&wrong_yf, &pf, &ctx_meta, &mut ctx, &sync_payload(1, 2, 0, 0, 0), 1),
        Err(YieldFault::Matcher(YieldMatcherError::OracleAccountMismatch))
    );
    let wrong_pf = meta([12u8; 32], false, false);
    assert_eq!(
        process_oracle_sync(&yf, &wrong_pf, &ctx_meta, &mut ctx, &sync_payload(1, 2, 0, 0, 0), 1),
        Err(YieldFault::Matcher(YieldMatcherError::OracleAccountMismatch))
    );
    assert_eq!(
        process_oracle_sync(&yf, &pf, &ctx_meta, &mut ctx, &sync_payload(1, 2, 5, 0, 0), 1),
        Err(YieldFault::Matcher(YieldMatcherError::InvalidRegime))
    );
    let not_writable = meta([0u8; 32], false, false);
    assert_eq!(
        process_oracle_sync(&yf, &pf, &not_writable, &mut ctx, &sync_payload(1, 2, 0, 0, 0), 1),
        Err(YieldFault::Common(CommonFault::AccountNotWritable))
    );
    assert_eq!(
        process_oracle_sync(&yf, &pf, &ctx_meta, &mut ctx, &[0x03u8], 1),
        Err(YieldFault::Common(CommonFault::MalformedInstruction))
    );
    assert_eq!(read_yield_mark(&ctx), 0);
}

#[test]
fn test_yield_dispatch() {
    let mut ctx = fresh_ctx();
    let lp = meta(LP_KEY, true, false);
    let ctx_meta = meta([0u8; 32], false, true);
    let metas = vec![lp, ctx_meta];

    let init = init_payload(0, 20, 30, 200, 0, 0, 0, YIELD_FEED_KEY, PERF_FEED_KEY);
    assert_eq!(process_instruction(&metas, &mut ctx, &init, 1), Ok(()));

    let sync_metas = vec![
        ctx_meta,
        meta(YIELD_FEED_KEY, false, false),
        meta(PERF_FEED_KEY, false, false),
    ];
    assert_eq!(
        process_instruction(&sync_metas, &mut ctx, &sync_payload(800, 800_000_000, 0, 0, 0), 2),
        Ok(())
    );
    assert_eq!(read_regime_code(&ctx), 0);

    assert_eq!(process_instruction(&metas, &mut ctx, &[0x00u8], 2), Ok(()));
    assert_eq!(read_u64_at(&ctx, 0), 802_800_000);

    assert_eq!(
        process_instruction(&metas, &mut ctx, &[], 2),
        Err(YieldFault::Common(CommonFault::MalformedInstruction))
    );
    assert_eq!(
        process_instruction(&metas, &mut ctx, &[0x09u8], 2),
        Err(YieldFault::Common(CommonFault::MalformedInstruction))
    );
    assert_eq!(
        process_instruction(&metas, &mut ctx, &sync_payload(1, 2, 0, 0, 0), 2),
        Err(YieldFault::Common(CommonFault::NotEnoughAccountKeys))
    );
}

#[test]
fn test_yield_error_codes() {
    assert_eq!(YieldMatcherError::OracleNotSynced.code(), 0x30);
    assert_eq!(YieldMatcherError::OracleStale.code(), 0x31);
    assert_eq!(YieldMatcherError::OracleAccountMismatch.code(), 0x32);
    assert_eq!(YieldMatcherError::InvalidRegime.code(), 0x33);
    assert_eq!(YieldMatcherError::ArithmeticOverflow.code(), 0x34);
}

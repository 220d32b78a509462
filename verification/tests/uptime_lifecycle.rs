//! End-to-end lifecycle of the uptime market: creation, oracle syncs,
//! quotes, and one-shot resolution, including every error path.

use ncn_matcher::codec::read_u64_at;
use ncn_matcher::errors::{CommonFault, UptimeFault, UptimeMatcherError};
use ncn_matcher::record::{verify_magic as verify_magic_generic, AccountMeta, CTX_SIZE};
use ncn_matcher::uptime_instructions::process_instruction;
use ncn_matcher::uptime_pricing::{process_init, process_match, process_resolve,
    process_uptime_sync};
use ncn_matcher::uptime_state::{
    read_base_spread, read_current_uptime, read_edge_spread, read_impact_k, read_is_resolved,
    read_last_update_slot, read_liquidity_notional, read_max_fill, read_max_spread,
    read_ncn_oracle, read_resolution_outcome, read_resolution_timestamp,
    read_signal_adjusted_spread, read_signal_severity, read_uptime_mark, verify_magic,
    UPTIME_MATCHER_MAGIC,
};

const LP_KEY: [u8; 32] = [7u8; 32];
const ORACLE_KEY: [u8; 32] = [9u8; 32];

fn meta(key: [u8; 32], is_signer: bool, is_writable: bool) -> AccountMeta {
    AccountMeta { key, is_signer, is_writable }
}

fn fresh_ctx() -> Vec<u8> {
    vec![0u8; CTX_SIZE]
}

fn init_payload(
    mode: u8,
    base: u32,
    edge: u32,
    max: u32,
    impact: u32,
    uptime: u64,
    resolution_ts: u64,
    liquidity: u128,
    max_fill: u128,
    oracle: [u8; 32],
) -> Vec<u8> {
    let mut d = vec![0x02u8, mode];
    d.extend_from_slice(&base.to_le_bytes());
    d.extend_from_slice(&edge.to_le_bytes());
    d.extend_from_slice(&max.to_le_bytes());
    d.extend_from_slice(&impact.to_le_bytes());
    d.extend_from_slice(&uptime.to_le_bytes());
    d.extend_from_slice(&resolution_ts.to_le_bytes());
    d.extend_from_slice(&liquidity.to_le_bytes());
    d.extend_from_slice(&max_fill.to_le_bytes());
    d.extend_from_slice(&oracle);
    d
}

fn sync_payload(uptime: u64, severity: u64, signal_spread: u64) -> Vec<u8> {
    let mut d = vec![0x03u8];
    d.extend_from_slice(&uptime.to_le_bytes());
    d.extend_from_slice(&severity.to_le_bytes());
    d.extend_from_slice(&signal_spread.to_le_bytes());
    d
}

fn default_init(ctx: &mut Vec<u8>, uptime: u64, slot: u64) {
    let lp = meta(LP_KEY, false, false);
    let ctx_meta = meta([0u8; 32], false, true);
    let payload = init_payload(0, 20, 30, 500, 0, uptime, 0, 1_000_000_000, 500_000, ORACLE_KEY);
    process_init(&lp, &ctx_meta, ctx, &payload, slot).unwrap();
}

#[test]
fn test_uptime_init_round_trip() {
    let mut ctx = fresh_ctx();
    let lp = meta(LP_KEY, false, false);
    let ctx_meta = meta([1u8; 32], false, true);
    let payload = init_payload(1, 25, 35, 600, 42, 950_000, 777, 123_456_789, 42_000, ORACLE_KEY);
    assert_eq!(process_init(&lp, &ctx_meta, &mut ctx, &payload, 11), Ok(()));
    assert!(verify_magic(&ctx));
    assert!(verify_magic_generic(&ctx, UPTIME_MATCHER_MAGIC));
    assert_eq!(read_base_spread(&ctx), 25);
    assert_eq!(read_edge_spread(&ctx), 35);
    assert_eq!(read_max_spread(&ctx), 600);
    assert_eq!(read_impact_k(&ctx), 42);
    assert_eq!(read_current_uptime(&ctx), 950_000);
    assert_eq!(read_uptime_mark(&ctx), 950_000);
    assert_eq!(read_last_update_slot(&ctx), 11);
    assert_eq!(read_resolution_timestamp(&ctx), 777);
    assert!(!read_is_resolved(&ctx));
    assert_eq!(read_resolution_outcome(&ctx), 0);
    assert_eq!(read_signal_severity(&ctx), 0);
    assert_eq!(read_signal_adjusted_spread(&ctx), 0);
    assert_eq!(read_liquidity_notional(&ctx), 123_456_789);
    assert_eq!(read_max_fill(&ctx), 42_000);
    assert_eq!(read_ncn_oracle(&ctx), ORACLE_KEY.to_vec());
}

#[test]
fn test_uptime_double_init_rejected() {
    let mut ctx = fresh_ctx();
    default_init(&mut ctx, 900_000, 1);
    let lp = meta(LP_KEY, false, false);
    let ctx_meta = meta([0u8; 32], false, true);
    let payload = init_payload(0, 20, 30, 500, 0, 900_000, 0, 0, 0, ORACLE_KEY);
    assert_eq!(
        process_init(&lp, &ctx_meta, &mut ctx, &payload, 2),
        Err(UptimeFault::Common(CommonFault::AlreadyInitialized))
    );
}

#[test]
fn test_uptime_init_rejections() {
    let lp = meta(LP_KEY, false, false);
    let payload = init_payload(0, 20, 30, 500, 0, 900_000, 0, 0, 0, ORACLE_KEY);

    let mut ctx = fresh_ctx();
    let not_writable = meta([0u8; 32], false, false);
    assert_eq!(
        process_init(&lp, &not_writable, &mut ctx, &payload, 1),
        Err(UptimeFault::Common(CommonFault::AccountNotWritable))
    );

    let mut short_ctx = vec![0u8; 100];
    let writable = meta([0u8; 32], false, true);
    assert_eq!(
        process_init(&lp, &writable, &mut short_ctx, &payload, 1),
        Err(UptimeFault::Common(CommonFault::WrongAccountSize))
    );

    let mut ctx2 = fresh_ctx();
    let too_big = init_payload(0, 20, 30, 500, 0, 1_000_001, 0, 0, 0, ORACLE_KEY);
    assert_eq!(
        process_init(&lp, &writable, &mut ctx2, &too_big, 1),
        Err(UptimeFault::Matcher(UptimeMatcherError::InvalidProbability))
    );

    let mut ctx3 = fresh_ctx();
    assert_eq!(
        process_init(&lp, &writable, &mut ctx3, &payload[..50], 1),
        Err(UptimeFault::Common(CommonFault::MalformedInstruction))
    );
}

#[test]
fn test_uptime_match_flow() {
    let mut ctx = fresh_ctx();
    default_init(&mut ctx, 995_000, 10);
    let lp = meta(LP_KEY, true, false);
    assert_eq!(process_match(&lp, &mut ctx, 10), Ok(1_026_840));
    assert_eq!(read_u64_at(&ctx, 0), 1_026_840);
    assert_eq!(process_match(&lp, &mut ctx, 210), Ok(1_026_840));
}

#[test]
fn test_uptime_match_unauthorized() {
    let mut ctx = fresh_ctx();
    default_init(&mut ctx, 995_000, 10);
    let unsigned = meta(LP_KEY, false, false);
    assert_eq!(
        process_match(&unsigned, &mut ctx, 10),
        Err(UptimeFault::Common(CommonFault::AuthorizationError))
    );
    let wrong_key = meta([3u8; 32], true, false);
    assert_eq!(
        process_match(&wrong_key, &mut ctx, 10),
        Err(UptimeFault::Common(CommonFault::AuthorizationError))
    );
    let mut uninitialized = fresh_ctx();
    let lp = meta(LP_KEY, true, false);
    assert_eq!(
        process_match(&lp, &mut uninitialized, 10),
        Err(UptimeFault::Common(CommonFault::UninitializedAccount))
    );
}

#[test]
fn test_uptime_match_stale_oracle() {
    let mut ctx = fresh_ctx();
    default_init(&mut ctx, 995_000, 10);
    let lp = meta(LP_KEY, true, false);
    assert_eq!(
        process_match(&lp, &mut ctx, 211),
        Err(UptimeFault::Matcher(UptimeMatcherError::OracleStale))
    );
}

#[test]
fn test_uptime_match_probability_not_set() {
    let mut ctx = fresh_ctx();
    default_init(&mut ctx, 0, 10);
    let lp = meta(LP_KEY, true, false);
    assert_eq!(
        process_match(&lp, &mut ctx, 10),
        Err(UptimeFault::Matcher(UptimeMatcherError::ProbabilityNotSet))
    );
}

#[test]
fn test_uptime_sync_round_trip() {
    let mut ctx = fresh_ctx();
    default_init(&mut ctx, 900_000, 1);
    let oracle = meta(ORACLE_KEY, false, false);
    let ctx_meta = meta([0u8; 32], false, true);
    let payload = sync_payload(800_000, 2, 150);
    assert_eq!(process_uptime_sync(&oracle, &ctx_meta, &mut ctx, &payload, 42), Ok(()));
    assert_eq!(read_current_uptime(&ctx), 800_000);
    assert_eq!(read_uptime_mark(&ctx), 800_000);
    assert_eq!(read_last_update_slot(&ctx), 42);
    assert_eq!(read_signal_severity(&ctx), 2);
    assert_eq!(read_signal_adjusted_spread(&ctx), 150);
    assert_eq!(read_base_spread(&ctx), 20);
    assert_eq!(read_ncn_oracle(&ctx), ORACLE_KEY.to_vec());
}

#[test]
fn test_uptime_sync_rejections() {
    let mut ctx = fresh_ctx();
    default_init(&mut ctx, 900_000, 1);
    let ctx_meta = meta([0u8; 32], false, true);

    let wrong_oracle = meta([8u8; 32], false, false);
    assert_eq!(
        process_uptime_sync(&wrong_oracle, &ctx_meta, &mut ctx, &sync_payload(1, 0, 0), 2),
        Err(UptimeFault::Matcher(UptimeMatcherError::OracleMismatch))
    );

    let oracle = meta(ORACLE_KEY, false, false);
    assert_eq!(
        process_uptime_sync(&oracle, &ctx_meta, &mut ctx, &sync_payload(1_000_001, 0, 0), 2),
        Err(UptimeFault::Matcher(UptimeMatcherError::InvalidProbability))
    );
    assert_eq!(
        process_uptime_sync(&oracle, &ctx_meta, &mut ctx, &sync_payload(1, 4, 0), 2),
        Err(UptimeFault::Matcher(UptimeMatcherError::InvalidSignalSeverity))
    );

    let not_writable = meta([0u8; 32], false, false);
    assert_eq!(
        process_uptime_sync(&oracle, &not_writable, &mut ctx, &sync_payload(1, 0, 0), 2),
        Err(UptimeFault::Common(CommonFault::AccountNotWritable))
    );
    assert_eq!(
        process_uptime_sync(&oracle, &ctx_meta, &mut ctx, &[0x03u8], 2),
        Err(UptimeFault::Common(CommonFault::MalformedInstruction))
    );
    assert_eq!(read_current_uptime(&ctx), 900_000);
}

#[test]
fn test_uptime_resolution_lifecycle() {
    let mut ctx = fresh_ctx();
    default_init(&mut ctx, 995_000, 10);
    let oracle = meta(ORACLE_KEY, true, false);
    let resolve_safe = vec![0x04u8, 1u8];

    assert_eq!(process_resolve(&oracle, &mut ctx, &resolve_safe), Ok(()));
    assert!(read_is_resolved(&ctx));
    assert_eq!(read_resolution_outcome(&ctx), 1);
    assert_eq!(read_current_uptime(&ctx), 1_000_000);
    assert_eq!(read_uptime_mark(&ctx), 1_000_000);

    assert_eq!(
        process_resolve(&oracle, &mut ctx, &resolve_safe),
        Err(UptimeFault::Matcher(UptimeMatcherError::MarketResolved))
    );
    let lp = meta(LP_KEY, true, false);
    assert_eq!(
        process_match(&lp, &mut ctx, 10),
        Err(UptimeFault::Matcher(UptimeMatcherError::MarketResolved))
    );
    let oracle_plain = meta(ORACLE_KEY, false, false);
    let ctx_meta = meta([0u8; 32], false, true);
    assert_eq!(
        process_uptime_sync(&oracle_plain, &ctx_meta, &mut ctx, &sync_payload(1, 0, 0), 11),
        Err(UptimeFault::Matcher(UptimeMatcherError::MarketResolved))
    );
}

#[test]
fn test_uptime_resolve_slashed() {
    let mut ctx = fresh_ctx();
    default_init(&mut ctx, 995_000, 10);
    let oracle = meta(ORACLE_KEY, true, false);
    assert_eq!(process_resolve(&oracle, &mut ctx, &[0x04u8, 0u8]), Ok(()));
    assert_eq!(read_resolution_outcome(&ctx), 0);
    assert_eq!(read_current_uptime(&ctx), 0);
    assert_eq!(read_uptime_mark(&ctx), 0);
}

#[test]
fn test_uptime_resolve_rejections() {
    let mut ctx = fresh_ctx();
    default_init(&mut ctx, 995_000, 10);

    let unsigned = meta(ORACLE_KEY, false, false);
    assert_eq!(
        process_resolve(&unsigned, &mut ctx, &[0x04u8, 1u8]),
        Err(UptimeFault::Common(CommonFault::AuthorizationError))
    );
    let wrong = meta([8u8; 32], true, false);
    assert_eq!(
        process_resolve(&wrong, &mut ctx, &[0x04u8, 1u8]),
        Err(UptimeFault::Matcher(UptimeMatcherError::OracleMismatch))
    );
    let oracle = meta(ORACLE_KEY, true, false);
    assert_eq!(
        process_resolve(&oracle, &mut ctx, &[0x04u8, 2u8]),
        Err(UptimeFault::Matcher(UptimeMatcherError::InvalidOutcome))
    );
    assert_eq!(
        process_resolve(&oracle, &mut ctx, &[0x04u8]),
        Err(UptimeFault::Common(CommonFault::MalformedInstruction))
    );
    assert!(!read_is_resolved(&ctx));
}

#[test]
fn test_uptime_dispatch() {
    let mut ctx = fresh_ctx();
    let lp = meta(LP_KEY, true, false);
    let ctx_meta = meta([0u8; 32], false, true);
    let metas = vec![lp, ctx_meta];

    let init = init_payload(0, 20, 30, 500, 0, 995_000, 0, 0, 0, ORACLE_KEY);
    assert_eq!(process_instruction(&metas, &mut ctx, &init, 10), Ok(()));

    assert_eq!(process_instruction(&metas, &mut ctx, &[0x00u8], 10), Ok(()));
    assert_eq!(read_u64_at(&ctx, 0), 1_026_840);

    let sync_metas = vec![ctx_meta, meta(ORACLE_KEY, false, false)];
    let mut sync = sync_payload(500_000, 1, 10);
    sync[0] = 0x03;
    assert_eq!(process_instruction(&sync_metas, &mut ctx, &sync, 11), Ok(()));
    assert_eq!(read_current_uptime(&ctx), 500_000);

    let resolve_metas = vec![ctx_meta, meta(ORACLE_KEY, true, false)];
    assert_eq!(process_instruction(&resolve_metas, &mut ctx, &[0x04u8, 1u8], 12), Ok(()));
    assert!(read_is_resolved(&ctx));

    assert_eq!(
        process_instruction(&metas, &mut ctx, &[], 10),
        Err(UptimeFault::Common(CommonFault::MalformedInstruction))
    );
    assert_eq!(
        process_instruction(&metas, &mut ctx, &[0x07u8], 10),
        Err(UptimeFault::Common(CommonFault::MalformedInstruction))
    );
    let one_meta = vec![lp];
    assert_eq!(
        process_instruction(&one_meta, &mut ctx, &[0x00u8], 10),
        Err(UptimeFault::Common(CommonFault::NotEnoughAccountKeys))
    );
}

#[test]
fn test_uptime_error_codes() {
    assert_eq!(UptimeMatcherError::MarketResolved.code(), 0x300);
    assert_eq!(UptimeMatcherError::InvalidProbability.code(), 0x301);
    assert_eq!(UptimeMatcherError::ProbabilityNotSet.code(), 0x302);
    assert_eq!(UptimeMatcherError::OracleStale.code(), 0x303);
    assert_eq!(UptimeMatcherError::OracleMismatch.code(), 0x304);
    assert_eq!(UptimeMatcherError::InvalidOutcome.code(), 0x305);
    assert_eq!(UptimeMatcherError::InvalidSignalSeverity.code(), 0x306);
    assert_eq!(UptimeMatcherError::ArithmeticOverflow.code(), 0x307);
}

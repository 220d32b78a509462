//! The edge-spread pricing engine for the validator-uptime market.
//!
//! A quote marks up the oracle-supplied uptime probability `p` (scale 1e6)
//! with three additive spread contributions: a base spread, an edge spread
//! scaled by how close `p` sits to the 0% / 100% extremes, and the current
//! risk-signal spread. The sum is capped at the record's maximum spread.
//!
//! The edge factor is `1 / (p * (1-p) * 4)` in fixed point: it is 1.0x at
//! p = 50% and is capped at 10.0x. Because the denominator is truncated to
//! an integer, every probability outside a narrow band around 50% already
//! hits the cap; this truncation behaviour is asserted by the original
//! market scenarios and is preserved here exactly.

use vstd::arithmetic::div_mod::{lemma_div_basics, lemma_div_is_ordered};
use vstd::arithmetic::mul::{lemma_mul_nonnegative, lemma_mul_upper_bound};
use vstd::prelude::*;
use vstd::slice::slice_index_get;

use crate::codec::{
    bytes32_match_at, copy_bytes_at, le128_at, le32_at, le64_at, read_u128_slice_at,
    read_u32_slice_at, read_u64_slice_at, write_u128_at, write_u32_at, write_u64_at, zero_range,
};
use crate::errors::{CommonFault, UptimeFault, UptimeMatcherError};
use crate::record::{
    compute_exec_price, lemma_exec_price_at_least_mark, spec_exec_price, spec_sat_sub,
    spec_valid_ctx, spec_verify_init_preconditions, spec_verify_lp_pda, verify_init_preconditions,
    spec_lp_pda, spec_magic, spec_mode, spec_return_price, spec_version, verify_lp_pda,
    write_exec_price, write_header, AccountMeta, CONTEXT_VERSION, CTX_SIZE, LP_PDA_OFFSET,
    MAGIC_OFFSET, MODE_OFFSET, VERSION_OFFSET,
};
use crate::uptime_state::{
    read_base_spread, read_current_uptime, read_edge_spread, read_is_resolved,
    read_last_update_slot, read_max_spread, read_signal_adjusted_spread, spec_base_spread,
    spec_current_uptime, spec_edge_spread, spec_impact_k, spec_is_resolved,
    spec_last_update_slot, spec_liquidity_notional, spec_max_fill, spec_max_spread,
    spec_ncn_oracle, spec_resolution_outcome, spec_resolution_timestamp,
    spec_signal_adjusted_spread, spec_signal_severity, spec_uptime_mark, spec_uptime_wf,
    verify_magic, BASE_SPREAD_OFFSET, CURRENT_UPTIME_OFFSET, EDGE_SPREAD_OFFSET,
    IMPACT_K_OFFSET, IS_RESOLVED_OFFSET, LAST_UPDATE_SLOT_OFFSET, LIQUIDITY_OFFSET,
    MAX_FILL_OFFSET, MAX_PROBABILITY, MAX_SPREAD_OFFSET, NCN_ORACLE_OFFSET,
    RESOLUTION_OUTCOME_OFFSET, RESOLUTION_TIMESTAMP_OFFSET, SIGNAL_ADJUSTED_SPREAD_OFFSET,
    SIGNAL_CRITICAL, SIGNAL_NONE, SIGNAL_SEVERITY_OFFSET, UPTIME_MARK_OFFSET,
    UPTIME_MATCHER_MAGIC, UPTIME_RESERVED_OFFSET, UPTIME_STALENESS_SLOTS,
};

verus! {

/// `floor(p * (1_000_000 - p) * 4 / 1e12)`: the truncated edge denominator.
/// For probabilities it is 1 in a narrow band around 50% and 0 elsewhere.
pub open spec fn spec_edge_denominator(p: int) -> int {
    p * (1_000_000 - p) * 4 / 1_000_000_000_000
}

/// The edge factor, fixed point at scale 1e6: `1_000_000 / denominator`
/// capped at 10_000_000 (10.0x), and the cap itself when the truncated
/// denominator is zero.
pub open spec fn spec_edge_factor(p: int) -> int {
    let d = spec_edge_denominator(p);
    if d > 0 {
        if 1_000_000int / d < 10_000_000 {
            1_000_000int / d
        } else {
            10_000_000
        }
    } else {
        10_000_000
    }
}

/// The edge spread scaled by the edge factor.
pub open spec fn spec_adjusted_edge(edge_spread: int, p: int) -> int {
    edge_spread * spec_edge_factor(p) / 1_000_000
}

/// Total spread of an uptime quote: base plus scaled edge plus risk-signal
/// contribution, capped at the record's maximum spread.
pub open spec fn spec_edge_total_spread(
    base: int,
    edge: int,
    max_spread: int,
    signal: int,
    p: int,
) -> int {
    let raw = base + spec_adjusted_edge(edge, p) + signal;
    if raw <= max_spread {
        raw
    } else {
        max_spread
    }
}

/// Execution price of an uptime quote.
pub open spec fn spec_edge_exec_price(
    p: int,
    base: int,
    edge: int,
    max_spread: int,
    signal: int,
) -> int {
    spec_exec_price(p, spec_edge_total_spread(base, edge, max_spread, signal, p))
}

/// For any probability, the truncated edge denominator is 0 or 1, so the
/// edge factor never leaves `[1_000_000, 10_000_000]` (1.0x to 10.0x).
pub proof fn lemma_edge_factor_bounds(p: int)
    requires
        0 <= p <= 1_000_000,
    ensures
        spec_edge_denominator(p) == 0 || spec_edge_denominator(p) == 1,
        1_000_000 <= spec_edge_factor(p) <= 10_000_000,
{
    let prod = p * (1_000_000 - p) * 4;
    assert((p - 500_000) * (p - 500_000) >= 0) by (nonlinear_arith);
    assert(0 <= p * (1_000_000 - p) <= 250_000_000_000) by (nonlinear_arith)
        requires
            0 <= p <= 1_000_000,
            (p - 500_000) * (p - 500_000) >= 0,
    ;
    assert(0 <= prod <= 1_000_000_000_000);
    if spec_edge_denominator(p) == 1 {
        lemma_div_basics(1_000_000);
        assert(spec_edge_factor(p) == 1_000_000);
    }
    assert(0 <= prod / 1_000_000_000_000 <= 1) by (nonlinear_arith)
        requires
            0 <= prod <= 1_000_000_000_000,
    ;
}

/// Prices one uptime quote. Returns the execution price, the total spread
/// applied, and the edge factor used, exactly as the pricing policy defines
/// them. The price never falls below the mark and the spread never exceeds
/// `max_spread`.
pub fn compute_exec_price_edge(
    uptime_e6: u64,
    base_spread: u32,
    edge_spread: u32,
    max_spread: u32,
    signal_adj: u64,
) -> (r: (u64, u64, u128))
    requires
        uptime_e6 <= MAX_PROBABILITY,
    ensures
        r.0 == spec_edge_exec_price(
            uptime_e6 as int,
            base_spread as int,
            edge_spread as int,
            max_spread as int,
            signal_adj as int,
        ),
        r.1 == spec_edge_total_spread(
            base_spread as int,
            edge_spread as int,
            max_spread as int,
            signal_adj as int,
            uptime_e6 as int,
        ),
        r.2 == spec_edge_factor(uptime_e6 as int),
        r.0 >= uptime_e6,
        r.1 <= max_spread,
{
    let p: u128 = uptime_e6 as u128;
    let one_minus_p: u128 = (MAX_PROBABILITY as u128) - p;
    proof {
        lemma_mul_upper_bound(p as int, 1_000_000, one_minus_p as int, 1_000_000);
    }
    let pq: u128 = p * one_minus_p;
    let edge_denominator: u128 = pq * 4 / 1_000_000_000_000u128;
    let edge_factor: u128 = if edge_denominator > 0 {
        let f: u128 = 1_000_000u128 / edge_denominator;
        if f < 10_000_000 {
            f
        } else {
            10_000_000
        }
    } else {
        10_000_000
    };
    proof {
        lemma_edge_factor_bounds(uptime_e6 as int);
        lemma_mul_upper_bound(
            edge_spread as int,
            u32::MAX as int,
            edge_factor as int,
            10_000_000,
        );
        lemma_div_is_ordered(
            edge_spread as int * edge_factor as int,
            u32::MAX as int * 10_000_000,
            1_000_000,
        );
    }
    let adjusted_edge_wide: u128 = (edge_spread as u128) * edge_factor / 1_000_000u128;
    let adjusted_edge: u64 = adjusted_edge_wide as u64;
    let raw: u64 = (base_spread as u64).saturating_add(adjusted_edge).saturating_add(signal_adj);
    let total_spread: u64 = if raw <= max_spread as u64 {
        raw
    } else {
        max_spread as u64
    };
    proof {
        lemma_mul_upper_bound(
            uptime_e6 as int,
            1_000_000,
            10_000 + total_spread as int,
            10_000 + u32::MAX as int,
        );
        lemma_div_is_ordered(
            uptime_e6 as int * (10_000 + total_spread as int),
            1_000_000 * (10_000 + u32::MAX as int),
            10_000,
        );
        lemma_exec_price_at_least_mark(uptime_e6 as int, total_spread as int);
    }
    let price: u64 = compute_exec_price(uptime_e6, total_spread).unwrap();
    (price, total_spread, edge_factor)
}

/// The first check a quote request fails, or `None` when a quote is owed:
/// the caller must be the signing owner of a record carrying this engine's
/// tag, the market must not be resolved, the probability must have been set,
/// and the oracle must have synced within the staleness window.
pub open spec fn spec_uptime_match_err(lp: AccountMeta, s: Seq<u8>, now: u64) -> Option<
    UptimeFault,
> {
    match spec_verify_lp_pda(lp, s, UPTIME_MATCHER_MAGIC) {
        Err(f) => Some(UptimeFault::Common(f)),
        Ok(()) => if spec_is_resolved(s) {
            Some(UptimeFault::Matcher(UptimeMatcherError::MarketResolved))
        } else if spec_current_uptime(s) == 0 {
            Some(UptimeFault::Matcher(UptimeMatcherError::ProbabilityNotSet))
        } else if spec_sat_sub(now as int, spec_last_update_slot(s) as int)
            > UPTIME_STALENESS_SLOTS {
            Some(UptimeFault::Matcher(UptimeMatcherError::OracleStale))
        } else {
            None
        },
    }
}

/// The price a successful quote against record `s` returns.
pub open spec fn spec_uptime_quote(s: Seq<u8>) -> int {
    spec_edge_exec_price(
        spec_current_uptime(s) as int,
        spec_base_spread(s) as int,
        spec_edge_spread(s) as int,
        spec_max_spread(s) as int,
        spec_signal_adjusted_spread(s) as int,
    )
}

/// The state a successful quote leaves behind: the freshly computed
/// execution price stands in the return-data region and every other byte of
/// the record is unchanged.
pub open spec fn spec_uptime_match_post(old_s: Seq<u8>, new_s: Seq<u8>) -> bool {
    &&& new_s.len() == CTX_SIZE
    &&& spec_return_price(new_s) == spec_uptime_quote(old_s)
    &&& forall|i: int| 8 <= i < CTX_SIZE ==> new_s[i] == old_s[i]
}

/// Executes a quote request (`Match`) against an uptime record. On success
/// the execution price is returned and also written to the record's
/// return-data region; nothing else changes. On failure the record is
/// untouched and the reported error is exactly the first violated check.
pub fn process_match(lp: &AccountMeta, ctx_data: &mut Vec<u8>, current_slot: u64) -> (r: Result<
    u64,
    UptimeFault,
>)
    requires
        spec_uptime_wf(old(ctx_data)@),
    ensures
        spec_uptime_wf(final(ctx_data)@),
        match r {
            Ok(price) => {
                &&& spec_uptime_match_err(*lp, old(ctx_data)@, current_slot) is None
                &&& price == spec_uptime_quote(old(ctx_data)@)
                &&& price >= spec_current_uptime(old(ctx_data)@)
                &&& spec_uptime_match_post(old(ctx_data)@, final(ctx_data)@)
            },
            Err(e) => {
                &&& spec_uptime_match_err(*lp, old(ctx_data)@, current_slot) == Some(e)
                &&& final(ctx_data)@ == old(ctx_data)@
            },
        },
{
    match verify_lp_pda(lp, ctx_data, UPTIME_MATCHER_MAGIC) {
        Err(f) => {
            return Err(UptimeFault::Common(f));
        },
        Ok(()) => {},
    }
    if read_is_resolved(ctx_data) {
        return Err(UptimeFault::Matcher(UptimeMatcherError::MarketResolved));
    }
    let base_spread = read_base_spread(ctx_data);
    let edge_spread = read_edge_spread(ctx_data);
    let max_spread = read_max_spread(ctx_data);
    let uptime_e6 = read_current_uptime(ctx_data);
    let signal_adj = read_signal_adjusted_spread(ctx_data);
    if uptime_e6 == 0 {
        return Err(UptimeFault::Matcher(UptimeMatcherError::ProbabilityNotSet));
    }
    let last_update = read_last_update_slot(ctx_data);
    if current_slot.saturating_sub(last_update) > UPTIME_STALENESS_SLOTS {
        return Err(UptimeFault::Matcher(UptimeMatcherError::OracleStale));
    }
    let quote = compute_exec_price_edge(uptime_e6, base_spread, edge_spread, max_spread,
        signal_adj);
    let price = quote.0;
    write_exec_price(ctx_data, price);
    proof {
        assert(spec_magic(ctx_data@) == spec_magic(old(ctx_data)@)) by {
            assert(ctx_data@.subrange(MAGIC_OFFSET as int, MAGIC_OFFSET + 8)
                =~= old(ctx_data)@.subrange(MAGIC_OFFSET as int, MAGIC_OFFSET + 8));
        }
        assert(spec_current_uptime(ctx_data@) == spec_current_uptime(old(ctx_data)@)) by {
            assert(ctx_data@.subrange(128, 136) =~= old(ctx_data)@.subrange(128, 136));
        }
        assert(spec_uptime_mark(ctx_data@) == spec_uptime_mark(old(ctx_data)@)) by {
            assert(ctx_data@.subrange(136, 144) =~= old(ctx_data)@.subrange(136, 144));
        }
    }
    Ok(price)
}

/// The first check an oracle sync fails, or `None` when the sync is owed:
/// the payload must be complete, the record writable and carrying this
/// engine's tag, the market not resolved, the presented oracle identity
/// byte-equal to the stored one, the probability at most 100%, and the
/// signal severity at most critical.
pub open spec fn spec_uptime_sync_err(
    oracle: AccountMeta,
    ctx: AccountMeta,
    s: Seq<u8>,
    payload: Seq<u8>,
) -> Option<UptimeFault> {
    if payload.len() < 25 {
        Some(UptimeFault::Common(CommonFault::MalformedInstruction))
    } else if !ctx.is_writable {
        Some(UptimeFault::Common(CommonFault::AccountNotWritable))
    } else if !spec_valid_ctx(s, UPTIME_MATCHER_MAGIC) {
        Some(UptimeFault::Common(CommonFault::UninitializedAccount))
    } else if spec_is_resolved(s) {
        Some(UptimeFault::Matcher(UptimeMatcherError::MarketResolved))
    } else if oracle.key@ != spec_ncn_oracle(s) {
        Some(UptimeFault::Matcher(UptimeMatcherError::OracleMismatch))
    } else if le64_at(payload, 1) > MAX_PROBABILITY {
        Some(UptimeFault::Matcher(UptimeMatcherError::InvalidProbability))
    } else if le64_at(payload, 9) > SIGNAL_CRITICAL {
        Some(UptimeFault::Matcher(UptimeMatcherError::InvalidSignalSeverity))
    } else {
        None
    }
}

/// The state a successful sync leaves behind: the probability (and with it
/// the mark), the sync slot, and the two signal fields carry the payload's
/// values, and every byte outside those fields is unchanged.
pub open spec fn spec_uptime_sync_post(
    old_s: Seq<u8>,
    new_s: Seq<u8>,
    payload: Seq<u8>,
    now: u64,
) -> bool {
    &&& new_s.len() == CTX_SIZE
    &&& spec_current_uptime(new_s) == le64_at(payload, 1)
    &&& spec_uptime_mark(new_s) == le64_at(payload, 1)
    &&& spec_last_update_slot(new_s) == now
    &&& spec_signal_severity(new_s) == le64_at(payload, 9)
    &&& spec_signal_adjusted_spread(new_s) == le64_at(payload, 17)
    &&& forall|i: int|
        0 <= i < CTX_SIZE && !(128 <= i < 152) && !(168 <= i < 184) ==> new_s[i] == old_s[i]
    &&& spec_uptime_wf(new_s)
}

/// Absorbs an oracle snapshot into an uptime record. The payload carries the
/// new probability at offset 1, the signal severity at offset 9, and the
/// signal-adjusted spread at offset 17, each 8 bytes little-endian. On
/// success exactly those fields, the mark, and the sync slot change; on
/// failure the record is untouched.
pub fn process_uptime_sync(
    oracle: &AccountMeta,
    ctx_meta: &AccountMeta,
    ctx_data: &mut Vec<u8>,
    payload: &[u8],
    current_slot: u64,
) -> (r: Result<(), UptimeFault>)
    ensures
        match r {
            Ok(()) => {
                &&& spec_uptime_sync_err(*oracle, *ctx_meta, old(ctx_data)@, payload@) is None
                &&& spec_uptime_sync_post(old(ctx_data)@, final(ctx_data)@, payload@, current_slot)
            },
            Err(e) => {
                &&& spec_uptime_sync_err(*oracle, *ctx_meta, old(ctx_data)@, payload@) == Some(e)
                &&& final(ctx_data)@ == old(ctx_data)@
            },
        },
{
    if payload.len() < 25 {
        return Err(UptimeFault::Common(CommonFault::MalformedInstruction));
    }
    if !ctx_meta.is_writable {
        return Err(UptimeFault::Common(CommonFault::AccountNotWritable));
    }
    if !verify_magic(ctx_data) {
        return Err(UptimeFault::Common(CommonFault::UninitializedAccount));
    }
    if read_is_resolved(ctx_data) {
        return Err(UptimeFault::Matcher(UptimeMatcherError::MarketResolved));
    }
    if !bytes32_match_at(ctx_data, NCN_ORACLE_OFFSET, &oracle.key) {
        return Err(UptimeFault::Matcher(UptimeMatcherError::OracleMismatch));
    }
    let new_uptime = read_u64_slice_at(payload, 1);
    if new_uptime > MAX_PROBABILITY {
        return Err(UptimeFault::Matcher(UptimeMatcherError::InvalidProbability));
    }
    let signal_severity = read_u64_slice_at(payload, 9);
    if signal_severity > SIGNAL_CRITICAL {
        return Err(UptimeFault::Matcher(UptimeMatcherError::InvalidSignalSeverity));
    }
    let signal_spread = read_u64_slice_at(payload, 17);
    write_u64_at(ctx_data, CURRENT_UPTIME_OFFSET, new_uptime);
    let ghost s_uptime = ctx_data@;
    write_u64_at(ctx_data, UPTIME_MARK_OFFSET, new_uptime);
    let ghost s_mark = ctx_data@;
    write_u64_at(ctx_data, LAST_UPDATE_SLOT_OFFSET, current_slot);
    let ghost s_slot = ctx_data@;
    write_u64_at(ctx_data, SIGNAL_SEVERITY_OFFSET, signal_severity);
    let ghost s_sev = ctx_data@;
    write_u64_at(ctx_data, SIGNAL_ADJUSTED_SPREAD_OFFSET, signal_spread);
    proof {
        assert(ctx_data@.subrange(128, 136) =~= s_uptime.subrange(128, 136));
        assert(ctx_data@.subrange(136, 144) =~= s_mark.subrange(136, 144));
        assert(ctx_data@.subrange(144, 152) =~= s_slot.subrange(144, 152));
        assert(ctx_data@.subrange(168, 176) =~= s_sev.subrange(168, 176));
    }
    Ok(())
}

/// The final probability a resolution outcome freezes the market at:
/// 1_000_000 for a safe outcome, 0 for an adverse one.
pub open spec fn spec_final_probability(outcome: u8) -> u64 {
    if outcome == 1 {
        MAX_PROBABILITY
    } else {
        0
    }
}

/// The first check a resolution fails, or `None` when the resolution is
/// owed: the payload must carry an outcome byte, the oracle must have signed
/// the call and match the stored oracle identity, the record must carry this
/// engine's tag, the market must not already be resolved, and the outcome
/// must be 0 (adverse) or 1 (safe).
pub open spec fn spec_uptime_resolve_err(
    oracle: AccountMeta,
    s: Seq<u8>,
    payload: Seq<u8>,
) -> Option<UptimeFault> {
    if payload.len() < 2 {
        Some(UptimeFault::Common(CommonFault::MalformedInstruction))
    } else if !oracle.is_signer {
        Some(UptimeFault::Common(CommonFault::AuthorizationError))
    } else if !spec_valid_ctx(s, UPTIME_MATCHER_MAGIC) {
        Some(UptimeFault::Common(CommonFault::UninitializedAccount))
    } else if spec_is_resolved(s) {
        Some(UptimeFault::Matcher(UptimeMatcherError::MarketResolved))
    } else if oracle.key@ != spec_ncn_oracle(s) {
        Some(UptimeFault::Matcher(UptimeMatcherError::OracleMismatch))
    } else if payload[1] > 1 {
        Some(UptimeFault::Matcher(UptimeMatcherError::InvalidOutcome))
    } else {
        None
    }
}

/// The state a successful resolution leaves behind: the resolution flag is
/// set, the outcome stored, the probability and mark frozen at the outcome's
/// terminal value, and every other byte unchanged.
pub open spec fn spec_uptime_resolve_post(old_s: Seq<u8>, new_s: Seq<u8>, payload: Seq<u8>) -> bool {
    &&& new_s.len() == CTX_SIZE
    &&& spec_is_resolved(new_s)
    &&& spec_resolution_outcome(new_s) == payload[1]
    &&& spec_current_uptime(new_s) == spec_final_probability(payload[1])
    &&& spec_uptime_mark(new_s) == spec_final_probability(payload[1])
    &&& forall|i: int|
        0 <= i < CTX_SIZE && !(128 <= i < 144) && !(160 <= i < 162) ==> new_s[i] == old_s[i]
    &&& spec_uptime_wf(new_s)
}

/// Settles the market once and for all. On success the resolution flag and
/// outcome are stored and the probability is frozen at 0 (adverse) or
/// 1_000_000 (safe); every later sync, quote, or resolution fails with
/// `MarketResolved`. On failure the record is untouched.
pub fn process_resolve(oracle: &AccountMeta, ctx_data: &mut Vec<u8>, payload: &[u8]) -> (r: Result<
    (),
    UptimeFault,
>)
    ensures
        match r {
            Ok(()) => {
                &&& spec_uptime_resolve_err(*oracle, old(ctx_data)@, payload@) is None
                &&& spec_uptime_resolve_post(old(ctx_data)@, final(ctx_data)@, payload@)
            },
            Err(e) => {
                &&& spec_uptime_resolve_err(*oracle, old(ctx_data)@, payload@) == Some(e)
                &&& final(ctx_data)@ == old(ctx_data)@
            },
        },
{
    if payload.len() < 2 {
        return Err(UptimeFault::Common(CommonFault::MalformedInstruction));
    }
    if !oracle.is_signer {
        return Err(UptimeFault::Common(CommonFault::AuthorizationError));
    }
    if !verify_magic(ctx_data) {
        return Err(UptimeFault::Common(CommonFault::UninitializedAccount));
    }
    if read_is_resolved(ctx_data) {
        return Err(UptimeFault::Matcher(UptimeMatcherError::MarketResolved));
    }
    if !bytes32_match_at(ctx_data, NCN_ORACLE_OFFSET, &oracle.key) {
        return Err(UptimeFault::Matcher(UptimeMatcherError::OracleMismatch));
    }
    let outcome = *slice_index_get(payload, 1);
    if outcome > 1 {
        return Err(UptimeFault::Matcher(UptimeMatcherError::InvalidOutcome));
    }
    let final_probability: u64 = if outcome == 1 {
        MAX_PROBABILITY
    } else {
        0
    };
    ctx_data.set(IS_RESOLVED_OFFSET, 1);
    ctx_data.set(RESOLUTION_OUTCOME_OFFSET, outcome);
    write_u64_at(ctx_data, CURRENT_UPTIME_OFFSET, final_probability);
    let ghost s_uptime = ctx_data@;
    write_u64_at(ctx_data, UPTIME_MARK_OFFSET, final_probability);
    proof {
        assert(ctx_data@.subrange(128, 136) =~= s_uptime.subrange(128, 136));
    }
    Ok(())
}

/// The first check creation fails, or `None` when creation is owed: the
/// payload must be complete, the record writable, exactly `CTX_SIZE` bytes,
/// and not already carrying this engine's tag, and the initial probability
/// must be at most 100%.
pub open spec fn spec_uptime_init_err(
    ctx: AccountMeta,
    s: Seq<u8>,
    payload: Seq<u8>,
) -> Option<UptimeFault> {
    if payload.len() < 98 {
        Some(UptimeFault::Common(CommonFault::MalformedInstruction))
    } else {
        match spec_verify_init_preconditions(ctx, s, UPTIME_MATCHER_MAGIC) {
            Err(f) => Some(UptimeFault::Common(f)),
            Ok(()) => if le64_at(payload, 18) > MAX_PROBABILITY {
                Some(UptimeFault::Matcher(UptimeMatcherError::InvalidProbability))
            } else {
                None
            },
        }
    }
}

/// The state a successful creation leaves behind: every byte of the record
/// is pinned down by the header, the payload's parameters, the current
/// slot, the cleared resolution and signal state, and the zeroed reserved
/// tail.
pub open spec fn spec_uptime_init_post(
    new_s: Seq<u8>,
    lp: AccountMeta,
    payload: Seq<u8>,
    now: u64,
) -> bool {
    &&& new_s.len() == CTX_SIZE
    &&& forall|i: int| 0 <= i < MAGIC_OFFSET ==> new_s[i] == 0u8
    &&& spec_magic(new_s) == UPTIME_MATCHER_MAGIC
    &&& spec_version(new_s) == CONTEXT_VERSION
    &&& spec_mode(new_s) == payload[1]
    &&& forall|i: int| MODE_OFFSET < i < LP_PDA_OFFSET ==> new_s[i] == 0u8
    &&& spec_lp_pda(new_s) == lp.key@
    &&& spec_base_spread(new_s) == le32_at(payload, 2)
    &&& spec_edge_spread(new_s) == le32_at(payload, 6)
    &&& spec_max_spread(new_s) == le32_at(payload, 10)
    &&& spec_impact_k(new_s) == le32_at(payload, 14)
    &&& spec_current_uptime(new_s) == le64_at(payload, 18)
    &&& spec_uptime_mark(new_s) == le64_at(payload, 18)
    &&& spec_last_update_slot(new_s) == now
    &&& spec_resolution_timestamp(new_s) == le64_at(payload, 26)
    &&& !spec_is_resolved(new_s)
    &&& spec_resolution_outcome(new_s) == 0u8
    &&& forall|i: int| 162 <= i < 168 ==> new_s[i] == 0u8
    &&& spec_signal_severity(new_s) == SIGNAL_NONE
    &&& spec_signal_adjusted_spread(new_s) == 0
    &&& spec_liquidity_notional(new_s) == le128_at(payload, 34)
    &&& spec_max_fill(new_s) == le128_at(payload, 50)
    &&& spec_ncn_oracle(new_s) == payload.subrange(66, 98)
    &&& forall|i: int| UPTIME_RESERVED_OFFSET <= i < CTX_SIZE ==> new_s[i] == 0u8
    &&& spec_uptime_wf(new_s)
}

/// Creates an uptime record. The payload carries the mode byte at offset 1,
/// the four spread parameters as `u32` at offsets 2, 6, 10, 14, the initial
/// probability at 18, the settlement timestamp at 26, the size caps as
/// `u128` at 34 and 50, and the oracle identity at 66. On success every byte
/// of the record is pinned down: the header is written, the parameters and
/// initial probability are stored, the sync slot is `current_slot`, the
/// resolution and signal state start cleared, and the reserved tail is
/// zeroed. On failure the record is untouched.
pub fn process_init(
    lp: &AccountMeta,
    ctx_meta: &AccountMeta,
    ctx_data: &mut Vec<u8>,
    payload: &[u8],
    current_slot: u64,
) -> (r: Result<(), UptimeFault>)
    ensures
        match r {
            Ok(()) => {
                &&& spec_uptime_init_err(*ctx_meta, old(ctx_data)@, payload@) is None
                &&& spec_uptime_init_post(final(ctx_data)@, *lp, payload@, current_slot)
            },
            Err(e) => {
                &&& spec_uptime_init_err(*ctx_meta, old(ctx_data)@, payload@) == Some(e)
                &&& final(ctx_data)@ == old(ctx_data)@
            },
        },
{
    if payload.len() < 98 {
        return Err(UptimeFault::Common(CommonFault::MalformedInstruction));
    }
    match verify_init_preconditions(ctx_meta, ctx_data, UPTIME_MATCHER_MAGIC) {
        Err(f) => {
            return Err(UptimeFault::Common(f));
        },
        Ok(()) => {},
    }
    let initial_uptime = read_u64_slice_at(payload, 18);
    if initial_uptime > MAX_PROBABILITY {
        return Err(UptimeFault::Matcher(UptimeMatcherError::InvalidProbability));
    }
    let mode = *slice_index_get(payload, 1);
    write_header(ctx_data, UPTIME_MATCHER_MAGIC, mode, &lp.key);
    let ghost s_hdr = ctx_data@;
    write_u32_at(ctx_data, BASE_SPREAD_OFFSET, read_u32_slice_at(payload, 2));
    let ghost s_base = ctx_data@;
    write_u32_at(ctx_data, EDGE_SPREAD_OFFSET, read_u32_slice_at(payload, 6));
    let ghost s_edge = ctx_data@;
    write_u32_at(ctx_data, MAX_SPREAD_OFFSET, read_u32_slice_at(payload, 10));
    let ghost s_max = ctx_data@;
    write_u32_at(ctx_data, IMPACT_K_OFFSET, read_u32_slice_at(payload, 14));
    let ghost s_impact = ctx_data@;
    write_u64_at(ctx_data, CURRENT_UPTIME_OFFSET, initial_uptime);
    let ghost s_uptime = ctx_data@;
    write_u64_at(ctx_data, UPTIME_MARK_OFFSET, initial_uptime);
    let ghost s_mark = ctx_data@;
    write_u64_at(ctx_data, LAST_UPDATE_SLOT_OFFSET, current_slot);
    let ghost s_slot = ctx_data@;
    write_u64_at(ctx_data, RESOLUTION_TIMESTAMP_OFFSET, read_u64_slice_at(payload, 26));
    let ghost s_ts = ctx_data@;
    ctx_data.set(IS_RESOLVED_OFFSET, 0);
    ctx_data.set(RESOLUTION_OUTCOME_OFFSET, 0);
    zero_range(ctx_data, RESOLUTION_OUTCOME_OFFSET + 1, SIGNAL_SEVERITY_OFFSET);
    write_u64_at(ctx_data, SIGNAL_SEVERITY_OFFSET, SIGNAL_NONE);
    let ghost s_sev = ctx_data@;
    write_u64_at(ctx_data, SIGNAL_ADJUSTED_SPREAD_OFFSET, 0);
    let ghost s_sig = ctx_data@;
    write_u128_at(ctx_data, LIQUIDITY_OFFSET, read_u128_slice_at(payload, 34));
    let ghost s_liq = ctx_data@;
    write_u128_at(ctx_data, MAX_FILL_OFFSET, read_u128_slice_at(payload, 50));
    let ghost s_fill = ctx_data@;
    copy_bytes_at(ctx_data, NCN_ORACLE_OFFSET, payload, 66, 32);
    let ghost s_oracle = ctx_data@;
    zero_range(ctx_data, UPTIME_RESERVED_OFFSET, CTX_SIZE);
    proof {
        assert(ctx_data@.subrange(MAGIC_OFFSET as int, MAGIC_OFFSET + 8)
            =~= s_hdr.subrange(MAGIC_OFFSET as int, MAGIC_OFFSET + 8));
        assert(ctx_data@.subrange(VERSION_OFFSET as int, VERSION_OFFSET + 4)
            =~= s_hdr.subrange(VERSION_OFFSET as int, VERSION_OFFSET + 4));
        assert(spec_lp_pda(ctx_data@) =~= spec_lp_pda(s_hdr));
        assert(ctx_data@.subrange(112, 116) =~= s_base.subrange(112, 116));
        assert(ctx_data@.subrange(116, 120) =~= s_edge.subrange(116, 120));
        assert(ctx_data@.subrange(120, 124) =~= s_max.subrange(120, 124));
        assert(ctx_data@.subrange(124, 128) =~= s_impact.subrange(124, 128));
        assert(ctx_data@.subrange(128, 136) =~= s_uptime.subrange(128, 136));
        assert(ctx_data@.subrange(136, 144) =~= s_mark.subrange(136, 144));
        assert(ctx_data@.subrange(144, 152) =~= s_slot.subrange(144, 152));
        assert(ctx_data@.subrange(152, 160) =~= s_ts.subrange(152, 160));
        assert(ctx_data@.subrange(168, 176) =~= s_sev.subrange(168, 176));
        assert(ctx_data@.subrange(176, 184) =~= s_sig.subrange(176, 184));
        assert(ctx_data@.subrange(184, 200) =~= s_liq.subrange(184, 200));
        assert(ctx_data@.subrange(200, 216) =~= s_fill.subrange(200, 216));
        assert(spec_ncn_oracle(ctx_data@) =~= spec_ncn_oracle(s_oracle));
        assert(spec_ncn_oracle(s_oracle) =~= payload@.subrange(66, 98));
    }
    Ok(())
}

/// The total spread of a quote is never negative and never exceeds the
/// record's maximum spread, whatever the base, edge, and signal
/// contributions add up to.
pub proof fn lemma_total_spread_capped(base: int, edge: int, max_spread: int, signal: int, p: int)
    requires
        0 <= base,
        0 <= edge,
        0 <= max_spread,
        0 <= signal,
        0 <= p <= 1_000_000,
    ensures
        0 <= spec_edge_total_spread(base, edge, max_spread, signal, p) <= max_spread,
{
    lemma_edge_factor_bounds(p);
    lemma_mul_nonnegative(edge, spec_edge_factor(p));
    lemma_div_is_ordered(0, edge * spec_edge_factor(p), 1_000_000);
    lemma_div_basics(1_000_000);
}

/// A quote never prices below the mark: for every probability and every
/// combination of spread parameters, the execution price is at least `p`.
pub proof fn lemma_quote_at_least_mark(p: int, base: int, edge: int, max_spread: int, signal: int)
    requires
        0 <= p <= 1_000_000,
        0 <= base,
        0 <= edge,
        0 <= max_spread,
        0 <= signal,
    ensures
        spec_edge_exec_price(p, base, edge, max_spread, signal) >= p,
{
    lemma_total_spread_capped(base, edge, max_spread, signal, p);
    lemma_exec_price_at_least_mark(p, spec_edge_total_spread(base, edge, max_spread, signal, p));
}

/// The fields fixed at creation are immutable afterwards: no sync, quote,
/// or resolution touches the record's type tag, version, mode, owning
/// identity, oracle identity, spread parameters, or size caps.
pub proof fn lemma_uptime_immutable_fields(
    old_s: Seq<u8>,
    new_s: Seq<u8>,
    payload: Seq<u8>,
    now: u64,
)
    requires
        old_s.len() == CTX_SIZE,
        spec_uptime_sync_post(old_s, new_s, payload, now) || spec_uptime_resolve_post(
            old_s,
            new_s,
            payload,
        ) || spec_uptime_match_post(old_s, new_s),
    ensures
        spec_magic(new_s) == spec_magic(old_s),
        spec_version(new_s) == spec_version(old_s),
        spec_mode(new_s) == spec_mode(old_s),
        spec_lp_pda(new_s) == spec_lp_pda(old_s),
        spec_ncn_oracle(new_s) == spec_ncn_oracle(old_s),
        spec_base_spread(new_s) == spec_base_spread(old_s),
        spec_edge_spread(new_s) == spec_edge_spread(old_s),
        spec_max_spread(new_s) == spec_max_spread(old_s),
        spec_impact_k(new_s) == spec_impact_k(old_s),
        spec_liquidity_notional(new_s) == spec_liquidity_notional(old_s),
        spec_max_fill(new_s) == spec_max_fill(old_s),
{
    assert(new_s.subrange(64, 72) =~= old_s.subrange(64, 72));
    assert(new_s.subrange(72, 76) =~= old_s.subrange(72, 76));
    assert(new_s.subrange(80, 112) =~= old_s.subrange(80, 112));
    assert(new_s.subrange(112, 116) =~= old_s.subrange(112, 116));
    assert(new_s.subrange(116, 120) =~= old_s.subrange(116, 120));
    assert(new_s.subrange(120, 124) =~= old_s.subrange(120, 124));
    assert(new_s.subrange(124, 128) =~= old_s.subrange(124, 128));
    assert(new_s.subrange(184, 200) =~= old_s.subrange(184, 200));
    assert(new_s.subrange(200, 216) =~= old_s.subrange(200, 216));
    assert(new_s.subrange(216, 248) =~= old_s.subrange(216, 248));
}

/// Resolution is terminal: once a record is resolved, an authorized second
/// resolution, any quote request by the owner, and any oracle sync all fail
/// with `MarketResolved`, whatever their payloads carry.
pub proof fn lemma_resolution_is_terminal(
    lp: AccountMeta,
    oracle: AccountMeta,
    ctx: AccountMeta,
    s: Seq<u8>,
    payload_sync: Seq<u8>,
    payload_resolve: Seq<u8>,
    now: u64,
)
    requires
        spec_valid_ctx(s, UPTIME_MATCHER_MAGIC),
        spec_is_resolved(s),
        lp.is_signer,
        lp.key@ == spec_lp_pda(s),
        oracle.is_signer,
        ctx.is_writable,
        payload_sync.len() >= 25,
        payload_resolve.len() >= 2,
    ensures
        spec_uptime_match_err(lp, s, now) == Some(
            UptimeFault::Matcher(UptimeMatcherError::MarketResolved),
        ),
        spec_uptime_sync_err(oracle, ctx, s, payload_sync) == Some(
            UptimeFault::Matcher(UptimeMatcherError::MarketResolved),
        ),
        spec_uptime_resolve_err(oracle, s, payload_resolve) == Some(
            UptimeFault::Matcher(UptimeMatcherError::MarketResolved),
        ),
{
}

} // verus!

//! The regime-multiplier pricing engine for the restaking-yield market.
//!
//! A quote marks up the oracle-supplied yield mark with a base spread plus
//! a volatility spread scaled by the current regime's multiplier (0.5x for
//! a very calm yield history up to 2.5x under slashing-driven instability),
//! capped at the record's maximum spread. This market has no resolution:
//! it is created once and then alternates between oracle syncs and quotes.

use vstd::arithmetic::div_mod::{lemma_div_basics, lemma_div_is_ordered};
use vstd::arithmetic::mul::{lemma_mul_is_commutative, lemma_mul_inequality,
    lemma_mul_nonnegative, lemma_mul_upper_bound};
use vstd::prelude::*;
use vstd::slice::slice_index_get;

use crate::codec::{
    bytes32_match_at, copy_bytes_at, le128_at, le32_at, le64_at, read_u128_slice_at,
    read_u32_slice_at, read_u64_slice_at, write_u128_at, write_u32_at, write_u64_at, zero_range,
};
use crate::errors::{CommonFault, YieldFault, YieldMatcherError};
use crate::record::{
    compute_exec_price, lemma_exec_price_at_least_mark, lemma_exec_price_monotone_in_spread,
    spec_exec_price, spec_lp_pda, spec_magic, spec_mode, spec_return_price, spec_sat_sub,
    spec_valid_ctx, spec_verify_init_preconditions, spec_verify_lp_pda, spec_version,
    verify_init_preconditions, verify_lp_pda, write_exec_price, write_header, AccountMeta,
    CONTEXT_VERSION, CTX_SIZE, LP_PDA_OFFSET, MAGIC_OFFSET, MODE_OFFSET, VERSION_OFFSET,
};
use crate::yield_state::{
    read_base_spread, read_last_update_slot, read_max_spread, read_regime_code,
    read_yield_mark, read_yield_vol_spread, spec_base_spread, spec_current_yield,
    spec_impact_k, spec_last_update_slot, spec_liquidity_notional, spec_max_fill,
    spec_max_spread, spec_ncn_performance_feed, spec_ncn_yield_feed, spec_regime_code,
    spec_yield_30d_avg, spec_yield_7d_avg, spec_yield_mark, spec_yield_vol_spread,
    verify_magic, YieldRegime, BASE_SPREAD_OFFSET, CURRENT_YIELD_OFFSET, IMPACT_K_OFFSET,
    LAST_UPDATE_SLOT_OFFSET, LIQUIDITY_OFFSET, MAX_FILL_OFFSET, MAX_SPREAD_OFFSET,
    NCN_PERFORMANCE_FEED_OFFSET, NCN_YIELD_FEED_OFFSET, YIELD_30D_AVG_OFFSET,
    YIELD_7D_AVG_OFFSET, YIELD_MARK_PRICE_OFFSET, YIELD_MATCHER_MAGIC, YIELD_REGIME_OFFSET,
    YIELD_RESERVED_OFFSET, YIELD_STALENESS_SLOTS, YIELD_VOL_SPREAD_OFFSET,
};

verus! {

/// The volatility spread scaled by a regime multiplier (scale 100).
pub open spec fn spec_adjusted_yield_vol(vol: int, multiplier: int) -> int {
    vol * multiplier / 100
}

/// Total spread of a yield quote: base plus regime-scaled volatility
/// spread, capped at the record's maximum spread.
pub open spec fn spec_yield_total_spread(
    base: int,
    vol: int,
    max_spread: int,
    multiplier: int,
) -> int {
    let raw = base + spec_adjusted_yield_vol(vol, multiplier);
    if raw <= max_spread {
        raw
    } else {
        max_spread
    }
}

/// Execution price of a yield quote.
pub open spec fn spec_yield_exec_price(
    mark: int,
    base: int,
    vol: int,
    max_spread: int,
    multiplier: int,
) -> int {
    spec_exec_price(mark, spec_yield_total_spread(base, vol, max_spread, multiplier))
}

/// Prices one yield quote under the given regime, reporting `None` exactly
/// when the execution price does not fit in a `u64`.
pub fn calc_exec_price(
    base_spread: u32,
    yield_vol_spread: u32,
    max_spread: u32,
    regime: YieldRegime,
    yield_mark: u64,
) -> (r: Option<u64>)
    ensures
        match r {
            Some(p) => {
                &&& p == spec_yield_exec_price(
                    yield_mark as int,
                    base_spread as int,
                    yield_vol_spread as int,
                    max_spread as int,
                    regime.spec_spread_multiplier() as int,
                )
                &&& spec_yield_exec_price(
                    yield_mark as int,
                    base_spread as int,
                    yield_vol_spread as int,
                    max_spread as int,
                    regime.spec_spread_multiplier() as int,
                ) <= u64::MAX
                &&& p >= yield_mark
            },
            None => spec_yield_exec_price(
                yield_mark as int,
                base_spread as int,
                yield_vol_spread as int,
                max_spread as int,
                regime.spec_spread_multiplier() as int,
            ) > u64::MAX,
        },
{
    let multiplier = regime.spread_multiplier();
    proof {
        lemma_mul_upper_bound(yield_vol_spread as int, u32::MAX as int, multiplier as int, 250);
    }
    let adjusted_yield_vol: u64 = (yield_vol_spread as u64) * multiplier / 100;
    let raw: u64 = (base_spread as u64).saturating_add(adjusted_yield_vol);
    let total_spread: u64 = if raw <= max_spread as u64 {
        raw
    } else {
        max_spread as u64
    };
    proof {
        lemma_exec_price_at_least_mark(yield_mark as int, total_spread as int);
    }
    compute_exec_price(yield_mark, total_spread)
}

/// The price a successful quote against record `s` returns.
pub open spec fn spec_yield_quote(s: Seq<u8>) -> int {
    spec_yield_exec_price(
        spec_yield_mark(s) as int,
        spec_base_spread(s) as int,
        spec_yield_vol_spread(s) as int,
        spec_max_spread(s) as int,
        YieldRegime::spec_from_u8(spec_regime_code(s)).spec_spread_multiplier() as int,
    )
}

/// The first check a quote request fails, or `None` when a quote is owed:
/// the caller must be the signing owner of a record carrying this engine's
/// tag, the mark must have been synced, the oracle must be fresh, and the
/// price must fit in a `u64`.
pub open spec fn spec_yield_match_err(lp: AccountMeta, s: Seq<u8>, now: u64) -> Option<
    YieldFault,
> {
    match spec_verify_lp_pda(lp, s, YIELD_MATCHER_MAGIC) {
        Err(f) => Some(YieldFault::Common(f)),
        Ok(()) => if spec_yield_mark(s) == 0 {
            Some(YieldFault::Matcher(YieldMatcherError::OracleNotSynced))
        } else if spec_sat_sub(now as int, spec_last_update_slot(s) as int)
            > YIELD_STALENESS_SLOTS {
            Some(YieldFault::Matcher(YieldMatcherError::OracleStale))
        } else if spec_yield_quote(s) > u64::MAX {
            Some(YieldFault::Matcher(YieldMatcherError::ArithmeticOverflow))
        } else {
            None
        },
    }
}

/// The state a successful quote leaves behind: the freshly computed
/// execution price stands in the return-data region and every other byte of
/// the record is unchanged.
pub open spec fn spec_yield_match_post(old_s: Seq<u8>, new_s: Seq<u8>) -> bool {
    &&& new_s.len() == CTX_SIZE
    &&& spec_return_price(new_s) == spec_yield_quote(old_s)
    &&& forall|i: int| 8 <= i < CTX_SIZE ==> new_s[i] == old_s[i]
}

/// Executes a quote request (`Match`) against a yield record. On success
/// the execution price is returned and also written to the record's
/// return-data region; nothing else changes. On failure the record is
/// untouched and the reported error is exactly the first violated check.
pub fn process_match(lp: &AccountMeta, ctx_data: &mut Vec<u8>, current_slot: u64) -> (r: Result<
    u64,
    YieldFault,
>)
    ensures
        match r {
            Ok(price) => {
                &&& spec_yield_match_err(*lp, old(ctx_data)@, current_slot) is None
                &&& price == spec_yield_quote(old(ctx_data)@)
                &&& price >= spec_yield_mark(old(ctx_data)@)
                &&& spec_yield_match_post(old(ctx_data)@, final(ctx_data)@)
            },
            Err(e) => {
                &&& spec_yield_match_err(*lp, old(ctx_data)@, current_slot) == Some(e)
                &&& final(ctx_data)@ == old(ctx_data)@
            },
        },
{
    match verify_lp_pda(lp, ctx_data, YIELD_MATCHER_MAGIC) {
        Err(f) => {
            return Err(YieldFault::Common(f));
        },
        Ok(()) => {},
    }
    let base_spread = read_base_spread(ctx_data);
    let yield_vol_spread = read_yield_vol_spread(ctx_data);
    let max_spread = read_max_spread(ctx_data);
    let yield_mark = read_yield_mark(ctx_data);
    let regime = YieldRegime::from_u8(read_regime_code(ctx_data));
    if yield_mark == 0 {
        return Err(YieldFault::Matcher(YieldMatcherError::OracleNotSynced));
    }
    let last_update = read_last_update_slot(ctx_data);
    if current_slot.saturating_sub(last_update) > YIELD_STALENESS_SLOTS {
        return Err(YieldFault::Matcher(YieldMatcherError::OracleStale));
    }
    let price = match calc_exec_price(base_spread, yield_vol_spread, max_spread, regime,
        yield_mark) {
        Some(p) => p,
        None => {
            return Err(YieldFault::Matcher(YieldMatcherError::ArithmeticOverflow));
        },
    };
    write_exec_price(ctx_data, price);
    Ok(price)
}

/// The first check an oracle sync fails, or `None` when the sync is owed:
/// the payload must be complete, the record writable and carrying this
/// engine's tag, the two presented feed identities byte-equal to the stored
/// ones, and the regime code at most 4.
pub open spec fn spec_yield_sync_err(
    yield_feed: AccountMeta,
    perf_feed: AccountMeta,
    ctx: AccountMeta,
    s: Seq<u8>,
    payload: Seq<u8>,
) -> Option<YieldFault> {
    if payload.len() < 34 {
        Some(YieldFault::Common(CommonFault::MalformedInstruction))
    } else if !ctx.is_writable {
        Some(YieldFault::Common(CommonFault::AccountNotWritable))
    } else if !spec_valid_ctx(s, YIELD_MATCHER_MAGIC) {
        Some(YieldFault::Common(CommonFault::UninitializedAccount))
    } else if yield_feed.key@ != spec_ncn_yield_feed(s) {
        Some(YieldFault::Matcher(YieldMatcherError::OracleAccountMismatch))
    } else if perf_feed.key@ != spec_ncn_performance_feed(s) {
        Some(YieldFault::Matcher(YieldMatcherError::OracleAccountMismatch))
    } else if payload[17] > 4 {
        Some(YieldFault::Matcher(YieldMatcherError::InvalidRegime))
    } else {
        None
    }
}

/// The state a successful sync leaves behind: the yield, mark, sync slot,
/// regime code, and rolling averages carry the payload's values, and every
/// byte outside those fields is unchanged.
pub open spec fn spec_yield_sync_post(
    old_s: Seq<u8>,
    new_s: Seq<u8>,
    payload: Seq<u8>,
    now: u64,
) -> bool {
    &&& new_s.len() == CTX_SIZE
    &&& spec_current_yield(new_s) == le64_at(payload, 1)
    &&& spec_yield_mark(new_s) == le64_at(payload, 9)
    &&& spec_last_update_slot(new_s) == now
    &&& spec_regime_code(new_s) == payload[17]
    &&& spec_yield_7d_avg(new_s) == le64_at(payload, 18)
    &&& spec_yield_30d_avg(new_s) == le64_at(payload, 26)
    &&& forall|i: int|
        0 <= i < CTX_SIZE && !(128 <= i < 153) && !(160 <= i < 176) ==> new_s[i] == old_s[i]
}

/// Absorbs an oracle snapshot into a yield record. The payload carries the
/// current yield at offset 1, the mark at 9, the regime code byte at 17,
/// and the 7-day and 30-day averages at 18 and 26. On success exactly those
/// fields and the sync slot change; on failure the record is untouched.
pub fn process_oracle_sync(
    yield_feed: &AccountMeta,
    perf_feed: &AccountMeta,
    ctx_meta: &AccountMeta,
    ctx_data: &mut Vec<u8>,
    payload: &[u8],
    current_slot: u64,
) -> (r: Result<(), YieldFault>)
    ensures
        match r {
            Ok(()) => {
                &&& spec_yield_sync_err(*yield_feed, *perf_feed, *ctx_meta, old(ctx_data)@,
                    payload@) is None
                &&& spec_yield_sync_post(old(ctx_data)@, final(ctx_data)@, payload@,
                    current_slot)
            },
            Err(e) => {
                &&& spec_yield_sync_err(*yield_feed, *perf_feed, *ctx_meta, old(ctx_data)@,
                    payload@) == Some(e)
                &&& final(ctx_data)@ == old(ctx_data)@
            },
        },
{
    if payload.len() < 34 {
        return Err(YieldFault::Common(CommonFault::MalformedInstruction));
    }
    if !ctx_meta.is_writable {
        return Err(YieldFault::Common(CommonFault::AccountNotWritable));
    }
    if !verify_magic(ctx_data) {
        return Err(YieldFault::Common(CommonFault::UninitializedAccount));
    }
    if !bytes32_match_at(ctx_data, NCN_YIELD_FEED_OFFSET, &yield_feed.key) {
        return Err(YieldFault::Matcher(YieldMatcherError::OracleAccountMismatch));
    }
    if !bytes32_match_at(ctx_data, NCN_PERFORMANCE_FEED_OFFSET, &perf_feed.key) {
        return Err(YieldFault::Matcher(YieldMatcherError::OracleAccountMismatch));
    }
    let regime = *slice_index_get(payload, 17);
    if regime > 4 {
        return Err(YieldFault::Matcher(YieldMatcherError::InvalidRegime));
    }
    let current_yield = read_u64_slice_at(payload, 1);
    let yield_mark = read_u64_slice_at(payload, 9);
    let yield_7d = read_u64_slice_at(payload, 18);
    let yield_30d = read_u64_slice_at(payload, 26);
    write_u64_at(ctx_data, CURRENT_YIELD_OFFSET, current_yield);
    let ghost s_yield = ctx_data@;
    write_u64_at(ctx_data, YIELD_MARK_PRICE_OFFSET, yield_mark);
    let ghost s_mark = ctx_data@;
    write_u64_at(ctx_data, LAST_UPDATE_SLOT_OFFSET, current_slot);
    let ghost s_slot = ctx_data@;
    ctx_data.set(YIELD_REGIME_OFFSET, regime);
    write_u64_at(ctx_data, YIELD_7D_AVG_OFFSET, yield_7d);
    let ghost s_7d = ctx_data@;
    write_u64_at(ctx_data, YIELD_30D_AVG_OFFSET, yield_30d);
    proof {
        assert(ctx_data@.subrange(128, 136) =~= s_yield.subrange(128, 136));
        assert(ctx_data@.subrange(136, 144) =~= s_mark.subrange(136, 144));
        assert(ctx_data@.subrange(144, 152) =~= s_slot.subrange(144, 152));
        assert(ctx_data@.subrange(160, 168) =~= s_7d.subrange(160, 168));
    }
    Ok(())
}

/// The first check creation fails, or `None` when creation is owed: the
/// payload must be complete and the record writable, exactly `CTX_SIZE`
/// bytes, and not already carrying this engine's tag.
pub open spec fn spec_yield_init_err(ctx: AccountMeta, s: Seq<u8>, payload: Seq<u8>) -> Option<
    YieldFault,
> {
    if payload.len() < 114 {
        Some(YieldFault::Common(CommonFault::MalformedInstruction))
    } else {
        match spec_verify_init_preconditions(ctx, s, YIELD_MATCHER_MAGIC) {
            Err(f) => Some(YieldFault::Common(f)),
            Ok(()) => None,
        }
    }
}

/// The state a successful creation leaves behind: every byte of the record
/// is pinned down by the header, the payload's parameters and identities,
/// the zeroed yield data with the regime starting at `Normal`, and the
/// zeroed reserved tail.
pub open spec fn spec_yield_init_post(new_s: Seq<u8>, lp: AccountMeta, payload: Seq<u8>) -> bool {
    &&& new_s.len() == CTX_SIZE
    &&& forall|i: int| 0 <= i < MAGIC_OFFSET ==> new_s[i] == 0u8
    &&& spec_magic(new_s) == YIELD_MATCHER_MAGIC
    &&& spec_version(new_s) == CONTEXT_VERSION
    &&& spec_mode(new_s) == payload[1]
    &&& forall|i: int| MODE_OFFSET < i < LP_PDA_OFFSET ==> new_s[i] == 0u8
    &&& spec_lp_pda(new_s) == lp.key@
    &&& spec_base_spread(new_s) == le32_at(payload, 2)
    &&& spec_yield_vol_spread(new_s) == le32_at(payload, 6)
    &&& spec_max_spread(new_s) == le32_at(payload, 10)
    &&& spec_impact_k(new_s) == le32_at(payload, 14)
    &&& spec_current_yield(new_s) == 0
    &&& spec_yield_mark(new_s) == 0
    &&& spec_last_update_slot(new_s) == 0
    &&& spec_regime_code(new_s) == 2u8
    &&& forall|i: int| YIELD_REGIME_OFFSET < i < YIELD_7D_AVG_OFFSET ==> new_s[i] == 0u8
    &&& spec_yield_7d_avg(new_s) == 0
    &&& spec_yield_30d_avg(new_s) == 0
    &&& spec_liquidity_notional(new_s) == le128_at(payload, 18)
    &&& spec_max_fill(new_s) == le128_at(payload, 34)
    &&& spec_ncn_yield_feed(new_s) == payload.subrange(50, 82)
    &&& spec_ncn_performance_feed(new_s) == payload.subrange(82, 114)
    &&& forall|i: int| YIELD_RESERVED_OFFSET <= i < CTX_SIZE ==> new_s[i] == 0u8
}

/// Creates a yield record. The payload carries the mode byte at offset 1,
/// the four spread parameters as `u32` at offsets 2, 6, 10, 14, the size
/// caps as `u128` at 18 and 34, and the two oracle identities at 50 and 82.
/// On success every byte of the record is pinned down: the header is
/// written, the parameters and identities are stored, and all oracle-derived
/// fields start zeroed with the regime at `Normal`. A quote against a fresh
/// record fails with `OracleNotSynced` until the first sync. On failure the
/// record is untouched.
pub fn process_init(
    lp: &AccountMeta,
    ctx_meta: &AccountMeta,
    ctx_data: &mut Vec<u8>,
    payload: &[u8],
) -> (r: Result<(), YieldFault>)
    ensures
        match r {
            Ok(()) => {
                &&& spec_yield_init_err(*ctx_meta, old(ctx_data)@, payload@) is None
                &&& spec_yield_init_post(final(ctx_data)@, *lp, payload@)
            },
            Err(e) => {
                &&& spec_yield_init_err(*ctx_meta, old(ctx_data)@, payload@) == Some(e)
                &&& final(ctx_data)@ == old(ctx_data)@
            },
        },
{
    if payload.len() < 114 {
        return Err(YieldFault::Common(CommonFault::MalformedInstruction));
    }
    match verify_init_preconditions(ctx_meta, ctx_data, YIELD_MATCHER_MAGIC) {
        Err(f) => {
            return Err(YieldFault::Common(f));
        },
        Ok(()) => {},
    }
    let mode = *slice_index_get(payload, 1);
    write_header(ctx_data, YIELD_MATCHER_MAGIC, mode, &lp.key);
    let ghost s_hdr = ctx_data@;
    write_u32_at(ctx_data, BASE_SPREAD_OFFSET, read_u32_slice_at(payload, 2));
    let ghost s_base = ctx_data@;
    write_u32_at(ctx_data, YIELD_VOL_SPREAD_OFFSET, read_u32_slice_at(payload, 6));
    let ghost s_vol = ctx_data@;
    write_u32_at(ctx_data, MAX_SPREAD_OFFSET, read_u32_slice_at(payload, 10));
    let ghost s_max = ctx_data@;
    write_u32_at(ctx_data, IMPACT_K_OFFSET, read_u32_slice_at(payload, 14));
    let ghost s_impact = ctx_data@;
    write_u64_at(ctx_data, CURRENT_YIELD_OFFSET, 0);
    let ghost s_yield = ctx_data@;
    write_u64_at(ctx_data, YIELD_MARK_PRICE_OFFSET, 0);
    let ghost s_mark = ctx_data@;
    write_u64_at(ctx_data, LAST_UPDATE_SLOT_OFFSET, 0);
    let ghost s_slot = ctx_data@;
    ctx_data.set(YIELD_REGIME_OFFSET, 2);
    zero_range(ctx_data, YIELD_REGIME_OFFSET + 1, YIELD_7D_AVG_OFFSET);
    write_u64_at(ctx_data, YIELD_7D_AVG_OFFSET, 0);
    let ghost s_7d = ctx_data@;
    write_u64_at(ctx_data, YIELD_30D_AVG_OFFSET, 0);
    let ghost s_30d = ctx_data@;
    write_u128_at(ctx_data, LIQUIDITY_OFFSET, read_u128_slice_at(payload, 18));
    let ghost s_liq = ctx_data@;
    write_u128_at(ctx_data, MAX_FILL_OFFSET, read_u128_slice_at(payload, 34));
    let ghost s_fill = ctx_data@;
    copy_bytes_at(ctx_data, NCN_YIELD_FEED_OFFSET, payload, 50, 32);
    let ghost s_yf = ctx_data@;
    copy_bytes_at(ctx_data, NCN_PERFORMANCE_FEED_OFFSET, payload, 82, 32);
    let ghost s_pf = ctx_data@;
    zero_range(ctx_data, YIELD_RESERVED_OFFSET, CTX_SIZE);
    proof {
        assert(ctx_data@.subrange(MAGIC_OFFSET as int, MAGIC_OFFSET + 8)
            =~= s_hdr.subrange(MAGIC_OFFSET as int, MAGIC_OFFSET + 8));
        assert(ctx_data@.subrange(VERSION_OFFSET as int, VERSION_OFFSET + 4)
            =~= s_hdr.subrange(VERSION_OFFSET as int, VERSION_OFFSET + 4));
        assert(spec_lp_pda(ctx_data@) =~= spec_lp_pda(s_hdr));
        assert(ctx_data@.subrange(112, 116) =~= s_base.subrange(112, 116));
        assert(ctx_data@.subrange(116, 120) =~= s_vol.subrange(116, 120));
        assert(ctx_data@.subrange(120, 124) =~= s_max.subrange(120, 124));
        assert(ctx_data@.subrange(124, 128) =~= s_impact.subrange(124, 128));
        assert(ctx_data@.subrange(128, 136) =~= s_yield.subrange(128, 136));
        assert(ctx_data@.subrange(136, 144) =~= s_mark.subrange(136, 144));
        assert(ctx_data@.subrange(144, 152) =~= s_slot.subrange(144, 152));
        assert(ctx_data@.subrange(160, 168) =~= s_7d.subrange(160, 168));
        assert(ctx_data@.subrange(168, 176) =~= s_30d.subrange(168, 176));
        assert(ctx_data@.subrange(176, 192) =~= s_liq.subrange(176, 192));
        assert(ctx_data@.subrange(192, 208) =~= s_fill.subrange(192, 208));
        assert(spec_ncn_yield_feed(ctx_data@) =~= spec_ncn_yield_feed(s_yf));
        assert(spec_ncn_yield_feed(s_yf) =~= payload@.subrange(50, 82));
        assert(spec_ncn_performance_feed(ctx_data@) =~= spec_ncn_performance_feed(s_pf));
        assert(spec_ncn_performance_feed(s_pf) =~= payload@.subrange(82, 114));
    }
    Ok(())
}

/// The fields fixed at creation are immutable afterwards: no sync or quote
/// touches the record's type tag, version, mode, owning identity, oracle
/// identities, spread parameters, or size caps.
pub proof fn lemma_yield_immutable_fields(
    old_s: Seq<u8>,
    new_s: Seq<u8>,
    payload: Seq<u8>,
    now: u64,
)
    requires
        old_s.len() == CTX_SIZE,
        spec_yield_sync_post(old_s, new_s, payload, now) || spec_yield_match_post(old_s, new_s),
    ensures
        spec_magic(new_s) == spec_magic(old_s),
        spec_version(new_s) == spec_version(old_s),
        spec_mode(new_s) == spec_mode(old_s),
        spec_lp_pda(new_s) == spec_lp_pda(old_s),
        spec_ncn_yield_feed(new_s) == spec_ncn_yield_feed(old_s),
        spec_ncn_performance_feed(new_s) == spec_ncn_performance_feed(old_s),
        spec_base_spread(new_s) == spec_base_spread(old_s),
        spec_yield_vol_spread(new_s) == spec_yield_vol_spread(old_s),
        spec_max_spread(new_s) == spec_max_spread(old_s),
        spec_impact_k(new_s) == spec_impact_k(old_s),
        spec_liquidity_notional(new_s) == spec_liquidity_notional(old_s),
        spec_max_fill(new_s) == spec_max_fill(old_s),
{
    assert(new_s.subrange(64, 72) =~= old_s.subrange(64, 72));
    assert(new_s.subrange(72, 76) =~= old_s.subrange(72, 76));
    assert(new_s.subrange(80, 112) =~= old_s.subrange(80, 112));
    assert(new_s.subrange(112, 116) =~= old_s.subrange(112, 116));
    assert(new_s.subrange(116, 120) =~= old_s.subrange(116, 120));
    assert(new_s.subrange(120, 124) =~= old_s.subrange(120, 124));
    assert(new_s.subrange(124, 128) =~= old_s.subrange(124, 128));
    assert(new_s.subrange(176, 192) =~= old_s.subrange(176, 192));
    assert(new_s.subrange(192, 208) =~= old_s.subrange(192, 208));
    assert(new_s.subrange(208, 240) =~= old_s.subrange(208, 240));
    assert(new_s.subrange(240, 272) =~= old_s.subrange(240, 272));
}

/// Raising the regime multiplier never lowers the execution price, all
/// other inputs held fixed.
pub proof fn lemma_yield_price_monotone_in_multiplier(
    mark: int,
    base: int,
    vol: int,
    max_spread: int,
    m1: int,
    m2: int,
)
    requires
        0 <= mark,
        0 <= base,
        0 <= vol,
        0 <= max_spread,
        0 <= m1 <= m2,
    ensures
        spec_yield_exec_price(mark, base, vol, max_spread, m1) <= spec_yield_exec_price(
            mark,
            base,
            vol,
            max_spread,
            m2,
        ),
{
    lemma_mul_inequality(m1, m2, vol);
    lemma_mul_is_commutative(m1, vol);
    lemma_mul_is_commutative(m2, vol);
    lemma_div_is_ordered(vol * m1, vol * m2, 100);
    lemma_div_is_ordered(0, vol * m1, 100);
    lemma_div_basics(100);
    lemma_exec_price_monotone_in_spread(
        mark,
        spec_yield_total_spread(base, vol, max_spread, m1),
        spec_yield_total_spread(base, vol, max_spread, m2),
    );
}

/// Regime ordering: for a fixed mark and fixed spread parameters, a more
/// volatile regime never quotes a lower execution price.
pub proof fn lemma_regime_price_ordering(mark: u64, base: u32, vol: u32, max_spread: u32)
    ensures
        spec_yield_exec_price(mark as int, base as int, vol as int, max_spread as int,
            YieldRegime::VeryLow.spec_spread_multiplier() as int) <= spec_yield_exec_price(
            mark as int, base as int, vol as int, max_spread as int,
            YieldRegime::Low.spec_spread_multiplier() as int),
        spec_yield_exec_price(mark as int, base as int, vol as int, max_spread as int,
            YieldRegime::Low.spec_spread_multiplier() as int) <= spec_yield_exec_price(
            mark as int, base as int, vol as int, max_spread as int,
            YieldRegime::Normal.spec_spread_multiplier() as int),
        spec_yield_exec_price(mark as int, base as int, vol as int, max_spread as int,
            YieldRegime::Normal.spec_spread_multiplier() as int) <= spec_yield_exec_price(
            mark as int, base as int, vol as int, max_spread as int,
            YieldRegime::High.spec_spread_multiplier() as int),
        spec_yield_exec_price(mark as int, base as int, vol as int, max_spread as int,
            YieldRegime::High.spec_spread_multiplier() as int) <= spec_yield_exec_price(
            mark as int, base as int, vol as int, max_spread as int,
            YieldRegime::Extreme.spec_spread_multiplier() as int),
{
    lemma_yield_price_monotone_in_multiplier(mark as int, base as int, vol as int,
        max_spread as int, 50, 75);
    lemma_yield_price_monotone_in_multiplier(mark as int, base as int, vol as int,
        max_spread as int, 75, 100);
    lemma_yield_price_monotone_in_multiplier(mark as int, base as int, vol as int,
        max_spread as int, 100, 150);
    lemma_yield_price_monotone_in_multiplier(mark as int, base as int, vol as int,
        max_spread as int, 150, 250);
}

/// The total spread of a yield quote is never negative and never exceeds
/// the record's maximum spread, whatever the base and regime-scaled
/// volatility contributions add up to.
pub proof fn lemma_yield_total_spread_capped(base: int, vol: int, max_spread: int, multiplier: int)
    requires
        0 <= base,
        0 <= vol,
        0 <= max_spread,
        0 <= multiplier,
    ensures
        0 <= spec_yield_total_spread(base, vol, max_spread, multiplier) <= max_spread,
{
    lemma_mul_nonnegative(vol, multiplier);
    lemma_div_is_ordered(0, vol * multiplier, 100);
    lemma_div_basics(100);
}

} // verus!

//! Layout and field access of the yield-market context record.
//!
//! The record prices a restaking-yield market. Offsets below 112 belong to
//! the shared header; the engine-specific region holds the spread
//! parameters fixed at creation, the oracle-derived yield and mark, the
//! discrete volatility-regime code with the rolling yield averages, the
//! caller-facing size caps, and the identities of the two oracle feed
//! accounts every sync must present.

use vstd::prelude::*;

use crate::codec::{le128_at, le32_at, le64_at, read_bytes32_at, read_u128_at, read_u32_at,
    read_u64_at};
use crate::record::{spec_valid_ctx, verify_magic as verify_magic_generic, CTX_SIZE};

verus! {

/// Type tag of yield-market records.
pub const YIELD_MATCHER_MAGIC: u64 = 0x5253_544B_4d41_5443;

pub const BASE_SPREAD_OFFSET: usize = 112;

/// Extra spread scaled by the volatility regime.
pub const YIELD_VOL_SPREAD_OFFSET: usize = 116;

pub const MAX_SPREAD_OFFSET: usize = 120;

pub const IMPACT_K_OFFSET: usize = 124;

/// Current restaking yield in basis points.
pub const CURRENT_YIELD_OFFSET: usize = 128;

/// Mark price: the yield scaled to 1e6.
pub const YIELD_MARK_PRICE_OFFSET: usize = 136;

pub const LAST_UPDATE_SLOT_OFFSET: usize = 144;

/// Volatility-regime code (0 = very low ... 4 = extreme).
pub const YIELD_REGIME_OFFSET: usize = 152;

pub const YIELD_7D_AVG_OFFSET: usize = 160;

pub const YIELD_30D_AVG_OFFSET: usize = 168;

pub const LIQUIDITY_OFFSET: usize = 176;

pub const MAX_FILL_OFFSET: usize = 192;

/// Identity of the yield feed account every sync must present.
pub const NCN_YIELD_FEED_OFFSET: usize = 208;

/// Identity of the performance feed account every sync must present.
pub const NCN_PERFORMANCE_FEED_OFFSET: usize = 240;

/// First byte of the zero-filled reserved tail.
pub const YIELD_RESERVED_OFFSET: usize = 272;

/// Quoting is refused when the oracle is more than this many slots behind.
pub const YIELD_STALENESS_SLOTS: u64 = 100;

/// The discrete classification of recent yield volatility that drives the
/// spread multiplier.
#[derive(Clone, Copy, Debug, PartialEq, Eq, Structural)]
pub enum YieldRegime {
    VeryLow,
    Low,
    Normal,
    High,
    Extreme,
}

impl YieldRegime {
    /// The regime a stored code byte names; out-of-range codes are treated
    /// as `Normal`.
    pub open spec fn spec_from_u8(v: u8) -> YieldRegime {
        if v == 0 {
            YieldRegime::VeryLow
        } else if v == 1 {
            YieldRegime::Low
        } else if v == 2 {
            YieldRegime::Normal
        } else if v == 3 {
            YieldRegime::High
        } else if v == 4 {
            YieldRegime::Extreme
        } else {
            YieldRegime::Normal
        }
    }

    pub fn from_u8(v: u8) -> (r: YieldRegime)
        ensures
            r == YieldRegime::spec_from_u8(v),
    {
        match v {
            0 => YieldRegime::VeryLow,
            1 => YieldRegime::Low,
            2 => YieldRegime::Normal,
            3 => YieldRegime::High,
            4 => YieldRegime::Extreme,
            _ => YieldRegime::Normal,
        }
    }

    /// The spread multiplier of a regime, at scale 100: 50 means 0.5x,
    /// 250 means 2.5x.
    pub open spec fn spec_spread_multiplier(self) -> u64 {
        match self {
            YieldRegime::VeryLow => 50,
            YieldRegime::Low => 75,
            YieldRegime::Normal => 100,
            YieldRegime::High => 150,
            YieldRegime::Extreme => 250,
        }
    }

    pub fn spread_multiplier(&self) -> (r: u64)
        ensures
            r == self.spec_spread_multiplier(),
            50 <= r <= 250,
    {
        match self {
            YieldRegime::VeryLow => 50,
            YieldRegime::Low => 75,
            YieldRegime::Normal => 100,
            YieldRegime::High => 150,
            YieldRegime::Extreme => 250,
        }
    }
}

pub open spec fn spec_base_spread(s: Seq<u8>) -> u32 {
    le32_at(s, BASE_SPREAD_OFFSET as int)
}

pub open spec fn spec_yield_vol_spread(s: Seq<u8>) -> u32 {
    le32_at(s, YIELD_VOL_SPREAD_OFFSET as int)
}

pub open spec fn spec_max_spread(s: Seq<u8>) -> u32 {
    le32_at(s, MAX_SPREAD_OFFSET as int)
}

pub open spec fn spec_impact_k(s: Seq<u8>) -> u32 {
    le32_at(s, IMPACT_K_OFFSET as int)
}

pub open spec fn spec_current_yield(s: Seq<u8>) -> u64 {
    le64_at(s, CURRENT_YIELD_OFFSET as int)
}

pub open spec fn spec_yield_mark(s: Seq<u8>) -> u64 {
    le64_at(s, YIELD_MARK_PRICE_OFFSET as int)
}

pub open spec fn spec_last_update_slot(s: Seq<u8>) -> u64 {
    le64_at(s, LAST_UPDATE_SLOT_OFFSET as int)
}

pub open spec fn spec_regime_code(s: Seq<u8>) -> u8 {
    s[YIELD_REGIME_OFFSET as int]
}

pub open spec fn spec_yield_7d_avg(s: Seq<u8>) -> u64 {
    le64_at(s, YIELD_7D_AVG_OFFSET as int)
}

pub open spec fn spec_yield_30d_avg(s: Seq<u8>) -> u64 {
    le64_at(s, YIELD_30D_AVG_OFFSET as int)
}

pub open spec fn spec_liquidity_notional(s: Seq<u8>) -> u128 {
    le128_at(s, LIQUIDITY_OFFSET as int)
}

pub open spec fn spec_max_fill(s: Seq<u8>) -> u128 {
    le128_at(s, MAX_FILL_OFFSET as int)
}

pub open spec fn spec_ncn_yield_feed(s: Seq<u8>) -> Seq<u8> {
    s.subrange(NCN_YIELD_FEED_OFFSET as int, NCN_YIELD_FEED_OFFSET + 32)
}

pub open spec fn spec_ncn_performance_feed(s: Seq<u8>) -> Seq<u8> {
    s.subrange(NCN_PERFORMANCE_FEED_OFFSET as int, NCN_PERFORMANCE_FEED_OFFSET + 32)
}

/// Reports whether `data` carries the yield engine's type tag.
pub fn verify_magic(data: &Vec<u8>) -> (r: bool)
    ensures
        r == spec_valid_ctx(data@, YIELD_MATCHER_MAGIC),
{
    verify_magic_generic(data, YIELD_MATCHER_MAGIC)
}

pub fn read_base_spread(data: &Vec<u8>) -> (r: u32)
    requires
        data.len() == CTX_SIZE,
    ensures
        r == spec_base_spread(data@),
{
    read_u32_at(data, BASE_SPREAD_OFFSET)
}

pub fn read_yield_vol_spread(data: &Vec<u8>) -> (r: u32)
    requires
        data.len() == CTX_SIZE,
    ensures
        r == spec_yield_vol_spread(data@),
{
    read_u32_at(data, YIELD_VOL_SPREAD_OFFSET)
}

pub fn read_max_spread(data: &Vec<u8>) -> (r: u32)
    requires
        data.len() == CTX_SIZE,
    ensures
        r == spec_max_spread(data@),
{
    read_u32_at(data, MAX_SPREAD_OFFSET)
}

pub fn read_impact_k(data: &Vec<u8>) -> (r: u32)
    requires
        data.len() == CTX_SIZE,
    ensures
        r == spec_impact_k(data@),
{
    read_u32_at(data, IMPACT_K_OFFSET)
}

pub fn read_current_yield(data: &Vec<u8>) -> (r: u64)
    requires
        data.len() == CTX_SIZE,
    ensures
        r == spec_current_yield(data@),
{
    read_u64_at(data, CURRENT_YIELD_OFFSET)
}

pub fn read_yield_mark(data: &Vec<u8>) -> (r: u64)
    requires
        data.len() == CTX_SIZE,
    ensures
        r == spec_yield_mark(data@),
{
    read_u64_at(data, YIELD_MARK_PRICE_OFFSET)
}

pub fn read_last_update_slot(data: &Vec<u8>) -> (r: u64)
    requires
        data.len() == CTX_SIZE,
    ensures
        r == spec_last_update_slot(data@),
{
    read_u64_at(data, LAST_UPDATE_SLOT_OFFSET)
}

pub fn read_regime_code(data: &Vec<u8>) -> (r: u8)
    requires
        data.len() == CTX_SIZE,
    ensures
        r == spec_regime_code(data@),
{
    data[YIELD_REGIME_OFFSET]
}

pub fn read_yield_7d_avg(data: &Vec<u8>) -> (r: u64)
    requires
        data.len() == CTX_SIZE,
    ensures
        r == spec_yield_7d_avg(data@),
{
    read_u64_at(data, YIELD_7D_AVG_OFFSET)
}

pub fn read_yield_30d_avg(data: &Vec<u8>) -> (r: u64)
    requires
        data.len() == CTX_SIZE,
    ensures
        r == spec_yield_30d_avg(data@),
{
    read_u64_at(data, YIELD_30D_AVG_OFFSET)
}

pub fn read_liquidity_notional(data: &Vec<u8>) -> (r: u128)
    requires
        data.len() == CTX_SIZE,
    ensures
        r == spec_liquidity_notional(data@),
{
    read_u128_at(data, LIQUIDITY_OFFSET)
}

pub fn read_max_fill(data: &Vec<u8>) -> (r: u128)
    requires
        data.len() == CTX_SIZE,
    ensures
        r == spec_max_fill(data@),
{
    read_u128_at(data, MAX_FILL_OFFSET)
}

pub fn read_ncn_yield_feed(data: &Vec<u8>) -> (r: Vec<u8>)
    requires
        data.len() == CTX_SIZE,
    ensures
        r@ == spec_ncn_yield_feed(data@),
{
    read_bytes32_at(data, NCN_YIELD_FEED_OFFSET)
}

pub fn read_ncn_performance_feed(data: &Vec<u8>) -> (r: Vec<u8>)
    requires
        data.len() == CTX_SIZE,
    ensures
        r@ == spec_ncn_performance_feed(data@),
{
    read_bytes32_at(data, NCN_PERFORMANCE_FEED_OFFSET)
}

} // verus!

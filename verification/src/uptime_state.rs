//! Layout and field access of the uptime-market context record.
//!
//! The record prices a validator-uptime probability market. Offsets below
//! 112 belong to the shared header; the engine-specific region holds the
//! spread parameters fixed at creation, the oracle-derived probability and
//! its sync time, the one-shot resolution state, the external risk-signal
//! state, the caller-facing size caps, and the identity of the oracle feed
//! account every sync must present.

use vstd::prelude::*;

use crate::codec::{le128_at, le32_at, le64_at, read_bytes32_at, read_u128_at, read_u32_at,
    read_u64_at};
use crate::record::{spec_valid_ctx, verify_magic as verify_magic_generic, CTX_SIZE};

verus! {

/// Type tag of uptime-market records.
pub const UPTIME_MATCHER_MAGIC: u64 = 0x4e43_4e55_4d41_5443;

pub const BASE_SPREAD_OFFSET: usize = 112;

/// Extra spread applied near the 0% / 100% probability extremes.
pub const EDGE_SPREAD_OFFSET: usize = 116;

pub const MAX_SPREAD_OFFSET: usize = 120;

pub const IMPACT_K_OFFSET: usize = 124;

/// Current uptime probability, scale 1e6 (0 to 1_000_000).
pub const CURRENT_UPTIME_OFFSET: usize = 128;

/// Mark price; always kept equal to the current uptime probability.
pub const UPTIME_MARK_OFFSET: usize = 136;

pub const LAST_UPDATE_SLOT_OFFSET: usize = 144;

/// Settlement timestamp handed through at creation (0 = no expiry); the
/// engine stores it but never interprets it.
pub const RESOLUTION_TIMESTAMP_OFFSET: usize = 152;

pub const IS_RESOLVED_OFFSET: usize = 160;

/// Resolution outcome: 0 = adverse (slashed), 1 = safe.
pub const RESOLUTION_OUTCOME_OFFSET: usize = 161;

/// External risk-signal severity (0 to 3).
pub const SIGNAL_SEVERITY_OFFSET: usize = 168;

/// Extra spread contributed by the current risk signal.
pub const SIGNAL_ADJUSTED_SPREAD_OFFSET: usize = 176;

pub const LIQUIDITY_OFFSET: usize = 184;

pub const MAX_FILL_OFFSET: usize = 200;

/// Identity of the oracle feed account every sync must present.
pub const NCN_ORACLE_OFFSET: usize = 216;

/// First byte of the zero-filled reserved tail.
pub const UPTIME_RESERVED_OFFSET: usize = 248;

/// Probability value meaning 100%.
pub const MAX_PROBABILITY: u64 = 1_000_000;

/// Quoting is refused when the oracle is more than this many slots behind.
pub const UPTIME_STALENESS_SLOTS: u64 = 200;

pub const SIGNAL_NONE: u64 = 0;

pub const SIGNAL_LOW: u64 = 1;

pub const SIGNAL_HIGH: u64 = 2;

pub const SIGNAL_CRITICAL: u64 = 3;

pub open spec fn spec_base_spread(s: Seq<u8>) -> u32 {
    le32_at(s, BASE_SPREAD_OFFSET as int)
}

pub open spec fn spec_edge_spread(s: Seq<u8>) -> u32 {
    le32_at(s, EDGE_SPREAD_OFFSET as int)
}

pub open spec fn spec_max_spread(s: Seq<u8>) -> u32 {
    le32_at(s, MAX_SPREAD_OFFSET as int)
}

pub open spec fn spec_impact_k(s: Seq<u8>) -> u32 {
    le32_at(s, IMPACT_K_OFFSET as int)
}

pub open spec fn spec_current_uptime(s: Seq<u8>) -> u64 {
    le64_at(s, CURRENT_UPTIME_OFFSET as int)
}

pub open spec fn spec_uptime_mark(s: Seq<u8>) -> u64 {
    le64_at(s, UPTIME_MARK_OFFSET as int)
}

pub open spec fn spec_last_update_slot(s: Seq<u8>) -> u64 {
    le64_at(s, LAST_UPDATE_SLOT_OFFSET as int)
}

pub open spec fn spec_resolution_timestamp(s: Seq<u8>) -> u64 {
    le64_at(s, RESOLUTION_TIMESTAMP_OFFSET as int)
}

pub open spec fn spec_is_resolved(s: Seq<u8>) -> bool {
    s[IS_RESOLVED_OFFSET as int] == 1u8
}

pub open spec fn spec_resolution_outcome(s: Seq<u8>) -> u8 {
    s[RESOLUTION_OUTCOME_OFFSET as int]
}

pub open spec fn spec_signal_severity(s: Seq<u8>) -> u64 {
    le64_at(s, SIGNAL_SEVERITY_OFFSET as int)
}

pub open spec fn spec_signal_adjusted_spread(s: Seq<u8>) -> u64 {
    le64_at(s, SIGNAL_ADJUSTED_SPREAD_OFFSET as int)
}

pub open spec fn spec_liquidity_notional(s: Seq<u8>) -> u128 {
    le128_at(s, LIQUIDITY_OFFSET as int)
}

pub open spec fn spec_max_fill(s: Seq<u8>) -> u128 {
    le128_at(s, MAX_FILL_OFFSET as int)
}

pub open spec fn spec_ncn_oracle(s: Seq<u8>) -> Seq<u8> {
    s.subrange(NCN_ORACLE_OFFSET as int, NCN_ORACLE_OFFSET + 32)
}

/// Well-formedness of an uptime record: a record carrying this engine's type
/// tag never stores a probability above 100%. Creation and every sync
/// validate the probability, and resolution snaps it to an endpoint, so the
/// engine maintains this invariant across all operations.
pub open spec fn spec_uptime_wf(s: Seq<u8>) -> bool {
    spec_valid_ctx(s, UPTIME_MATCHER_MAGIC)
        ==> spec_current_uptime(s) <= MAX_PROBABILITY && spec_uptime_mark(s) <= MAX_PROBABILITY
}

/// Reports whether `data` carries the uptime engine's type tag.
pub fn verify_magic(data: &Vec<u8>) -> (r: bool)
    ensures
        r == spec_valid_ctx(data@, UPTIME_MATCHER_MAGIC),
{
    verify_magic_generic(data, UPTIME_MATCHER_MAGIC)
}

/// Reads the stored oracle feed identity.
pub fn read_ncn_oracle(data: &Vec<u8>) -> (r: Vec<u8>)
    requires
        data.len() == CTX_SIZE,
    ensures
        r@ == spec_ncn_oracle(data@),
{
    read_bytes32_at(data, NCN_ORACLE_OFFSET)
}

pub fn read_base_spread(data: &Vec<u8>) -> (r: u32)
    requires
        data.len() == CTX_SIZE,
    ensures
        r == spec_base_spread(data@),
{
    read_u32_at(data, BASE_SPREAD_OFFSET)
}

pub fn read_edge_spread(data: &Vec<u8>) -> (r: u32)
    requires
        data.len() == CTX_SIZE,
    ensures
        r == spec_edge_spread(data@),
{
    read_u32_at(data, EDGE_SPREAD_OFFSET)
}

pub fn read_max_spread(data: &Vec<u8>) -> (r: u32)
    requires
        data.len() == CTX_SIZE,
    ensures
        r == spec_max_spread(data@),
{
    read_u32_at(data, MAX_SPREAD_OFFSET)
}

pub fn read_impact_k(data: &Vec<u8>) -> (r: u32)
    requires
        data.len() == CTX_SIZE,
    ensures
        r == spec_impact_k(data@),
{
    read_u32_at(data, IMPACT_K_OFFSET)
}

pub fn read_current_uptime(data: &Vec<u8>) -> (r: u64)
    requires
        data.len() == CTX_SIZE,
    ensures
        r == spec_current_uptime(data@),
{
    read_u64_at(data, CURRENT_UPTIME_OFFSET)
}

pub fn read_uptime_mark(data: &Vec<u8>) -> (r: u64)
    requires
        data.len() == CTX_SIZE,
    ensures
        r == spec_uptime_mark(data@),
{
    read_u64_at(data, UPTIME_MARK_OFFSET)
}

pub fn read_last_update_slot(data: &Vec<u8>) -> (r: u64)
    requires
        data.len() == CTX_SIZE,
    ensures
        r == spec_last_update_slot(data@),
{
    read_u64_at(data, LAST_UPDATE_SLOT_OFFSET)
}

pub fn read_resolution_timestamp(data: &Vec<u8>) -> (r: u64)
    requires
        data.len() == CTX_SIZE,
    ensures
        r == spec_resolution_timestamp(data@),
{
    read_u64_at(data, RESOLUTION_TIMESTAMP_OFFSET)
}

pub fn read_is_resolved(data: &Vec<u8>) -> (r: bool)
    requires
        data.len() == CTX_SIZE,
    ensures
        r == spec_is_resolved(data@),
{
    data[IS_RESOLVED_OFFSET] == 1
}

pub fn read_resolution_outcome(data: &Vec<u8>) -> (r: u8)
    requires
        data.len() == CTX_SIZE,
    ensures
        r == spec_resolution_outcome(data@),
{
    data[RESOLUTION_OUTCOME_OFFSET]
}

pub fn read_signal_severity(data: &Vec<u8>) -> (r: u64)
    requires
        data.len() == CTX_SIZE,
    ensures
        r == spec_signal_severity(data@),
{
    read_u64_at(data, SIGNAL_SEVERITY_OFFSET)
}

pub fn read_signal_adjusted_spread(data: &Vec<u8>) -> (r: u64)
    requires
        data.len() == CTX_SIZE,
    ensures
        r == spec_signal_adjusted_spread(data@),
{
    read_u64_at(data, SIGNAL_ADJUSTED_SPREAD_OFFSET)
}

pub fn read_liquidity_notional(data: &Vec<u8>) -> (r: u128)
    requires
        data.len() == CTX_SIZE,
    ensures
        r == spec_liquidity_notional(data@),
{
    read_u128_at(data, LIQUIDITY_OFFSET)
}

pub fn read_max_fill(data: &Vec<u8>) -> (r: u128)
    requires
        data.len() == CTX_SIZE,
    ensures
        r == spec_max_fill(data@),
{
    read_u128_at(data, MAX_FILL_OFFSET)
}

} // verus!

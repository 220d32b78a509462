//! The context record protocol shared by both pricing engines.
//!
//! Every market instance is one 320-byte record. The record opens with a
//! return-data region that hands an execution price back to the caller,
//! followed by a common header (type tag, version, mode, owning identity);
//! the bytes from offset 112 on belong to the engine that owns the record's
//! type tag. This module writes and verifies the header, checks caller
//! authorization, and prices a mark with a spread in basis points.

use vstd::arithmetic::div_mod::{lemma_div_is_ordered, lemma_div_multiples_vanish};
use vstd::arithmetic::mul::{lemma_mul_is_commutative, lemma_mul_inequality, lemma_mul_upper_bound};
use vstd::array::array_as_slice;
use vstd::prelude::*;

use crate::codec::{
    bytes32_match_at, copy_bytes_at, le32_at, le64_at, read_bytes32_at, read_u64_at, write_u32_at,
    write_u64_at, zero_range,
};
use crate::errors::CommonFault;

verus! {

/// Size of every context record, in bytes.
pub const CTX_SIZE: usize = 320;

/// Start of the return-data region that hands back an execution price.
pub const RETURN_DATA_OFFSET: usize = 0;

/// Size of the return-data region.
pub const RETURN_DATA_SIZE: usize = 16;

/// Offset of the 8-byte type tag that names the engine owning the record.
pub const MAGIC_OFFSET: usize = 64;

/// Offset of the 4-byte layout version.
pub const VERSION_OFFSET: usize = 72;

/// Offset of the 1-byte market sub-variant.
pub const MODE_OFFSET: usize = 76;

/// Offset of the 32-byte identity of the liquidity provider that owns the
/// record and is authorized to request quotes.
pub const LP_PDA_OFFSET: usize = 80;

/// Layout version written into every freshly initialized record.
pub const CONTEXT_VERSION: u32 = 1;

/// Identity and flags of one account handed to an operation, as the
/// surrounding platform presents it: a 32-byte identity, whether the caller
/// cryptographically signed with it, and whether its data may be written.
#[derive(Clone, Copy, Debug)]
pub struct AccountMeta {
    pub key: [u8; 32],
    pub is_signer: bool,
    pub is_writable: bool,
}

/// The type tag stored in a record.
pub open spec fn spec_magic(s: Seq<u8>) -> u64 {
    le64_at(s, MAGIC_OFFSET as int)
}

/// The layout version stored in a record.
pub open spec fn spec_version(s: Seq<u8>) -> u32 {
    le32_at(s, VERSION_OFFSET as int)
}

/// The market sub-variant stored in a record.
pub open spec fn spec_mode(s: Seq<u8>) -> u8 {
    s[MODE_OFFSET as int]
}

/// The owning liquidity-provider identity stored in a record.
pub open spec fn spec_lp_pda(s: Seq<u8>) -> Seq<u8> {
    s.subrange(LP_PDA_OFFSET as int, LP_PDA_OFFSET + 32)
}

/// The execution price most recently written to the return-data region.
pub open spec fn spec_return_price(s: Seq<u8>) -> u64 {
    le64_at(s, RETURN_DATA_OFFSET as int)
}

/// A record is valid for an engine when it is exactly `CTX_SIZE` bytes and
/// carries that engine's type tag.
pub open spec fn spec_valid_ctx(s: Seq<u8>, magic: u64) -> bool {
    s.len() == CTX_SIZE && spec_magic(s) == magic
}

/// `a - b`, saturating at zero.
pub open spec fn spec_sat_sub(a: int, b: int) -> int {
    if a >= b {
        a - b
    } else {
        0
    }
}

/// The execution price of a mark quoted with `spread` basis points of
/// additive markup: `floor(mark * (10_000 + spread) / 10_000)`.
pub open spec fn spec_exec_price(mark: int, spread: int) -> int {
    mark * (10_000 + spread) / 10_000
}

/// A non-negative spread never prices below the mark.
pub proof fn lemma_exec_price_at_least_mark(mark: int, spread: int)
    requires
        0 <= mark,
        0 <= spread,
    ensures
        spec_exec_price(mark, spread) >= mark,
{
    lemma_mul_inequality(10_000, 10_000 + spread, mark);
    lemma_mul_is_commutative(10_000 + spread, mark);
    lemma_div_is_ordered(10_000 * mark, mark * (10_000 + spread), 10_000);
    lemma_div_multiples_vanish(mark, 10_000);
}

/// Widening the spread never lowers the execution price.
pub proof fn lemma_exec_price_monotone_in_spread(mark: int, s1: int, s2: int)
    requires
        0 <= mark,
        0 <= s1 <= s2,
    ensures
        spec_exec_price(mark, s1) <= spec_exec_price(mark, s2),
{
    lemma_mul_inequality(10_000 + s1, 10_000 + s2, mark);
    lemma_mul_is_commutative(10_000 + s1, mark);
    lemma_mul_is_commutative(10_000 + s2, mark);
    lemma_div_is_ordered(mark * (10_000 + s1), mark * (10_000 + s2), 10_000);
}

/// Reports whether `data` is a valid record for the engine whose type tag is
/// `magic`: sized exactly `CTX_SIZE` with that tag stored byte-exact.
pub fn verify_magic(data: &Vec<u8>, magic: u64) -> (r: bool)
    ensures
        r == spec_valid_ctx(data@, magic),
{
    if data.len() != CTX_SIZE {
        return false;
    }
    read_u64_at(data, MAGIC_OFFSET) == magic
}

/// Reads the owning liquidity-provider identity out of a record.
pub fn read_lp_pda(data: &Vec<u8>) -> (r: Vec<u8>)
    requires
        data.len() == CTX_SIZE,
    ensures
        r@ == spec_lp_pda(data@),
{
    read_bytes32_at(data, LP_PDA_OFFSET)
}

/// The outcome of caller authorization: the caller must have signed, the
/// record must carry the expected type tag, and the caller's identity must
/// equal the record's owning identity.
pub open spec fn spec_verify_lp_pda(lp: AccountMeta, s: Seq<u8>, magic: u64) -> Result<
    (),
    CommonFault,
> {
    if !lp.is_signer {
        Err(CommonFault::AuthorizationError)
    } else if !spec_valid_ctx(s, magic) {
        Err(CommonFault::UninitializedAccount)
    } else if lp.key@ != spec_lp_pda(s) {
        Err(CommonFault::AuthorizationError)
    } else {
        Ok(())
    }
}

/// Verifies that `lp` signed the call and owns the record `data`.
pub fn verify_lp_pda(lp: &AccountMeta, data: &Vec<u8>, magic: u64) -> (r: Result<(), CommonFault>)
    ensures
        r == spec_verify_lp_pda(*lp, data@, magic),
{
    if !lp.is_signer {
        return Err(CommonFault::AuthorizationError);
    }
    if !verify_magic(data, magic) {
        return Err(CommonFault::UninitializedAccount);
    }
    if !bytes32_match_at(data, LP_PDA_OFFSET, &lp.key) {
        return Err(CommonFault::AuthorizationError);
    }
    Ok(())
}

/// The outcome of the creation precondition: the record must be writable,
/// sized exactly `CTX_SIZE`, and must not already carry the engine's type tag
/// (re-initializing a live market is refused).
pub open spec fn spec_verify_init_preconditions(
    ctx: AccountMeta,
    s: Seq<u8>,
    magic: u64,
) -> Result<(), CommonFault> {
    if !ctx.is_writable {
        Err(CommonFault::AccountNotWritable)
    } else if s.len() != CTX_SIZE {
        Err(CommonFault::WrongAccountSize)
    } else if spec_magic(s) == magic {
        Err(CommonFault::AlreadyInitialized)
    } else {
        Ok(())
    }
}

/// Checks that the record `data` may be initialized for the engine whose
/// type tag is `magic`.
pub fn verify_init_preconditions(ctx: &AccountMeta, data: &Vec<u8>, magic: u64) -> (r: Result<
    (),
    CommonFault,
>)
    ensures
        r == spec_verify_init_preconditions(*ctx, data@, magic),
{
    if !ctx.is_writable {
        return Err(CommonFault::AccountNotWritable);
    }
    if data.len() != CTX_SIZE {
        return Err(CommonFault::WrongAccountSize);
    }
    if read_u64_at(data, MAGIC_OFFSET) == magic {
        return Err(CommonFault::AlreadyInitialized);
    }
    Ok(())
}

/// Writes the standard header of a fresh record: zeroed return-data region,
/// type tag, layout version, mode, and the owning identity. Bytes from
/// offset 112 on are left untouched.
pub fn write_header(data: &mut Vec<u8>, magic: u64, mode: u8, lp_key: &[u8; 32])
    requires
        old(data).len() == CTX_SIZE,
    ensures
        final(data)@.len() == CTX_SIZE,
        forall|i: int| 0 <= i < MAGIC_OFFSET ==> final(data)@[i] == 0u8,
        spec_magic(final(data)@) == magic,
        spec_version(final(data)@) == CONTEXT_VERSION,
        spec_mode(final(data)@) == mode,
        forall|i: int| MODE_OFFSET < i < LP_PDA_OFFSET ==> final(data)@[i] == 0u8,
        spec_lp_pda(final(data)@) == lp_key@,
        forall|i: int| 112 <= i < CTX_SIZE ==> final(data)@[i] == old(data)@[i],
{
    zero_range(data, 0, MAGIC_OFFSET);
    write_u64_at(data, MAGIC_OFFSET, magic);
    let ghost s_magic = data@;
    write_u32_at(data, VERSION_OFFSET, CONTEXT_VERSION);
    let ghost s_version = data@;
    data.set(MODE_OFFSET, mode);
    zero_range(data, MODE_OFFSET + 1, LP_PDA_OFFSET);
    copy_bytes_at(data, LP_PDA_OFFSET, array_as_slice(lp_key), 0, 32);
    proof {
        assert(data@.subrange(MAGIC_OFFSET as int, MAGIC_OFFSET + 8)
            =~= s_magic.subrange(MAGIC_OFFSET as int, MAGIC_OFFSET + 8));
        assert(data@.subrange(VERSION_OFFSET as int, VERSION_OFFSET + 4)
            =~= s_version.subrange(VERSION_OFFSET as int, VERSION_OFFSET + 4));
        assert(spec_lp_pda(data@) =~= lp_key@);
    }
}

/// Writes an execution price into the return-data region, leaving the rest
/// of the record unchanged.
pub fn write_exec_price(data: &mut Vec<u8>, price: u64)
    requires
        old(data).len() == CTX_SIZE,
    ensures
        final(data)@.len() == CTX_SIZE,
        spec_return_price(final(data)@) == price,
        forall|i: int| 8 <= i < CTX_SIZE ==> final(data)@[i] == old(data)@[i],
{
    write_u64_at(data, RETURN_DATA_OFFSET, price);
}

/// Prices `mark` with `total_spread` basis points of additive markup,
/// reporting `None` exactly when the result does not fit in a `u64`.
pub fn compute_exec_price(mark: u64, total_spread: u64) -> (r: Option<u64>)
    requires
        total_spread <= u32::MAX,
    ensures
        match r {
            Some(p) => p == spec_exec_price(mark as int, total_spread as int)
                && spec_exec_price(mark as int, total_spread as int) <= u64::MAX,
            None => spec_exec_price(mark as int, total_spread as int) > u64::MAX,
        },
{
    let mult: u128 = 10_000u128 + total_spread as u128;
    proof {
        lemma_mul_upper_bound(mark as int, u64::MAX as int, mult as int, 10_000 + u32::MAX as int);
    }
    let product: u128 = (mark as u128) * mult;
    let price: u128 = product / 10_000u128;
    if price > u64::MAX as u128 {
        None
    } else {
        Some(price as u64)
    }
}

} // verus!

//! The instruction set of the yield matcher and its dispatcher.
//!
//! Every call carries a leading tag byte naming the operation; the payload
//! behind it and the account list are operation-specific. An empty payload
//! or an unknown tag is refused before any account is touched.

use vstd::prelude::*;
use vstd::slice::slice_index_get;

use crate::errors::{CommonFault, YieldFault};
use crate::record::AccountMeta;
use crate::yield_pricing::{
    process_init, process_match, process_oracle_sync, spec_yield_init_err, spec_yield_init_post,
    spec_yield_match_err, spec_yield_match_post, spec_yield_sync_err, spec_yield_sync_post,
};

verus! {

/// The operations of the yield matcher, one per leading tag byte:
/// `Match` is 0x00, `Init` is 0x02, `OracleSync` is 0x03.
#[derive(Clone, Copy, Debug, PartialEq, Eq, Structural)]
pub enum YieldMatcherInstruction {
    /// Execute a quote request: accounts `[owner (signer), context (writable)]`.
    Match,
    /// Create a context record: accounts `[owner, context (writable)]`.
    Init,
    /// Absorb an oracle snapshot: accounts
    /// `[context (writable), yield feed, performance feed]`.
    OracleSync,
}

impl YieldMatcherInstruction {
    /// The operation a tag byte names, if any.
    pub open spec fn spec_from_tag(tag: u8) -> Option<YieldMatcherInstruction> {
        if tag == 0x00 {
            Some(YieldMatcherInstruction::Match)
        } else if tag == 0x02 {
            Some(YieldMatcherInstruction::Init)
        } else if tag == 0x03 {
            Some(YieldMatcherInstruction::OracleSync)
        } else {
            None
        }
    }

    pub fn from_tag(tag: u8) -> (r: Option<YieldMatcherInstruction>)
        ensures
            r == YieldMatcherInstruction::spec_from_tag(tag),
    {
        match tag {
            0x00 => Some(YieldMatcherInstruction::Match),
            0x02 => Some(YieldMatcherInstruction::Init),
            0x03 => Some(YieldMatcherInstruction::OracleSync),
            _ => None,
        }
    }

    /// Index of the context record in the operation's account list.
    pub open spec fn spec_context_index(self) -> int {
        match self {
            YieldMatcherInstruction::Match => 1,
            YieldMatcherInstruction::Init => 1,
            YieldMatcherInstruction::OracleSync => 0,
        }
    }

    pub fn context_index(&self) -> (r: usize)
        ensures
            r as int == self.spec_context_index(),
    {
        match self {
            YieldMatcherInstruction::Match => 1,
            YieldMatcherInstruction::Init => 1,
            YieldMatcherInstruction::OracleSync => 0,
        }
    }

    /// How many accounts the operation needs: a sync presents both oracle
    /// feeds, the other operations the owner and the record.
    pub open spec fn spec_required_accounts(self) -> int {
        match self {
            YieldMatcherInstruction::Match => 2,
            YieldMatcherInstruction::Init => 2,
            YieldMatcherInstruction::OracleSync => 3,
        }
    }

    pub fn required_accounts(&self) -> (r: usize)
        ensures
            r as int == self.spec_required_accounts(),
    {
        match self {
            YieldMatcherInstruction::Match => 2,
            YieldMatcherInstruction::Init => 2,
            YieldMatcherInstruction::OracleSync => 3,
        }
    }
}

/// The first check a yield instruction fails, or `None` when its operation
/// is owed: an empty payload or unknown tag is malformed, a short account
/// list is refused, and otherwise the operation's own checks decide.
pub open spec fn spec_yield_dispatch_err(
    metas: Seq<AccountMeta>,
    s: Seq<u8>,
    data: Seq<u8>,
    now: u64,
) -> Option<YieldFault> {
    if data.len() == 0 {
        Some(YieldFault::Common(CommonFault::MalformedInstruction))
    } else {
        match YieldMatcherInstruction::spec_from_tag(data[0]) {
            None => Some(YieldFault::Common(CommonFault::MalformedInstruction)),
            Some(instr) => if metas.len() < instr.spec_required_accounts() {
                Some(YieldFault::Common(CommonFault::NotEnoughAccountKeys))
            } else {
                match instr {
                    YieldMatcherInstruction::Match => spec_yield_match_err(metas[0], s, now),
                    YieldMatcherInstruction::Init => spec_yield_init_err(metas[1], s, data),
                    YieldMatcherInstruction::OracleSync => spec_yield_sync_err(
                        metas[1],
                        metas[2],
                        metas[0],
                        s,
                        data,
                    ),
                }
            },
        }
    }
}

/// Decodes the leading tag of `data` and executes the named operation.
/// `metas` lists the call's accounts in order and `ctx_data` must be the
/// data of the account at the operation's context index. On failure the
/// record is untouched and the error is exactly the first violated check;
/// on success the record changes exactly as the operation's postcondition
/// states.
pub fn process_instruction(
    metas: &Vec<AccountMeta>,
    ctx_data: &mut Vec<u8>,
    data: &[u8],
    current_slot: u64,
) -> (r: Result<(), YieldFault>)
    ensures
        match r {
            Ok(()) => {
                &&& spec_yield_dispatch_err(metas@, old(ctx_data)@, data@, current_slot) is None
                &&& data@.len() > 0
                &&& match YieldMatcherInstruction::spec_from_tag(data@[0]) {
                    Some(YieldMatcherInstruction::Match) => spec_yield_match_post(
                        old(ctx_data)@,
                        final(ctx_data)@,
                    ),
                    Some(YieldMatcherInstruction::Init) => spec_yield_init_post(
                        final(ctx_data)@,
                        metas@[0],
                        data@,
                    ),
                    Some(YieldMatcherInstruction::OracleSync) => spec_yield_sync_post(
                        old(ctx_data)@,
                        final(ctx_data)@,
                        data@,
                        current_slot,
                    ),
                    None => false,
                }
            },
            Err(e) => {
                &&& spec_yield_dispatch_err(metas@, old(ctx_data)@, data@, current_slot)
                    == Some(e)
                &&& final(ctx_data)@ == old(ctx_data)@
            },
        },
{
    if data.len() == 0 {
        return Err(YieldFault::Common(CommonFault::MalformedInstruction));
    }
    let tag = *slice_index_get(data, 0);
    let instr = match YieldMatcherInstruction::from_tag(tag) {
        Some(i) => i,
        None => {
            return Err(YieldFault::Common(CommonFault::MalformedInstruction));
        },
    };
    if metas.len() < instr.required_accounts() {
        return Err(YieldFault::Common(CommonFault::NotEnoughAccountKeys));
    }
    match instr {
        YieldMatcherInstruction::Match => {
            let lp = metas[0];
            match process_match(&lp, ctx_data, current_slot) {
                Ok(_) => Ok(()),
                Err(e) => Err(e),
            }
        },
        YieldMatcherInstruction::Init => {
            let lp = metas[0];
            let ctx_meta = metas[1];
            process_init(&lp, &ctx_meta, ctx_data, data)
        },
        YieldMatcherInstruction::OracleSync => {
            let yield_feed = metas[1];
            let perf_feed = metas[2];
            let ctx_meta = metas[0];
            process_oracle_sync(&yield_feed, &perf_feed, &ctx_meta, ctx_data, data, current_slot)
        },
    }
}

} // verus!

//! The instruction set of the uptime matcher and its dispatcher.
//!
//! Every call carries a leading tag byte naming the operation; the payload
//! behind it and the account list are operation-specific. An empty payload
//! or an unknown tag is refused before any account is touched.

use vstd::prelude::*;
use vstd::slice::slice_index_get;

use crate::errors::{CommonFault, UptimeFault};
use crate::record::AccountMeta;
use crate::uptime_pricing::{
    process_init, process_match, process_resolve, process_uptime_sync, spec_uptime_init_err,
    spec_uptime_init_post, spec_uptime_match_err, spec_uptime_match_post,
    spec_uptime_resolve_err, spec_uptime_resolve_post, spec_uptime_sync_err,
    spec_uptime_sync_post,
};
use crate::uptime_state::spec_uptime_wf;

verus! {

/// The operations of the uptime matcher, one per leading tag byte:
/// `Match` is 0x00, `Init` is 0x02, `UptimeSync` is 0x03, `Resolve` is 0x04.
#[derive(Clone, Copy, Debug, PartialEq, Eq, Structural)]
pub enum UptimeMatcherInstruction {
    /// Execute a quote request: accounts `[owner (signer), context (writable)]`.
    Match,
    /// Create a context record: accounts `[owner, context (writable)]`.
    Init,
    /// Absorb an oracle snapshot: accounts `[context (writable), oracle]`.
    UptimeSync,
    /// Settle the market: accounts `[context (writable), oracle (signer)]`.
    Resolve,
}

impl UptimeMatcherInstruction {
    /// The operation a tag byte names, if any.
    pub open spec fn spec_from_tag(tag: u8) -> Option<UptimeMatcherInstruction> {
        if tag == 0x00 {
            Some(UptimeMatcherInstruction::Match)
        } else if tag == 0x02 {
            Some(UptimeMatcherInstruction::Init)
        } else if tag == 0x03 {
            Some(UptimeMatcherInstruction::UptimeSync)
        } else if tag == 0x04 {
            Some(UptimeMatcherInstruction::Resolve)
        } else {
            None
        }
    }

    pub fn from_tag(tag: u8) -> (r: Option<UptimeMatcherInstruction>)
        ensures
            r == UptimeMatcherInstruction::spec_from_tag(tag),
    {
        match tag {
            0x00 => Some(UptimeMatcherInstruction::Match),
            0x02 => Some(UptimeMatcherInstruction::Init),
            0x03 => Some(UptimeMatcherInstruction::UptimeSync),
            0x04 => Some(UptimeMatcherInstruction::Resolve),
            _ => None,
        }
    }

    /// Index of the context record in the operation's account list.
    pub open spec fn spec_context_index(self) -> int {
        match self {
            UptimeMatcherInstruction::Match => 1,
            UptimeMatcherInstruction::Init => 1,
            UptimeMatcherInstruction::UptimeSync => 0,
            UptimeMatcherInstruction::Resolve => 0,
        }
    }

    pub fn context_index(&self) -> (r: usize)
        ensures
            r as int == self.spec_context_index(),
    {
        match self {
            UptimeMatcherInstruction::Match => 1,
            UptimeMatcherInstruction::Init => 1,
            UptimeMatcherInstruction::UptimeSync => 0,
            UptimeMatcherInstruction::Resolve => 0,
        }
    }

    /// Every uptime operation needs two accounts.
    pub fn required_accounts(&self) -> (r: usize)
        ensures
            r == 2,
    {
        2
    }
}

/// The first check an uptime instruction fails, or `None` when its operation
/// is owed: an empty payload or unknown tag is malformed, a short account
/// list is refused, and otherwise the operation's own checks decide.
pub open spec fn spec_uptime_dispatch_err(
    metas: Seq<AccountMeta>,
    s: Seq<u8>,
    data: Seq<u8>,
    now: u64,
) -> Option<UptimeFault> {
    if data.len() == 0 {
        Some(UptimeFault::Common(CommonFault::MalformedInstruction))
    } else {
        match UptimeMatcherInstruction::spec_from_tag(data[0]) {
            None => Some(UptimeFault::Common(CommonFault::MalformedInstruction)),
            Some(instr) => if metas.len() < 2 {
                Some(UptimeFault::Common(CommonFault::NotEnoughAccountKeys))
            } else {
                match instr {
                    UptimeMatcherInstruction::Match => spec_uptime_match_err(metas[0], s, now),
                    UptimeMatcherInstruction::Init => spec_uptime_init_err(metas[1], s, data),
                    UptimeMatcherInstruction::UptimeSync => spec_uptime_sync_err(
                        metas[1],
                        metas[0],
                        s,
                        data,
                    ),
                    UptimeMatcherInstruction::Resolve => spec_uptime_resolve_err(
                        metas[1],
                        s,
                        data,
                    ),
                }
            },
        }
    }
}

/// Decodes the leading tag of `data` and executes the named operation.
/// `metas` lists the call's accounts in order and `ctx_data` must be the
/// data of the account at the operation's context index. On failure the
/// record is untouched and the error is exactly the first violated check;
/// on success the record changes exactly as the operation's postcondition
/// states.
pub fn process_instruction(
    metas: &Vec<AccountMeta>,
    ctx_data: &mut Vec<u8>,
    data: &[u8],
    current_slot: u64,
) -> (r: Result<(), UptimeFault>)
    requires
        spec_uptime_wf(old(ctx_data)@),
    ensures
        spec_uptime_wf(final(ctx_data)@),
        match r {
            Ok(()) => {
                &&& spec_uptime_dispatch_err(metas@, old(ctx_data)@, data@, current_slot) is None
                &&& data@.len() > 0
                &&& match UptimeMatcherInstruction::spec_from_tag(data@[0]) {
                    Some(UptimeMatcherInstruction::Match) => spec_uptime_match_post(
                        old(ctx_data)@,
                        final(ctx_data)@,
                    ),
                    Some(UptimeMatcherInstruction::Init) => spec_uptime_init_post(
                        final(ctx_data)@,
                        metas@[0],
                        data@,
                        current_slot,
                    ),
                    Some(UptimeMatcherInstruction::UptimeSync) => spec_uptime_sync_post(
                        old(ctx_data)@,
                        final(ctx_data)@,
                        data@,
                        current_slot,
                    ),
                    Some(UptimeMatcherInstruction::Resolve) => spec_uptime_resolve_post(
                        old(ctx_data)@,
                        final(ctx_data)@,
                        data@,
                    ),
                    None => false,
                }
            },
            Err(e) => {
                &&& spec_uptime_dispatch_err(metas@, old(ctx_data)@, data@, current_slot)
                    == Some(e)
                &&& final(ctx_data)@ == old(ctx_data)@
            },
        },
{
    if data.len() == 0 {
        return Err(UptimeFault::Common(CommonFault::MalformedInstruction));
    }
    let tag = *slice_index_get(data, 0);
    let instr = match UptimeMatcherInstruction::from_tag(tag) {
        Some(i) => i,
        None => {
            return Err(UptimeFault::Common(CommonFault::MalformedInstruction));
        },
    };
    if metas.len() < 2 {
        return Err(UptimeFault::Common(CommonFault::NotEnoughAccountKeys));
    }
    match instr {
        UptimeMatcherInstruction::Match => {
            let lp = metas[0];
            match process_match(&lp, ctx_data, current_slot) {
                Ok(_) => Ok(()),
                Err(e) => Err(e),
            }
        },
        UptimeMatcherInstruction::Init => {
            let lp = metas[0];
            let ctx_meta = metas[1];
            process_init(&lp, &ctx_meta, ctx_data, data, current_slot)
        },
        UptimeMatcherInstruction::UptimeSync => {
            let oracle = metas[1];
            let ctx_meta = metas[0];
            process_uptime_sync(&oracle, &ctx_meta, ctx_data, data, current_slot)
        },
        UptimeMatcherInstruction::Resolve => {
            let oracle = metas[1];
            process_resolve(&oracle, ctx_data, data)
        },
    }
}

} // verus!

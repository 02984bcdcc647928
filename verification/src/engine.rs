//! The engine-handle lifecycle and the decisions around each foreign call.
//!
//! The foreign calls themselves (open, option-set, disassemble, close, the
//! error and metadata lookups) are made by an unverified shell; every outcome
//! comes back here as plain values, and this module decides what it means.  A
//! handle value exists only after a successful open, owns exactly one
//! non-null foreign context, and gives that context up exactly once, by being
//! consumed: use-after-close and double-close are ruled out by ownership, and
//! a failed open produces no handle for anyone to close.

use vstd::prelude::*;
use crate::error::Error;
use crate::error::error_eq;
use crate::error::is_translation;
use crate::insn::Insn;
use crate::insn::RawInsn;
use crate::insn::insn_matches_raw;
use crate::insn::insns_eq;
use crate::insn::lemma_materialize_deterministic;
use crate::insn::materialize;

verus! {

/// Owns exactly one opaque foreign engine context, carried as its plain
/// address value.  At most one live handle exists per context: the type
/// cannot be copied or cloned, and the context leaves only through
/// [`Engine::into_close`], which consumes the handle.
pub struct Engine {
    handle: usize,
}

/// What the foreign disassembly routine reported: either the raw records it
/// produced (already copied out of the foreign array, which is freed), or
/// failure, with the engine's last-recorded error state and its message.
pub enum DisasmEvent {
    Decoded(Vec<RawInsn>),
    Failed { errno: usize, message: Option<Vec<u8>> },
}

impl Engine {
    /// A handle never wraps a null context.
    #[verifier::type_invariant]
    spec fn inv(self) -> bool {
        self.handle != 0
    }

    /// The foreign context this handle owns.
    pub closed spec fn ctx(self) -> usize {
        self.handle
    }

    /// Decide the outcome of the foreign open routine.  Status zero means
    /// success and the routine then delivered a non-null context, which the
    /// returned handle now owns; any other status is wrapped into an error
    /// built from that status and the engine's message for it, and no context
    /// is retained.
    pub fn open_outcome(status: usize, ctx: usize, message: Option<Vec<u8>>) -> (r: Result<
        Engine,
        Error,
    >)
        requires
            status == 0 ==> ctx != 0,
        ensures
            (r is Ok) == (status == 0),
            r matches Ok(e) ==> e.ctx() == ctx,
            r matches Err(e) ==> is_translation(e, status, message),
    {
        if status == 0 {
            Ok(Engine { handle: ctx })
        } else {
            Err(Error::translate(status, message))
        }
    }

    /// The owned context, for handing to a foreign call on this live handle.
    /// Never null.
    pub fn context(&self) -> (h: usize)
        ensures
            h == self.ctx(),
            h != 0,
    {
        proof {
            use_type_invariant(self);
        }
        self.handle
    }

    /// Give the context up for the closing call, consuming the handle.
    /// Ownership makes this the only time the context leaves, so the foreign
    /// close routine runs exactly once per successfully opened handle.
    pub fn into_close(self) -> (h: usize)
        ensures
            h == self.ctx(),
            h != 0,
    {
        proof {
            use_type_invariant(&self);
        }
        self.handle
    }
}

/// Decide the outcome of the foreign option-set routine: status zero is
/// success, anything else is wrapped into an error built from the status and
/// the engine's message for it.
pub fn option_outcome(status: usize, message: Option<Vec<u8>>) -> (r: Result<(), Error>)
    ensures
        (r is Ok) == (status == 0),
        r matches Err(e) ==> is_translation(e, status, message),
{
    if status == 0 {
        Ok(())
    } else {
        Err(Error::translate(status, message))
    }
}

/// `r` is the correct decision for the foreign disassembly event `event`:
/// decoded records yield exactly their materializations, in the engine's
/// order, and a reported failure yields its status translated.
pub open spec fn is_disasm_decision(event: DisasmEvent, r: Result<Vec<Insn>, Error>) -> bool {
    &&& (r is Ok) == (event is Decoded)
    &&& event matches DisasmEvent::Decoded(rs) ==> r matches Ok(out) && out@.len() == rs@.len()
        && (forall|k: int| 0 <= k < rs@.len() ==> insn_matches_raw(#[trigger] out@[k], rs@[k]))
    &&& event matches DisasmEvent::Failed { errno, message } ==> r matches Err(e)
        && is_translation(e, errno, message)
}

/// Decide the outcome of one foreign disassembly call.  A positive record
/// count yields exactly those records materialized, in the engine's order —
/// never an empty success; a zero count yields the error the engine last
/// recorded, translated.
pub fn disasm_outcome(event: DisasmEvent) -> (r: Result<Vec<Insn>, Error>)
    requires
        event matches DisasmEvent::Decoded(rs) ==> rs@.len() >= 1 && (forall|k: int|
            0 <= k < rs@.len() ==> rs@[k].wf()),
    ensures
        is_disasm_decision(event, r),
{
    match event {
        DisasmEvent::Decoded(rs) => Ok(materialize(&rs)),
        DisasmEvent::Failed { errno, message } => Err(Error::translate(errno, message)),
    }
}

/// Carry the two integers of the foreign version query over verbatim.
pub fn version_pair(major: i32, minor: i32) -> (p: (isize, isize))
    ensures
        p.0 == major as isize,
        p.1 == minor as isize,
{
    (major as isize, minor as isize)
}

/// Decide the foreign support probe: the probe reports support by answering
/// zero.
pub fn supports_result(ret: i32) -> (b: bool)
    ensures
        b == (ret == 0),
{
    ret == 0
}

/// Disassembly decisions are a function of the foreign event alone: two
/// results decided from the same event are structurally equal — equal
/// instruction sequences on success, equal code and description on failure.
/// In particular, disassembling twice with identical arguments yields equal
/// results whenever the foreign engine reports the same event.
pub proof fn lemma_disasm_deterministic(
    event: DisasmEvent,
    r1: Result<Vec<Insn>, Error>,
    r2: Result<Vec<Insn>, Error>,
)
    requires
        is_disasm_decision(event, r1),
        is_disasm_decision(event, r2),
    ensures
        r1 matches Ok(o1) ==> r2 matches Ok(o2) && insns_eq(o1@, o2@),
        r1 matches Err(e1) ==> r2 matches Err(e2) && error_eq(e1, e2),
{
    match event {
        DisasmEvent::Decoded(rs) => {
            match (r1, r2) {
                (Ok(o1), Ok(o2)) => {
                    lemma_materialize_deterministic(rs@, o1@, o2@);
                },
                _ => {},
            }
        },
        DisasmEvent::Failed { .. } => {},
    }
}

/// A rejected open is explained: when the engine turns an open request down
/// with a non-zero status and a non-empty message, the outcome is an error
/// carrying that status and a non-empty description.
pub proof fn lemma_failed_open_described(
    status: usize,
    message: Option<Vec<u8>>,
    r: Result<Engine, Error>,
)
    requires
        (r is Ok) == (status == 0),
        r matches Err(e) ==> is_translation(e, status, message),
        status != 0,
        message matches Some(b) && b@.len() > 0,
    ensures
        r is Err,
        r matches Err(e) ==> e.code == status && (e.desc matches Some(d) && d@.len() > 0),
{
}

/// A failed open yields no handle: when the open status is non-zero, the
/// outcome is an error value only, so nothing exists for a close call to be
/// triggered on — closing requires consuming a handle.
pub proof fn lemma_failed_open_yields_no_handle(status: usize, r: Result<Engine, Error>)
    requires
        (r is Ok) == (status == 0),
        status != 0,
    ensures
        r is Err,
{
}

/// The support probe is a function of the foreign answer alone: two probes
/// the engine answered alike decide alike.
pub proof fn lemma_supports_deterministic(ret: i32, b1: bool, b2: bool)
    requires
        b1 == (ret == 0),
        b2 == (ret == 0),
    ensures
        b1 == b2,
{
}

} // verus!

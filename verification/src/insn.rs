//! Materialization of foreign instruction records into owned values.
//!
//! A successful disassembly call leaves behind a foreign-owned array of raw
//! records.  The unverified shell copies each record's fields verbatim into a
//! [`RawInsn`] and frees the foreign array at once; this module then does the
//! part with rules in it: take only the declared number of payload bytes out
//! of each record's fixed-capacity buffer, decode the two text fields with
//! the placeholder fallback, and keep the engine's order.  The resulting
//! [`Insn`] values own all their data and outlive both the foreign array and
//! the engine handle.

use vstd::prelude::*;
use crate::text::text_of;
use crate::text::decode_text;

verus! {

/// One decoded instruction: its address, the raw bytes it was decoded from,
/// and the mnemonic and operand text the foreign engine produced.  Owns all
/// of its data; shares nothing with the engine.
#[derive(Clone, Debug, PartialEq, Eq)]
pub struct Insn {
    pub addr: u64,
    pub bytes: Vec<u8>,
    pub mnemonic: String,
    pub op_str: String,
}

/// A verbatim copy of one raw foreign instruction record: the address, the
/// declared payload size, the record's fixed-capacity byte buffer in full,
/// and the undecoded bytes of the two text fields.
#[derive(Clone, Debug, PartialEq, Eq)]
pub struct RawInsn {
    pub addr: u64,
    pub size: u16,
    pub bytes: Vec<u8>,
    pub mnemonic: Vec<u8>,
    pub op_str: Vec<u8>,
}

impl RawInsn {
    /// The declared payload size never exceeds the buffer actually copied:
    /// reading `size` bytes stays inside the record.
    pub open spec fn wf(self) -> bool {
        self.size as int <= self.bytes@.len()
    }
}

/// `i` is the faithful materialization of the raw record `r`: the address
/// verbatim, exactly the first `size` bytes of the buffer, and both text
/// fields decoded with the placeholder fallback.
pub open spec fn insn_matches_raw(i: Insn, r: RawInsn) -> bool {
    &&& i.addr == r.addr
    &&& i.bytes@ == r.bytes@.take(r.size as int)
    &&& i.mnemonic@ == text_of(r.mnemonic@)
    &&& i.op_str@ == text_of(r.op_str@)
}

/// Two instruction values carry the same data in every field.
pub open spec fn insn_eq(a: Insn, b: Insn) -> bool {
    &&& a.addr == b.addr
    &&& a.bytes@ == b.bytes@
    &&& a.mnemonic@ == b.mnemonic@
    &&& a.op_str@ == b.op_str@
}

/// Two instruction sequences are structurally equal: the same length and the
/// same data at every position.
pub open spec fn insns_eq(a: Seq<Insn>, b: Seq<Insn>) -> bool {
    &&& a.len() == b.len()
    &&& forall|k: int| 0 <= k < a.len() ==> insn_eq(#[trigger] a[k], b[k])
}

impl Insn {
    /// Materialize one raw record: copy the address, the first `size` bytes
    /// of the buffer (never more), and the two text fields decoded leniently.
    pub fn from_raw(r: &RawInsn) -> (i: Insn)
        requires
            r.wf(),
        ensures
            insn_matches_raw(i, *r),
    {
        let take: usize = r.size as usize;
        let mut bytes: Vec<u8> = Vec::new();
        let mut k: usize = 0;
        while k < take
            invariant
                k <= take,
                take <= r.bytes@.len(),
                bytes@ == r.bytes@.take(k as int),
            decreases take - k,
        {
            bytes.push(r.bytes[k]);
            k = k + 1;
            assert(bytes@ =~= r.bytes@.take(k as int));
        }
        assert(bytes@ =~= r.bytes@.take(r.size as int));
        Insn {
            addr: r.addr,
            bytes,
            mnemonic: decode_text(&r.mnemonic),
            op_str: decode_text(&r.op_str),
        }
    }
}

/// Materialize a whole foreign result: one owned instruction per raw record,
/// in the order the engine produced them.
pub fn materialize(raw: &Vec<RawInsn>) -> (out: Vec<Insn>)
    requires
        forall|k: int| 0 <= k < raw@.len() ==> raw@[k].wf(),
    ensures
        out@.len() == raw@.len(),
        forall|k: int| 0 <= k < raw@.len() ==> insn_matches_raw(#[trigger] out@[k], raw@[k]),
{
    let mut out: Vec<Insn> = Vec::new();
    let mut k: usize = 0;
    while k < raw.len()
        invariant
            k <= raw@.len(),
            out@.len() == k,
            forall|j: int| 0 <= j < raw@.len() ==> raw@[j].wf(),
            forall|j: int| 0 <= j < k ==> insn_matches_raw(#[trigger] out@[j], raw@[j]),
        decreases raw@.len() - k,
    {
        out.push(Insn::from_raw(&raw[k]));
        k = k + 1;
    }
    out
}

/// Materialization is a function of the raw records alone: two results that
/// both materialize the same records are structurally equal, record by
/// record.  In particular, disassembling twice with identical arguments and
/// identical foreign output yields equal instruction sequences.
pub proof fn lemma_materialize_deterministic(raw: Seq<RawInsn>, o1: Seq<Insn>, o2: Seq<Insn>)
    requires
        o1.len() == raw.len(),
        o2.len() == raw.len(),
        forall|k: int| 0 <= k < raw.len() ==> insn_matches_raw(#[trigger] o1[k], raw[k]),
        forall|k: int| 0 <= k < raw.len() ==> insn_matches_raw(#[trigger] o2[k], raw[k]),
    ensures
        insns_eq(o1, o2),
{
    assert forall|k: int| 0 <= k < o1.len() implies insn_eq(#[trigger] o1[k], o2[k]) by {
        assert(insn_matches_raw(o1[k], raw[k]));
        assert(insn_matches_raw(o2[k], raw[k]));
    }
}

} // verus!

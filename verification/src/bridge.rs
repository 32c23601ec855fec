//! Call-time behavior of the bytecode bridge: validate the caller-supplied
//! count against the statically fixed arity, then forward the argument-array
//! slots positionally to the fast-path entry point.

use crate::emit::BytecodeBridge;
use vstd::prelude::*;

verus! {

/// A raw OCaml value as the native calling convention passes it: one
/// machine word, opaque to the boundary code.
#[derive(Clone, Copy, PartialEq, Eq, Structural, Debug)]
pub struct RawValue(pub i64);

/// What one bridge call does. An arity mismatch is a contract violation by
/// the caller, fatal to the process rather than a catchable domain failure,
/// and nothing is forwarded; it is kept as a tagged outcome so the caller of
/// this model performs the abort itself.
#[derive(Debug)]
pub enum BridgeOutcome {
    /// The count matched: the slots to pass to the fast path, in order.
    Forward(Vec<RawValue>),
    /// The count differed from the bridge's statically fixed arity.
    ArityMismatch,
}

/// Dispatch one bytecode-bridge call: when the count (the length of `argv`)
/// equals the bridge's arity, every slot is forwarded positionally and in
/// order; on any other count the call fails fatally before any forwarding.
pub fn bridge_dispatch(bridge: &BytecodeBridge, argv: &Vec<RawValue>) -> (r: BridgeOutcome)
    requires
        bridge.wf(),
    ensures
        match r {
            BridgeOutcome::Forward(f) => argv@.len() == bridge.arity && f@ == argv@,
            BridgeOutcome::ArityMismatch => argv@.len() != bridge.arity,
        },
{
    if argv.len() != bridge.arity {
        return BridgeOutcome::ArityMismatch;
    }
    let mut f: Vec<RawValue> = Vec::new();
    let mut i: usize = 0;
    while i < bridge.forwards.len()
        invariant
            bridge.wf(),
            argv@.len() == bridge.arity,
            0 <= i <= bridge.forwards@.len(),
            f@ == argv@.take(i as int),
        decreases bridge.forwards@.len() - i,
    {
        let slot = bridge.forwards[i];
        f.push(argv[slot]);
        proof {
            assert(f@ =~= argv@.take(i + 1));
        }
        i += 1;
    }
    proof {
        assert(argv@.take(argv@.len() as int) =~= argv@);
    }
    BridgeOutcome::Forward(f)
}

} // verus!

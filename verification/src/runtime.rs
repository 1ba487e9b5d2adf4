//! The interception callback runtime: the per-call state machine a diverted
//! invocation walks through, and the resolver's decision logic.
//!
//! Each diverted call owns one `CallState`; the engine keeps no state of its
//! own between calls, so concurrent invocations advance their machines
//! entirely independently. The steps that need outside work — loading the
//! two geometry aggregates through the addresses the registers carry, and
//! executing the relocated original — are events the caller performs and
//! reports back; every decision in between is made here.

use vstd::prelude::*;
use crate::dim3;
use crate::adapter::decode_slots;
use crate::adapter::decoded_slots;
use crate::adapter::materialized;
use crate::adapter::LaunchArgs;
use crate::adapter::RawSlots;
use crate::error::HookError;
use crate::regs::RegisterSnapshot;

verus! {

/// What the user handler decided for one intercepted call: forward a
/// (possibly rewritten) argument set to the original function, or
/// short-circuit it and answer with a value of the handler's own.
#[derive(Copy, Clone, PartialEq, Eq, Structural, Debug)]
pub enum HandlerDecision {
    /// Invoke the original with these arguments and return its value.
    Forward(LaunchArgs),
    /// Never invoke the original; return this value to the caller.
    ShortCircuit(u32),
}

/// Where one intercepted call stands between diversion and return.
#[derive(Copy, Clone, PartialEq, Eq, Structural, Debug)]
pub enum CallState {
    /// The registers are decoded; the aggregates they point at must be
    /// loaded before the arguments are typed.
    NeedAggregates { slots: RawSlots },
    /// The arguments are fully typed; the handler must decide.
    NeedDecision { args: LaunchArgs },
    /// The handler forwarded; the original must be invoked with `args`.
    NeedOriginal { args: LaunchArgs },
    /// The value the diverted caller receives is fixed.
    Finished { ret: u32 },
}

/// The state a diverted call starts in: its snapshot decoded.
pub open spec fn spec_begin(snap: RegisterSnapshot) -> CallState {
    CallState::NeedAggregates { slots: decoded_slots(snap) }
}

/// The state after the aggregates stored at the decoded addresses arrive.
pub open spec fn spec_on_aggregates(s: CallState, grid: dim3, block: dim3) -> CallState
    recommends
        s is NeedAggregates,
{
    match s {
        CallState::NeedAggregates { slots } => CallState::NeedDecision {
            args: materialized(slots, grid, block),
        },
        _ => s,
    }
}

/// The state after the handler's decision: forwarding hands its arguments
/// to the original-invocation path; short-circuiting fixes the return value
/// at once.
pub open spec fn spec_on_decision(s: CallState, d: HandlerDecision) -> CallState
    recommends
        s is NeedDecision,
{
    match s {
        CallState::NeedDecision { args } => match d {
            HandlerDecision::Forward(a) => CallState::NeedOriginal { args: a },
            HandlerDecision::ShortCircuit(v) => CallState::Finished { ret: v },
        },
        _ => s,
    }
}

/// The state after the original returned: its value is propagated to the
/// diverted caller unchanged — the engine never swallows or alters the
/// original function's own signaling.
pub open spec fn spec_on_original(s: CallState, ret: u32) -> CallState
    recommends
        s is NeedOriginal,
{
    match s {
        CallState::NeedOriginal { .. } => CallState::Finished { ret },
        _ => s,
    }
}

/// A whole call, as a function of that call's own inputs alone: the
/// snapshot, the two aggregates loaded for it, the handler's decision, and
/// the value the original returned in case the handler forwarded.
pub open spec fn run_call(
    snap: RegisterSnapshot,
    grid: dim3,
    block: dim3,
    d: HandlerDecision,
    ori_ret: u32,
) -> CallState {
    let decided = spec_on_decision(spec_on_aggregates(spec_begin(snap), grid, block), d);
    match decided {
        CallState::NeedOriginal { .. } => spec_on_original(decided, ori_ret),
        _ => decided,
    }
}

/// Starts the machine for one diverted invocation by decoding its snapshot.
pub fn begin_call(snap: &RegisterSnapshot) -> (s: CallState)
    ensures
        s == spec_begin(*snap),
{
    CallState::NeedAggregates { slots: decode_slots(snap) }
}

/// Feeds in the two aggregates the caller loaded from the decoded
/// addresses, making the arguments fully typed.
pub fn supply_aggregates(s: CallState, grid: dim3, block: dim3) -> (t: CallState)
    requires
        s is NeedAggregates,
    ensures
        t == spec_on_aggregates(s, grid, block),
{
    match s {
        CallState::NeedAggregates { slots } => CallState::NeedDecision {
            args: crate::adapter::materialize(&slots, grid, block),
        },
        _ => s,
    }
}

/// The typed arguments the handler is invoked with.
pub fn handler_arguments(s: CallState) -> (a: LaunchArgs)
    requires
        s is NeedDecision,
    ensures
        (match s {
            CallState::NeedDecision { args } => a == args,
            _ => false,
        }),
{
    match s {
        CallState::NeedDecision { args } => args,
        _ => LaunchArgs {
            func: 0,
            grid_dim: dim3 { x: 0, y: 0, z: 0 },
            block_dim: dim3 { x: 0, y: 0, z: 0 },
            args_ptr: 0,
            shared_mem: 0,
            stream: 0,
        },
    }
}

/// Applies the handler's decision.
pub fn apply_decision(s: CallState, d: HandlerDecision) -> (t: CallState)
    requires
        s is NeedDecision,
    ensures
        t == spec_on_decision(s, d),
{
    match s {
        CallState::NeedDecision { .. } => match d {
            HandlerDecision::Forward(a) => CallState::NeedOriginal { args: a },
            HandlerDecision::ShortCircuit(v) => CallState::Finished { ret: v },
        },
        _ => s,
    }
}

/// The arguments the original-invocation path must re-encode and call with.
pub fn forwarded_arguments(s: CallState) -> (a: LaunchArgs)
    requires
        s is NeedOriginal,
    ensures
        (match s {
            CallState::NeedOriginal { args } => a == args,
            _ => false,
        }),
{
    match s {
        CallState::NeedOriginal { args } => args,
        _ => LaunchArgs {
            func: 0,
            grid_dim: dim3 { x: 0, y: 0, z: 0 },
            block_dim: dim3 { x: 0, y: 0, z: 0 },
            args_ptr: 0,
            shared_mem: 0,
            stream: 0,
        },
    }
}

/// Records the original's return value, passing it through unchanged.
pub fn complete_original(s: CallState, ret: u32) -> (t: CallState)
    requires
        s is NeedOriginal,
    ensures
        t == spec_on_original(s, ret),
{
    match s {
        CallState::NeedOriginal { .. } => CallState::Finished { ret },
        _ => s,
    }
}

/// The value the diverted caller finally receives.
pub fn finished_value(s: CallState) -> (r: u32)
    requires
        s is Finished,
    ensures
        (match s {
            CallState::Finished { ret } => r == ret,
            _ => false,
        }),
{
    match s {
        CallState::Finished { ret } => ret,
        _ => 0,
    }
}

/// Drives one intercepted call through every engine decision, with the two
/// outside results — the loaded aggregates and, when the handler forwards,
/// the original's return value — supplied as arguments.
pub fn run_intercepted_call(
    snap: &RegisterSnapshot,
    grid: dim3,
    block: dim3,
    d: HandlerDecision,
    ori_ret: u32,
) -> (r: u32)
    ensures
        run_call(*snap, grid, block, d, ori_ret) == (CallState::Finished { ret: r }),
{
    let entered = begin_call(snap);
    let typed = supply_aggregates(entered, grid, block);
    let decided = apply_decision(typed, d);
    match decided {
        CallState::NeedOriginal { .. } => {
            let done = complete_original(decided, ori_ret);
            finished_value(done)
        },
        _ => finished_value(decided),
    }
}

/// Round-trip identity: when the handler forwards the decoded arguments
/// unchanged, the original-invocation path receives exactly the argument
/// set the intercepted caller passed, and the caller finally observes
/// exactly the value the original returned — as if the call had never been
/// diverted.
pub proof fn lemma_round_trip(
    snap: RegisterSnapshot,
    grid: dim3,
    block: dim3,
    ori_ret: u32,
)
    ensures
        ({
            let passed = materialized(decoded_slots(snap), grid, block);
            let d = HandlerDecision::Forward(passed);
            &&& spec_on_decision(spec_on_aggregates(spec_begin(snap), grid, block), d)
                == (CallState::NeedOriginal { args: passed })
            &&& run_call(snap, grid, block, d, ori_ret) == (CallState::Finished { ret: ori_ret })
        }),
{
}

/// Short-circuit dominance: a handler that never forwards fixes the return
/// value for every call, whatever arguments the caller passed and whatever
/// the original would have returned.
pub proof fn lemma_short_circuit(
    snap: RegisterSnapshot,
    grid: dim3,
    block: dim3,
    sentinel: u32,
    ori_ret: u32,
)
    ensures
        run_call(snap, grid, block, HandlerDecision::ShortCircuit(sentinel), ori_ret) == (
        CallState::Finished { ret: sentinel }),
{
}

/// Concurrent-call independence, as far as the model can say it: a call's
/// finished state is a function of that call's own snapshot, aggregates,
/// decision, and original result alone. Two concurrent invocations each own
/// their snapshot and state, so runs with equal per-call inputs finish
/// identically, whatever the other call carries; no engine state links them.
pub proof fn lemma_concurrent_calls_independent(
    s1: RegisterSnapshot,
    g1: dim3,
    b1: dim3,
    d1: HandlerDecision,
    r1: u32,
    s2: RegisterSnapshot,
    g2: dim3,
    b2: dim3,
    d2: HandlerDecision,
    r2: u32,
)
    ensures
        run_call(s1, g1, b1, d1, r1) is Finished,
        run_call(s2, g2, b2, d2, r2) is Finished,
        decoded_slots(s1) == decoded_slots(s2) && g1 == g2 && b1 == b2 && d1 == d2 && r1 == r2
            ==> run_call(s1, g1, b1, d1, r1) == run_call(s2, g2, b2, d2, r2),
{
}

/// Decision logic of the address resolver, over the outcomes of the two
/// outside steps it depends on: whether the library mapped, and what the
/// symbol lookup returned. A missing mapping is `LibraryLoadFailed`; a
/// mapped library without the symbol — a lookup that returned nothing or a
/// null address — is `SymbolNotFound`; anything else is the live target
/// address.
pub fn resolve_outcome(lib_loaded: bool, symbol: Option<u64>) -> (r: Result<u64, HookError>)
    ensures
        (match r {
            Ok(a) => lib_loaded && symbol == Some(a) && a != 0,
            Err(e) => {
                ||| (e == HookError::LibraryLoadFailed && !lib_loaded)
                ||| (e == HookError::SymbolNotFound && lib_loaded && (symbol is None || symbol
                    == Some(0u64)))
            },
        }),
{
    if !lib_loaded {
        return Err(HookError::LibraryLoadFailed);
    }
    match symbol {
        None => Err(HookError::SymbolNotFound),
        Some(a) => {
            if a == 0 {
                Err(HookError::SymbolNotFound)
            } else {
                Ok(a)
            }
        },
    }
}

} // verus!

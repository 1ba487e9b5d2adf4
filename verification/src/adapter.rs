//! The calling-convention adapter: reconstructing an intercepted call's
//! typed arguments from a raw register snapshot, and placing typed arguments
//! back into a snapshot for the call-through path.

use vstd::prelude::*;
use crate::dim3;
use crate::error::HookError;
use crate::regs::RegisterSnapshot;

verus! {

/// The six integer-class values the convention places in the argument
/// registers for the launch call, under the by-reference aggregate rule:
/// each geometry extent is wider than a register and arrives as the address
/// of a caller-owned copy. For the rule that packs the extents into
/// registers by value instead, see `decoded_args_by_value`.
#[derive(Copy, Clone, PartialEq, Eq, Structural, Debug)]
pub struct RawSlots {
    /// First parameter: the device function pointer, as an opaque address.
    pub func: u64,
    /// Second parameter: address of the caller's grid extent aggregate.
    pub grid_ptr: u64,
    /// Third parameter: address of the caller's block extent aggregate.
    pub block_ptr: u64,
    /// Fourth parameter: the kernel argument array, as an opaque address.
    pub args_ptr: u64,
    /// Fifth parameter: the shared-memory byte count.
    pub shared_mem: u64,
    /// Sixth parameter: the stream handle, as an opaque address.
    pub stream: u64,
}

/// One intercepted call's parameters, fully typed: what the typed-stub
/// strategy hands the handler directly, and what the raw-register strategy
/// must reconstruct.
#[derive(Copy, Clone, PartialEq, Eq, Structural, Debug)]
pub struct LaunchArgs {
    /// The device function pointer, as an opaque address.
    pub func: u64,
    /// The launch grid extent.
    pub grid_dim: dim3,
    /// The launch block extent.
    pub block_dim: dim3,
    /// The kernel argument array, as an opaque address.
    pub args_ptr: u64,
    /// The shared-memory byte count.
    pub shared_mem: u64,
    /// The stream handle, as an opaque address.
    pub stream: u64,
}

/// What decoding a snapshot yields: the `i`-th logical parameter read from
/// the `i`-th slot of the convention's fixed argument order.
pub open spec fn decoded_slots(s: RegisterSnapshot) -> RawSlots {
    RawSlots {
        func: s.arg_slot(0),
        grid_ptr: s.arg_slot(1),
        block_ptr: s.arg_slot(2),
        args_ptr: s.arg_slot(3),
        shared_mem: s.arg_slot(4),
        stream: s.arg_slot(5),
    }
}

/// The typed arguments obtained from raw slots once the two aggregates the
/// slots point at have been read: `grid` and `block` must be the values
/// stored at `slots.grid_ptr` and `slots.block_ptr`.
pub open spec fn materialized(slots: RawSlots, grid: dim3, block: dim3) -> LaunchArgs {
    LaunchArgs {
        func: slots.func,
        grid_dim: grid,
        block_dim: block,
        args_ptr: slots.args_ptr,
        shared_mem: slots.shared_mem,
        stream: slots.stream,
    }
}

/// The slot values the convention assigns to a typed argument set whose
/// aggregates live at `grid_addr` and `block_addr`.
pub open spec fn slots_of(a: LaunchArgs, grid_addr: u64, block_addr: u64) -> RawSlots {
    RawSlots {
        func: a.func,
        grid_ptr: grid_addr,
        block_ptr: block_addr,
        args_ptr: a.args_ptr,
        shared_mem: a.shared_mem,
        stream: a.stream,
    }
}

/// Reads the six argument slots out of a snapshot in the convention's fixed
/// register order.
pub fn decode_slots(s: &RegisterSnapshot) -> (r: RawSlots)
    ensures
        r == decoded_slots(*s),
{
    RawSlots {
        func: s.rdi,
        grid_ptr: s.rsi,
        block_ptr: s.rdx,
        args_ptr: s.rcx,
        shared_mem: s.r8,
        stream: s.r9,
    }
}

/// Completes raw decoding: combines the register-class slots with the two
/// aggregates loaded from the addresses the slots carry.
pub fn materialize(slots: &RawSlots, grid: dim3, block: dim3) -> (a: LaunchArgs)
    ensures
        a == materialized(*slots, grid, block),
{
    LaunchArgs {
        func: slots.func,
        grid_dim: grid,
        block_dim: block,
        args_ptr: slots.args_ptr,
        shared_mem: slots.shared_mem,
        stream: slots.stream,
    }
}

/// Builds the snapshot the call-through path needs: a fresh register file
/// carrying a typed argument set per the convention, with the aggregates
/// stored at `grid_addr` and `block_addr`. Registers outside the argument
/// sequence are zeroed; no stack slots are needed for six parameters.
pub fn encode_call(a: &LaunchArgs, grid_addr: u64, block_addr: u64) -> (s: RegisterSnapshot)
    ensures
        decoded_slots(s) == slots_of(*a, grid_addr, block_addr),
        s.stack@.len() == 0,
{
    RegisterSnapshot {
        rax: 0,
        rbx: 0,
        rcx: a.args_ptr,
        rdx: block_addr,
        rsi: grid_addr,
        rdi: a.func,
        rbp: 0,
        rsp: 0,
        r8: a.shared_mem,
        r9: a.stream,
        r10: 0,
        r11: 0,
        r12: 0,
        r13: 0,
        r14: 0,
        r15: 0,
        stack: Vec::new(),
    }
}

/// Decode correctness: for every argument set, decoding a snapshot that
/// carries that set per the convention — whichever snapshot it is — and
/// reading the aggregates at the encoded addresses reconstructs exactly the
/// typed arguments the typed-stub strategy would have been handed.
pub proof fn lemma_decode_matches_typed(
    s: RegisterSnapshot,
    a: LaunchArgs,
    grid_addr: u64,
    block_addr: u64,
)
    requires
        decoded_slots(s) == slots_of(a, grid_addr, block_addr),
    ensures
        materialized(decoded_slots(s), a.grid_dim, a.block_dim) == a,
{
}

/// The other aggregate-passing rule a convention may apply to the two
/// geometry extents: instead of an address in one register, each extent is
/// split by value over two consecutive integer-class slots — the first two
/// components packed into one slot, the third in the next. The remaining
/// parameters then overflow past the register list onto the stack.
///
/// Which rule the real target follows is a property of the ABI and the
/// aggregate's size; decoding with the wrong rule produces silently wrong
/// values, so both rules are modeled and a caller must pick the one the
/// target's convention actually uses.
pub open spec fn pack_pair(x: u32, y: u32) -> u64 {
    (x as u64) | ((y as u64) << 32)
}

/// The low half of a packed slot: the aggregate's first component.
pub open spec fn lo32(v: u64) -> u32 {
    (v & 0xffff_ffff) as u32
}

/// The high half of a packed slot: the aggregate's second component.
pub open spec fn hi32(v: u64) -> u32 {
    (v >> 32) as u32
}

/// A value that fits the low half reads back unchanged.
pub proof fn lemma_lo32_small(z: u32)
    ensures
        lo32(z as u64) == z,
        hi32(z as u64) == 0,
{
    assert(((z as u64) & 0xffff_ffff) == z as u64) by (bit_vector);
    assert(((z as u64) >> 32) == 0) by (bit_vector);
}

/// Packing two components into one slot and reading them back is the
/// identity on both.
pub proof fn lemma_pack_unpack(x: u32, y: u32)
    ensures
        lo32(pack_pair(x, y)) == x,
        hi32(pack_pair(x, y)) == y,
{
    assert((((x as u64) | ((y as u64) << 32)) & 0xffff_ffff) == x as u64) by (bit_vector);
    assert((((x as u64) | ((y as u64) << 32)) >> 32) == y as u64) by (bit_vector);
}

/// What decoding a snapshot under the by-value aggregate rule yields: the
/// two extents are read out of slots one to four, and the last two
/// parameters come from the slots past the register list.
pub open spec fn decoded_args_by_value(s: RegisterSnapshot) -> LaunchArgs {
    LaunchArgs {
        func: s.arg_slot(0),
        grid_dim: dim3 { x: lo32(s.arg_slot(1)), y: hi32(s.arg_slot(1)), z: lo32(s.arg_slot(2)) },
        block_dim: dim3 { x: lo32(s.arg_slot(3)), y: hi32(s.arg_slot(3)), z: lo32(s.arg_slot(4)) },
        args_ptr: s.arg_slot(5),
        shared_mem: s.arg_slot(6),
        stream: s.arg_slot(7),
    }
}

/// Decodes a snapshot of a call whose convention passes the two extents by
/// value in register pairs; with eight integer-class parameters, the last
/// two have overflowed onto the stack.
pub fn decode_args_by_value(s: &RegisterSnapshot) -> (a: LaunchArgs)
    requires
        s.slot_count() >= 8,
    ensures
        a == decoded_args_by_value(*s),
{
    let grid_lo = s.arg(1);
    let grid_hi = s.arg(2);
    let block_lo = s.arg(3);
    let block_hi = s.arg(4);
    LaunchArgs {
        func: s.arg(0),
        grid_dim: dim3 {
            x: unpack_lo(grid_lo),
            y: unpack_hi(grid_lo),
            z: unpack_lo(grid_hi),
        },
        block_dim: dim3 {
            x: unpack_lo(block_lo),
            y: unpack_hi(block_lo),
            z: unpack_lo(block_hi),
        },
        args_ptr: s.arg(5),
        shared_mem: s.arg(6),
        stream: s.arg(7),
    }
}

/// Reads the first packed component out of a slot.
pub fn unpack_lo(v: u64) -> (x: u32)
    ensures
        x == lo32(v),
{
    proof {
        assert(v & 0xffff_ffff <= 0xffff_ffff) by (bit_vector);
    }
    (v & 0xffff_ffff) as u32
}

/// Reads the second packed component out of a slot.
pub fn unpack_hi(v: u64) -> (y: u32)
    ensures
        y == hi32(v),
{
    proof {
        assert(v >> 32 <= 0xffff_ffff) by (bit_vector);
    }
    (v >> 32) as u32
}

/// Packs two components into one by-value slot.
pub fn pack_slot(x: u32, y: u32) -> (v: u64)
    ensures
        v == pack_pair(x, y),
{
    (x as u64) | ((y as u64) << 32)
}

/// Builds the snapshot a by-value call carries: the typed argument set laid
/// out over slots zero to seven, the two extents packed into register
/// pairs, the last two parameters on the stack.
pub fn encode_call_by_value(a: &LaunchArgs) -> (s: RegisterSnapshot)
    ensures
        decoded_args_by_value(s) == *a,
        s.stack@.len() == 2,
{
    let mut stack: Vec<u64> = Vec::new();
    stack.push(a.shared_mem);
    stack.push(a.stream);
    let s = RegisterSnapshot {
        rax: 0,
        rbx: 0,
        rcx: pack_slot(a.block_dim.x, a.block_dim.y),
        rdx: a.grid_dim.z as u64,
        rsi: pack_slot(a.grid_dim.x, a.grid_dim.y),
        rdi: a.func,
        rbp: 0,
        rsp: 0,
        r8: a.block_dim.z as u64,
        r9: a.args_ptr,
        r10: 0,
        r11: 0,
        r12: 0,
        r13: 0,
        r14: 0,
        r15: 0,
        stack,
    };
    proof {
        lemma_pack_unpack(a.grid_dim.x, a.grid_dim.y);
        lemma_pack_unpack(a.block_dim.x, a.block_dim.y);
        lemma_lo32_small(a.grid_dim.z);
        lemma_lo32_small(a.block_dim.z);
        assert(decoded_args_by_value(s) =~= *a);
    }
    s
}

/// Decode correctness under the by-value rule: a snapshot that carries an
/// argument set with the extents packed into register pairs decodes to
/// exactly the typed arguments the typed-stub strategy would be handed.
pub proof fn lemma_decode_by_value_matches_typed(s: RegisterSnapshot, a: LaunchArgs)
    requires
        s.arg_slot(0) == a.func,
        s.arg_slot(1) == pack_pair(a.grid_dim.x, a.grid_dim.y),
        s.arg_slot(2) == a.grid_dim.z as u64,
        s.arg_slot(3) == pack_pair(a.block_dim.x, a.block_dim.y),
        s.arg_slot(4) == a.block_dim.z as u64,
        s.arg_slot(5) == a.args_ptr,
        s.arg_slot(6) == a.shared_mem,
        s.arg_slot(7) == a.stream,
    ensures
        decoded_args_by_value(s) == a,
{
    lemma_pack_unpack(a.grid_dim.x, a.grid_dim.y);
    lemma_pack_unpack(a.block_dim.x, a.block_dim.y);
    lemma_lo32_small(a.grid_dim.z);
    lemma_lo32_small(a.block_dim.z);
    assert(decoded_args_by_value(s) =~= a);
}

/// Checks decoded arguments against an invariant the caller supplies, as the
/// only way a decode mismatch is detectable: the engine itself cannot tell a
/// wrongly decoded value from a right one.
pub fn confirm_decode(decoded: &LaunchArgs, expected: &LaunchArgs) -> (r: Result<(), HookError>)
    ensures
        r is Ok <==> *decoded == *expected,
        r is Err ==> r == Err::<(), HookError>(HookError::DecodeMismatch),
{
    if decoded == expected {
        Ok(())
    } else {
        Err(HookError::DecodeMismatch)
    }
}

} // verus!

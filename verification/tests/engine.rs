use hookcore::adapter::{
    confirm_decode, decode_args_by_value, decode_slots, encode_call, encode_call_by_value,
    materialize, pack_slot, unpack_hi, unpack_lo, LaunchArgs, RawSlots,
};
use hookcore::dim3;
use hookcore::error::HookError;
use hookcore::patch::{build_jump, build_trampoline, patch_region_len, plan_patch, JMP_PATCH_LEN};
use hookcore::regs::RegisterSnapshot;
use hookcore::registry::HookRegistry;
use hookcore::runtime::{
    apply_decision, begin_call, complete_original, finished_value, forwarded_arguments,
    handler_arguments, resolve_outcome, run_intercepted_call, supply_aggregates, CallState,
    HandlerDecision,
};

fn snapshot(rdi: u64, rsi: u64, rdx: u64, rcx: u64, r8: u64, r9: u64) -> RegisterSnapshot {
    RegisterSnapshot {
        rax: 0,
        rbx: 0,
        rcx,
        rdx,
        rsi,
        rdi,
        rbp: 0,
        rsp: 0,
        r8,
        r9,
        r10: 0,
        r11: 0,
        r12: 0,
        r13: 0,
        r14: 0,
        r15: 0,
        stack: Vec::new(),
    }
}

/// The stand-in for the unhooked original: a pure function of the typed
/// arguments, so the baseline return value is known exactly.
fn baseline_original(a: &LaunchArgs) -> u32 {
    (a.grid_dim.x
        .wrapping_add(a.grid_dim.y)
        .wrapping_add(a.grid_dim.z)
        .wrapping_mul(a.block_dim.x.wrapping_add(a.block_dim.y).wrapping_add(a.block_dim.z))
        .wrapping_add(a.shared_mem as u32))
        ^ (a.func as u32)
}

#[test]
fn decode_reads_the_convention_order() {
    let snap = snapshot(11, 22, 33, 44, 55, 66);
    let slots = decode_slots(&snap);
    assert_eq!(slots.func, 11);
    assert_eq!(slots.grid_ptr, 22);
    assert_eq!(slots.block_ptr, 33);
    assert_eq!(slots.args_ptr, 44);
    assert_eq!(slots.shared_mem, 55);
    assert_eq!(slots.stream, 66);
}

#[test]
fn arguments_continue_onto_the_stack() {
    let mut snap = snapshot(1, 2, 3, 4, 5, 6);
    snap.stack = vec![70, 80, 90];
    assert_eq!(snap.arg(0), 1);
    assert_eq!(snap.arg(5), 6);
    assert_eq!(snap.arg(6), 70);
    assert_eq!(snap.arg(8), 90);
}

#[test]
fn decode_matches_typed_encoding() {
    // The raw-register strategy reconstructs exactly what the typed-stub
    // strategy is handed, on the same input.
    let typed = LaunchArgs {
        func: 0xdead,
        grid_dim: dim3::new(9, 8, 7),
        block_dim: dim3::new(6, 5, 4),
        args_ptr: 0xbeef,
        shared_mem: 512,
        stream: 0x77,
    };
    let snap = encode_call(&typed, 0x1000, 0x2000);
    let slots = decode_slots(&snap);
    assert_eq!(slots.grid_ptr, 0x1000);
    assert_eq!(slots.block_ptr, 0x2000);
    let decoded = materialize(&slots, typed.grid_dim, typed.block_dim);
    assert_eq!(decoded, typed);
    assert!(confirm_decode(&decoded, &typed).is_ok());
}

#[test]
fn packed_slots_round_trip_exactly() {
    let v = pack_slot(1, 2);
    assert_eq!(v, 0x0000_0002_0000_0001);
    assert_eq!(unpack_lo(v), 1);
    assert_eq!(unpack_hi(v), 2);
    let w = pack_slot(u32::MAX, 0x8000_0001);
    assert_eq!(unpack_lo(w), u32::MAX);
    assert_eq!(unpack_hi(w), 0x8000_0001);
}

#[test]
fn by_value_rule_decodes_packed_aggregates() {
    // Under the by-value rule the two extents travel packed in register
    // pairs and the last two parameters overflow onto the stack.
    let typed = LaunchArgs {
        func: 0xf00d,
        grid_dim: dim3::new(31, 17, 9),
        block_dim: dim3::new(256, 2, 1),
        args_ptr: 0xabcd_ef00,
        shared_mem: 1024,
        stream: 0x600d,
    };
    let snap = encode_call_by_value(&typed);
    assert_eq!(snap.stack.len(), 2);
    let decoded = decode_args_by_value(&snap);
    assert_eq!(decoded, typed);
}

#[test]
fn wrong_aggregate_rule_decodes_silently_wrong() {
    // Applying the by-reference rule to a by-value call misreads packed
    // component pairs as addresses; nothing fails loudly, and only a
    // caller-supplied expectation can expose the mismatch.
    let typed = LaunchArgs {
        func: 0xf00d,
        grid_dim: dim3::new(31, 17, 9),
        block_dim: dim3::new(256, 2, 1),
        args_ptr: 0xabcd_ef00,
        shared_mem: 1024,
        stream: 0x600d,
    };
    let snap = encode_call_by_value(&typed);
    let slots = decode_slots(&snap);
    // The "grid pointer" is in fact the packed first two grid components.
    assert_eq!(slots.grid_ptr, 0x0000_0011_0000_001f);
    let misread = materialize(&slots, typed.grid_dim, typed.block_dim);
    assert_eq!(confirm_decode(&misread, &typed), Err(HookError::DecodeMismatch));
}

#[test]
fn confirm_decode_reports_mismatch() {
    let a = LaunchArgs {
        func: 1,
        grid_dim: dim3::new(1, 1, 1),
        block_dim: dim3::new(1, 1, 1),
        args_ptr: 2,
        shared_mem: 0,
        stream: 0,
    };
    let mut b = a;
    b.shared_mem = 64;
    assert_eq!(confirm_decode(&a, &b), Err(HookError::DecodeMismatch));
    assert_eq!(confirm_decode(&a, &a), Ok(()));
}

#[test]
fn pass_through_handler_preserves_baseline() {
    // Hooked call whose handler forwards unchanged must return what the
    // unhooked baseline returns, and the handler must observe the exact
    // arguments the caller passed.
    let grid = dim3::new(1, 2, 3);
    let block = dim3::new(4, 5, 6);
    let ptr: u64 = 0x5558_1234;
    let snap = snapshot(0xf00d, 0x7fff_1000, 0x7fff_2000, ptr, 128, 0x9);
    let baseline = baseline_original(&LaunchArgs {
        func: 0xf00d,
        grid_dim: grid,
        block_dim: block,
        args_ptr: ptr,
        shared_mem: 128,
        stream: 0x9,
    });

    let entered = begin_call(&snap);
    let typed = supply_aggregates(entered, grid, block);
    let observed = handler_arguments(typed);
    assert_eq!(observed.grid_dim, dim3::new(1, 2, 3));
    assert_eq!(observed.block_dim, dim3::new(4, 5, 6));
    assert_eq!(observed.args_ptr, ptr);
    assert_eq!(observed.func, 0xf00d);

    let decided = apply_decision(typed, HandlerDecision::Forward(observed));
    let forwarded = forwarded_arguments(decided);
    assert_eq!(forwarded, observed);
    let original_ret = baseline_original(&forwarded);
    let done = complete_original(decided, original_ret);
    assert_eq!(finished_value(done), baseline);
}

#[test]
fn short_circuit_handler_fixes_the_return_value() {
    // A handler that never calls the original returns the sentinel for
    // every input.
    let inputs = [
        snapshot(0, 0, 0, 0, 0, 0),
        snapshot(1, 2, 3, 4, 5, 6),
        snapshot(u64::MAX, 1, 1, 1, 1, 1),
    ];
    for snap in inputs.iter() {
        let r = run_intercepted_call(
            snap,
            dim3::new(7, 7, 7),
            dim3::new(1, 1, 1),
            HandlerDecision::ShortCircuit(0xffff_ffff),
            12345,
        );
        assert_eq!(r, 0xffff_ffff);
    }
}

#[test]
fn forwarding_run_returns_the_original_value() {
    let snap = snapshot(10, 20, 30, 40, 50, 60);
    let grid = dim3::new(2, 2, 2);
    let block = dim3::new(3, 3, 3);
    let slots = decode_slots(&snap);
    let args = materialize(&slots, grid, block);
    let r = run_intercepted_call(&snap, grid, block, HandlerDecision::Forward(args), 4242);
    assert_eq!(r, 4242);
}

#[test]
fn handler_can_rewrite_arguments() {
    let snap = snapshot(10, 20, 30, 40, 50, 60);
    let grid = dim3::new(2, 2, 2);
    let block = dim3::new(3, 3, 3);
    let entered = begin_call(&snap);
    let typed = supply_aggregates(entered, grid, block);
    let mut rewritten = handler_arguments(typed);
    rewritten.shared_mem = 4096;
    let decided = apply_decision(typed, HandlerDecision::Forward(rewritten));
    let forwarded = forwarded_arguments(decided);
    assert_eq!(forwarded.shared_mem, 4096);
    assert_eq!(forwarded.func, 10);
}

#[test]
fn interleaved_calls_do_not_cross_talk() {
    // Two intercepted calls advanced in interleaved order, each owning its
    // snapshot and state: every observation and both outcomes depend only
    // on the call's own inputs.
    let snap_a = snapshot(1, 0x100, 0x200, 0x300, 16, 0x400);
    let snap_b = snapshot(2, 0x500, 0x600, 0x700, 32, 0x800);
    let a = begin_call(&snap_a);
    let b = begin_call(&snap_b);
    let a = supply_aggregates(a, dim3::new(1, 1, 1), dim3::new(64, 1, 1));
    let b = supply_aggregates(b, dim3::new(9, 9, 9), dim3::new(8, 8, 8));
    let args_a = handler_arguments(a);
    let args_b = handler_arguments(b);
    assert_eq!(args_a.func, 1);
    assert_eq!(args_a.shared_mem, 16);
    assert_eq!(args_b.func, 2);
    assert_eq!(args_b.shared_mem, 32);
    // The second call decides first; the first finishes last.
    let b = apply_decision(b, HandlerDecision::ShortCircuit(7));
    let a = apply_decision(a, HandlerDecision::Forward(args_a));
    assert_eq!(forwarded_arguments(a), args_a);
    let a = complete_original(a, 100);
    assert_eq!(finished_value(b), 7);
    assert_eq!(finished_value(a), 100);
}

#[test]
fn region_takes_whole_instructions() {
    // 1 + 3 + 2 + 7 = 13 bytes do not yet cover the 14-byte redirect; the
    // next whole instruction brings the region to 18.
    let lens: Vec<usize> = vec![1, 3, 2, 7, 5];
    assert_eq!(patch_region_len(&lens, 14), Some(18));
}

#[test]
fn region_exact_boundary_is_not_extended() {
    let lens: Vec<usize> = vec![7, 7, 2];
    assert_eq!(patch_region_len(&lens, 14), Some(14));
}

#[test]
fn region_fails_when_prologue_runs_out() {
    let lens: Vec<usize> = vec![4, 4, 4];
    assert_eq!(patch_region_len(&lens, 14), None);
}

#[test]
fn jump_bytes_are_exact() {
    let v = build_jump(0x1122_3344_5566_7788);
    assert_eq!(
        v,
        vec![0xff, 0x25, 0, 0, 0, 0, 0x88, 0x77, 0x66, 0x55, 0x44, 0x33, 0x22, 0x11]
    );
    assert_eq!(v.len(), JMP_PATCH_LEN);
}

#[test]
fn trampoline_is_prologue_plus_jump_back() {
    let moved: Vec<u8> = vec![0x55, 0x48, 0x89, 0xe5];
    let t = build_trampoline(&moved, 0x4000);
    assert_eq!(&t[..4], &[0x55, 0x48, 0x89, 0xe5]);
    assert_eq!(&t[4..10], &[0xff, 0x25, 0, 0, 0, 0]);
    assert_eq!(&t[10..], &0x4000u64.to_le_bytes());
}

#[test]
fn plan_lays_out_patch_saved_and_trampoline() {
    let target: u64 = 0x7f00_0000_1000;
    let diversion: u64 = 0x7f00_0000_9000;
    let prologue: Vec<u8> = (0u8..32).collect();
    let lens: Vec<usize> = vec![4, 4, 4, 4, 4];
    let rec = plan_patch(target, &prologue, &lens, diversion).unwrap();
    assert_eq!(rec.target, target);
    assert_eq!(rec.patch_len, 16);
    assert_eq!(rec.saved, (0u8..16).collect::<Vec<u8>>());
    assert_eq!(rec.patch, build_jump(diversion));
    assert_eq!(rec.trampoline, build_trampoline(&rec.saved, target + 16));
}

#[test]
fn plan_rejects_short_prologue() {
    let target: u64 = 0x1000;
    let prologue: Vec<u8> = vec![0x55, 0x48, 0x89, 0xe5, 0xc3];
    let lens: Vec<usize> = vec![1, 3, 1];
    let r = plan_patch(target, &prologue, &lens, 0x9000);
    assert!(matches!(r, Err(HookError::PrologueTooShort)));
}

#[test]
fn second_install_on_same_address_is_rejected() {
    let target: u64 = 0x2000;
    let prologue: Vec<u8> = (0u8..32).collect();
    let lens: Vec<usize> = vec![8, 8, 8];
    let mut reg = HookRegistry::new();

    let first = reg.plan_install(target, &prologue, &lens, 0x9000).unwrap();
    let first_saved = first.saved.clone();
    let handle = reg.commit_install(first, true).unwrap();
    assert_eq!(handle, 0);
    assert_eq!(reg.len(), 1);

    // The second attempt reports AlreadyInstalled and changes nothing.
    let second = reg.plan_install(target, &prologue, &lens, 0x9000);
    assert!(matches!(second, Err(HookError::AlreadyInstalled)));
    assert_eq!(reg.len(), 1);

    // The first hook's record is still there, intact.
    let removed = reg.uninstall(target).unwrap();
    assert_eq!(removed.target, target);
    assert_eq!(removed.saved, first_saved);
}

#[test]
fn protection_failure_leaves_registry_unchanged() {
    let prologue: Vec<u8> = (0u8..32).collect();
    let lens: Vec<usize> = vec![8, 8, 8];
    let mut reg = HookRegistry::new();
    let rec = reg.plan_install(0x3000, &prologue, &lens, 0x9000).unwrap();
    let r = reg.commit_install(rec, false);
    assert_eq!(r, Err(HookError::ProtectionFailed));
    assert_eq!(reg.len(), 0);
}

#[test]
fn uninstall_restores_only_the_named_hook() {
    let prologue: Vec<u8> = (0u8..32).collect();
    let lens: Vec<usize> = vec![8, 8, 8];
    let mut reg = HookRegistry::new();
    let a = reg.plan_install(0x4000, &prologue, &lens, 0x9000).unwrap();
    reg.commit_install(a, true).unwrap();
    let b = reg.plan_install(0x5000, &prologue, &lens, 0x9000).unwrap();
    reg.commit_install(b, true).unwrap();
    assert_eq!(reg.len(), 2);

    assert!(reg.uninstall(0x6000).is_none());
    assert_eq!(reg.len(), 2);

    let removed = reg.uninstall(0x4000).unwrap();
    assert_eq!(removed.target, 0x4000);
    assert_eq!(reg.len(), 1);
    let again = reg.uninstall(0x4000);
    assert!(again.is_none());
}

#[test]
fn resolver_failures_are_exact() {
    assert_eq!(
        resolve_outcome(false, Some(0x1234)),
        Err(HookError::LibraryLoadFailed)
    );
    assert_eq!(resolve_outcome(true, None), Err(HookError::SymbolNotFound));
    assert_eq!(resolve_outcome(true, Some(0)), Err(HookError::SymbolNotFound));
    assert_eq!(resolve_outcome(true, Some(0x1234)), Ok(0x1234));
}

#[test]
fn error_descriptions_name_each_failure() {
    assert_eq!(HookError::LibraryLoadFailed.describe(), "library load failed");
    assert_eq!(HookError::SymbolNotFound.describe(), "symbol not found");
    assert_eq!(HookError::PrologueTooShort.describe(), "prologue too short");
    assert_eq!(HookError::ProtectionFailed.describe(), "memory protection failed");
    assert_eq!(HookError::AlreadyInstalled.describe(), "already installed");
    assert_eq!(HookError::DecodeMismatch.describe(), "decode mismatch");
}

#[test]
fn call_state_steps_are_observable() {
    let snap = snapshot(1, 2, 3, 4, 5, 6);
    let s = begin_call(&snap);
    assert!(matches!(s, CallState::NeedAggregates { .. }));
    let slots = RawSlots {
        func: 1,
        grid_ptr: 2,
        block_ptr: 3,
        args_ptr: 4,
        shared_mem: 5,
        stream: 6,
    };
    assert_eq!(s, CallState::NeedAggregates { slots });
}

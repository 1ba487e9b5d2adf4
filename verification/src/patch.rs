//! The trampoline/patch installer's computations: how many prologue bytes a
//! redirect may overwrite without splitting an instruction, the redirect
//! bytes themselves, and the relocated stub that keeps the original callable.

use vstd::prelude::*;
use crate::error::HookError;

verus! {

/// Byte length of the redirect written over the prologue: an absolute
/// indirect jump (`ff 25 00 00 00 00`) followed by the eight-byte target.
pub const JMP_PATCH_LEN: usize = 14;

/// Longest encoding the instruction set permits for one instruction.
pub const MAX_INSTR_LEN: usize = 15;

/// Total byte length of the first `k` instructions of a prologue whose
/// instruction lengths are `lens`.
pub open spec fn prefix_len(lens: Seq<usize>, k: int) -> int
    recommends
        0 <= k <= lens.len(),
    decreases k,
{
    if k <= 0 {
        0
    } else {
        prefix_len(lens, k - 1) + lens[k - 1]
    }
}

/// Whether a byte offset `n` into the prologue falls on an instruction
/// boundary: a patch region ending there splits no instruction.
pub open spec fn is_boundary(lens: Seq<usize>, n: int) -> bool {
    exists|k: int| 0 <= k <= lens.len() && prefix_len(lens, k) == n
}

/// Byte length of the patch region: whole leading instructions are taken
/// until they cover `min_len` bytes; `None` when the prologue's instructions
/// run out first.
pub open spec fn spec_region_len(lens: Seq<usize>, min_len: int) -> Option<int>
    decreases lens.len(),
{
    if min_len <= 0 {
        Some(0)
    } else if lens.len() == 0 {
        None
    } else {
        match spec_region_len(lens.skip(1), min_len - lens[0]) {
            Some(n) => Some(n + lens[0]),
            None => None,
        }
    }
}

/// Every instruction length is a plausible encoding length.
pub open spec fn wf_lens(lens: Seq<usize>) -> bool {
    forall|i: int| 0 <= i < lens.len() ==> 1 <= #[trigger] lens[i] <= MAX_INSTR_LEN
}

/// A prefix of the prologue never has negative length.
proof fn lemma_prefix_nonneg(lens: Seq<usize>, k: int)
    requires
        k <= lens.len(),
    ensures
        prefix_len(lens, k) >= 0,
    decreases k,
{
    if k > 0 {
        lemma_prefix_nonneg(lens, k - 1);
    }
}

/// Dropping the first instruction shifts every prefix length by its length.
proof fn lemma_prefix_skip(lens: Seq<usize>, k: int)
    requires
        lens.len() > 0,
        0 <= k <= lens.len() - 1,
    ensures
        prefix_len(lens, k + 1) == lens[0] + prefix_len(lens.skip(1), k),
    decreases k,
{
    if k == 0 {
        assert(prefix_len(lens, 1) == prefix_len(lens, 0) + lens[0]);
        assert(prefix_len(lens.skip(1), 0) == 0);
    } else {
        lemma_prefix_skip(lens, k - 1);
        assert(lens.skip(1)[k - 1] == lens[k]);
        assert(prefix_len(lens, k + 1) == prefix_len(lens, k) + lens[k]);
        assert(prefix_len(lens.skip(1), k) == prefix_len(lens.skip(1), k - 1) + lens.skip(1)[k
            - 1]);
    }
}

/// The region the installer chooses ends on an instruction boundary, covers
/// the redirect, overshoots it by less than one instruction, and is the
/// shortest boundary that covers it; when no region exists, the whole
/// prologue is shorter than the redirect.
pub proof fn lemma_region_properties(lens: Seq<usize>, min_len: int)
    requires
        wf_lens(lens),
    ensures
        match spec_region_len(lens, min_len) {
            Some(n) => {
                &&& is_boundary(lens, n)
                &&& n >= min_len
                &&& n < min_len + MAX_INSTR_LEN || n == 0
                &&& forall|m: int| is_boundary(lens, m) && m >= min_len ==> m >= n
            },
            None => prefix_len(lens, lens.len() as int) < min_len,
        },
    decreases lens.len(),
{
    if min_len <= 0 {
        assert(prefix_len(lens, 0) == 0);
        assert(is_boundary(lens, 0));
        assert forall|m: int| is_boundary(lens, m) && m >= min_len implies m >= 0 by {
            let k = choose|k: int| 0 <= k <= lens.len() && prefix_len(lens, k) == m;
            lemma_prefix_nonneg(lens, k);
        }
    } else if lens.len() == 0 {
        assert(prefix_len(lens, 0) == 0);
    } else {
        let tail = lens.skip(1);
        assert(wf_lens(tail)) by {
            assert forall|i: int| 0 <= i < tail.len() implies 1 <= #[trigger] tail[i]
                <= MAX_INSTR_LEN by {
                assert(tail[i] == lens[i + 1]);
            }
        }
        lemma_region_properties(tail, min_len - lens[0]);
        match spec_region_len(tail, min_len - lens[0]) {
            Some(np) => {
                let n = np + lens[0];
                // The boundary in the tail moves one instruction right.
                let kp = choose|k: int| 0 <= k <= tail.len() && prefix_len(tail, k) == np;
                lemma_prefix_skip(lens, kp);
                assert(prefix_len(lens, kp + 1) == n);
                assert(is_boundary(lens, n));
                // Overshoot stays below one instruction.
                if np == 0 {
                    assert(min_len - lens[0] <= 0);
                    assert(n < min_len + MAX_INSTR_LEN);
                }
                // Minimality among covering boundaries.
                assert forall|m: int| is_boundary(lens, m) && m >= min_len implies m >= n by {
                    let k = choose|k: int| 0 <= k <= lens.len() && prefix_len(lens, k) == m;
                    if k == 0 {
                        assert(m == 0);
                    } else {
                        lemma_prefix_skip(lens, k - 1);
                        let mp = prefix_len(tail, k - 1);
                        assert(m == lens[0] + mp);
                        assert(is_boundary(tail, mp));
                        assert(mp >= min_len - lens[0] ==> mp >= np);
                    }
                }
            },
            None => {
                lemma_prefix_skip(lens, lens.len() - 1);
            },
        }
    }
}

/// Computes the patch region length for a prologue disassembled into
/// instructions of the given lengths: whole instructions are accumulated
/// from the start until they cover `min_len` bytes.
pub fn patch_region_len(lens: &Vec<usize>, min_len: usize) -> (r: Option<usize>)
    requires
        wf_lens(lens@),
        min_len + MAX_INSTR_LEN <= usize::MAX,
    ensures
        (match r {
            Some(n) => spec_region_len(lens@, min_len as int) == Some(n as int),
            None => spec_region_len(lens@, min_len as int) is None,
        }),
{
    let mut total: usize = 0;
    let mut i: usize = 0;
    proof {
        assert(lens@.skip(0) =~= lens@);
    }
    while total < min_len
        invariant
            wf_lens(lens@),
            min_len + MAX_INSTR_LEN <= usize::MAX,
            0 <= i <= lens@.len(),
            total == prefix_len(lens@, i as int),
            total < min_len + MAX_INSTR_LEN,
            (match spec_region_len(lens@, min_len as int) {
                Some(n) => spec_region_len(lens@.skip(i as int), min_len - total) == Some(
                    n - total,
                ),
                None => spec_region_len(lens@.skip(i as int), min_len - total) is None,
            }),
        decreases lens@.len() - i,
    {
        if i >= lens.len() {
            proof {
                assert(lens@.skip(i as int).len() == 0);
            }
            return None;
        }
        proof {
            let rest = lens@.skip(i as int);
            assert(rest[0] == lens@[i as int]);
            assert(rest.skip(1) =~= lens@.skip(i as int + 1));
            lemma_prefix_nonneg(lens@, i as int);
        }
        total = total + lens[i];
        i = i + 1;
    }
    proof {
        assert(lens@.skip(i as int).len() >= 0);
    }
    Some(total)
}

/// The redirect bytes: an absolute indirect jump through the eight-byte
/// little-endian address that follows it.
pub open spec fn spec_jump_bytes(to: u64) -> Seq<u8> {
    seq![0xffu8, 0x25u8, 0u8, 0u8, 0u8, 0u8] + vstd::bytes::spec_u64_to_le_bytes(to)
}

/// Emits the `JMP_PATCH_LEN`-byte redirect to `to`. A single absolute jump
/// is used so the diversion never depends on being within a relative
/// displacement's range of the target.
pub fn build_jump(to: u64) -> (v: Vec<u8>)
    ensures
        v@ == spec_jump_bytes(to),
        v@.len() == JMP_PATCH_LEN,
{
    let mut v: Vec<u8> = Vec::new();
    v.push(0xff);
    v.push(0x25);
    v.push(0);
    v.push(0);
    v.push(0);
    v.push(0);
    let mut addr = vstd::bytes::u64_to_le_bytes(to);
    v.append(&mut addr);
    proof {
        assert(v@ =~= spec_jump_bytes(to));
    }
    v
}

/// Builds the relocated stub that keeps the original callable: the moved
/// prologue bytes followed by a jump to `resume`, the first unmoved byte of
/// the original body.
pub fn build_trampoline(moved: &Vec<u8>, resume: u64) -> (t: Vec<u8>)
    ensures
        t@ == moved@ + spec_jump_bytes(resume),
        t@.len() == moved@.len() + JMP_PATCH_LEN,
{
    let mut t: Vec<u8> = Vec::new();
    let mut i: usize = 0;
    while i < moved.len()
        invariant
            0 <= i <= moved@.len(),
            t@ == moved@.subrange(0, i as int),
        decreases moved@.len() - i,
    {
        t.push(moved[i]);
        i = i + 1;
        proof {
            assert(t@ =~= moved@.subrange(0, i as int));
        }
    }
    let mut back = build_jump(resume);
    t.append(&mut back);
    proof {
        assert(moved@.subrange(0, moved@.len() as int) =~= moved@);
    }
    t
}

/// Everything an installation writes, planned before any byte of live code
/// is touched: the record the lifecycle manager keeps for the hook.
pub struct HookRecord {
    /// Address of the patched function's first byte.
    pub target: u64,
    /// Byte length of the patch region: whole instructions covering the
    /// redirect.
    pub patch_len: usize,
    /// The original bytes of the patch region, kept for restoration at
    /// teardown.
    pub saved: Vec<u8>,
    /// The redirect written at `target`.
    pub patch: Vec<u8>,
    /// The relocated stub: the saved prologue followed by a jump back into
    /// the original body.
    pub trampoline: Vec<u8>,
}

impl HookRecord {
    /// A record is coherent when its pieces agree: the saved bytes are the
    /// patch region's original content, the patch is a redirect that fits
    /// inside the region, and the trampoline resumes right after the region.
    pub open spec fn wf(self) -> bool {
        &&& self.saved@.len() == self.patch_len
        &&& self.patch@.len() == JMP_PATCH_LEN
        &&& self.patch_len >= JMP_PATCH_LEN
        &&& self.trampoline@ == self.saved@ + spec_jump_bytes(
            (self.target + self.patch_len) as u64,
        )
    }
}

/// Plans one installation: chooses the patch region from the disassembled
/// instruction lengths, keeps the bytes it will overwrite, and lays out the
/// redirect and the relocated stub. Fails with `PrologueTooShort` exactly
/// when whole instructions cannot cover the redirect.
pub fn plan_patch(
    target: u64,
    prologue: &Vec<u8>,
    lens: &Vec<usize>,
    diversion: u64,
) -> (r: Result<HookRecord, HookError>)
    requires
        wf_lens(lens@),
        prefix_len(lens@, lens@.len() as int) <= prologue@.len(),
        target + JMP_PATCH_LEN + MAX_INSTR_LEN <= u64::MAX,
    ensures
        (match r {
            Ok(rec) => {
                &&& spec_region_len(lens@, JMP_PATCH_LEN as int) == Some(rec.patch_len as int)
                &&& rec.target == target
                &&& rec.saved@ == prologue@.subrange(0, rec.patch_len as int)
                &&& rec.patch@ == spec_jump_bytes(diversion)
                &&& rec.trampoline@ == rec.saved@ + spec_jump_bytes(
                    (target + rec.patch_len) as u64,
                )
                &&& rec.wf()
            },
            Err(e) => {
                &&& e == HookError::PrologueTooShort
                &&& spec_region_len(lens@, JMP_PATCH_LEN as int) is None
            },
        }),
{
    proof {
        lemma_region_properties(lens@, JMP_PATCH_LEN as int);
    }
    let region = match patch_region_len(lens, JMP_PATCH_LEN) {
        Some(n) => n,
        None => {
            return Err(HookError::PrologueTooShort);
        },
    };
    proof {
        let k = choose|k: int|
            0 <= k <= lens@.len() && prefix_len(lens@, k) == region as int;
        lemma_prefix_monotone(lens@, k, lens@.len() as int);
    }
    let mut saved: Vec<u8> = Vec::new();
    let mut i: usize = 0;
    while i < region
        invariant
            region <= prologue@.len(),
            0 <= i <= region,
            saved@ == prologue@.subrange(0, i as int),
        decreases region - i,
    {
        saved.push(prologue[i]);
        i = i + 1;
        proof {
            assert(saved@ =~= prologue@.subrange(0, i as int));
        }
    }
    let patch = build_jump(diversion);
    let trampoline = build_trampoline(&saved, target + region as u64);
    Ok(HookRecord { target, patch_len: region, saved, patch, trampoline })
}

/// A longer prefix of the prologue is never shorter in bytes.
proof fn lemma_prefix_monotone(lens: Seq<usize>, j: int, k: int)
    requires
        0 <= j <= k <= lens.len(),
    ensures
        prefix_len(lens, j) <= prefix_len(lens, k),
    decreases k,
{
    if j < k {
        lemma_prefix_monotone(lens, j, k - 1);
    }
}

} // verus!

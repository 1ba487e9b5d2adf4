//! The hook lifecycle manager: an explicit registry of installed hooks,
//! owning one record per patched address.

use vstd::prelude::*;
use crate::error::HookError;
use crate::patch::HookRecord;
use crate::patch::plan_patch;
use crate::patch::prefix_len;
use crate::patch::spec_region_len;
use crate::patch::wf_lens;
use crate::patch::JMP_PATCH_LEN;
use crate::patch::MAX_INSTR_LEN;

verus! {

/// The registry the lifecycle manager owns: exactly one record per patched
/// address, for as long as that hook is installed.
pub struct HookRegistry {
    records: Vec<HookRecord>,
}

/// The spec-level content of one record, so the registry's contracts can
/// pin results without speaking of `Vec` values.
pub struct RecordView {
    pub target: u64,
    pub patch_len: int,
    pub saved: Seq<u8>,
    pub patch: Seq<u8>,
    pub trampoline: Seq<u8>,
}

impl HookRecord {
    /// This record's spec-level content.
    pub open spec fn view_of(self) -> RecordView {
        RecordView {
            target: self.target,
            patch_len: self.patch_len as int,
            saved: self.saved@,
            patch: self.patch@,
            trampoline: self.trampoline@,
        }
    }
}

impl HookRegistry {
    /// The installed records, in installation order.
    pub closed spec fn view(self) -> Seq<RecordView> {
        self.records@.map(|i: int, r: HookRecord| r.view_of())
    }

    /// At most one hook per address, ever: the registry never holds two
    /// records for the same target.
    pub open spec fn wf(self) -> bool {
        forall|i: int, j: int|
            0 <= i < j < self@.len() ==> (#[trigger] self@[i]).target != (#[trigger] self@[j]).target
    }

    /// Whether some hook is installed on `t`.
    pub open spec fn spec_contains_target(self, t: u64) -> bool {
        exists|i: int| 0 <= i < self@.len() && (#[trigger] self@[i]).target == t
    }

    /// An empty registry: no hook installed anywhere.
    pub fn new() -> (r: HookRegistry)
        ensures
            r@ == Seq::<RecordView>::empty(),
            r.wf(),
    {
        let r = HookRegistry { records: Vec::new() };
        proof {
            assert(r@ =~= Seq::<RecordView>::empty());
        }
        r
    }

    /// How many hooks are installed.
    pub fn len(&self) -> (n: usize)
        ensures
            n == self@.len(),
    {
        self.records.len()
    }

    /// Whether a hook is already installed on `t`.
    pub fn contains_target(&self, t: u64) -> (b: bool)
        ensures
            b == self.spec_contains_target(t),
    {
        let mut i: usize = 0;
        while i < self.records.len()
            invariant
                0 <= i <= self@.len(),
                self@.len() == self.records@.len(),
                forall|j: int| 0 <= j < i ==> (#[trigger] self@[j]).target != t,
            decreases self@.len() - i,
        {
            if self.records[i].target == t {
                assert(self@[i as int].target == t);
                return true;
            }
            i = i + 1;
        }
        false
    }

    /// What planning an installation decides, as a function of the
    /// registry's state and the disassembled prologue: the second attempt on
    /// an already-hooked address is `AlreadyInstalled`, and a prologue whole
    /// instructions cannot cover is `PrologueTooShort`.
    pub open spec fn spec_plan_outcome(self, target: u64, lens: Seq<usize>) -> Result<
        int,
        HookError,
    > {
        if self.spec_contains_target(target) {
            Err(HookError::AlreadyInstalled)
        } else {
            match spec_region_len(lens, JMP_PATCH_LEN as int) {
                Some(n) => Ok(n),
                None => Err(HookError::PrologueTooShort),
            }
        }
    }

    /// Plans the installation of a hook on `target`: refuses an address that
    /// already carries one, chooses the patch region from the disassembled
    /// instruction lengths, and lays out the redirect to `diversion`, the
    /// saved bytes, and the relocated stub. Nothing is written yet; the
    /// registry is not changed.
    pub fn plan_install(
        &self,
        target: u64,
        prologue: &Vec<u8>,
        lens: &Vec<usize>,
        diversion: u64,
    ) -> (r: Result<HookRecord, HookError>)
        requires
            wf_lens(lens@),
            prefix_len(lens@, lens@.len() as int) <= prologue@.len(),
            target + JMP_PATCH_LEN + MAX_INSTR_LEN <= u64::MAX,
        ensures
            (match r {
                Ok(rec) => {
                    &&& self.spec_plan_outcome(target, lens@) == Ok::<int, HookError>(
                        rec.patch_len as int,
                    )
                    &&& rec.target == target
                    &&& rec.saved@ == prologue@.subrange(0, rec.patch_len as int)
                    &&& rec.patch@ == crate::patch::spec_jump_bytes(diversion)
                    &&& rec.trampoline@ == rec.saved@ + crate::patch::spec_jump_bytes(
                        (target + rec.patch_len) as u64,
                    )
                    &&& rec.wf()
                    &&& !self.spec_contains_target(target)
                },
                Err(e) => self.spec_plan_outcome(target, lens@) == Err::<int, HookError>(e),
            }),
    {
        if self.contains_target(target) {
            return Err(HookError::AlreadyInstalled);
        }
        plan_patch(target, prologue, lens, diversion)
    }

    /// Commits a planned installation once the outside work is done:
    /// `protect_ok` reports whether the code pages could be made writable.
    /// On success the record enters the registry and the handle — the
    /// record's position — is returned; on failure the registry is exactly
    /// as before and nothing was patched.
    pub fn commit_install(&mut self, rec: HookRecord, protect_ok: bool) -> (r: Result<
        usize,
        HookError,
    >)
        requires
            old(self).wf(),
            !old(self).spec_contains_target(rec.target),
        ensures
            final(self).wf(),
            (match r {
                Ok(h) => {
                    &&& protect_ok
                    &&& h == old(self)@.len()
                    &&& final(self)@ == old(self)@.push(rec.view_of())
                },
                Err(e) => {
                    &&& e == HookError::ProtectionFailed
                    &&& !protect_ok
                    &&& final(self)@ == old(self)@
                },
            }),
    {
        if !protect_ok {
            return Err(HookError::ProtectionFailed);
        }
        let h = self.records.len();
        let ghost t = rec.target;
        self.records.push(rec);
        proof {
            assert(self@ =~= old(self)@.push(self.records@[self.records@.len() - 1].view_of()));
            assert forall|i: int, j: int| 0 <= i < j < self@.len() implies (
            #[trigger] self@[i]).target != (#[trigger] self@[j]).target by {
                if j == self@.len() - 1 {
                    assert(self@[i] == old(self)@[i]);
                    if self@[i].target == t {
                        assert(old(self).spec_contains_target(t));
                    }
                }
            }
        }
        Ok(h)
    }

    /// Removes the hook installed on `target` and hands its record back so
    /// the caller can restore the saved bytes before anything else is torn
    /// down. Without a hook on `target` the registry is left untouched.
    pub fn uninstall(&mut self, target: u64) -> (r: Option<HookRecord>)
        requires
            old(self).wf(),
        ensures
            final(self).wf(),
            (match r {
                Some(rec) => {
                    &&& rec.target == target
                    &&& old(self).spec_contains_target(target)
                    &&& exists|i: int|
                        0 <= i < old(self)@.len() && old(self)@[i] == rec.view_of()
                            && final(self)@ == old(self)@.remove(i)
                    &&& !final(self).spec_contains_target(target)
                },
                None => {
                    &&& !old(self).spec_contains_target(target)
                    &&& final(self)@ == old(self)@
                },
            }),
    {
        let mut i: usize = 0;
        while i < self.records.len()
            invariant
                0 <= i <= self@.len(),
                self@.len() == self.records@.len(),
                self == old(self),
                old(self).wf(),
                forall|j: int| 0 <= j < i ==> (#[trigger] self@[j]).target != target,
            decreases self@.len() - i,
        {
            if self.records[i].target == target {
                let ghost idx = i as int;
                assert(self@[idx].target == target);
                let rec = self.records.remove(i);
                proof {
                    assert(self@ =~= old(self)@.remove(idx));
                    assert(old(self)@[idx] == rec.view_of());
                    assert forall|a: int, b: int| 0 <= a < b < self@.len() implies (
                    #[trigger] self@[a]).target != (#[trigger] self@[b]).target by {
                        if a < idx {
                            assert(self@[a] == old(self)@[a]);
                        } else {
                            assert(self@[a] == old(self)@[a + 1]);
                        }
                        if b < idx {
                            assert(self@[b] == old(self)@[b]);
                        } else {
                            assert(self@[b] == old(self)@[b + 1]);
                        }
                    }
                    assert forall|a: int| 0 <= a < self@.len() implies (
                    #[trigger] self@[a]).target != target by {
                        if a < idx {
                            assert(self@[a] == old(self)@[a]);
                        } else {
                            assert(self@[a] == old(self)@[a + 1]);
                            if old(self)@[a + 1].target == target {
                                assert(old(self)@[idx].target == old(self)@[a + 1].target);
                            }
                        }
                    }
                }
                return Some(rec);
            }
            i = i + 1;
        }
        None
    }
}

/// Install idempotence-of-failure: once a hook for `target` stands in the
/// registry, planning a second installation on the same address decides
/// `AlreadyInstalled`, whatever prologue is offered — and since planning
/// never mutates the registry, the first hook's record is untouched.
pub proof fn lemma_second_install_rejected(reg: HookRegistry, target: u64, lens: Seq<usize>)
    requires
        reg.spec_contains_target(target),
    ensures
        reg.spec_plan_outcome(target, lens) == Err::<int, HookError>(HookError::AlreadyInstalled),
{
}

} // verus!

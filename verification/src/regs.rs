//! The captured register file an intercepted call arrives with.

use vstd::prelude::*;

verus! {

/// Number of integer-class argument registers the calling convention uses
/// before parameters continue on the stack.
pub const ARG_REGISTER_COUNT: usize = 6;

/// A capture of the general-purpose register file at the instant a diverted
/// call enters the engine, together with the caller's stack argument slots.
///
/// Each intercepted invocation owns its snapshot exclusively for the
/// duration of the callback; it never escapes that scope, so no two
/// concurrent calls ever share one.
#[derive(Debug)]
pub struct RegisterSnapshot {
    pub rax: u64,
    pub rbx: u64,
    pub rcx: u64,
    pub rdx: u64,
    pub rsi: u64,
    pub rdi: u64,
    pub rbp: u64,
    pub rsp: u64,
    pub r8: u64,
    pub r9: u64,
    pub r10: u64,
    pub r11: u64,
    pub r12: u64,
    pub r13: u64,
    pub r14: u64,
    pub r15: u64,
    /// The caller's stack argument slots, in order, starting with the first
    /// slot past the return address.
    pub stack: Vec<u64>,
}

impl RegisterSnapshot {
    /// How many integer-class argument slots this snapshot carries.
    pub open spec fn slot_count(self) -> int {
        ARG_REGISTER_COUNT + self.stack@.len()
    }

    /// The value the calling convention assigns to the `i`-th integer-class
    /// parameter: the first six travel in `rdi`, `rsi`, `rdx`, `rcx`, `r8`,
    /// `r9`, in that order; every later one occupies the next stack slot.
    pub open spec fn arg_slot(self, i: int) -> u64
        recommends
            0 <= i < self.slot_count(),
    {
        if i == 0 {
            self.rdi
        } else if i == 1 {
            self.rsi
        } else if i == 2 {
            self.rdx
        } else if i == 3 {
            self.rcx
        } else if i == 4 {
            self.r8
        } else if i == 5 {
            self.r9
        } else {
            self.stack@[i - 6]
        }
    }

    /// Reads the `i`-th integer-class parameter out of the snapshot,
    /// following the convention's register order and continuing onto the
    /// stack once the register list is exhausted.
    pub fn arg(&self, i: usize) -> (v: u64)
        requires
            i < self.slot_count(),
        ensures
            v == self.arg_slot(i as int),
    {
        if i == 0 {
            self.rdi
        } else if i == 1 {
            self.rsi
        } else if i == 2 {
            self.rdx
        } else if i == 3 {
            self.rcx
        } else if i == 4 {
            self.r8
        } else if i == 5 {
            self.r9
        } else {
            self.stack[i - 6]
        }
    }
}

} // verus!

//! The failure taxonomy of the interception engine.

use vstd::prelude::*;

verus! {

/// Everything that can go wrong while resolving, installing, or checking a
/// hook. Installation failures are final for that attempt: a failed patch on
/// live code is never retried blindly.
#[derive(Copy, Clone, PartialEq, Eq, Structural, Debug)]
pub enum HookError {
    /// The target shared library could not be mapped into the process.
    LibraryLoadFailed,
    /// The library is mapped but exports no symbol under the requested name.
    SymbolNotFound,
    /// The target function's prologue ends before whole instructions can
    /// cover the patch, so a redirect cannot be written without splitting
    /// an instruction.
    PrologueTooShort,
    /// The code pages could not be made writable for the patch.
    ProtectionFailed,
    /// A hook is already installed on this address; a second installation
    /// is reported, never silently ignored.
    AlreadyInstalled,
    /// Decoded arguments are inconsistent with an invariant the caller
    /// supplied; the engine cannot detect this on its own.
    DecodeMismatch,
}

impl HookError {
    /// A short human-readable name for the failure.
    pub fn describe(&self) -> (s: &'static str)
        ensures
            match *self {
                HookError::LibraryLoadFailed => s@ == "library load failed"@,
                HookError::SymbolNotFound => s@ == "symbol not found"@,
                HookError::PrologueTooShort => s@ == "prologue too short"@,
                HookError::ProtectionFailed => s@ == "memory protection failed"@,
                HookError::AlreadyInstalled => s@ == "already installed"@,
                HookError::DecodeMismatch => s@ == "decode mismatch"@,
            },
    {
        match *self {
            HookError::LibraryLoadFailed => "library load failed",
            HookError::SymbolNotFound => "symbol not found",
            HookError::PrologueTooShort => "prologue too short",
            HookError::ProtectionFailed => "memory protection failed",
            HookError::AlreadyInstalled => "already installed",
            HookError::DecodeMismatch => "decode mismatch",
        }
    }
}

} // verus!

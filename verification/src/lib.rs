//! A dynamic function interception engine for a kernel-launch entry point.
//!
//! The engine redirects calls to a live function address through a
//! user-supplied handler: it decodes the intercepted call's arguments from a
//! captured register file per the calling convention, lets the handler
//! observe, rewrite, or short-circuit the call, and propagates either the
//! handler's value or the original function's return value back to the
//! caller. The pieces that must touch raw memory — reading code bytes,
//! flipping page protection, executing the relocated prologue — live outside
//! this crate; everything the engine decides or computes is here, with its
//! contract.

use vstd::prelude::*;

pub mod adapter;
pub mod error;
pub mod patch;
pub mod regs;
pub mod registry;
pub mod runtime;

verus! {

/// Launch geometry of one kernel call: a three-component extent, laid out as
/// three 32-bit words exactly as the intercepted function receives it.
#[allow(non_camel_case_types)]
#[derive(Copy, Clone, PartialEq, Eq, Structural, Debug)]
pub struct dim3 {
    pub x: u32,
    pub y: u32,
    pub z: u32,
}

impl dim3 {
    /// Builds an extent from its three components.
    pub fn new(x: u32, y: u32, z: u32) -> (d: dim3)
        ensures
            d == (dim3 { x, y, z }),
    {
        dim3 { x, y, z }
    }
}

} // verus!

//! The ordering of memory accesses against the device.

use vstd::prelude::*;

verus! {

/// Calls `core::sync::atomic::fence` with sequentially consistent
/// ordering. No store that follows in program order is made before a load
/// that precedes; nothing is claimed of any value.
#[verifier::external_body]
pub(crate) fn memory_fence() {
    core::sync::atomic::fence(core::sync::atomic::Ordering::SeqCst);
}

} // verus!

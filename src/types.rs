use vstd::prelude::*;

verus! {

/// Identifier of a logical processor, as the native library numbers them.
pub type CpuId = u32;

/// A frequency in kilohertz. The native library uses 0 for "unavailable".
pub type Frequency = u64;

} // verus!

use vstd::prelude::*;

use crate::error::CpuPowerError;

verus! {

/// The result of every fallible operation of this crate.
pub type Result<T> = core::result::Result<T, CpuPowerError>;

} // verus!

//! The parameters of the safety-number fingerprints that the bindings compute.
use vstd::prelude::*;

verus! {

/// Version of the displayable fingerprint format.
pub const FINGERPRINT_VERSION: u32 = 2;

/// Number of hash iterations over each identifier and identity key.
pub const FINGERPRINT_ITERATIONS: u32 = 5200;

} // verus!

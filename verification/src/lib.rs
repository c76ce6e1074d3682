//! Verified core logic of the Aesynx kernel: identifiers, capabilities, boot
//! handoff normalization, multicore startup bookkeeping, bytecode bounds,
//! x86_64 encodings and the policy layer.

use vstd::prelude::*;

pub mod abi;
pub mod arch;
pub mod boot;
pub mod bytecode;
pub mod cap;
pub mod multicore;
pub mod policy;
pub mod x86_64;

verus! {

} // verus!

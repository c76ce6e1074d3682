//! Boot handoff: the memory map with its accounting, the kernel image and
//! processor descriptions, and the normalization that validates a raw
//! bootloader handoff.

pub mod normalize;
pub mod types;

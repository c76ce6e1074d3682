use vstd::prelude::*;

verus! {

/// What kind of object a capability names.
#[derive(Clone, Copy, Debug, PartialEq, Eq, Structural)]
pub enum CapKind {
    /// A generic kernel object.
    Object,
    /// A region of memory that can be mapped.
    Memory,
}

} // verus!

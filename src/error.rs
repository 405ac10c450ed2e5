use vstd::prelude::*;

verus! {

/// The ways in which building, reading or moving through a buffer can fail.
#[derive(Debug, Clone, Copy, PartialEq, Eq, Structural)]
pub enum HBufError {
    /// A buffer of zero bytes was asked for.
    ZeroSize,
    /// The allocator could not provide the memory.
    OutOfMemory,
    /// The alignment is not a power of two, or size and alignment together
    /// do not describe a valid layout.
    LayoutError,
    /// A read, write or seek would have crossed the limit.
    UnexpectedEof,
}

impl HBufError {
    /// The name of the error, as `HBufError::<variant>`.
    pub fn name(&self) -> (r: &'static str)
        ensures
            *self == HBufError::ZeroSize ==> r@ == "HBufError::ZeroSize"@,
            *self == HBufError::OutOfMemory ==> r@ == "HBufError::OutOfMemory"@,
            *self == HBufError::LayoutError ==> r@ == "HBufError::LayoutError"@,
            *self == HBufError::UnexpectedEof ==> r@ == "HBufError::UnexpectedEof"@,
    {
        match self {
            HBufError::ZeroSize => "HBufError::ZeroSize",
            HBufError::OutOfMemory => "HBufError::OutOfMemory",
            HBufError::LayoutError => "HBufError::LayoutError",
            HBufError::UnexpectedEof => "HBufError::UnexpectedEof",
        }
    }
}

} // verus!

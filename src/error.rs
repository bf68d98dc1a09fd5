use vstd::prelude::*;

verus! {

/// Why a dispatch was refused or a read-back was rejected.
#[derive(PartialEq, Eq, Structural, Debug, Copy, Clone)]
pub enum ComputeError {
    /// A dispatch was asked for while the previous one was not yet drained.
    Busy,
    /// The bytes read back are not exactly one chunk long.
    SizeMismatch { expected: usize, found: usize },
    /// The byte at `index` of the read-back encodes no voxel state.
    InvalidVoxel { index: usize },
}

impl ComputeError {
    /// Whether the error means the device wrote or copied malformed data,
    /// which a caller must treat as fatal.
    pub open spec fn spec_is_integrity_violation(self) -> bool {
        !(self is Busy)
    }

    pub fn is_integrity_violation(&self) -> (r: bool)
        ensures
            r == self.spec_is_integrity_violation(),
    {
        match self {
            ComputeError::Busy => false,
            _ => true,
        }
    }
}

} // verus!

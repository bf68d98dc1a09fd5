use vstd::prelude::*;

verus! {

/// The state of one voxel cell, stored on the device as a single byte.
#[derive(PartialEq, Eq, Structural, Hash, Debug, Copy, Clone)]
pub enum VoxelState {
    Air,
    Sand,
}

/// Whether `b` is the byte encoding of some voxel state.
pub open spec fn is_voxel_byte(b: u8) -> bool {
    b < 2
}

impl VoxelState {
    /// The byte that encodes this state.
    pub open spec fn spec_byte(self) -> u8 {
        match self {
            VoxelState::Air => 0,
            VoxelState::Sand => 1,
        }
    }

    pub fn to_byte(self) -> (b: u8)
        ensures
            b == self.spec_byte(),
            is_voxel_byte(b),
    {
        match self {
            VoxelState::Air => 0,
            VoxelState::Sand => 1,
        }
    }

    /// Decodes a byte; bytes outside the encoding give `None`.
    pub fn from_byte(b: u8) -> (r: Option<VoxelState>)
        ensures
            r is Some <==> is_voxel_byte(b),
            r matches Some(v) ==> v.spec_byte() == b,
    {
        if b == 0 {
            Some(VoxelState::Air)
        } else if b == 1 {
            Some(VoxelState::Sand)
        } else {
            None
        }
    }
}

impl Default for VoxelState {
    fn default() -> (r: VoxelState)
        ensures
            r == VoxelState::Air,
    {
        VoxelState::Air
    }
}

} // verus!

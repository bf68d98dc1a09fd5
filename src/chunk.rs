use vstd::prelude::*;

use crate::error::ComputeError;
use crate::voxel::{is_voxel_byte, VoxelState};

verus! {

/// Cells along each horizontal axis (x and z).
pub const CHUNK_HORIZONTAL: usize = 4;

/// Cells along the vertical axis (y).
pub const CHUNK_VERTICAL: usize = 4;

/// Size in bytes of a chunk as it travels to and from the device.
pub const CHUNK_BYTES: usize = CHUNK_VERTICAL * CHUNK_HORIZONTAL * CHUNK_HORIZONTAL;

/// The voxel grid, indexed `[y][z][x]`.
pub type Voxels = [[[u8; CHUNK_HORIZONTAL]; CHUNK_HORIZONTAL]; CHUNK_VERTICAL];

/// Position of cell (x, y, z) in the chunk's flat byte image.
pub open spec fn byte_index(x: int, y: int, z: int) -> int {
    y * 16 + z * 4 + x
}

/// Whether (x, y, z) names a cell of a chunk.
pub open spec fn in_chunk(x: int, y: int, z: int) -> bool {
    0 <= x < CHUNK_HORIZONTAL && 0 <= y < CHUNK_VERTICAL && 0 <= z < CHUNK_HORIZONTAL
}

/// The flat byte image of a voxel grid: the outer index varies slowest,
/// with no padding, which is how Rust lays out nested arrays.
pub open spec fn layout_bytes(v: Voxels) -> Seq<u8> {
    Seq::new(CHUNK_BYTES as nat, |i: int| v@[i / 16]@[(i / 4) % 4]@[i % 4])
}

/// Whether every byte of `s` encodes a voxel state.
pub open spec fn all_voxel_bytes(s: Seq<u8>) -> bool {
    forall|i: int| 0 <= i < s.len() ==> is_voxel_byte(#[trigger] s[i])
}

/// What reading a chunk back from the bytes `data` gives: an error where they
/// are not one chunk long, or where some byte encodes no voxel state (naming
/// the first), and otherwise the chunk with exactly those bytes.
pub open spec fn read_back_result(data: Seq<u8>, r: Result<Chunk, ComputeError>) -> bool {
    if data.len() != CHUNK_BYTES {
        r == Err::<Chunk, ComputeError>(
            ComputeError::SizeMismatch { expected: CHUNK_BYTES, found: data.len() as usize },
        )
    } else if all_voxel_bytes(data) {
        r matches Ok(c) && c@ == data
    } else {
        r matches Err(ComputeError::InvalidVoxel { index }) && index < data.len() && !is_voxel_byte(
            data[index as int],
        ) && all_voxel_bytes(data.take(index as int))
    }
}

/// Relies on bytemuck::cast between two plain byte arrays of one size: the
/// bits are kept, so the flat array is the grid in memory order.
#[verifier::external_body]
fn cast_to_bytes(v: Voxels) -> (r: [u8; CHUNK_BYTES])
    ensures
        r@ == layout_bytes(v),
{
    bytemuck::cast::<Voxels, [u8; CHUNK_BYTES]>(v)
}

/// Relies on bytemuck::cast between two plain byte arrays of one size: the
/// bits are kept, so the grid is the flat array read in memory order.
#[verifier::external_body]
fn cast_from_bytes(b: [u8; CHUNK_BYTES]) -> (r: Voxels)
    ensures
        layout_bytes(r) == b@,
{
    bytemuck::cast::<[u8; CHUNK_BYTES], Voxels>(b)
}

proof fn lemma_index_parts(x: int, y: int, z: int)
    requires
        in_chunk(x, y, z),
    ensures
        0 <= byte_index(x, y, z) < CHUNK_BYTES,
        byte_index(x, y, z) / 16 == y,
        (byte_index(x, y, z) / 4) % 4 == z,
        byte_index(x, y, z) % 4 == x,
{
}

/// Two grids with one byte image are the same grid.
pub proof fn lemma_layout_injective(a: Voxels, b: Voxels)
    requires
        layout_bytes(a) == layout_bytes(b),
    ensures
        a == b,
{
    assert forall|y: int, z: int| 0 <= y < 4 && 0 <= z < 4 implies a@[y]@[z] == b@[y]@[z] by {
        assert forall|x: int| 0 <= x < 4 implies a@[y]@[z]@[x] == b@[y]@[z]@[x] by {
            lemma_index_parts(x, y, z);
            let i = byte_index(x, y, z);
            assert(layout_bytes(a)[i] == a@[i / 16]@[(i / 4) % 4]@[i % 4]);
            assert(layout_bytes(b)[i] == b@[i / 16]@[(i / 4) % 4]@[i % 4]);
        }
        assert(a@[y]@[z] =~= b@[y]@[z]);
    }
    assert forall|y: int| 0 <= y < 4 implies a@[y] == b@[y] by {
        assert(a@[y] =~= b@[y]);
    }
    assert(a =~= b);
}

} // verus!

verus! {

proof fn lemma_index_whole(i: int)
    requires
        0 <= i < CHUNK_BYTES,
    ensures
        in_chunk(i % 4, i / 16, (i / 4) % 4),
        i == byte_index(i % 4, i / 16, (i / 4) % 4),
{
}

/// A fixed-size grid of voxel states, the unit of transfer to the device.
#[derive(Eq, Hash, Debug, Copy, Clone)]
pub struct Chunk {
    pub voxels: Voxels,
}

impl View for Chunk {
    type V = Seq<u8>;

    /// The chunk's flat byte image, as the device sees it.
    open spec fn view(&self) -> Seq<u8> {
        layout_bytes(self.voxels)
    }
}

impl Chunk {
    /// The byte held by cell (x, y, z).
    pub open spec fn cell(self, x: int, y: int, z: int) -> u8 {
        self.voxels@[y]@[z]@[x]
    }

    /// Every cell holds a voxel state.
    pub open spec fn wf(self) -> bool {
        all_voxel_bytes(self@)
    }

    /// An all-air chunk.
    pub fn new() -> (r: Chunk)
        ensures
            r@ == Seq::new(CHUNK_BYTES as nat, |i: int| 0u8),
            r.wf(),
    {
        let r = Chunk { voxels: [[[0u8; CHUNK_HORIZONTAL]; CHUNK_HORIZONTAL]; CHUNK_VERTICAL] };
        assert(r@ =~= Seq::new(CHUNK_BYTES as nat, |i: int| 0u8));
        r
    }

    pub fn get(&self, x: usize, y: usize, z: usize) -> (r: u8)
        requires
            in_chunk(x as int, y as int, z as int),
        ensures
            r == self.cell(x as int, y as int, z as int),
            r == self@[byte_index(x as int, y as int, z as int)],
    {
        proof {
            lemma_index_parts(x as int, y as int, z as int);
        }
        self.voxels[y][z][x]
    }

    /// The state held by cell (x, y, z), or `None` where its byte encodes none.
    pub fn voxel(&self, x: usize, y: usize, z: usize) -> (r: Option<VoxelState>)
        requires
            in_chunk(x as int, y as int, z as int),
        ensures
            r is Some <==> is_voxel_byte(self.cell(x as int, y as int, z as int)),
            r matches Some(v) ==> v.spec_byte() == self.cell(x as int, y as int, z as int),
    {
        VoxelState::from_byte(self.get(x, y, z))
    }

    /// Puts `v` into cell (x, y, z), leaving every other cell as it was.
    pub fn set(&mut self, x: usize, y: usize, z: usize, v: VoxelState)
        requires
            in_chunk(x as int, y as int, z as int),
        ensures
            final(self)@ == old(self)@.update(byte_index(x as int, y as int, z as int), v.spec_byte()),
    {
        let mut plane = self.voxels[y];
        let mut row = plane[z];
        row[x] = v.to_byte();
        plane[z] = row;
        self.voxels[y] = plane;
        proof {
            lemma_index_parts(x as int, y as int, z as int);
            let k = byte_index(x as int, y as int, z as int);
            assert forall|i: int| 0 <= i < CHUNK_BYTES implies #[trigger] self@[i] == old(self)@.update(
                k,
                v.spec_byte(),
            )[i] by {
                lemma_index_whole(i);
            }
            assert(self@ =~= old(self)@.update(k, v.spec_byte()));
        }
    }

    /// The chunk as the opaque byte blob that is uploaded to the device.
    pub fn to_bytes(&self) -> (r: [u8; CHUNK_BYTES])
        ensures
            r@ == self@,
    {
        cast_to_bytes(self.voxels)
    }

    /// The chunk whose byte image is `b`.
    pub fn from_bytes(b: [u8; CHUNK_BYTES]) -> (r: Chunk)
        ensures
            r@ == b@,
    {
        Chunk { voxels: cast_from_bytes(b) }
    }

    /// Reads a chunk back from the bytes of a host-readable region: they must
    /// be exactly one chunk long, and every byte must encode a voxel state.
    pub fn from_slice(data: &[u8]) -> (r: Result<Chunk, ComputeError>)
        ensures
            read_back_result(data@, r),
    {
        if data.len() != CHUNK_BYTES {
            return Err(ComputeError::SizeMismatch { expected: CHUNK_BYTES, found: data.len() });
        }
        let mut b = [0u8; CHUNK_BYTES];
        let mut i: usize = 0;
        while i < CHUNK_BYTES
            invariant
                0 <= i <= CHUNK_BYTES,
                data@.len() == CHUNK_BYTES,
                forall|j: int| 0 <= j < i ==> b@[j] == data@[j],
                all_voxel_bytes(data@.take(i as int)),
            decreases CHUNK_BYTES - i,
        {
            if data[i] >= 2 {
                return Err(ComputeError::InvalidVoxel { index: i });
            }
            b[i] = data[i];
            proof {
                assert(data@.take(i + 1) =~= data@.take(i as int).push(data@[i as int]));
            }
            i = i + 1;
        }
        proof {
            assert(b@ =~= data@);
            assert(data@.take(CHUNK_BYTES as int) =~= data@);
        }
        Ok(Chunk::from_bytes(b))
    }

    /// Whether every cell holds a voxel state.
    pub fn is_valid(&self) -> (r: bool)
        ensures
            r == self.wf(),
    {
        let b = self.to_bytes();
        let mut i: usize = 0;
        while i < CHUNK_BYTES
            invariant
                0 <= i <= CHUNK_BYTES,
                b@ == self@,
                forall|j: int| 0 <= j < i ==> is_voxel_byte(#[trigger] b@[j]),
            decreases CHUNK_BYTES - i,
        {
            if b[i] >= 2 {
                return false;
            }
            i = i + 1;
        }
        true
    }
}

impl PartialEq for Chunk {
    fn eq(&self, other: &Chunk) -> (r: bool)
        ensures
            r == (self.voxels == other.voxels),
    {
        let a = self.to_bytes();
        let b = other.to_bytes();
        let mut i: usize = 0;
        while i < CHUNK_BYTES
            invariant
                0 <= i <= CHUNK_BYTES,
                a@ == self@,
                b@ == other@,
                forall|j: int| 0 <= j < i ==> a@[j] == b@[j],
            decreases CHUNK_BYTES - i,
        {
            if a[i] != b[i] {
                return false;
            }
            i = i + 1;
        }
        proof {
            assert(a@ =~= b@);
            lemma_layout_injective(self.voxels, other.voxels);
        }
        true
    }
}

impl vstd::std_specs::cmp::PartialEqSpecImpl for Chunk {
    open spec fn obeys_eq_spec() -> bool {
        true
    }

    open spec fn eq_spec(&self, other: &Chunk) -> bool {
        self.voxels == other.voxels
    }
}

impl Default for Chunk {
    fn default() -> (r: Chunk)
        ensures
            r@ == Seq::new(CHUNK_BYTES as nat, |i: int| 0u8),
    {
        Chunk::new()
    }
}

} // verus!

//! A voxel chunk that is handed to a GPU compute program and read back
//! without blocking the frame loop, and the dispatch / completion handshake
//! that governs it.
pub mod chunk;
pub mod compute;
pub mod error;
pub mod laws;
pub mod voxel;

pub use chunk::{Chunk, CHUNK_BYTES, CHUNK_HORIZONTAL, CHUNK_VERTICAL};
pub use compute::{signal_completion, Compute, MapOutcome, Phase, PollOutcome};
pub use error::ComputeError;
pub use voxel::VoxelState;

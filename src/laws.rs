use vstd::prelude::*;

use crate::chunk::{all_voxel_bytes, lemma_layout_injective, read_back_result, Chunk};
use crate::compute::{dispatch_step, poll_step, MapOutcome, Phase, PollOutcome};
use crate::error::ComputeError;

verus! {

/// A dispatch from an idle engine is accepted; polls that find the channel
/// empty keep it in flight and report nothing, so no result is lost while
/// waiting; its completion reports one result to read; reading back the
/// staging region, which holds as many bytes as the dispatched chunk, gives
/// a chunk of that size; after that, every poll reports nothing.
pub proof fn lemma_dispatch_yields_one_result(c: Chunk, data: Seq<u8>)
    requires
        data.len() == c@.len(),
        all_voxel_bytes(data),
    ensures
        dispatch_step(Phase::Idle) == (Phase::Awaiting, true),
        poll_step(Phase::Awaiting, None) == (Phase::Awaiting, PollOutcome::NoResult),
        poll_step(Phase::Awaiting, Some(MapOutcome::Mapped)) == (
            Phase::Reading,
            PollOutcome::ReadyToRead,
        ),
        forall|r: Result<Chunk, ComputeError>| #[trigger]
            read_back_result(data, r) ==> (r matches Ok(d) && d@.len() == c@.len()),
        forall|o: Option<MapOutcome>| #[trigger]
            poll_step(Phase::Idle, o) == (Phase::Idle, PollOutcome::NoResult),
{
}

/// Where the device program leaves the bytes as they were, the chunk read
/// back is the chunk dispatched, voxel for voxel.
pub proof fn lemma_identity_round_trip(c: Chunk)
    requires
        c.wf(),
    ensures
        forall|r: Result<Chunk, ComputeError>| #[trigger] read_back_result(c@, r) ==> r == Ok::<Chunk, ComputeError>(c),
{
    assert forall|r: Result<Chunk, ComputeError>| #[trigger] read_back_result(c@, r) implies r
        == Ok::<Chunk, ComputeError>(c) by {
        if let Ok(d) = r {
            lemma_layout_injective(d.voxels, c.voxels);
        }
    }
}

/// A poll with nothing dispatched reports no result and leaves the engine
/// idle, whatever the channel holds.
pub proof fn lemma_poll_without_dispatch(o: Option<MapOutcome>)
    ensures
        poll_step(Phase::Idle, o) == (Phase::Idle, PollOutcome::NoResult),
{
}

/// A completed dispatch is reported once: once its result has been read,
/// which leaves the engine idle, the next poll reports no result.
pub proof fn lemma_result_drained_once(o: Option<MapOutcome>)
    ensures
        poll_step(Phase::Awaiting, Some(MapOutcome::Mapped)).1 == PollOutcome::ReadyToRead,
        poll_step(Phase::Idle, o).1 == PollOutcome::NoResult,
{
}

/// A second dispatch before the first was drained is refused, and the first
/// stays in flight untouched.
pub proof fn lemma_second_dispatch_refused(p: Phase)
    requires
        p != Phase::Idle,
    ensures
        dispatch_step(dispatch_step(Phase::Idle).0) == (Phase::Awaiting, false),
        dispatch_step(p) == (p, false),
{
}

} // verus!

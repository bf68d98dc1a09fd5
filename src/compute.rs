use vstd::prelude::*;

use crate::chunk::{read_back_result, Chunk, CHUNK_BYTES};
use crate::error::ComputeError;

verus! {

#[verifier::external_type_specification]
#[verifier::external_body]
#[verifier::reject_recursive_types(T)]
pub struct ExSender<T>(flume::Sender<T>);

#[verifier::external_type_specification]
#[verifier::external_body]
#[verifier::reject_recursive_types(T)]
pub struct ExReceiver<T>(flume::Receiver<T>);

/// What the device reports when its request to make the staging region
/// host-readable completes.
#[derive(PartialEq, Eq, Structural, Debug, Copy, Clone)]
pub enum MapOutcome {
    /// The staging region is mapped and holds the result.
    Mapped,
    /// The mapping failed.
    Failed,
}

/// Where the engine stands in its dispatch / completion handshake.
#[derive(PartialEq, Eq, Structural, Debug, Copy, Clone)]
pub enum Phase {
    /// Nothing in flight: a dispatch may be issued.
    Idle,
    /// A dispatch was submitted and its completion has not been seen yet.
    Awaiting,
    /// The completion reported a mapped staging region that has not been
    /// read and released yet.
    Reading,
}

/// What one poll of the engine reports.
#[derive(PartialEq, Eq, Structural, Debug, Copy, Clone)]
pub enum PollOutcome {
    /// No result yet, or nothing was dispatched.
    NoResult,
    /// The staging region is mapped: read it, release it, and hand its bytes
    /// to `finish_read`.
    ReadyToRead,
    /// The mapping failed; the engine is idle again.
    MapFailed,
}

/// A dispatch request in phase `p`: the next phase, and whether the dispatch
/// is accepted.
pub open spec fn dispatch_step(p: Phase) -> (Phase, bool) {
    match p {
        Phase::Idle => (Phase::Awaiting, true),
        _ => (p, false),
    }
}

/// A poll in phase `p` that finds `o` in the completion channel (`None` where
/// it is empty, or was not looked at): the next phase and what is reported.
pub open spec fn poll_step(p: Phase, o: Option<MapOutcome>) -> (Phase, PollOutcome) {
    match p {
        Phase::Idle => (Phase::Idle, PollOutcome::NoResult),
        Phase::Reading => (Phase::Reading, PollOutcome::ReadyToRead),
        Phase::Awaiting => match o {
            None => (Phase::Awaiting, PollOutcome::NoResult),
            Some(MapOutcome::Mapped) => (Phase::Reading, PollOutcome::ReadyToRead),
            Some(MapOutcome::Failed) => (Phase::Idle, PollOutcome::MapFailed),
        },
    }
}

/// Relies on flume::bounded: a fresh channel whose one slot carries the
/// completion outcome from the device's callback to the poller.
#[verifier::external_body]
fn completion_channel() -> (r: (flume::Sender<MapOutcome>, flume::Receiver<MapOutcome>)) {
    flume::bounded(1)
}

/// Relies on flume::Sender's Clone: another handle on the same channel.
#[verifier::external_body]
fn clone_sender(s: &flume::Sender<MapOutcome>) -> (r: flume::Sender<MapOutcome>) {
    s.clone()
}

/// Relies on flume::Sender::try_send: a send that never blocks; whether it
/// found room depends on what the other side did, so nothing is promised.
#[verifier::external_body]
fn try_send_outcome(s: &flume::Sender<MapOutcome>, o: MapOutcome) -> (r: bool) {
    s.try_send(o).is_ok()
}

/// Relies on flume::Receiver::try_recv: a receive that never blocks; what it
/// finds depends on when the device completed, so nothing is promised.
#[verifier::external_body]
fn try_recv_outcome(r: &flume::Receiver<MapOutcome>) -> (o: Option<MapOutcome>) {
    r.try_recv().ok()
}

/// The completion handler: hands `outcome` to the engine's channel without
/// blocking, and says whether it found room.
pub fn signal_completion(sender: &flume::Sender<MapOutcome>, outcome: MapOutcome) -> (r: bool) {
    try_send_outcome(sender, outcome)
}

/// The compute engine's host side: the handshake state and the channel on
/// which the device's completion is reported.
pub struct Compute {
    phase: Phase,
    sender: flume::Sender<MapOutcome>,
    receiver: flume::Receiver<MapOutcome>,
}

impl View for Compute {
    type V = Phase;

    closed spec fn view(&self) -> Phase {
        self.phase
    }
}

impl Compute {
    /// An idle engine with an empty completion channel.
    pub fn new() -> (r: Compute)
        ensures
            r@ == Phase::Idle,
    {
        let (sender, receiver) = completion_channel();
        Compute { phase: Phase::Idle, sender, receiver }
    }

    pub fn phase(&self) -> (r: Phase)
        ensures
            r == self@,
    {
        self.phase
    }

    /// A handle for the completion handler of a dispatch.
    pub fn completion_sender(&self) -> (r: flume::Sender<MapOutcome>) {
        clone_sender(&self.sender)
    }

    /// Accepts a dispatch of `chunk` where nothing is in flight, and gives the
    /// bytes to upload; refuses it with `Busy`, changing nothing, otherwise.
    pub fn start_compute(&mut self, chunk: &Chunk) -> (r: Result<[u8; CHUNK_BYTES], ComputeError>)
        ensures
            (final(self)@, r is Ok) == dispatch_step(old(self)@),
            r matches Ok(b) ==> b@ == chunk@,
            r is Err ==> r == Err::<[u8; CHUNK_BYTES], ComputeError>(ComputeError::Busy),
    {
        match self.phase {
            Phase::Idle => {
                self.phase = Phase::Awaiting;
                Ok(chunk.to_bytes())
            },
            _ => Err(ComputeError::Busy),
        }
    }

    /// Advances the handshake by what a look at the completion channel found.
    pub fn apply_outcome(&mut self, outcome: Option<MapOutcome>) -> (r: PollOutcome)
        ensures
            (final(self)@, r) == poll_step(old(self)@, outcome),
    {
        match self.phase {
            Phase::Idle => PollOutcome::NoResult,
            Phase::Reading => PollOutcome::ReadyToRead,
            Phase::Awaiting => match outcome {
                None => PollOutcome::NoResult,
                Some(MapOutcome::Mapped) => {
                    self.phase = Phase::Reading;
                    PollOutcome::ReadyToRead
                },
                Some(MapOutcome::Failed) => {
                    self.phase = Phase::Idle;
                    PollOutcome::MapFailed
                },
            },
        }
    }

    /// Polls without blocking. Only a dispatch in flight looks at the channel;
    /// what it finds there depends on the device.
    pub fn recv_compute(&mut self) -> (r: PollOutcome)
        ensures
            exists|o: Option<MapOutcome>| (final(self)@, r) == poll_step(old(self)@, o),
            old(self)@ != Phase::Awaiting ==> (final(self)@, r) == poll_step(old(self)@, None),
    {
        let found = match self.phase {
            Phase::Awaiting => try_recv_outcome(&self.receiver),
            _ => None,
        };
        let r = self.apply_outcome(found);
        assert((self@, r) == poll_step(old(self)@, found));
        r
    }

    /// Takes the bytes read from the mapped staging region, after it was
    /// released, and ends the dispatch: the engine is idle again.
    pub fn finish_read(&mut self, data: &[u8]) -> (r: Result<Chunk, ComputeError>)
        requires
            old(self)@ == Phase::Reading,
        ensures
            final(self)@ == Phase::Idle,
            read_back_result(data@, r),
    {
        self.phase = Phase::Idle;
        Chunk::from_slice(data)
    }
}

} // verus!

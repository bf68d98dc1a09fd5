use noitahiekka::{
    signal_completion, Chunk, Compute, ComputeError, MapOutcome, Phase, PollOutcome, VoxelState,
    CHUNK_BYTES,
};

fn complete(engine: &Compute, outcome: MapOutcome) -> bool {
    signal_completion(&engine.completion_sender(), outcome)
}

#[test]
fn poll_without_dispatch_has_no_result() {
    let mut engine = Compute::new();
    for _ in 0..10 {
        assert_eq!(engine.recv_compute(), PollOutcome::NoResult);
        assert_eq!(engine.phase(), Phase::Idle);
    }
}

#[test]
fn dispatch_yields_one_result_after_waiting() {
    let mut engine = Compute::new();
    let mut c = Chunk::new();
    c.set(2, 0, 1, VoxelState::Sand);
    let uploaded = engine.start_compute(&c).unwrap();
    assert_eq!(uploaded.len(), CHUNK_BYTES);
    for _ in 0..5 {
        assert_eq!(engine.recv_compute(), PollOutcome::NoResult);
        assert_eq!(engine.phase(), Phase::Awaiting);
    }
    assert!(complete(&engine, MapOutcome::Mapped));
    assert_eq!(engine.recv_compute(), PollOutcome::ReadyToRead);
    let out = engine.finish_read(&uploaded).unwrap();
    assert_eq!(out.to_bytes().len(), c.to_bytes().len());
    assert_eq!(engine.recv_compute(), PollOutcome::NoResult);
}

#[test]
fn identity_round_trip_keeps_every_voxel() {
    let mut engine = Compute::new();
    let mut c = Chunk::new();
    c.set(0, 0, 0, VoxelState::Sand);
    c.set(3, 1, 2, VoxelState::Sand);
    c.set(1, 3, 3, VoxelState::Sand);
    let uploaded = engine.start_compute(&c).unwrap();
    complete(&engine, MapOutcome::Mapped);
    assert_eq!(engine.recv_compute(), PollOutcome::ReadyToRead);
    assert_eq!(engine.finish_read(&uploaded), Ok(c));
}

#[test]
fn second_poll_after_completion_has_no_result() {
    let mut engine = Compute::new();
    let uploaded = engine.start_compute(&Chunk::new()).unwrap();
    complete(&engine, MapOutcome::Mapped);
    assert_eq!(engine.recv_compute(), PollOutcome::ReadyToRead);
    assert!(engine.finish_read(&uploaded).is_ok());
    assert_eq!(engine.recv_compute(), PollOutcome::NoResult);
    assert_eq!(engine.phase(), Phase::Idle);
}

#[test]
fn single_sand_voxel_comes_back_alone() {
    let mut engine = Compute::new();
    let mut c = Chunk::new();
    c.voxels[1][0][0] = VoxelState::Sand.to_byte();
    let uploaded = engine.start_compute(&c).unwrap();
    complete(&engine, MapOutcome::Mapped);
    assert_eq!(engine.recv_compute(), PollOutcome::ReadyToRead);
    let out = engine.finish_read(&uploaded).unwrap();
    for y in 0..4 {
        for z in 0..4 {
            for x in 0..4 {
                let expected = if (x, y, z) == (0, 1, 0) {
                    VoxelState::Sand
                } else {
                    VoxelState::Air
                };
                assert_eq!(out.voxel(x, y, z), Some(expected));
            }
        }
    }
}

#[test]
fn back_to_back_dispatch_is_refused() {
    let mut engine = Compute::new();
    let first = Chunk::new();
    let mut second = Chunk::new();
    second.set(1, 1, 1, VoxelState::Sand);
    let uploaded = engine.start_compute(&first).unwrap();
    assert_eq!(engine.start_compute(&second), Err(ComputeError::Busy));
    assert_eq!(engine.phase(), Phase::Awaiting);
    complete(&engine, MapOutcome::Mapped);
    assert_eq!(engine.recv_compute(), PollOutcome::ReadyToRead);
    assert_eq!(engine.start_compute(&second), Err(ComputeError::Busy));
    assert_eq!(engine.finish_read(&uploaded), Ok(first));
    assert!(engine.start_compute(&second).is_ok());
}

#[test]
fn map_failure_reports_and_returns_to_idle() {
    let mut engine = Compute::new();
    engine.start_compute(&Chunk::new()).unwrap();
    complete(&engine, MapOutcome::Failed);
    assert_eq!(engine.recv_compute(), PollOutcome::MapFailed);
    assert_eq!(engine.phase(), Phase::Idle);
    assert_eq!(engine.recv_compute(), PollOutcome::NoResult);
    assert!(engine.start_compute(&Chunk::new()).is_ok());
}

#[test]
fn mapped_region_stays_reported_until_read() {
    let mut engine = Compute::new();
    engine.start_compute(&Chunk::new()).unwrap();
    complete(&engine, MapOutcome::Mapped);
    assert_eq!(engine.recv_compute(), PollOutcome::ReadyToRead);
    assert_eq!(engine.recv_compute(), PollOutcome::ReadyToRead);
    assert_eq!(engine.phase(), Phase::Reading);
}

#[test]
fn completion_channel_holds_one_outcome() {
    let engine = Compute::new();
    assert!(complete(&engine, MapOutcome::Mapped));
    assert!(!complete(&engine, MapOutcome::Mapped));
}

#[test]
fn apply_outcome_follows_the_handshake() {
    let mut engine = Compute::new();
    assert_eq!(engine.apply_outcome(Some(MapOutcome::Mapped)), PollOutcome::NoResult);
    assert_eq!(engine.phase(), Phase::Idle);
    engine.start_compute(&Chunk::new()).unwrap();
    assert_eq!(engine.apply_outcome(None), PollOutcome::NoResult);
    assert_eq!(engine.apply_outcome(Some(MapOutcome::Mapped)), PollOutcome::ReadyToRead);
    assert_eq!(engine.phase(), Phase::Reading);
}

#[test]
fn finish_read_rejects_short_read_and_goes_idle() {
    let mut engine = Compute::new();
    engine.start_compute(&Chunk::new()).unwrap();
    complete(&engine, MapOutcome::Mapped);
    engine.recv_compute();
    assert_eq!(
        engine.finish_read(&[0u8; 16]),
        Err(ComputeError::SizeMismatch { expected: CHUNK_BYTES, found: 16 })
    );
    assert_eq!(engine.phase(), Phase::Idle);
}

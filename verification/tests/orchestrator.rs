use laplace_eq_therm::{
    LocalInfoType, Server, ServerError, SimulationResult, StubEngine, StubSpace,
};

/// A stub engine whose every space succeeds, filling each cell with `fill`.
fn all_success_engine(spaces: usize, fill: f32) -> StubEngine {
    let mut entries = Vec::new();
    for i in 0..spaces {
        entries.push(StubSpace {
            name: format!("space-{}", i),
            error_code: 0,
            message: String::new(),
            fill: fill.to_bits(),
        });
    }
    StubEngine { entries }
}

#[test]
fn record_then_snapshot_shows_reading() {
    let mut server = Server::new(4, 3, all_success_engine(1, 1.0));
    let r = server.set(1, 2, (36.5f32).to_bits(), LocalInfoType::Boundary);
    assert_eq!(r, Ok(()));
    let snap = server.get_simulation_results().unwrap();
    assert_eq!(snap.info.temp[2][1], (36.5f32).to_bits());
    assert_eq!(snap.info.kind[2][1], LocalInfoType::Boundary);
}

#[test]
fn last_write_wins_on_same_coordinate() {
    let mut server = Server::new(4, 3, all_success_engine(1, 1.0));
    assert_eq!(server.set(1, 1, (5.0f32).to_bits(), LocalInfoType::Boundary), Ok(()));
    assert_eq!(server.set(1, 1, (9.0f32).to_bits(), LocalInfoType::GroundTruth), Ok(()));
    let snap = server.get_simulation_results().unwrap();
    assert_eq!(snap.info.temp[1][1], (9.0f32).to_bits());
    assert_eq!(snap.info.kind[1][1], LocalInfoType::GroundTruth);
}

#[test]
fn out_of_bounds_record_rejected_and_grid_unchanged() {
    let mut server = Server::new(3, 2, all_success_engine(2, 4.0));
    assert_eq!(server.set(0, 0, (25.0f32).to_bits(), LocalInfoType::Boundary), Ok(()));
    let before = server.get_simulation_results().unwrap();
    assert_eq!(
        server.set(3, 0, (1.0f32).to_bits(), LocalInfoType::Boundary),
        Err(ServerError::InvalidCoordinate)
    );
    assert_eq!(
        server.set(0, 2, (1.0f32).to_bits(), LocalInfoType::Boundary),
        Err(ServerError::InvalidCoordinate)
    );
    assert_eq!(
        server.set(9, 9, (1.0f32).to_bits(), LocalInfoType::Boundary),
        Err(ServerError::InvalidCoordinate)
    );
    let after = server.get_simulation_results().unwrap();
    assert_eq!(before, after);
}

#[test]
fn snapshot_twice_without_record_is_identical() {
    let mut server = Server::new(3, 3, all_success_engine(2, 7.25));
    assert_eq!(server.set(2, 2, (3.5f32).to_bits(), LocalInfoType::GroundTruth), Ok(()));
    let first = server.get_simulation_results().unwrap();
    let second = server.get_simulation_results().unwrap();
    assert_eq!(first.info, second.info);
    // the stub engine is deterministic, so the space outcomes agree as well
    assert_eq!(first, second);
}

#[test]
fn partial_failure_isolated_to_failing_space() {
    let entries = vec![
        StubSpace {
            name: "space-0".to_string(),
            error_code: 0,
            message: String::new(),
            fill: (1.0f32).to_bits(),
        },
        StubSpace {
            name: "space-1".to_string(),
            error_code: 7,
            message: "insufficient data".to_string(),
            fill: 0,
        },
        StubSpace {
            name: "space-2".to_string(),
            error_code: 0,
            message: String::new(),
            fill: (2.0f32).to_bits(),
        },
    ];
    let server = Server::new(2, 2, StubEngine { entries });
    let snap = server.get_simulation_results().unwrap();
    assert_eq!(snap.results.len(), 3);
    match &snap.results[1] {
        SimulationResult::Failure { error_code, message } => {
            assert_eq!(*error_code, 7);
            assert_eq!(message, "insufficient data");
        }
        SimulationResult::Success(_) => panic!("space 1 must fail"),
    }
    for idx in [0usize, 2usize] {
        match &snap.results[idx] {
            SimulationResult::Success(si) => {
                assert_eq!(si.width, 2);
                assert_eq!(si.height, 2);
                assert_eq!(si.temp.len(), 2);
                assert_eq!(si.temp[0].len(), 2);
            }
            SimulationResult::Failure { .. } => panic!("spaces 0 and 2 must succeed"),
        }
    }
}

#[test]
fn snapshot_point_is_never_torn() {
    // A snapshot interleaved with a write to (2, 2) must show the old pair
    // or the new pair of (temperature, kind) — never a mixture.  Writes
    // are serialized with full-grid reads by exclusive ownership, so the
    // two possible interleavings are snapshot-before and snapshot-after.
    let old_pair = ((0.0f32).to_bits(), LocalInfoType::OutOfRange);
    let new_pair = ((42.0f32).to_bits(), LocalInfoType::Boundary);
    let mut server = Server::new(4, 4, all_success_engine(1, 0.5));
    for snap_first in [true, false] {
        let observed = if snap_first {
            let snap = server.get_simulation_results().unwrap();
            server.set(2, 2, new_pair.0, new_pair.1).unwrap();
            snap
        } else {
            server.set(2, 2, new_pair.0, new_pair.1).unwrap();
            server.get_simulation_results().unwrap()
        };
        let pair = (observed.info.temp[2][2], observed.info.kind[2][2]);
        assert!(pair == old_pair || pair == new_pair);
        // reset for the second interleaving
        server.set(2, 2, old_pair.0, old_pair.1).unwrap();
    }
}

#[test]
fn closed_server_fails_fast() {
    let mut server = Server::new(3, 2, all_success_engine(2, 1.0));
    server.close();
    assert_eq!(
        server.set(0, 0, (1.0f32).to_bits(), LocalInfoType::Boundary),
        Err(ServerError::Closed)
    );
    assert_eq!(server.get_simulation_results(), Err(ServerError::Closed));
    // closing twice changes nothing
    server.close();
    assert_eq!(server.get_simulation_results(), Err(ServerError::Closed));
}

#[test]
fn end_to_end_three_by_two() {
    let average = (25.0f32 + 10.0f32) / 2.0f32;
    assert_eq!(average, 17.5f32);
    let mut server = Server::new(3, 2, all_success_engine(1, average));
    assert_eq!(server.set(0, 0, (25.0f32).to_bits(), LocalInfoType::Boundary), Ok(()));
    assert_eq!(server.set(2, 1, (10.0f32).to_bits(), LocalInfoType::GroundTruth), Ok(()));
    let snap = server.get_simulation_results().unwrap();
    for y in 0..2usize {
        for x in 0..3usize {
            if (x, y) == (0, 0) {
                assert_eq!(snap.info.temp[y][x], (25.0f32).to_bits());
                assert_eq!(snap.info.kind[y][x], LocalInfoType::Boundary);
            } else if (x, y) == (2, 1) {
                assert_eq!(snap.info.temp[y][x], (10.0f32).to_bits());
                assert_eq!(snap.info.kind[y][x], LocalInfoType::GroundTruth);
            } else {
                assert_eq!(snap.info.temp[y][x], (0.0f32).to_bits());
                assert_eq!(snap.info.kind[y][x], LocalInfoType::OutOfRange);
            }
        }
    }
    assert_eq!(snap.results.len(), 1);
    match &snap.results[0] {
        SimulationResult::Success(si) => {
            assert_eq!(si.width, 3);
            assert_eq!(si.height, 2);
            assert_eq!(si.name.as_deref(), Some("space-0"));
            for row in &si.temp {
                assert_eq!(row.len(), 3);
                for cell in row {
                    assert_eq!(*cell, (17.5f32).to_bits());
                }
            }
        }
        SimulationResult::Failure { .. } => panic!("the only space must succeed"),
    }
}

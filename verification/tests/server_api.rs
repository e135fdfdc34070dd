use laplace_eq_therm::{GlobalInfo, LocalInfoType, Server, StubEngine, StubSpace};

fn two_space_engine() -> StubEngine {
    StubEngine {
        entries: vec![
            StubSpace {
                name: "jacobi".to_string(),
                error_code: 0,
                message: String::new(),
                fill: (3.0f32).to_bits(),
            },
            StubSpace {
                name: "gauss-seidel".to_string(),
                error_code: 11,
                message: "did not converge".to_string(),
                fill: 0,
            },
        ],
    }
}

#[test]
fn size_reports_dimensions() {
    let server = Server::new(7, 5, two_space_engine());
    assert_eq!(server.size(), (7, 5));
}

#[test]
fn fresh_grid_is_all_out_of_range_zero() {
    let server = Server::new(2, 2, two_space_engine());
    let info: GlobalInfo = server.get();
    assert_eq!(info.temp, vec![vec![0u32; 2]; 2]);
    for row in &info.kind {
        for k in row {
            assert_eq!(*k, LocalInfoType::OutOfRange);
        }
    }
}

#[test]
fn nan_temperature_is_stored_verbatim() {
    let mut server = Server::new(2, 2, two_space_engine());
    let nan_bits = f32::NAN.to_bits();
    assert_eq!(server.set(1, 0, nan_bits, LocalInfoType::GroundTruth), Ok(()));
    let info = server.get();
    assert_eq!(info.temp[0][1], nan_bits);
    assert!(f32::from_bits(info.temp[0][1]).is_nan());
}

#[test]
fn get_num_spaces_and_names() {
    let server = Server::new(2, 2, two_space_engine());
    assert_eq!(server.get_num_spaces(), 2);
    assert_eq!(server.get_space_name(0), "jacobi");
    assert_eq!(server.get_space_name(1), "gauss-seidel");
}

#[test]
fn get_error_message_reports_engine_text() {
    let server = Server::new(2, 2, two_space_engine());
    assert_eq!(server.get_error_message(1, 11), "did not converge");
}

#[test]
fn get_result_success_carries_field_and_name() {
    let server = Server::new(3, 2, two_space_engine());
    let si = server.get_result(0).unwrap();
    assert_eq!(si.width, 3);
    assert_eq!(si.height, 2);
    assert_eq!(si.name.as_deref(), Some("jacobi"));
    assert_eq!(si.temp, vec![vec![(3.0f32).to_bits(); 3]; 2]);
}

#[test]
fn get_result_failure_carries_nonzero_code() {
    let server = Server::new(3, 2, two_space_engine());
    assert_eq!(server.get_result(1), Err(11));
}

#[test]
fn get_raw_copies_row_major() {
    let mut server = Server::new(3, 2, two_space_engine());
    server.set(2, 1, (8.0f32).to_bits(), LocalInfoType::Boundary).unwrap();
    let mut temp = vec![0u32; 6];
    let mut kind = vec![LocalInfoType::OutOfRange; 6];
    server.get_raw(&mut temp, &mut kind);
    // point (2, 1) sits at row-major index 1 * 3 + 2
    assert_eq!(temp[5], (8.0f32).to_bits());
    assert_eq!(kind[5], LocalInfoType::Boundary);
    assert_eq!(temp[0], 0);
    assert_eq!(kind[0], LocalInfoType::OutOfRange);
}

#[test]
fn get_result_raw_fills_buffer_or_reports_code() {
    let server = Server::new(2, 2, two_space_engine());
    let mut buff = vec![0u32; 4];
    assert_eq!(server.get_result_raw(0, &mut buff), 0);
    assert_eq!(buff, vec![(3.0f32).to_bits(); 4]);
    let mut buff2 = vec![0u32; 4];
    assert_eq!(server.get_result_raw(1, &mut buff2), 11);
    assert_eq!(buff2, vec![0u32; 4]);
}

#[test]
fn zero_spaces_snapshot_has_no_results() {
    let server = Server::new(2, 2, StubEngine { entries: Vec::new() });
    let snap = server.get_simulation_results().unwrap();
    assert_eq!(snap.results.len(), 0);
    assert_eq!(snap.info.temp.len(), 2);
}

#[test]
fn one_point_domain_round_trip() {
    let mut server = Server::new(1, 1, two_space_engine());
    assert_eq!(server.set(0, 0, (99.0f32).to_bits(), LocalInfoType::Boundary), Ok(()));
    let info = server.get();
    assert_eq!(info.temp, vec![vec![(99.0f32).to_bits()]]);
    assert_eq!(info.kind, vec![vec![LocalInfoType::Boundary]]);
}

#[test]
fn grid_readings_survive_teardown() {
    // teardown releases the engine, not the grid: plain grid reads still
    // serve the last recorded state
    let mut server = Server::new(2, 1, two_space_engine());
    server.set(1, 0, (4.5f32).to_bits(), LocalInfoType::GroundTruth).unwrap();
    server.close();
    let info = server.get();
    assert_eq!(info.temp[0][1], (4.5f32).to_bits());
    assert_eq!(info.kind[0][1], LocalInfoType::GroundTruth);
}

#[test]
fn empty_domain_snapshot_is_well_formed() {
    let server = Server::new(0, 0, two_space_engine());
    let snap = server.get_simulation_results().unwrap();
    assert_eq!(snap.info.temp.len(), 0);
    assert_eq!(snap.info.kind.len(), 0);
    assert_eq!(snap.results.len(), 2);
}

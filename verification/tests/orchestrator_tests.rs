use gridsim::device::DeviceType;
use gridsim::orchestrator::{build_meter_connections, meters_of, tick_should_stop,
    DeviceResult, ResultKind, SimulationEngine, TopologyDevice, TopologyView};
use gridsim::status::SimulationState;

fn device(id: &str, name: &str, device_type: DeviceType) -> TopologyDevice {
    TopologyDevice {
        id: id.to_string(),
        name: name.to_string(),
        device_type,
        capacity_uj: None,
        initial_soc_permille: None,
    }
}

fn small_topology() -> TopologyView {
    let mut storage = device("dev-storage", "Battery 1", DeviceType::Storage);
    storage.capacity_uj = Some(360_000_000_000_000);  // 100 kWh
    storage.initial_soc_permille = Some(500);
    TopologyView {
        devices: vec![
            device("dev-bus", "Bus 1", DeviceType::Node),
            storage,
            device("dev-meter", "Meter 1", DeviceType::Meter),
            device("dev-pv", "PV 1", DeviceType::Pv),
        ],
        connections: vec![
            ("dev-meter".to_string(), "dev-storage".to_string()),
            ("dev-pv".to_string(), "dev-bus".to_string()),
        ],
    }
}

#[test]
fn start_requires_kernel_and_topology() {
    let mut e = SimulationEngine::new();
    assert!(e.start_run(false, 100).is_err());
    assert!(e.start_run(true, 100).is_err());
    e.set_topology(small_topology());
    let spawn = e.start_run(true, 100).unwrap();
    assert!(spawn);
    assert_eq!(e.status.state, SimulationState::Running);
}

#[test]
fn second_start_spawns_no_second_loop() {
    // Starting twice while a run is active must not double the tick rate:
    // only the first start spawns the background loop.
    let mut e = SimulationEngine::new();
    e.set_topology(small_topology());
    assert_eq!(e.start_run(true, 100), Ok(true));
    e.pause_run(110);
    assert_eq!(e.start_run(true, 120), Ok(false));
    // After the loop actually exits, a start may spawn a fresh one.
    e.stop_run();
    e.acknowledge_loop_exit();
    assert_eq!(e.start_run(true, 130), Ok(true));
}

#[test]
fn tick_stop_decision() {
    assert!(tick_should_stop(true, true, false));
    assert!(tick_should_stop(false, false, true));
    assert!(!tick_should_stop(false, false, false));
    assert!(!tick_should_stop(false, true, true));
}

#[test]
fn paused_runs_skip_computation() {
    let mut e = SimulationEngine::new();
    e.set_topology(small_topology());
    e.start_run(true, 0).unwrap();
    assert!(e.should_compute());
    e.pause_run(5);
    assert!(!e.should_compute());
    e.resume_run(9);
    assert!(e.should_compute());
}

#[test]
fn remote_control_gates() {
    let mut e = SimulationEngine::new();
    assert!(e.device_remote_control_allowed("any"));
    e.set_device_remote_control_enabled("dev-a", false);
    assert!(!e.device_remote_control_allowed("dev-a"));
    assert!(e.device_remote_control_allowed("dev-b"));
    e.set_remote_control_enabled(false);
    assert!(!e.device_remote_control_allowed("dev-b"));
}

#[test]
fn invalid_device_mode_is_refused() {
    let mut e = SimulationEngine::new();
    assert!(e.set_device_mode("dev-a".to_string(), "warp".to_string()).is_err());
    assert!(e.set_device_mode("dev-a".to_string(), "manual".to_string()).is_ok());
    assert!(e.set_device_mode("dev-b".to_string(), "historical_data".to_string()).is_ok());
}

#[test]
fn results_fan_out_to_device_and_meter() {
    let mut e = SimulationEngine::new();
    let topo = small_topology();
    e.set_topology(small_topology());
    e.start_run(true, 0).unwrap();
    let results = vec![DeviceResult {
        kind: ResultKind::Storage,
        name: "Battery 1".to_string(),
        p_active_mw: Some(50_000_000),
        p_reactive_mw: Some(1_000_000),
    }];
    let records = e.process_calculation_results(&topo, &results, 1234, 3_600_000);
    // Only the device the result named counts as online; the rest of the
    // topology produced nothing and stays offline.
    assert!(e.is_device_online("dev-storage"));
    assert!(!e.is_device_online("dev-bus"));
    assert!(!e.is_device_online("dev-pv"));
    // One record for the storage device, one for the meter pointing at it.
    assert_eq!(records.len(), 2);
    assert_eq!(records[0].device_id, "dev-storage");
    assert_eq!(records[0].device_type, Some(DeviceType::Storage));
    assert_eq!(records[1].device_id, "dev-meter");
    assert_eq!(records[1].device_type, Some(DeviceType::Meter));
    // Both entries appear in the power cache.
    let s = e.get_last_device_power("dev-storage").unwrap();
    assert_eq!(s.p_active_mw, Some(50_000_000));
    assert_eq!(s.timestamp_ms, 1234);
    assert!(e.get_last_device_power("dev-meter").is_some());
    // The storage bookkeeping was created at 50 % and charged for an hour.
    let st = e.get_storage_state("dev-storage").unwrap();
    assert_eq!(st.capacity_uj, 360_000_000_000_000);
    assert_eq!(st.energy_uj, 360_000_000_000_000);  // full after +50 kWh
}

#[test]
fn unmatched_results_are_skipped() {
    let mut e = SimulationEngine::new();
    let topo = small_topology();
    let results = vec![DeviceResult {
        kind: ResultKind::Load,
        name: "No Such Load".to_string(),
        p_active_mw: Some(1_000_000),
        p_reactive_mw: None,
    }];
    let records = e.process_calculation_results(&topo, &results, 0, 1000);
    assert!(records.is_empty());
    assert!(e.get_last_device_power("dev-bus").is_none());
}

#[test]
fn online_map_resets_each_run() {
    let mut e = SimulationEngine::new();
    let topo = small_topology();
    e.set_topology(small_topology());
    e.start_run(true, 0).unwrap();
    // A device counts as online only once a result of this run named it.
    assert!(!e.is_device_online("dev-pv"));
    let results = vec![DeviceResult {
        kind: ResultKind::Generator,
        name: "PV 1".to_string(),
        p_active_mw: Some(3_000_000),
        p_reactive_mw: None,
    }];
    e.process_calculation_results(&topo, &results, 0, 1000);
    assert!(e.is_device_online("dev-pv"));
    assert!(!e.is_device_online("dev-bus"));
    assert!(!e.is_device_online("dev-unknown"));
    // A stopped run shows every device offline, and a new run starts clean.
    e.stop_run();
    assert!(!e.is_device_online("dev-pv"));
    e.acknowledge_loop_exit();
    e.start_run(true, 10).unwrap();
    assert!(!e.is_device_online("dev-pv"));
    assert!(e.get_device_active_status().items().is_empty());
}

#[test]
fn tick_results_never_mark_unnamed_devices() {
    // A successful tick whose results name nobody leaves the whole fleet
    // offline.
    let mut e = SimulationEngine::new();
    let topo = small_topology();
    e.set_topology(small_topology());
    e.start_run(true, 0).unwrap();
    let results = vec![DeviceResult {
        kind: ResultKind::Load,
        name: "No Such Load".to_string(),
        p_active_mw: Some(1_000_000),
        p_reactive_mw: None,
    }];
    e.process_calculation_results(&topo, &results, 0, 1000);
    assert!(!e.is_device_online("dev-bus"));
    assert!(!e.is_device_online("dev-storage"));
    assert!(!e.is_device_online("dev-meter"));
    assert!(!e.is_device_online("dev-pv"));
}

#[test]
fn storage_without_capacity_gets_the_default() {
    // A storage device whose nameplate names no capacity books energy
    // against the 1000 kWh default, at 50 % initial state of charge.
    let mut e = SimulationEngine::new();
    let topo = TopologyView {
        devices: vec![device("dev-s", "Plain Battery", DeviceType::Storage)],
        connections: Vec::new(),
    };
    let results = vec![DeviceResult {
        kind: ResultKind::Storage,
        name: "Plain Battery".to_string(),
        p_active_mw: Some(10_000_000),  // charge at 10 kW
        p_reactive_mw: None,
    }];
    e.process_calculation_results(&topo, &results, 0, 3_600_000);
    let st = e.get_storage_state("dev-s").unwrap();
    assert_eq!(st.capacity_uj, 3_600_000_000_000_000);  // 1000 kWh
    // 500 kWh initial plus 10 kWh charged.
    assert_eq!(st.energy_uj, 510 * 3_600_000_000_000);
}

#[test]
fn auto_stop_keeps_the_final_errors_visible() {
    let mut e = SimulationEngine::new();
    e.set_topology(small_topology());
    e.start_run(true, 0).unwrap();
    let failure = vec![gridsim::status::SimulationError {
        error_type: "calculation".to_string(),
        severity: "error".to_string(),
        message: "did not converge".to_string(),
        device_id: None,
        details: "null".to_string(),
        timestamp: 5,
    }];
    e.auto_stop(failure);
    assert_eq!(e.status.state, SimulationState::Stopped);
    assert_eq!(e.status.errors.len(), 1);
    assert_eq!(e.status.errors[0].message, "did not converge");
    assert!(e.cancel_requested);
    // An empty report keeps whatever already stood.
    e.acknowledge_loop_exit();
    e.start_run(true, 10).unwrap();
    e.apply_errors_update(vec![gridsim::status::SimulationError {
        error_type: "runtime".to_string(),
        severity: "error".to_string(),
        message: "standing".to_string(),
        device_id: None,
        details: "null".to_string(),
        timestamp: 6,
    }]);
    e.auto_stop(Vec::new());
    assert_eq!(e.status.errors.len(), 1);
    assert_eq!(e.status.errors[0].message, "standing");
}

#[test]
fn finish_tick_updates_latency_and_elapsed() {
    let mut e = SimulationEngine::new();
    e.set_topology(small_topology());
    e.start_run(true, 1000).unwrap();
    e.finish_tick(10, 1001);
    e.finish_tick(30, 1002);
    assert_eq!(e.status.average_delay_ms, 20);
    assert_eq!(e.status.elapsed_time, 2);
}

#[test]
fn meter_maps_from_the_topology() {
    let topo = small_topology();
    // The meter points at the storage device it is wired to.
    let mc = build_meter_connections(&topo);
    assert_eq!(mc.get("dev-meter"), Some(&"dev-storage".to_string()));
    assert!(mc.get("dev-pv").is_none());
    // And the storage device lists that meter, in connection order.
    assert_eq!(meters_of(&topo, "dev-storage"), vec!["dev-meter".to_string()]);
    assert!(meters_of(&topo, "dev-pv").is_empty());
}

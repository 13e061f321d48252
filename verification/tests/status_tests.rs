use gridsim::status::{decide_errors_update, errors_equal, DelayWindow, ErrorsUpdateDecision,
    SimulationError, SimulationState, SimulationStatus};

fn err(message: &str, timestamp: u64) -> SimulationError {
    SimulationError {
        error_type: "calculation".to_string(),
        severity: "error".to_string(),
        message: message.to_string(),
        device_id: None,
        details: "{}".to_string(),
        timestamp,
    }
}

#[test]
fn elapsed_excludes_the_pause() {
    // A run started at 1000 that pauses for 30 seconds shows, 200 seconds
    // of wall clock later, 170 elapsed seconds - not 200.
    let mut st = SimulationStatus::new();
    st.start(1000);
    st.pause(1100);
    assert_eq!(st.state, SimulationState::Paused);
    st.resume(1130);
    assert_eq!(st.total_paused_secs, 30);
    st.update_elapsed(1200);
    assert_eq!(st.elapsed_time, 170);
}

#[test]
fn two_pauses_accumulate() {
    let mut st = SimulationStatus::new();
    st.start(0);
    st.pause(10);
    st.resume(15);
    st.pause(20);
    st.resume(30);
    assert_eq!(st.total_paused_secs, 15);
    st.update_elapsed(40);
    assert_eq!(st.elapsed_time, 25);
}

#[test]
fn start_resets_counters_and_stop_clears_timing() {
    let mut st = SimulationStatus::new();
    st.start(50);
    st.calculation_count = 7;
    st.start(60);
    assert_eq!(st.calculation_count, 0);
    assert_eq!(st.start_time, Some(60));
    st.stop();
    assert_eq!(st.state, SimulationState::Stopped);
    assert_eq!(st.start_time, None);
    assert_eq!(st.total_paused_secs, 0);
}

#[test]
fn errors_compare_without_timestamps() {
    let a = vec![err("diverged", 1)];
    let b = vec![err("diverged", 999)];
    assert!(errors_equal(&a, &b));
    let c = vec![err("other", 1)];
    assert!(!errors_equal(&a, &c));
}

#[test]
fn empty_report_retains_standing_errors() {
    let current = vec![err("diverged", 1)];
    let nothing: Vec<SimulationError> = Vec::new();
    assert_eq!(
        decide_errors_update(&current, &nothing),
        ErrorsUpdateDecision::RetainExisting
    );
}

#[test]
fn unchanged_report_causes_no_churn() {
    let current = vec![err("diverged", 1)];
    let same = vec![err("diverged", 2)];
    assert_eq!(decide_errors_update(&current, &same), ErrorsUpdateDecision::Unchanged);
}

#[test]
fn new_report_replaces_the_list() {
    let current = vec![err("diverged", 1)];
    let fresh = vec![err("overloaded", 3)];
    assert_eq!(decide_errors_update(&current, &fresh), ErrorsUpdateDecision::Replace);
    // From an empty list, a fresh report also replaces.
    let empty: Vec<SimulationError> = Vec::new();
    assert_eq!(decide_errors_update(&empty, &fresh), ErrorsUpdateDecision::Replace);
    // Empty to empty is unchanged.
    assert_eq!(decide_errors_update(&empty, &Vec::new()), ErrorsUpdateDecision::Unchanged);
}

#[test]
fn delay_window_averages_and_stays_bounded() {
    let mut w = DelayWindow::new();
    assert_eq!(w.average(), 0);
    w.push(10);
    w.push(20);
    w.push(33);
    assert_eq!(w.average(), 21);
    // Fill beyond the capacity: the oldest samples fall out.
    for _ in 0..200 {
        w.push(50);
    }
    assert_eq!(w.average(), 50);
}

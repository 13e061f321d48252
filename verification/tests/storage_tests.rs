use gridsim::storage::StorageState;

const KWH: u64 = 3_600_000_000_000;

#[test]
fn charging_tick_reaches_full_state_of_charge() {
    // 100 kWh capacity, initial state of charge 50 %: one hour of charging
    // at 50 kW fills the store exactly.
    let mut s = StorageState::new(100 * KWH, 500);
    assert_eq!(s.energy_uj, 50 * KWH);
    assert_eq!(s.soc_permille(), 500);
    s.tick(50_000_000, 3_600_000);
    assert_eq!(s.energy_uj, 100 * KWH);
    assert_eq!(s.soc_permille(), 1000);
}

#[test]
fn overshooting_charge_clamps_at_capacity() {
    // One hour at 100 kW from 50 % would land at 150 %: the energy clamps
    // at the capacity, so the state of charge reads 100 %, not 150 %.
    let mut s = StorageState::new(100 * KWH, 500);
    s.tick(100_000_000, 3_600_000);
    assert_eq!(s.energy_uj, 100 * KWH);
    assert_eq!(s.soc_permille(), 1000);
    // The charge counters still record the full tick.
    assert_eq!(s.daily_charge_uj, 100 * KWH);
    assert_eq!(s.total_charge_uj, 100 * KWH);
}

#[test]
fn overshooting_discharge_clamps_at_zero() {
    let mut s = StorageState::new(100 * KWH, 100);
    s.tick(-50_000_000, 3_600_000);
    assert_eq!(s.energy_uj, 0);
    assert_eq!(s.soc_permille(), 0);
    assert_eq!(s.daily_discharge_uj, 50 * KWH);
    assert_eq!(s.total_discharge_uj, 50 * KWH);
}

#[test]
fn energy_stays_in_bounds_over_a_sequence_of_ticks() {
    let mut s = StorageState::new(10 * KWH, 500);
    let powers: [i64; 7] = [
        20_000_000,
        -50_000_000,
        5_000_000,
        -5_000_000,
        100_000_000,
        -100_000_000,
        3_000_000,
    ];
    for p in powers {
        s.tick(p, 3_600_000);
        assert!(s.energy_uj <= s.capacity_uj);
        assert!(s.soc_permille() <= 1000);
    }
}

#[test]
fn idle_tick_changes_nothing() {
    let mut s = StorageState::new(100 * KWH, 500);
    s.tick(0, 3_600_000);
    assert_eq!(s.energy_uj, 50 * KWH);
    assert_eq!(s.daily_charge_uj, 0);
    assert_eq!(s.daily_discharge_uj, 0);
}

#[test]
fn charge_and_discharge_counters_are_separate() {
    let mut s = StorageState::new(100 * KWH, 500);
    s.tick(10_000_000, 3_600_000);  // +10 kWh
    s.tick(-4_000_000, 3_600_000);  // -4 kWh
    assert_eq!(s.daily_charge_uj, 10 * KWH);
    assert_eq!(s.daily_discharge_uj, 4 * KWH);
    assert_eq!(s.total_charge_uj, 10 * KWH);
    assert_eq!(s.total_discharge_uj, 4 * KWH);
    assert_eq!(s.energy_uj, 56 * KWH);
}

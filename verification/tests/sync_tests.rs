use gridsim::registers::{DeviceRegisterContext, ModbusRegisterEntry};
use gridsim::storage::{MeterEnergyState, StorageState};
use gridsim::sync::update_context_from_simulation;

fn entry(type_: &str, address: u16, value: u16, key: Option<&str>) -> ModbusRegisterEntry {
    ModbusRegisterEntry {
        address,
        value,
        type_: type_.to_string(),
        name: None,
        key: key.map(|k| k.to_string()),
    }
}

#[test]
fn meter_power_is_signed_half_kw_units() {
    let mut ctx = DeviceRegisterContext::new();
    // 1 kW at 0.5 kW per unit is register value 2.
    update_context_from_simulation(
        &mut ctx,
        "meter",
        None,
        Some(1_000_000),
        Some(-500_000),
        None,
        None,
    );
    assert_eq!(ctx.get_input_register(0), 2);
    // -0.5 kvar is -1, stored as the two's-complement pattern.
    assert_eq!(ctx.get_input_register(20), 0xFFFF);
}

#[test]
fn generator_power_splits_into_words_and_clamps_negative() {
    let mut ctx = DeviceRegisterContext::new();
    // 12.3 kW at 0.1 kW per unit is 123: low word 123, high word 0.
    update_context_from_simulation(
        &mut ctx,
        "static_generator",
        None,
        Some(12_300_000),
        Some(-1_000_000),
        None,
        None,
    );
    assert_eq!(ctx.get_input_register(5030), 123);
    assert_eq!(ctx.get_input_register(5031), 0);
    // A negative value clamps to zero for a generator.
    assert_eq!(ctx.get_input_register(5032), 0);
    assert_eq!(ctx.get_input_register(5033), 0);
}

#[test]
fn storage_power_is_signed_and_split() {
    let mut ctx = DeviceRegisterContext::new();
    // -300 kW is -3000 units; as a 32-bit pattern 0xFFFFF448.
    update_context_from_simulation(
        &mut ctx,
        "storage",
        None,
        Some(-300_000_000),
        None,
        None,
        None,
    );
    assert_eq!(ctx.get_input_register(420), 0xF448);
    assert_eq!(ctx.get_input_register(421), 0xFFFF);
    // Discharging: legacy state 245, state register 3, mode register 1.
    assert_eq!(ctx.get_input_register(839), 245);
    assert_eq!(ctx.get_input_register(0), 3);
    assert_eq!(ctx.get_holding_register(5033), 1);
    // On-grid by default: bit 9.
    assert_eq!(ctx.get_input_register(432), 0x0200);
}

#[test]
fn storage_operating_state_follows_switch_and_deadband() {
    // Administratively off: stopped, whatever the power says.
    let mut ctx = DeviceRegisterContext::new();
    ctx.set_holding_register_silent(55, 240);
    update_context_from_simulation(&mut ctx, "storage", None, Some(50_000_000), None, None, None);
    assert_eq!(ctx.get_input_register(839), 240);
    assert_eq!(ctx.get_input_register(0), 1);
    assert_eq!(ctx.get_holding_register(5033), 0);

    // On and charging.
    let mut ctx = DeviceRegisterContext::new();
    ctx.set_holding_register_silent(55, 243);
    update_context_from_simulation(&mut ctx, "storage", None, Some(50_000_000), None, None, None);
    assert_eq!(ctx.get_input_register(839), 245);
    assert_eq!(ctx.get_input_register(0), 2);
    assert_eq!(ctx.get_holding_register(5033), 2);

    // Inside the deadband: idle.
    let mut ctx = DeviceRegisterContext::new();
    ctx.set_holding_register_silent(55, 243);
    update_context_from_simulation(&mut ctx, "storage", None, Some(500), None, None, None);
    assert_eq!(ctx.get_input_register(839), 243);
    assert_eq!(ctx.get_input_register(0), 1);
    assert_eq!(ctx.get_holding_register(5033), 0);

    // Off-grid command mirrors into the telemetry register as bit 10.
    let mut ctx = DeviceRegisterContext::new();
    ctx.set_holding_register_silent(5095, 1);
    update_context_from_simulation(&mut ctx, "storage", None, None, None, None, None);
    assert_eq!(ctx.get_input_register(432), 0x0400);
}

#[test]
fn custom_addresses_resolve_by_semantic_key() {
    let mut ctx = DeviceRegisterContext::new();
    let entries = vec![
        entry("input_registers", 700, 0, Some("active_power_low")),
        entry("input_registers", 701, 0, Some("active_power_high")),
    ];
    update_context_from_simulation(
        &mut ctx,
        "storage",
        Some(&entries),
        Some(10_000_000),
        None,
        None,
        None,
    );
    // 10 kW = 100 units, written at the configured addresses.
    assert_eq!(ctx.get_input_register(700), 100);
    assert_eq!(ctx.get_input_register(701), 0);
    assert_eq!(ctx.get_input_register(420), 0);
}

#[test]
fn meter_energy_counters_integrate_power() {
    let mut me = MeterEnergyState::new();
    // 1 kW for one hour: exactly 1 kWh exported.
    me.accumulate(Some(1_000_000), Some(-2_000_000), 3_600_000);
    let mut ctx = DeviceRegisterContext::new();
    update_context_from_simulation(
        &mut ctx,
        "meter",
        None,
        Some(1_000_000),
        Some(-2_000_000),
        None,
        Some(&me),
    );
    assert_eq!(ctx.get_input_register(7), 1);  // active export
    assert_eq!(ctx.get_input_register(8), 0);  // active import
    assert_eq!(ctx.get_input_register(9), 1);  // combined total
    assert_eq!(ctx.get_input_register(10), 0);  // reactive export
    assert_eq!(ctx.get_input_register(11), 2);  // reactive import
}

#[test]
fn meter_energy_is_trapezoidal_with_previous_tick() {
    let mut me = MeterEnergyState::new();
    // First tick: no previous value, 2 kW for an hour = 2 kWh.
    me.accumulate(Some(2_000_000), None, 3_600_000);
    assert_eq!(me.export_active_uj, 7_200_000_000_000);
    // Second tick at 4 kW: the trapezoid averages 3 kW over the hour.
    me.accumulate(Some(4_000_000), None, 3_600_000);
    assert_eq!(me.export_active_uj, 7_200_000_000_000 + 10_800_000_000_000);
}

#[test]
fn storage_bookkeeping_registers() {
    // 100 kWh capacity at 50 % with some daily counters.
    let mut s = StorageState::new(360_000_000_000_000, 500);
    s.tick(50_000_000, 3_600_000);  // one hour at 50 kW: now full
    let mut ctx = DeviceRegisterContext::new();
    update_context_from_simulation(
        &mut ctx,
        "storage",
        None,
        Some(50_000_000),
        None,
        Some(&s),
        None,
    );
    assert_eq!(ctx.get_input_register(2), 1000);  // SOC 100.0 %
    assert_eq!(ctx.get_input_register(12), 1000);  // 100.0 kWh remaining
    assert_eq!(ctx.get_input_register(426), 500);  // 50.0 kWh charged today
    assert_eq!(ctx.get_input_register(427), 0);
    assert_eq!(ctx.get_input_register(428), 500);  // lifetime charge, low word
    assert_eq!(ctx.get_input_register(429), 0);
    assert_eq!(ctx.get_input_register(430), 0);
    assert_eq!(ctx.get_input_register(431), 0);
}

#[test]
fn storage_deadband_boundary_is_idle() {
    // Exactly one watt in either direction is still inside the deadband.
    let mut ctx = DeviceRegisterContext::new();
    ctx.set_holding_register_silent(55, 243);
    update_context_from_simulation(&mut ctx, "storage", None, Some(1000), None, None, None);
    assert_eq!(ctx.get_input_register(0), 1);
    let mut ctx = DeviceRegisterContext::new();
    ctx.set_holding_register_silent(55, 243);
    update_context_from_simulation(&mut ctx, "storage", None, Some(-1000), None, None, None);
    assert_eq!(ctx.get_input_register(0), 1);
    // One milliwatt past the deadband charges or discharges.
    let mut ctx = DeviceRegisterContext::new();
    ctx.set_holding_register_silent(55, 243);
    update_context_from_simulation(&mut ctx, "storage", None, Some(1001), None, None, None);
    assert_eq!(ctx.get_input_register(0), 2);
}

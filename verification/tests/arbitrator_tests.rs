use gridsim::arbitrator::{apply_hr_write_and_effective_properties, apply_hr_write_by_key,
    DirectiveValue, ModbusControlStateStore, ModbusDeviceControlState, ModbusPowerInstruction,
    PropertyPatch};
use gridsim::schema::{holding_register_commands, holding_register_default_key,
    hr_address_to_command, hr_key_to_command_id, input_register_updates,
    ir_update_key_to_default_key, HrCommandId, IrUpdateKey};

#[test]
fn storage_setpoint_write_is_signed_fixed_point() {
    // A storage device's holding register 4 written 0xF448 (signed -3000)
    // yields an effective setpoint of -3000 tenths of a kW, i.e. -300.0 kW.
    let mut state = ModbusDeviceControlState::new();
    let patch = apply_hr_write_and_effective_properties(&mut state, "storage", 4, 0xF448);
    match patch {
        Some(PropertyPatch::Effective(props)) => {
            assert_eq!(props.on_off, 1);
            assert_eq!(props.directive, Some(DirectiveValue::SetpointDeciKw(-3000)));
        }
        _ => panic!("expected an effective-properties patch"),
    }
    assert_eq!(state.power_setpoint, Some((-3000, 1)));
}

#[test]
fn percent_limit_supersedes_raw_limit() {
    // A later percent-limit write supersedes a previously written raw
    // limit as the effective directive.
    let mut state = ModbusDeviceControlState::new();
    apply_hr_write_and_effective_properties(&mut state, "static_generator", 5038, 500);
    let patch = apply_hr_write_and_effective_properties(&mut state, "static_generator", 5007, 80);
    match patch {
        Some(PropertyPatch::Effective(props)) => {
            assert_eq!(props.directive, Some(DirectiveValue::LimitPct(80)));
        }
        _ => panic!("expected an effective-properties patch"),
    }
    let (which, seq) = state.latest_power_instruction();
    assert_eq!(which, Some(ModbusPowerInstruction::PowerLimitPct));
    assert_eq!(seq, 2);
    // The raw limit is retained, dormant.
    assert_eq!(state.power_limit_raw, Some((500, 1)));
}

#[test]
fn highest_sequence_number_wins_in_any_order() {
    let mut state = ModbusDeviceControlState::new();
    apply_hr_write_and_effective_properties(&mut state, "static_generator", 5007, 10);
    apply_hr_write_and_effective_properties(&mut state, "static_generator", 5038, 20);
    apply_hr_write_and_effective_properties(&mut state, "static_generator", 5007, 30);
    let (which, seq) = state.latest_power_instruction();
    assert_eq!(which, Some(ModbusPowerInstruction::PowerLimitPct));
    assert_eq!(seq, 3);
    let props = state.effective_properties();
    assert_eq!(props.directive, Some(DirectiveValue::LimitPct(30)));
}

#[test]
fn off_forces_zero_effective_power() {
    let mut state = ModbusDeviceControlState::new();
    apply_hr_write_and_effective_properties(&mut state, "static_generator", 5038, 777);
    // Switching off forces the effective active power to zero.
    let patch = apply_hr_write_and_effective_properties(&mut state, "static_generator", 5005, 0);
    match patch {
        Some(PropertyPatch::Effective(props)) => {
            assert_eq!(props.on_off, 0);
            assert_eq!(props.directive, Some(DirectiveValue::SetpointDeciKw(0)));
        }
        _ => panic!("expected an effective-properties patch"),
    }
    // A directive written while off changes nothing about the zero.
    let patch = apply_hr_write_and_effective_properties(&mut state, "static_generator", 5007, 50);
    match patch {
        Some(PropertyPatch::Effective(props)) => {
            assert_eq!(props.on_off, 0);
            assert_eq!(props.directive, Some(DirectiveValue::SetpointDeciKw(0)));
        }
        _ => panic!("expected an effective-properties patch"),
    }
    // Switching back on restores the latest directive's effect.
    let patch = apply_hr_write_and_effective_properties(&mut state, "static_generator", 5005, 1);
    match patch {
        Some(PropertyPatch::Effective(props)) => {
            assert_eq!(props.on_off, 1);
            assert_eq!(props.directive, Some(DirectiveValue::LimitPct(50)));
        }
        _ => panic!("expected an effective-properties patch"),
    }
}

#[test]
fn telemetry_registers_yield_passthrough_patches() {
    let mut state = ModbusDeviceControlState::new();
    let patch = apply_hr_write_and_effective_properties(&mut state, "static_generator", 5040, 12);
    assert_eq!(patch, Some(PropertyPatch::ReactiveCompPct(12)));
    let patch = apply_hr_write_and_effective_properties(&mut state, "static_generator", 5041, 95);
    assert_eq!(patch, Some(PropertyPatch::PowerFactor(95)));
    let patch = apply_hr_write_and_effective_properties(&mut state, "storage", 5095, 1);
    assert_eq!(patch, Some(PropertyPatch::GridMode(1)));
    let patch = apply_hr_write_and_effective_properties(&mut state, "storage", 5033, 2);
    assert_eq!(patch, Some(PropertyPatch::PcsChargeDischargeState(2)));
    // None of those is a power directive.
    assert_eq!(state.latest_power_instruction().0, None);
}

#[test]
fn unmapped_address_is_pure_telemetry() {
    let mut state = ModbusDeviceControlState::new();
    let patch = apply_hr_write_and_effective_properties(&mut state, "static_generator", 9999, 5);
    assert!(patch.is_none());
    let patch = apply_hr_write_and_effective_properties(&mut state, "meter", 5005, 1);
    assert!(patch.is_none());
}

#[test]
fn key_resolution_supports_custom_addresses() {
    let mut state = ModbusDeviceControlState::new();
    // A write resolved to the set_power key behaves like the default
    // address, wherever the register actually sits.
    let patch = apply_hr_write_by_key(&mut state, "storage", "set_power", 100);
    match patch {
        Some(PropertyPatch::Effective(props)) => {
            assert_eq!(props.directive, Some(DirectiveValue::SetpointDeciKw(100)));
        }
        _ => panic!("expected an effective-properties patch"),
    }
    let patch = apply_hr_write_by_key(&mut state, "storage", "no_such_key", 1);
    assert!(patch.is_none());
}

#[test]
fn charger_raw_limit_is_a_directive() {
    let mut state = ModbusDeviceControlState::new();
    let patch = apply_hr_write_and_effective_properties(&mut state, "charger", 0, 400);
    match patch {
        Some(PropertyPatch::Effective(props)) => {
            assert_eq!(props.directive, Some(DirectiveValue::LimitRaw(400)));
        }
        _ => panic!("expected an effective-properties patch"),
    }
}

#[test]
fn store_keeps_devices_independent() {
    let mut store = ModbusControlStateStore::new();
    store.apply_hr_write("dev-a", "static_generator", 5007, 10);
    let patch = store.apply_hr_write("dev-b", "static_generator", 5038, 20);
    match patch {
        Some(PropertyPatch::Effective(props)) => {
            assert_eq!(props.directive, Some(DirectiveValue::LimitRaw(20)));
        }
        _ => panic!("expected an effective-properties patch"),
    }
    // Device a still honors its own percent limit.
    let patch = store.apply_hr_write("dev-a", "static_generator", 5005, 1);
    match patch {
        Some(PropertyPatch::Effective(props)) => {
            assert_eq!(props.directive, Some(DirectiveValue::LimitPct(10)));
        }
        _ => panic!("expected an effective-properties patch"),
    }
}

#[test]
fn schema_tables_match_the_device_types() {
    let meter = input_register_updates("meter");
    assert_eq!(meter, vec![(0, IrUpdateKey::ActivePower), (20, IrUpdateKey::ReactivePower)]);
    let sg = input_register_updates("static_generator");
    assert_eq!(sg.len(), 4);
    assert_eq!(sg[0], (5030, IrUpdateKey::ActivePowerLow));
    let storage = input_register_updates("storage");
    assert_eq!(
        storage,
        vec![(420, IrUpdateKey::ActivePowerLow), (421, IrUpdateKey::ActivePowerHigh)]
    );
    assert_eq!(input_register_updates("charger"), vec![(0, IrUpdateKey::ActivePower)]);
    assert!(input_register_updates("line").is_empty());

    let cmds = holding_register_commands("storage");
    assert_eq!(cmds[0], (4, HrCommandId::SetPower));
    assert_eq!(cmds[1], (55, HrCommandId::OnOff));
    assert!(holding_register_commands("meter").is_empty());

    assert_eq!(holding_register_default_key("storage", 4), Some("set_power"));
    assert_eq!(holding_register_default_key("static_generator", 5038), Some("power_limit_raw"));
    assert_eq!(holding_register_default_key("storage", 123), None);
    assert_eq!(hr_key_to_command_id("on_off"), Some(HrCommandId::OnOff));
    assert_eq!(hr_key_to_command_id("grid_mode"), Some(HrCommandId::Other(5095)));
    assert_eq!(hr_key_to_command_id("bogus"), None);
    assert_eq!(ir_update_key_to_default_key(IrUpdateKey::ActivePowerHigh), "active_power_high");
    assert_eq!(
        hr_address_to_command("static_generator", 5005),
        Some(HrCommandId::OnOff)
    );
    assert_eq!(hr_address_to_command("charger", 1), None);
}

#[test]
fn arrival_order_decides_only_by_sequence() {
    // The same two writes in either order: whichever came later wins,
    // independent of any wall clock.
    let mut a = ModbusDeviceControlState::new();
    apply_hr_write_and_effective_properties(&mut a, "static_generator", 5038, 20);
    apply_hr_write_and_effective_properties(&mut a, "static_generator", 5007, 10);
    assert_eq!(a.effective_properties().directive, Some(DirectiveValue::LimitPct(10)));

    let mut b = ModbusDeviceControlState::new();
    apply_hr_write_and_effective_properties(&mut b, "static_generator", 5007, 10);
    apply_hr_write_and_effective_properties(&mut b, "static_generator", 5038, 20);
    assert_eq!(b.effective_properties().directive, Some(DirectiveValue::LimitRaw(20)));
}

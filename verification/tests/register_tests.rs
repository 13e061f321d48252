use gridsim::defaults::get_modbus_register_defaults;
use gridsim::protocol::{handle_request, ExceptionCode, Request, Response};
use gridsim::registers::{DeviceRegisterContext, ModbusRegisterEntry};

fn entry(type_: &str, address: u16, value: u16, key: Option<&str>) -> ModbusRegisterEntry {
    ModbusRegisterEntry {
        address,
        value,
        type_: type_.to_string(),
        name: None,
        key: key.map(|k| k.to_string()),
    }
}

#[test]
fn unwritten_addresses_read_as_zero() {
    let mut ctx = DeviceRegisterContext::new();
    assert_eq!(ctx.get_input_register(4242), 0);
    assert_eq!(ctx.get_holding_register(0), 0);
    assert!(!ctx.get_coil(7));
    assert!(!ctx.get_discrete_input(65535));

    // A bulk read of a never-written span succeeds and yields only zeros.
    let r = handle_request(&mut ctx, Request::ReadInputRegisters(100, 8));
    match r {
        Ok((Response::ReadInputRegisters(vals), events)) => {
            assert_eq!(vals, vec![0u16; 8]);
            assert!(events.is_empty());
        }
        _ => panic!("expected a successful read"),
    }
    let r = handle_request(&mut ctx, Request::ReadCoils(0, 4));
    match r {
        Ok((Response::ReadCoils(vals), _)) => assert_eq!(vals, vec![false; 4]),
        _ => panic!("expected a successful read"),
    }
}

#[test]
fn from_entries_populates_banks() {
    let entries = vec![
        entry("holding_registers", 4, 0, Some("set_power")),
        entry("holding_registers", 55, 243, Some("on_off")),
        entry("input_registers", 2, 288, None),
        entry("input_registers", 39, 100, None),
        entry("coils", 1, 1, None),
        entry("discrete_inputs", 3, 0, None),
        entry("something_else", 9, 9, None),
    ];
    let ctx = DeviceRegisterContext::from_entries(&entries);
    assert_eq!(ctx.get_holding_register(4), 0);
    assert_eq!(ctx.get_holding_register(55), 243);
    assert_eq!(ctx.get_input_register(2), 288);
    assert_eq!(ctx.get_input_register(39), 100);
    assert!(ctx.get_coil(1));
    assert!(!ctx.get_discrete_input(3));
    // The unknown bank name is ignored.
    assert_eq!(ctx.get_input_register(9), 0);
    assert_eq!(ctx.get_holding_register(9), 0);
}

#[test]
fn later_entry_overwrites_earlier_at_same_address() {
    let entries = vec![
        entry("input_registers", 5, 1, None),
        entry("input_registers", 5, 2, None),
    ];
    let ctx = DeviceRegisterContext::from_entries(&entries);
    assert_eq!(ctx.get_input_register(5), 2);
}

#[test]
fn write_single_register_reports_command_event() {
    let mut ctx = DeviceRegisterContext::new();
    let r = handle_request(&mut ctx, Request::WriteSingleRegister(4, 0xF448));
    match r {
        Ok((Response::WriteSingleRegister(addr, value), events)) => {
            assert_eq!(addr, 4);
            assert_eq!(value, 0xF448);
            assert_eq!(events, vec![(4u16, 0xF448u16)]);
        }
        _ => panic!("expected a successful write"),
    }
    assert_eq!(ctx.get_holding_register(4), 0xF448);
}

#[test]
fn write_multiple_registers_in_order() {
    let mut ctx = DeviceRegisterContext::new();
    let r = handle_request(&mut ctx, Request::WriteMultipleRegisters(10, vec![7, 8, 9]));
    match r {
        Ok((Response::WriteMultipleRegisters(addr, count), events)) => {
            assert_eq!(addr, 10);
            assert_eq!(count, 3);
            assert_eq!(events, vec![(10, 7), (11, 8), (12, 9)]);
        }
        _ => panic!("expected a successful write"),
    }
    assert_eq!(ctx.get_holding_register(10), 7);
    assert_eq!(ctx.get_holding_register(11), 8);
    assert_eq!(ctx.get_holding_register(12), 9);
}

#[test]
fn addresses_wrap_around_the_address_space() {
    let mut ctx = DeviceRegisterContext::new();
    let r = handle_request(&mut ctx, Request::WriteMultipleRegisters(65535, vec![1, 2]));
    match r {
        Ok((_, events)) => assert_eq!(events, vec![(65535, 1), (0, 2)]),
        _ => panic!("expected a successful write"),
    }
    assert_eq!(ctx.get_holding_register(65535), 1);
    assert_eq!(ctx.get_holding_register(0), 2);
}

#[test]
fn coil_writes_round_trip() {
    let mut ctx = DeviceRegisterContext::new();
    let r = handle_request(&mut ctx, Request::WriteSingleCoil(3, true));
    assert!(r.is_ok());
    let r = handle_request(&mut ctx, Request::WriteMultipleCoils(10, vec![true, false, true]));
    match r {
        Ok((Response::WriteMultipleCoils(addr, count), _)) => {
            assert_eq!((addr, count), (10, 3));
        }
        _ => panic!("expected a successful write"),
    }
    match handle_request(&mut ctx, Request::ReadCoils(10, 3)) {
        Ok((Response::ReadCoils(vals), _)) => assert_eq!(vals, vec![true, false, true]),
        _ => panic!("expected a successful read"),
    }
    assert!(ctx.get_coil(3));
}

#[test]
fn unsupported_function_code_is_illegal_function() {
    let mut ctx = DeviceRegisterContext::new();
    let r = handle_request(&mut ctx, Request::Unsupported(0x2B));
    match r {
        Err(ExceptionCode::IllegalFunction) => {}
        _ => panic!("expected the illegal-function exception"),
    }
    // The banks are untouched by the refused request.
    assert_eq!(ctx.get_holding_register(0), 0);
}

#[test]
fn reads_reflect_holding_writes() {
    let mut ctx = DeviceRegisterContext::new();
    ctx.set_holding_register_silent(5033, 2);
    match handle_request(&mut ctx, Request::ReadHoldingRegisters(5032, 3)) {
        Ok((Response::ReadHoldingRegisters(vals), _)) => assert_eq!(vals, vec![0, 2, 0]),
        _ => panic!("expected a successful read"),
    }
}

#[test]
fn default_register_layouts() {
    let meter = get_modbus_register_defaults("meter").unwrap();
    assert_eq!(meter.len(), 13);
    assert_eq!(meter[0].address, 0);
    assert_eq!(meter[0].key.as_deref(), Some("active_power"));

    let sg = get_modbus_register_defaults("static_generator").unwrap();
    assert_eq!(sg.len(), 12);
    assert_eq!(sg[2].address, 5038);
    assert_eq!(sg[2].value, 0x7FFF);
    assert_eq!(sg[2].key.as_deref(), Some("power_limit_raw"));

    let storage = get_modbus_register_defaults("storage").unwrap();
    assert_eq!(storage.len(), 33);
    assert_eq!(storage[1].address, 55);
    assert_eq!(storage[1].value, 243);
    assert_eq!(storage[1].type_, "holding_registers");

    let charger = get_modbus_register_defaults("charger").unwrap();
    assert_eq!(charger.len(), 10);

    // An unknown type falls back to the meter layout.
    let fallback = get_modbus_register_defaults("toaster").unwrap();
    assert_eq!(fallback.len(), 13);

    // The storage layout boots a context whose switch register reads on.
    let ctx = DeviceRegisterContext::from_entries(&storage);
    assert_eq!(ctx.get_holding_register(55), 243);
    assert_eq!(ctx.get_input_register(2), 288);
}

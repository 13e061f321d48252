use gridsim::arbitrator::{DirectiveValue, PropertyPatch};
use gridsim::device::{device_type_to_string, parse_device_type, DeviceType, WorkMode};
use gridsim::kernel_factory::{AIKernelType, KernelFactory, KernelType};
use gridsim::mode_handler::ModeHandler;
use gridsim::registers::{DeviceRegisterContext, ModbusRegisterEntry};
use gridsim::registry::{allocate_default_port, default_base_port, default_slave_id, remap_port,
    write_nameplate, ModbusService};

fn entry(type_: &str, address: u16, value: u16, key: Option<&str>) -> ModbusRegisterEntry {
    ModbusRegisterEntry {
        address,
        value,
        type_: type_.to_string(),
        name: None,
        key: key.map(|k| k.to_string()),
    }
}

#[test]
fn duplicate_device_start_is_refused() {
    let mut svc = ModbusService::new();
    assert!(svc
        .start_device_modbus("dev-a", "storage".to_string(), Vec::new())
        .is_ok());
    assert!(svc.is_device_running("dev-a"));
    assert!(svc
        .start_device_modbus("dev-a", "storage".to_string(), Vec::new())
        .is_err());
    assert!(svc
        .start_device_modbus("dev-b", "meter".to_string(), Vec::new())
        .is_ok());
    assert_eq!(svc.running_device_ids(), vec!["dev-a".to_string(), "dev-b".to_string()]);
}

#[test]
fn stop_drains_the_registry() {
    let mut svc = ModbusService::new();
    svc.start_device_modbus("dev-a", "storage".to_string(), Vec::new())
        .unwrap();
    svc.start_device_modbus("dev-b", "meter".to_string(), Vec::new())
        .unwrap();
    svc.stop_device_modbus("dev-a").unwrap();
    assert!(!svc.is_device_running("dev-a"));
    assert!(svc.is_device_running("dev-b"));
    svc.stop_all_device_modbus();
    assert!(!svc.is_device_running("dev-b"));
    // A fresh start after the drain is accepted again.
    assert!(svc
        .start_device_modbus("dev-a", "storage".to_string(), Vec::new())
        .is_ok());
}

#[test]
fn holding_register_key_resolution_prefers_the_entry() {
    let mut svc = ModbusService::new();
    let registers = vec![
        entry("holding_registers", 100, 0, Some("set_power")),
        entry("holding_registers", 55, 243, None),
    ];
    svc.start_device_modbus("dev-a", "storage".to_string(), registers)
        .unwrap();
    // A configured entry's key wins at its custom address.
    assert_eq!(
        svc.get_key_for_holding_register("dev-a", 100),
        Some("set_power".to_string())
    );
    // An entry without a key falls back to the type default.
    assert_eq!(
        svc.get_key_for_holding_register("dev-a", 55),
        Some("on_off".to_string())
    );
    // An unconfigured address still resolves by the type default.
    assert_eq!(
        svc.get_key_for_holding_register("dev-a", 5095),
        Some("grid_mode".to_string())
    );
    // An address with no command role resolves to nothing.
    assert_eq!(svc.get_key_for_holding_register("dev-a", 9999), None);
    // A device that is not running resolves to nothing.
    assert_eq!(svc.get_key_for_holding_register("dev-x", 4), None);
}

#[test]
fn write_at_custom_address_reaches_the_arbitrator() {
    let mut svc = ModbusService::new();
    let registers = vec![entry("holding_registers", 100, 0, Some("set_power"))];
    svc.start_device_modbus("dev-a", "storage".to_string(), registers)
        .unwrap();
    let patch = svc.apply_hr_write_and_effective_properties("dev-a", "storage", 100, 0xF448);
    match patch {
        Some(PropertyPatch::Effective(props)) => {
            assert_eq!(props.directive, Some(DirectiveValue::SetpointDeciKw(-3000)));
        }
        _ => panic!("expected an effective-properties patch"),
    }
    // Without a running endpoint the default address still works.
    let patch = svc.apply_hr_write_and_effective_properties("dev-b", "storage", 4, 50);
    match patch {
        Some(PropertyPatch::Effective(props)) => {
            assert_eq!(props.directive, Some(DirectiveValue::SetpointDeciKw(50)));
        }
        _ => panic!("expected an effective-properties patch"),
    }
}

#[test]
fn privileged_ports_remap() {
    assert_eq!(remap_port(502), 10502);
    assert_eq!(remap_port(403), 10403);
    assert_eq!(remap_port(1023), 11023);
    assert_eq!(remap_port(1024), 1024);
    assert_eq!(remap_port(11502), 11502);
}

#[test]
fn default_ports_by_type() {
    assert_eq!(default_base_port("meter"), Some(403));
    assert_eq!(default_base_port("storage"), Some(502));
    assert_eq!(default_base_port("static_generator"), Some(602));
    assert_eq!(default_base_port("charger"), Some(702));
    assert_eq!(default_base_port("bus"), None);
    assert_eq!(allocate_default_port(502, 0), 502);
    assert_eq!(allocate_default_port(502, 3), 505);
    assert_eq!(allocate_default_port(65535, 3), 65535);
    assert_eq!(default_slave_id(), 1);
}

#[test]
fn nameplate_registers_by_type() {
    let mut ctx = DeviceRegisterContext::new();
    write_nameplate(&mut ctx, "static_generator", 123);
    assert_eq!(ctx.get_input_register(5001), 123);
    let mut ctx = DeviceRegisterContext::new();
    write_nameplate(&mut ctx, "storage", 1000);
    assert_eq!(ctx.get_input_register(39), 1000);
    let mut ctx = DeviceRegisterContext::new();
    write_nameplate(&mut ctx, "charger", 70000);
    assert_eq!(ctx.get_input_register(4), 0xFFFF);  // saturated
    let mut ctx = DeviceRegisterContext::new();
    write_nameplate(&mut ctx, "meter", 55);
    assert_eq!(ctx.get_input_register(5001), 0);
    assert_eq!(ctx.get_input_register(39), 0);
    assert_eq!(ctx.get_input_register(4), 0);
}

#[test]
fn device_type_names_round_trip() {
    assert_eq!(parse_device_type("bus"), Ok(DeviceType::Node));
    assert_eq!(parse_device_type("NODE"), Ok(DeviceType::Node));
    assert_eq!(parse_device_type("Pv"), Ok(DeviceType::Pv));
    assert_eq!(parse_device_type("static_generator"), Ok(DeviceType::Pv));
    assert_eq!(parse_device_type("ExternalGrid"), Ok(DeviceType::ExternalGrid));
    assert_eq!(parse_device_type("external_grid"), Ok(DeviceType::ExternalGrid));
    assert!(parse_device_type("toaster").is_err());
    assert_eq!(device_type_to_string(&DeviceType::Pv), "static_generator");
    assert_eq!(device_type_to_string(&DeviceType::Node), "bus");
    assert_eq!(device_type_to_string(&DeviceType::Meter), "meter");
}

#[test]
fn work_modes_parse_with_a_default() {
    assert_eq!(WorkMode::from("manual".to_string()), WorkMode::Manual);
    assert_eq!(WorkMode::from("remote".to_string()), WorkMode::Remote);
    assert_eq!(
        WorkMode::from("historical_data".to_string()),
        WorkMode::HistoricalData
    );
    assert_eq!(WorkMode::from("nonsense".to_string()), WorkMode::RandomData);
}

#[test]
fn mode_handler_keeps_modes_per_device() {
    let mut h = ModeHandler::new();
    assert!(h.get_device_mode("dev-a").is_none());
    h.set_device_mode("dev-a".to_string(), WorkMode::Manual);
    h.set_device_mode("dev-b".to_string(), WorkMode::Remote);
    h.set_device_mode("dev-a".to_string(), WorkMode::HistoricalData);
    assert_eq!(h.get_device_mode("dev-a"), Some(&WorkMode::HistoricalData));
    assert_eq!(h.get_device_mode("dev-b"), Some(&WorkMode::Remote));
    assert_eq!(h.get_all_modes().items().len(), 2);
}

#[test]
fn kernel_names() {
    assert_eq!(
        KernelFactory::create_power_kernel(KernelType::Pandapower),
        Ok("pandapower".to_string())
    );
    assert_eq!(
        KernelFactory::create_power_kernel(KernelType::PyPSA),
        Ok("pypsa".to_string())
    );
    assert_eq!(
        KernelFactory::create_power_kernel(KernelType::GridCal),
        Ok("gridcal".to_string())
    );
    assert_eq!(
        KernelFactory::create_ai_kernel(AIKernelType::PyTorch),
        Ok("pytorch".to_string())
    );
    assert_eq!(
        KernelFactory::create_ai_kernel(AIKernelType::TensorFlow),
        Ok("tensorflow".to_string())
    );
    assert_eq!(
        KernelFactory::create_ai_kernel(AIKernelType::OpenAIGym),
        Ok("gym".to_string())
    );
}

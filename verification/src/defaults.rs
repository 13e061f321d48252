//! The predefined register layout of each device type: the list an
//! endpoint starts with when the configuration names none. Each row is
//! pinned by the table functions, so a layout change shows in the
//! contract.

use vstd::prelude::*;
use crate::registers::ModbusRegisterEntry;
use crate::text::str_eq;

verus! {

/// The contract-relevant part of one register entry: address, initial
/// value, bank, and semantic key.
pub open spec fn entry_row(e: ModbusRegisterEntry) -> (u16, u16, Seq<char>, Option<Seq<char>>) {
    (
        e.address,
        e.value,
        e.type_@,
        match e.key {
            Some(k) => Some(k@),
            None => None,
        },
    )
}

/// Row `i` of the table: (address, initial value, bank, semantic key).
pub open spec fn spec_meter_default_row(i: int) -> (u16, u16, Seq<char>, Option<Seq<char>>) {
    if i == 0 {
        (0u16, 0u16, "input_registers"@, Some("active_power"@))
    } else
    if i == 1 {
        (1u16, 220u16, "input_registers"@, None)
    } else
    if i == 2 {
        (2u16, 220u16, "input_registers"@, None)
    } else
    if i == 3 {
        (3u16, 220u16, "input_registers"@, None)
    } else
    if i == 4 {
        (4u16, 0u16, "input_registers"@, None)
    } else
    if i == 5 {
        (5u16, 0u16, "input_registers"@, None)
    } else
    if i == 6 {
        (6u16, 0u16, "input_registers"@, None)
    } else
    if i == 7 {
        (7u16, 0u16, "input_registers"@, None)
    } else
    if i == 8 {
        (8u16, 0u16, "input_registers"@, None)
    } else
    if i == 9 {
        (9u16, 0u16, "input_registers"@, None)
    } else
    if i == 10 {
        (10u16, 0u16, "input_registers"@, None)
    } else
    if i == 11 {
        (11u16, 0u16, "input_registers"@, None)
    } else
    if i == 12 {
        (20u16, 0u16, "input_registers"@, Some("reactive_power"@))
    } else {
        (0u16, 0u16, Seq::empty(), None)
    }
}

/// The default register layout of a meter.
pub fn modbus_register_defaults_meter() -> (r: Vec<ModbusRegisterEntry>)
    ensures
        r@.len() == 13,
        forall|i: int| 0 <= i < 13 ==> #[trigger] entry_row(r@[i]) == spec_meter_default_row(i),
{
    let mut r: Vec<ModbusRegisterEntry> = Vec::new();
    r.push(
        ModbusRegisterEntry {
            address: 0,
            value: 0,
            type_: String::from_str("input_registers"),
            name: Some(String::from_str("active power")),
            key: Some(String::from_str("active_power")),
        },
    );
    r.push(
        ModbusRegisterEntry {
            address: 1,
            value: 220,
            type_: String::from_str("input_registers"),
            name: Some(String::from_str("phase A voltage")),
            key: None,
        },
    );
    r.push(
        ModbusRegisterEntry {
            address: 2,
            value: 220,
            type_: String::from_str("input_registers"),
            name: Some(String::from_str("phase B voltage")),
            key: None,
        },
    );
    r.push(
        ModbusRegisterEntry {
            address: 3,
            value: 220,
            type_: String::from_str("input_registers"),
            name: Some(String::from_str("phase C voltage")),
            key: None,
        },
    );
    r.push(
        ModbusRegisterEntry {
            address: 4,
            value: 0,
            type_: String::from_str("input_registers"),
            name: Some(String::from_str("phase A current")),
            key: None,
        },
    );
    r.push(
        ModbusRegisterEntry {
            address: 5,
            value: 0,
            type_: String::from_str("input_registers"),
            name: Some(String::from_str("phase B current")),
            key: None,
        },
    );
    r.push(
        ModbusRegisterEntry {
            address: 6,
            value: 0,
            type_: String::from_str("input_registers"),
            name: Some(String::from_str("phase C current")),
            key: None,
        },
    );
    r.push(
        ModbusRegisterEntry {
            address: 7,
            value: 0,
            type_: String::from_str("input_registers"),
            name: Some(String::from_str("active energy exported")),
            key: None,
        },
    );
    r.push(
        ModbusRegisterEntry {
            address: 8,
            value: 0,
            type_: String::from_str("input_registers"),
            name: Some(String::from_str("active energy imported")),
            key: None,
        },
    );
    r.push(
        ModbusRegisterEntry {
            address: 9,
            value: 0,
            type_: String::from_str("input_registers"),
            name: Some(String::from_str("combined active energy")),
            key: None,
        },
    );
    r.push(
        ModbusRegisterEntry {
            address: 10,
            value: 0,
            type_: String::from_str("input_registers"),
            name: Some(String::from_str("reactive energy exported")),
            key: None,
        },
    );
    r.push(
        ModbusRegisterEntry {
            address: 11,
            value: 0,
            type_: String::from_str("input_registers"),
            name: Some(String::from_str("reactive energy imported")),
            key: None,
        },
    );
    r.push(
        ModbusRegisterEntry {
            address: 20,
            value: 0,
            type_: String::from_str("input_registers"),
            name: Some(String::from_str("reactive power")),
            key: Some(String::from_str("reactive_power")),
        },
    );
    proof {
        assert(entry_row(r@[0]) == spec_meter_default_row(0));
        assert(entry_row(r@[1]) == spec_meter_default_row(1));
        assert(entry_row(r@[2]) == spec_meter_default_row(2));
        assert(entry_row(r@[3]) == spec_meter_default_row(3));
        assert(entry_row(r@[4]) == spec_meter_default_row(4));
        assert(entry_row(r@[5]) == spec_meter_default_row(5));
        assert(entry_row(r@[6]) == spec_meter_default_row(6));
        assert(entry_row(r@[7]) == spec_meter_default_row(7));
        assert(entry_row(r@[8]) == spec_meter_default_row(8));
        assert(entry_row(r@[9]) == spec_meter_default_row(9));
        assert(entry_row(r@[10]) == spec_meter_default_row(10));
        assert(entry_row(r@[11]) == spec_meter_default_row(11));
        assert(entry_row(r@[12]) == spec_meter_default_row(12));
    }
    r
}

/// Row `i` of the table: (address, initial value, bank, semantic key).
pub open spec fn spec_static_generator_default_row(i: int) -> (u16, u16, Seq<char>, Option<Seq<char>>) {
    if i == 0 {
        (5005u16, 1u16, "holding_registers"@, Some("on_off"@))
    } else
    if i == 1 {
        (5007u16, 100u16, "holding_registers"@, Some("power_limit_pct"@))
    } else
    if i == 2 {
        (5038u16, 32767u16, "holding_registers"@, Some("power_limit_raw"@))
    } else
    if i == 3 {
        (5040u16, 0u16, "holding_registers"@, Some("reactive_comp_pct"@))
    } else
    if i == 4 {
        (5041u16, 0u16, "holding_registers"@, Some("power_factor"@))
    } else
    if i == 5 {
        (5001u16, 0u16, "input_registers"@, None)
    } else
    if i == 6 {
        (5003u16, 0u16, "input_registers"@, None)
    } else
    if i == 7 {
        (5004u16, 0u16, "input_registers"@, None)
    } else
    if i == 8 {
        (5030u16, 0u16, "input_registers"@, Some("active_power_low"@))
    } else
    if i == 9 {
        (5031u16, 0u16, "input_registers"@, Some("active_power_high"@))
    } else
    if i == 10 {
        (5032u16, 0u16, "input_registers"@, Some("reactive_power_low"@))
    } else
    if i == 11 {
        (5033u16, 0u16, "input_registers"@, Some("reactive_power_high"@))
    } else {
        (0u16, 0u16, Seq::empty(), None)
    }
}

/// The default register layout of a generator.
pub fn modbus_register_defaults_static_generator() -> (r: Vec<ModbusRegisterEntry>)
    ensures
        r@.len() == 12,
        forall|i: int| 0 <= i < 12 ==> #[trigger] entry_row(r@[i]) == spec_static_generator_default_row(i),
{
    let mut r: Vec<ModbusRegisterEntry> = Vec::new();
    r.push(
        ModbusRegisterEntry {
            address: 5005,
            value: 1,
            type_: String::from_str("holding_registers"),
            name: Some(String::from_str("on/off switch")),
            key: Some(String::from_str("on_off")),
        },
    );
    r.push(
        ModbusRegisterEntry {
            address: 5007,
            value: 100,
            type_: String::from_str("holding_registers"),
            name: Some(String::from_str("active power limit, percent")),
            key: Some(String::from_str("power_limit_pct")),
        },
    );
    r.push(
        ModbusRegisterEntry {
            address: 5038,
            value: 32767,
            type_: String::from_str("holding_registers"),
            name: Some(String::from_str("active power limit, raw")),
            key: Some(String::from_str("power_limit_raw")),
        },
    );
    r.push(
        ModbusRegisterEntry {
            address: 5040,
            value: 0,
            type_: String::from_str("holding_registers"),
            name: Some(String::from_str("reactive compensation, percent")),
            key: Some(String::from_str("reactive_comp_pct")),
        },
    );
    r.push(
        ModbusRegisterEntry {
            address: 5041,
            value: 0,
            type_: String::from_str("holding_registers"),
            name: Some(String::from_str("power factor")),
            key: Some(String::from_str("power_factor")),
        },
    );
    r.push(
        ModbusRegisterEntry {
            address: 5001,
            value: 0,
            type_: String::from_str("input_registers"),
            name: Some(String::from_str("rated power")),
            key: None,
        },
    );
    r.push(
        ModbusRegisterEntry {
            address: 5003,
            value: 0,
            type_: String::from_str("input_registers"),
            name: Some(String::from_str("energy produced today")),
            key: None,
        },
    );
    r.push(
        ModbusRegisterEntry {
            address: 5004,
            value: 0,
            type_: String::from_str("input_registers"),
            name: Some(String::from_str("energy produced in total")),
            key: None,
        },
    );
    r.push(
        ModbusRegisterEntry {
            address: 5030,
            value: 0,
            type_: String::from_str("input_registers"),
            name: Some(String::from_str("active power, low word")),
            key: Some(String::from_str("active_power_low")),
        },
    );
    r.push(
        ModbusRegisterEntry {
            address: 5031,
            value: 0,
            type_: String::from_str("input_registers"),
            name: Some(String::from_str("active power, high word")),
            key: Some(String::from_str("active_power_high")),
        },
    );
    r.push(
        ModbusRegisterEntry {
            address: 5032,
            value: 0,
            type_: String::from_str("input_registers"),
            name: Some(String::from_str("reactive power, low word")),
            key: Some(String::from_str("reactive_power_low")),
        },
    );
    r.push(
        ModbusRegisterEntry {
            address: 5033,
            value: 0,
            type_: String::from_str("input_registers"),
            name: Some(String::from_str("reactive power, high word")),
            key: Some(String::from_str("reactive_power_high")),
        },
    );
    proof {
        assert(entry_row(r@[0]) == spec_static_generator_default_row(0));
        assert(entry_row(r@[1]) == spec_static_generator_default_row(1));
        assert(entry_row(r@[2]) == spec_static_generator_default_row(2));
        assert(entry_row(r@[3]) == spec_static_generator_default_row(3));
        assert(entry_row(r@[4]) == spec_static_generator_default_row(4));
        assert(entry_row(r@[5]) == spec_static_generator_default_row(5));
        assert(entry_row(r@[6]) == spec_static_generator_default_row(6));
        assert(entry_row(r@[7]) == spec_static_generator_default_row(7));
        assert(entry_row(r@[8]) == spec_static_generator_default_row(8));
        assert(entry_row(r@[9]) == spec_static_generator_default_row(9));
        assert(entry_row(r@[10]) == spec_static_generator_default_row(10));
        assert(entry_row(r@[11]) == spec_static_generator_default_row(11));
    }
    r
}

/// Row `i` of the table: (address, initial value, bank, semantic key).
pub open spec fn spec_storage_default_row(i: int) -> (u16, u16, Seq<char>, Option<Seq<char>>) {
    if i == 0 {
        (4u16, 0u16, "holding_registers"@, Some("set_power"@))
    } else
    if i == 1 {
        (55u16, 243u16, "holding_registers"@, Some("on_off"@))
    } else
    if i == 2 {
        (5095u16, 0u16, "holding_registers"@, Some("grid_mode"@))
    } else
    if i == 3 {
        (5033u16, 0u16, "holding_registers"@, Some("pcs_charge_discharge_state"@))
    } else
    if i == 4 {
        (0u16, 3u16, "input_registers"@, None)
    } else
    if i == 5 {
        (2u16, 288u16, "input_registers"@, None)
    } else
    if i == 6 {
        (8u16, 10000u16, "input_registers"@, None)
    } else
    if i == 7 {
        (9u16, 10000u16, "input_registers"@, None)
    } else
    if i == 8 {
        (12u16, 862u16, "input_registers"@, None)
    } else
    if i == 9 {
        (39u16, 100u16, "input_registers"@, None)
    } else
    if i == 10 {
        (40u16, 0u16, "input_registers"@, None)
    } else
    if i == 11 {
        (41u16, 0u16, "input_registers"@, None)
    } else
    if i == 12 {
        (42u16, 0u16, "input_registers"@, None)
    } else
    if i == 13 {
        (43u16, 0u16, "input_registers"@, None)
    } else
    if i == 14 {
        (400u16, 0u16, "input_registers"@, None)
    } else
    if i == 15 {
        (408u16, 1u16, "input_registers"@, None)
    } else
    if i == 16 {
        (409u16, 2200u16, "input_registers"@, None)
    } else
    if i == 17 {
        (410u16, 2200u16, "input_registers"@, None)
    } else
    if i == 18 {
        (411u16, 2200u16, "input_registers"@, None)
    } else
    if i == 19 {
        (412u16, 0u16, "input_registers"@, None)
    } else
    if i == 20 {
        (413u16, 0u16, "input_registers"@, None)
    } else
    if i == 21 {
        (414u16, 0u16, "input_registers"@, None)
    } else
    if i == 22 {
        (420u16, 0u16, "input_registers"@, Some("active_power_low"@))
    } else
    if i == 23 {
        (421u16, 0u16, "input_registers"@, Some("active_power_high"@))
    } else
    if i == 24 {
        (426u16, 0u16, "input_registers"@, None)
    } else
    if i == 25 {
        (427u16, 0u16, "input_registers"@, None)
    } else
    if i == 26 {
        (428u16, 0u16, "input_registers"@, None)
    } else
    if i == 27 {
        (429u16, 0u16, "input_registers"@, None)
    } else
    if i == 28 {
        (430u16, 0u16, "input_registers"@, None)
    } else
    if i == 29 {
        (431u16, 0u16, "input_registers"@, None)
    } else
    if i == 30 {
        (432u16, 0u16, "input_registers"@, None)
    } else
    if i == 31 {
        (839u16, 240u16, "input_registers"@, None)
    } else
    if i == 32 {
        (900u16, 0u16, "input_registers"@, None)
    } else {
        (0u16, 0u16, Seq::empty(), None)
    }
}

/// The default register layout of a storage device.
pub fn modbus_register_defaults_storage() -> (r: Vec<ModbusRegisterEntry>)
    ensures
        r@.len() == 33,
        forall|i: int| 0 <= i < 33 ==> #[trigger] entry_row(r@[i]) == spec_storage_default_row(i),
{
    let mut r: Vec<ModbusRegisterEntry> = Vec::new();
    r.push(
        ModbusRegisterEntry {
            address: 4,
            value: 0,
            type_: String::from_str("holding_registers"),
            name: Some(String::from_str("power setpoint")),
            key: Some(String::from_str("set_power")),
        },
    );
    r.push(
        ModbusRegisterEntry {
            address: 55,
            value: 243,
            type_: String::from_str("holding_registers"),
            name: Some(String::from_str("on/off switch (243 starts on)")),
            key: Some(String::from_str("on_off")),
        },
    );
    r.push(
        ModbusRegisterEntry {
            address: 5095,
            value: 0,
            type_: String::from_str("holding_registers"),
            name: Some(String::from_str("grid mode (0 on-grid, 1 off-grid)")),
            key: Some(String::from_str("grid_mode")),
        },
    );
    r.push(
        ModbusRegisterEntry {
            address: 5033,
            value: 0,
            type_: String::from_str("holding_registers"),
            name: Some(String::from_str("charge/discharge state (1 discharging, 2 charging)")),
            key: Some(String::from_str("pcs_charge_discharge_state")),
        },
    );
    r.push(
        ModbusRegisterEntry {
            address: 0,
            value: 3,
            type_: String::from_str("input_registers"),
            name: Some(String::from_str("state register 1")),
            key: None,
        },
    );
    r.push(
        ModbusRegisterEntry {
            address: 2,
            value: 288,
            type_: String::from_str("input_registers"),
            name: Some(String::from_str("state of charge")),
            key: None,
        },
    );
    r.push(
        ModbusRegisterEntry {
            address: 8,
            value: 10000,
            type_: String::from_str("input_registers"),
            name: Some(String::from_str("maximum charge power")),
            key: None,
        },
    );
    r.push(
        ModbusRegisterEntry {
            address: 9,
            value: 10000,
            type_: String::from_str("input_registers"),
            name: Some(String::from_str("maximum discharge power")),
            key: None,
        },
    );
    r.push(
        ModbusRegisterEntry {
            address: 12,
            value: 862,
            type_: String::from_str("input_registers"),
            name: Some(String::from_str("remaining dischargeable energy")),
            key: None,
        },
    );
    r.push(
        ModbusRegisterEntry {
            address: 39,
            value: 100,
            type_: String::from_str("input_registers"),
            name: Some(String::from_str("rated capacity")),
            key: None,
        },
    );
    r.push(
        ModbusRegisterEntry {
            address: 40,
            value: 0,
            type_: String::from_str("input_registers"),
            name: Some(String::from_str("converter count")),
            key: None,
        },
    );
    r.push(
        ModbusRegisterEntry {
            address: 41,
            value: 0,
            type_: String::from_str("input_registers"),
            name: Some(String::from_str("battery cluster count")),
            key: None,
        },
    );
    r.push(
        ModbusRegisterEntry {
            address: 42,
            value: 0,
            type_: String::from_str("input_registers"),
            name: Some(String::from_str("battery cluster capacity")),
            key: None,
        },
    );
    r.push(
        ModbusRegisterEntry {
            address: 43,
            value: 0,
            type_: String::from_str("input_registers"),
            name: Some(String::from_str("battery cluster power")),
            key: None,
        },
    );
    r.push(
        ModbusRegisterEntry {
            address: 400,
            value: 0,
            type_: String::from_str("input_registers"),
            name: Some(String::from_str("state register 4")),
            key: None,
        },
    );
    r.push(
        ModbusRegisterEntry {
            address: 408,
            value: 1,
            type_: String::from_str("input_registers"),
            name: Some(String::from_str("state register 2")),
            key: None,
        },
    );
    r.push(
        ModbusRegisterEntry {
            address: 409,
            value: 2200,
            type_: String::from_str("input_registers"),
            name: Some(String::from_str("phase A voltage")),
            key: None,
        },
    );
    r.push(
        ModbusRegisterEntry {
            address: 410,
            value: 2200,
            type_: String::from_str("input_registers"),
            name: Some(String::from_str("phase B voltage")),
            key: None,
        },
    );
    r.push(
        ModbusRegisterEntry {
            address: 411,
            value: 2200,
            type_: String::from_str("input_registers"),
            name: Some(String::from_str("phase C voltage")),
            key: None,
        },
    );
    r.push(
        ModbusRegisterEntry {
            address: 412,
            value: 0,
            type_: String::from_str("input_registers"),
            name: Some(String::from_str("phase A current")),
            key: None,
        },
    );
    r.push(
        ModbusRegisterEntry {
            address: 413,
            value: 0,
            type_: String::from_str("input_registers"),
            name: Some(String::from_str("phase B current")),
            key: None,
        },
    );
    r.push(
        ModbusRegisterEntry {
            address: 414,
            value: 0,
            type_: String::from_str("input_registers"),
            name: Some(String::from_str("phase C current")),
            key: None,
        },
    );
    r.push(
        ModbusRegisterEntry {
            address: 420,
            value: 0,
            type_: String::from_str("input_registers"),
            name: Some(String::from_str("active power, low word")),
            key: Some(String::from_str("active_power_low")),
        },
    );
    r.push(
        ModbusRegisterEntry {
            address: 421,
            value: 0,
            type_: String::from_str("input_registers"),
            name: Some(String::from_str("active power, high word")),
            key: Some(String::from_str("active_power_high")),
        },
    );
    r.push(
        ModbusRegisterEntry {
            address: 426,
            value: 0,
            type_: String::from_str("input_registers"),
            name: Some(String::from_str("energy charged today")),
            key: None,
        },
    );
    r.push(
        ModbusRegisterEntry {
            address: 427,
            value: 0,
            type_: String::from_str("input_registers"),
            name: Some(String::from_str("energy discharged today")),
            key: None,
        },
    );
    r.push(
        ModbusRegisterEntry {
            address: 428,
            value: 0,
            type_: String::from_str("input_registers"),
            name: Some(String::from_str("lifetime charge, low word")),
            key: None,
        },
    );
    r.push(
        ModbusRegisterEntry {
            address: 429,
            value: 0,
            type_: String::from_str("input_registers"),
            name: Some(String::from_str("lifetime charge, high word")),
            key: None,
        },
    );
    r.push(
        ModbusRegisterEntry {
            address: 430,
            value: 0,
            type_: String::from_str("input_registers"),
            name: Some(String::from_str("lifetime discharge, low word")),
            key: None,
        },
    );
    r.push(
        ModbusRegisterEntry {
            address: 431,
            value: 0,
            type_: String::from_str("input_registers"),
            name: Some(String::from_str("lifetime discharge, high word")),
            key: None,
        },
    );
    r.push(
        ModbusRegisterEntry {
            address: 432,
            value: 0,
            type_: String::from_str("input_registers"),
            name: Some(String::from_str("converter mode (bit 9 on-grid, bit 10 off-grid)")),
            key: None,
        },
    );
    r.push(
        ModbusRegisterEntry {
            address: 839,
            value: 240,
            type_: String::from_str("input_registers"),
            name: Some(String::from_str("state register 3 (240 stopped, 243/245 running)")),
            key: None,
        },
    );
    r.push(
        ModbusRegisterEntry {
            address: 900,
            value: 0,
            type_: String::from_str("input_registers"),
            name: Some(String::from_str("serial number")),
            key: None,
        },
    );
    proof {
        assert(entry_row(r@[0]) == spec_storage_default_row(0));
        assert(entry_row(r@[1]) == spec_storage_default_row(1));
        assert(entry_row(r@[2]) == spec_storage_default_row(2));
        assert(entry_row(r@[3]) == spec_storage_default_row(3));
        assert(entry_row(r@[4]) == spec_storage_default_row(4));
        assert(entry_row(r@[5]) == spec_storage_default_row(5));
        assert(entry_row(r@[6]) == spec_storage_default_row(6));
        assert(entry_row(r@[7]) == spec_storage_default_row(7));
        assert(entry_row(r@[8]) == spec_storage_default_row(8));
        assert(entry_row(r@[9]) == spec_storage_default_row(9));
        assert(entry_row(r@[10]) == spec_storage_default_row(10));
        assert(entry_row(r@[11]) == spec_storage_default_row(11));
        assert(entry_row(r@[12]) == spec_storage_default_row(12));
        assert(entry_row(r@[13]) == spec_storage_default_row(13));
        assert(entry_row(r@[14]) == spec_storage_default_row(14));
        assert(entry_row(r@[15]) == spec_storage_default_row(15));
        assert(entry_row(r@[16]) == spec_storage_default_row(16));
        assert(entry_row(r@[17]) == spec_storage_default_row(17));
        assert(entry_row(r@[18]) == spec_storage_default_row(18));
        assert(entry_row(r@[19]) == spec_storage_default_row(19));
        assert(entry_row(r@[20]) == spec_storage_default_row(20));
        assert(entry_row(r@[21]) == spec_storage_default_row(21));
        assert(entry_row(r@[22]) == spec_storage_default_row(22));
        assert(entry_row(r@[23]) == spec_storage_default_row(23));
        assert(entry_row(r@[24]) == spec_storage_default_row(24));
        assert(entry_row(r@[25]) == spec_storage_default_row(25));
        assert(entry_row(r@[26]) == spec_storage_default_row(26));
        assert(entry_row(r@[27]) == spec_storage_default_row(27));
        assert(entry_row(r@[28]) == spec_storage_default_row(28));
        assert(entry_row(r@[29]) == spec_storage_default_row(29));
        assert(entry_row(r@[30]) == spec_storage_default_row(30));
        assert(entry_row(r@[31]) == spec_storage_default_row(31));
        assert(entry_row(r@[32]) == spec_storage_default_row(32));
    }
    r
}

/// Row `i` of the table: (address, initial value, bank, semantic key).
pub open spec fn spec_charger_default_row(i: int) -> (u16, u16, Seq<char>, Option<Seq<char>>) {
    if i == 0 {
        (0u16, 32767u16, "holding_registers"@, Some("power_limit_raw"@))
    } else
    if i == 1 {
        (0u16, 0u16, "input_registers"@, Some("active_power"@))
    } else
    if i == 2 {
        (1u16, 1u16, "input_registers"@, None)
    } else
    if i == 3 {
        (2u16, 0u16, "input_registers"@, None)
    } else
    if i == 4 {
        (3u16, 0u16, "input_registers"@, None)
    } else
    if i == 5 {
        (4u16, 0u16, "input_registers"@, None)
    } else
    if i == 6 {
        (100u16, 1u16, "input_registers"@, None)
    } else
    if i == 7 {
        (101u16, 2u16, "input_registers"@, None)
    } else
    if i == 8 {
        (102u16, 3u16, "input_registers"@, None)
    } else
    if i == 9 {
        (103u16, 4u16, "input_registers"@, None)
    } else {
        (0u16, 0u16, Seq::empty(), None)
    }
}

/// The default register layout of a charger.
pub fn modbus_register_defaults_charger() -> (r: Vec<ModbusRegisterEntry>)
    ensures
        r@.len() == 10,
        forall|i: int| 0 <= i < 10 ==> #[trigger] entry_row(r@[i]) == spec_charger_default_row(i),
{
    let mut r: Vec<ModbusRegisterEntry> = Vec::new();
    r.push(
        ModbusRegisterEntry {
            address: 0,
            value: 32767,
            type_: String::from_str("holding_registers"),
            name: Some(String::from_str("power limit")),
            key: Some(String::from_str("power_limit_raw")),
        },
    );
    r.push(
        ModbusRegisterEntry {
            address: 0,
            value: 0,
            type_: String::from_str("input_registers"),
            name: Some(String::from_str("active power")),
            key: Some(String::from_str("active_power")),
        },
    );
    r.push(
        ModbusRegisterEntry {
            address: 1,
            value: 1,
            type_: String::from_str("input_registers"),
            name: Some(String::from_str("state")),
            key: None,
        },
    );
    r.push(
        ModbusRegisterEntry {
            address: 2,
            value: 0,
            type_: String::from_str("input_registers"),
            name: Some(String::from_str("demanded power")),
            key: None,
        },
    );
    r.push(
        ModbusRegisterEntry {
            address: 3,
            value: 0,
            type_: String::from_str("input_registers"),
            name: Some(String::from_str("connector count")),
            key: None,
        },
    );
    r.push(
        ModbusRegisterEntry {
            address: 4,
            value: 0,
            type_: String::from_str("input_registers"),
            name: Some(String::from_str("rated power")),
            key: None,
        },
    );
    r.push(
        ModbusRegisterEntry {
            address: 100,
            value: 1,
            type_: String::from_str("input_registers"),
            name: Some(String::from_str("connector 1 state")),
            key: None,
        },
    );
    r.push(
        ModbusRegisterEntry {
            address: 101,
            value: 2,
            type_: String::from_str("input_registers"),
            name: Some(String::from_str("connector 2 state")),
            key: None,
        },
    );
    r.push(
        ModbusRegisterEntry {
            address: 102,
            value: 3,
            type_: String::from_str("input_registers"),
            name: Some(String::from_str("connector 3 state")),
            key: None,
        },
    );
    r.push(
        ModbusRegisterEntry {
            address: 103,
            value: 4,
            type_: String::from_str("input_registers"),
            name: Some(String::from_str("connector 4 state")),
            key: None,
        },
    );
    proof {
        assert(entry_row(r@[0]) == spec_charger_default_row(0));
        assert(entry_row(r@[1]) == spec_charger_default_row(1));
        assert(entry_row(r@[2]) == spec_charger_default_row(2));
        assert(entry_row(r@[3]) == spec_charger_default_row(3));
        assert(entry_row(r@[4]) == spec_charger_default_row(4));
        assert(entry_row(r@[5]) == spec_charger_default_row(5));
        assert(entry_row(r@[6]) == spec_charger_default_row(6));
        assert(entry_row(r@[7]) == spec_charger_default_row(7));
        assert(entry_row(r@[8]) == spec_charger_default_row(8));
        assert(entry_row(r@[9]) == spec_charger_default_row(9));
    }
    r
}

/// The four device-type names are pairwise distinct.
proof fn lemma_type_names_distinct()
    ensures
        "meter"@ != "static_generator"@,
        "meter"@ != "storage"@,
        "meter"@ != "charger"@,
        "static_generator"@ != "storage"@,
        "static_generator"@ != "charger"@,
        "storage"@ != "charger"@,
{
    reveal_strlit("meter");
    reveal_strlit("static_generator");
    reveal_strlit("storage");
    reveal_strlit("charger");
    assert("meter"@[0] != "static_generator"@[0]);
    assert("meter"@[0] != "storage"@[0]);
    assert("meter"@[0] != "charger"@[0]);
    assert("static_generator"@[2] != "storage"@[2]);
    assert("static_generator"@[0] != "charger"@[0]);
    assert("storage"@[0] != "charger"@[0]);
}

/// How many rows the default layout of a device type has.
pub open spec fn spec_default_len(dt: Seq<char>) -> int {
    if dt == "static_generator"@ {
        12
    } else if dt == "storage"@ {
        33
    } else if dt == "charger"@ {
        10
    } else {
        13
    }
}

/// Row `i` of the default layout of a device type; an unknown type falls
/// back to the meter layout.
pub open spec fn spec_default_row(dt: Seq<char>, i: int) -> (u16, u16, Seq<char>, Option<
    Seq<char>,
>) {
    if dt == "static_generator"@ {
        spec_static_generator_default_row(i)
    } else if dt == "storage"@ {
        spec_storage_default_row(i)
    } else if dt == "charger"@ {
        spec_charger_default_row(i)
    } else {
        spec_meter_default_row(i)
    }
}

/// The default register layout of a device type; an unknown type falls
/// back to the meter layout.
pub fn get_modbus_register_defaults(device_type: &str) -> (r: Result<
    Vec<ModbusRegisterEntry>,
    String,
>)
    ensures
        r matches Ok(v) && v@.len() == spec_default_len(device_type@) && forall|i: int|
            0 <= i < v@.len() ==> #[trigger] entry_row(v@[i]) == spec_default_row(
                device_type@,
                i,
            ),
{
    proof {
        lemma_type_names_distinct();
    }
    if str_eq(device_type, "meter") {
        Ok(modbus_register_defaults_meter())
    } else if str_eq(device_type, "static_generator") {
        Ok(modbus_register_defaults_static_generator())
    } else if str_eq(device_type, "storage") {
        Ok(modbus_register_defaults_storage())
    } else if str_eq(device_type, "charger") {
        Ok(modbus_register_defaults_charger())
    } else {
        Ok(modbus_register_defaults_meter())
    }
}

} // verus!

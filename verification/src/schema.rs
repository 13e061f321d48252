//! Static per-device-type register schema: which input registers the
//! simulation updates (and from which data source), and which holding
//! registers carry commands (and which command). Resolution by semantic key
//! lets a device use custom addresses for the same roles.

use vstd::prelude::*;
use crate::text::str_eq;

verus! {

/// Data source for a simulation-updated input register.
#[derive(Clone, Copy, PartialEq, Eq, Structural, Debug)]
pub enum IrUpdateKey {
    /// Active power, one word.
    ActivePower,
    /// Reactive power, one word.
    ReactivePower,
    /// Low word of active power split across two registers.
    ActivePowerLow,
    /// High word of active power split across two registers.
    ActivePowerHigh,
    /// Low word of reactive power split across two registers.
    ReactivePowerLow,
    /// High word of reactive power split across two registers.
    ReactivePowerHigh,
}

/// Command carried by a holding register.
#[derive(Clone, Copy, PartialEq, Eq, Structural, Debug)]
pub enum HrCommandId {
    /// Absolute on/off switch.
    OnOff,
    /// Active-power limit as a percentage.
    PowerLimitPct,
    /// Active-power limit as a raw register value.
    PowerLimitRaw,
    /// Reactive-compensation percentage.
    ReactiveCompPct,
    /// Power-factor setting.
    PowerFactor,
    /// Active-power setpoint (signed, 0.1 kW per unit).
    SetPower,
    /// A command-bearing register with no arbitration semantics, by address.
    Other(u16),
}

/// The simulation-updated input registers of a device type:
/// (default address, data source).
pub open spec fn spec_input_register_updates(dt: Seq<char>) -> Seq<(u16, IrUpdateKey)> {
    if dt == "meter"@ {
        seq![(0u16, IrUpdateKey::ActivePower), (20u16, IrUpdateKey::ReactivePower)]
    } else if dt == "static_generator"@ {
        seq![
            (5030u16, IrUpdateKey::ActivePowerLow),
            (5031u16, IrUpdateKey::ActivePowerHigh),
            (5032u16, IrUpdateKey::ReactivePowerLow),
            (5033u16, IrUpdateKey::ReactivePowerHigh),
        ]
    } else if dt == "storage"@ {
        seq![(420u16, IrUpdateKey::ActivePowerLow), (421u16, IrUpdateKey::ActivePowerHigh)]
    } else if dt == "charger"@ {
        seq![(0u16, IrUpdateKey::ActivePower)]
    } else {
        Seq::empty()
    }
}

/// The simulation-updated input registers of a device type.
pub fn input_register_updates(device_type: &str) -> (r: Vec<(u16, IrUpdateKey)>)
    ensures
        r@ == spec_input_register_updates(device_type@),
{
    let mut v: Vec<(u16, IrUpdateKey)> = Vec::new();
    if str_eq(device_type, "meter") {
        v.push((0, IrUpdateKey::ActivePower));
        v.push((20, IrUpdateKey::ReactivePower));
    } else if str_eq(device_type, "static_generator") {
        v.push((5030, IrUpdateKey::ActivePowerLow));
        v.push((5031, IrUpdateKey::ActivePowerHigh));
        v.push((5032, IrUpdateKey::ReactivePowerLow));
        v.push((5033, IrUpdateKey::ReactivePowerHigh));
    } else if str_eq(device_type, "storage") {
        v.push((420, IrUpdateKey::ActivePowerLow));
        v.push((421, IrUpdateKey::ActivePowerHigh));
    } else if str_eq(device_type, "charger") {
        v.push((0, IrUpdateKey::ActivePower));
    }
    proof {
        assert(v@ =~= spec_input_register_updates(device_type@));
    }
    v
}

/// The command-bearing holding registers of a device type:
/// (default address, command).
pub open spec fn spec_holding_register_commands(dt: Seq<char>) -> Seq<(u16, HrCommandId)> {
    if dt == "static_generator"@ {
        seq![
            (5005u16, HrCommandId::OnOff),
            (5007u16, HrCommandId::PowerLimitPct),
            (5038u16, HrCommandId::PowerLimitRaw),
            (5040u16, HrCommandId::ReactiveCompPct),
            (5041u16, HrCommandId::PowerFactor),
        ]
    } else if dt == "storage"@ {
        seq![
            (4u16, HrCommandId::SetPower),
            (55u16, HrCommandId::OnOff),
            (5095u16, HrCommandId::Other(5095)),
            (5033u16, HrCommandId::Other(5033)),
        ]
    } else if dt == "charger"@ {
        seq![(0u16, HrCommandId::PowerLimitRaw)]
    } else {
        Seq::empty()
    }
}

/// The command-bearing holding registers of a device type.
pub fn holding_register_commands(device_type: &str) -> (r: Vec<(u16, HrCommandId)>)
    ensures
        r@ == spec_holding_register_commands(device_type@),
{
    let mut v: Vec<(u16, HrCommandId)> = Vec::new();
    if str_eq(device_type, "static_generator") {
        v.push((5005, HrCommandId::OnOff));
        v.push((5007, HrCommandId::PowerLimitPct));
        v.push((5038, HrCommandId::PowerLimitRaw));
        v.push((5040, HrCommandId::ReactiveCompPct));
        v.push((5041, HrCommandId::PowerFactor));
    } else if str_eq(device_type, "storage") {
        v.push((4, HrCommandId::SetPower));
        v.push((55, HrCommandId::OnOff));
        v.push((5095, HrCommandId::Other(5095)));
        v.push((5033, HrCommandId::Other(5033)));
    } else if str_eq(device_type, "charger") {
        v.push((0, HrCommandId::PowerLimitRaw));
    }
    proof {
        assert(v@ =~= spec_holding_register_commands(device_type@));
    }
    v
}

/// The default semantic key of a holding register of a device type.
pub open spec fn spec_holding_register_default_key(dt: Seq<char>, address: u16) -> Option<
    Seq<char>,
> {
    if dt == "static_generator"@ {
        if address == 5005 {
            Some("on_off"@)
        } else if address == 5007 {
            Some("power_limit_pct"@)
        } else if address == 5038 {
            Some("power_limit_raw"@)
        } else if address == 5040 {
            Some("reactive_comp_pct"@)
        } else if address == 5041 {
            Some("power_factor"@)
        } else {
            None
        }
    } else if dt == "storage"@ {
        if address == 4 {
            Some("set_power"@)
        } else if address == 55 {
            Some("on_off"@)
        } else if address == 5095 {
            Some("grid_mode"@)
        } else if address == 5033 {
            Some("pcs_charge_discharge_state"@)
        } else {
            None
        }
    } else if dt == "charger"@ {
        if address == 0 {
            Some("power_limit_raw"@)
        } else {
            None
        }
    } else {
        None
    }
}

/// Resolves a holding-register address of a device type to its default
/// semantic key; an address with no command role yields `None`.
pub fn holding_register_default_key(device_type: &str, address: u16) -> (r: Option<&'static str>)
    ensures
        match r {
            Some(s) => spec_holding_register_default_key(device_type@, address) == Some(s@),
            None => spec_holding_register_default_key(device_type@, address) is None,
        },
{
    if str_eq(device_type, "static_generator") {
        if address == 5005 {
            Some("on_off")
        } else if address == 5007 {
            Some("power_limit_pct")
        } else if address == 5038 {
            Some("power_limit_raw")
        } else if address == 5040 {
            Some("reactive_comp_pct")
        } else if address == 5041 {
            Some("power_factor")
        } else {
            None
        }
    } else if str_eq(device_type, "storage") {
        if address == 4 {
            Some("set_power")
        } else if address == 55 {
            Some("on_off")
        } else if address == 5095 {
            Some("grid_mode")
        } else if address == 5033 {
            Some("pcs_charge_discharge_state")
        } else {
            None
        }
    } else if str_eq(device_type, "charger") {
        if address == 0 {
            Some("power_limit_raw")
        } else {
            None
        }
    } else {
        None
    }
}

/// The command a semantic key stands for, independent of device type.
pub open spec fn spec_hr_key_to_command_id(key: Seq<char>) -> Option<HrCommandId> {
    if key == "on_off"@ {
        Some(HrCommandId::OnOff)
    } else if key == "power_limit_pct"@ {
        Some(HrCommandId::PowerLimitPct)
    } else if key == "power_limit_raw"@ {
        Some(HrCommandId::PowerLimitRaw)
    } else if key == "reactive_comp_pct"@ {
        Some(HrCommandId::ReactiveCompPct)
    } else if key == "power_factor"@ {
        Some(HrCommandId::PowerFactor)
    } else if key == "set_power"@ {
        Some(HrCommandId::SetPower)
    } else if key == "grid_mode"@ {
        Some(HrCommandId::Other(5095))
    } else if key == "pcs_charge_discharge_state"@ {
        Some(HrCommandId::Other(5033))
    } else {
        None
    }
}

/// Resolves a semantic key to its command, for writes at custom addresses.
pub fn hr_key_to_command_id(key: &str) -> (r: Option<HrCommandId>)
    ensures
        r == spec_hr_key_to_command_id(key@),
{
    if str_eq(key, "on_off") {
        Some(HrCommandId::OnOff)
    } else if str_eq(key, "power_limit_pct") {
        Some(HrCommandId::PowerLimitPct)
    } else if str_eq(key, "power_limit_raw") {
        Some(HrCommandId::PowerLimitRaw)
    } else if str_eq(key, "reactive_comp_pct") {
        Some(HrCommandId::ReactiveCompPct)
    } else if str_eq(key, "power_factor") {
        Some(HrCommandId::PowerFactor)
    } else if str_eq(key, "set_power") {
        Some(HrCommandId::SetPower)
    } else if str_eq(key, "grid_mode") {
        Some(HrCommandId::Other(5095))
    } else if str_eq(key, "pcs_charge_discharge_state") {
        Some(HrCommandId::Other(5033))
    } else {
        None
    }
}

/// The default semantic key under which a simulation data source is looked
/// up in a device's register list.
pub open spec fn spec_ir_update_key_to_default_key(k: IrUpdateKey) -> Seq<char> {
    match k {
        IrUpdateKey::ActivePower => "active_power"@,
        IrUpdateKey::ReactivePower => "reactive_power"@,
        IrUpdateKey::ActivePowerLow => "active_power_low"@,
        IrUpdateKey::ActivePowerHigh => "active_power_high"@,
        IrUpdateKey::ReactivePowerLow => "reactive_power_low"@,
        IrUpdateKey::ReactivePowerHigh => "reactive_power_high"@,
    }
}

/// The default semantic key of a simulation data source.
pub fn ir_update_key_to_default_key(k: IrUpdateKey) -> (r: &'static str)
    ensures
        r@ == spec_ir_update_key_to_default_key(k),
{
    match k {
        IrUpdateKey::ActivePower => "active_power",
        IrUpdateKey::ReactivePower => "reactive_power",
        IrUpdateKey::ActivePowerLow => "active_power_low",
        IrUpdateKey::ActivePowerHigh => "active_power_high",
        IrUpdateKey::ReactivePowerLow => "reactive_power_low",
        IrUpdateKey::ReactivePowerHigh => "reactive_power_high",
    }
}

/// The command of a holding-register address of a device type, by the
/// type's default addresses.
pub open spec fn spec_hr_address_to_command(dt: Seq<char>, address: u16) -> Option<HrCommandId> {
    if dt == "static_generator"@ {
        if address == 5005 {
            Some(HrCommandId::OnOff)
        } else if address == 5007 {
            Some(HrCommandId::PowerLimitPct)
        } else if address == 5038 {
            Some(HrCommandId::PowerLimitRaw)
        } else if address == 5040 {
            Some(HrCommandId::ReactiveCompPct)
        } else if address == 5041 {
            Some(HrCommandId::PowerFactor)
        } else {
            None
        }
    } else if dt == "storage"@ {
        if address == 4 {
            Some(HrCommandId::SetPower)
        } else if address == 55 {
            Some(HrCommandId::OnOff)
        } else if address == 5095 {
            Some(HrCommandId::Other(5095))
        } else if address == 5033 {
            Some(HrCommandId::Other(5033))
        } else {
            None
        }
    } else if dt == "charger"@ {
        if address == 0 {
            Some(HrCommandId::PowerLimitRaw)
        } else {
            None
        }
    } else {
        None
    }
}

/// Resolves a holding-register address of a device type to its command;
/// an address with no command role yields `None`.
pub fn hr_address_to_command(device_type: &str, address: u16) -> (r: Option<HrCommandId>)
    ensures
        r == spec_hr_address_to_command(device_type@, address),
{
    if str_eq(device_type, "static_generator") {
        if address == 5005 {
            Some(HrCommandId::OnOff)
        } else if address == 5007 {
            Some(HrCommandId::PowerLimitPct)
        } else if address == 5038 {
            Some(HrCommandId::PowerLimitRaw)
        } else if address == 5040 {
            Some(HrCommandId::ReactiveCompPct)
        } else if address == 5041 {
            Some(HrCommandId::PowerFactor)
        } else {
            None
        }
    } else if str_eq(device_type, "storage") {
        if address == 4 {
            Some(HrCommandId::SetPower)
        } else if address == 55 {
            Some(HrCommandId::OnOff)
        } else if address == 5095 {
            Some(HrCommandId::Other(5095))
        } else if address == 5033 {
            Some(HrCommandId::Other(5033))
        } else {
            None
        }
    } else if str_eq(device_type, "charger") {
        if address == 0 {
            Some(HrCommandId::PowerLimitRaw)
        } else {
            None
        }
    } else {
        None
    }
}

} // verus!

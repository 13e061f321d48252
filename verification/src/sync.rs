//! Translates one tick's simulated power and bookkeeping into register
//! writes on a device's banks, by device type: bit-exact fixed-point
//! encoding (meters signed at 0.5 kW per unit, others 0.1 kW per unit with
//! 32-bit low/high word splitting), meter energy counters, and the storage
//! operating-state, state-of-charge and energy-counter registers. Custom
//! register addresses resolve by semantic key before the schema default.

use vstd::prelude::*;
use std::collections::HashMap;
use crate::codec::{round_div, round_div_i64, round_div_u64, saturate_i16_word,
    saturate_i32_word, saturate_u16, saturate_u32, split_high, split_low};
use crate::registers::{DeviceRegisterContext, ModbusRegisterEntry, word_at};
use crate::schema::{IrUpdateKey, input_register_updates, ir_update_key_to_default_key,
    spec_input_register_updates, spec_ir_update_key_to_default_key};
use crate::storage::{MeterEnergyState, StorageState, POWER_CEIL_MW, UJ_PER_DECI_KWH,
    UJ_PER_KWH};
use crate::text::str_eq;

verus! {

broadcast use vstd::std_specs::hash::group_hash_axioms;

/// Milliwatts in one meter power register unit (0.5 kW).
pub const METER_POWER_UNIT_MW: i64 = 500_000;

/// Milliwatts in one power register unit of the other device types (0.1 kW).
pub const POWER_UNIT_MW: i64 = 100_000;

/// A register bank after a list of writes, applied in order.
pub open spec fn apply_writes(m: Map<u16, u16>, ws: Seq<(u16, u16)>) -> Map<u16, u16>
    decreases ws.len(),
{
    if ws.len() == 0 {
        m
    } else {
        apply_writes(m, ws.drop_last()).insert(ws.last().0, ws.last().1)
    }
}

/// The value of a word clamped to `[lo, hi]`.
pub open spec fn clamp_int(v: int, lo: int, hi: int) -> int {
    if v < lo {
        lo
    } else if v > hi {
        hi
    } else {
        v
    }
}

/// The 16-bit pattern of a signed value in the signed 16-bit range.
pub open spec fn word16_of(v: int) -> u16 {
    if v >= 0 {
        v as u16
    } else {
        (v + 0x10000) as u16
    }
}

/// The 32-bit pattern of a signed value in the signed 32-bit range.
pub open spec fn pattern32_of(v: int) -> int {
    if v >= 0 {
        v
    } else {
        v + 0x1_0000_0000
    }
}

/// Low word of a 32-bit pattern.
pub open spec fn low16(pat: int) -> u16 {
    (pat % 0x10000) as u16
}

/// High word of a 32-bit pattern.
pub open spec fn high16(pat: int) -> u16 {
    (pat / 0x10000) as u16
}

/// A meter power register: signed 16-bit, 0.5 kW per unit, saturated.
pub open spec fn spec_meter_power_word(p: int) -> u16 {
    word16_of(clamp_int(round_div(p, METER_POWER_UNIT_MW as int), -0x8000, 0x7FFF))
}

/// The 32-bit power pattern of a non-meter device: 0.1 kW per unit; signed
/// and saturated for storage, clamped to non-negative and saturated for the
/// rest.
pub open spec fn spec_other_power_pattern(dt: Seq<char>, p: int) -> int {
    if dt == "storage"@ {
        pattern32_of(clamp_int(round_div(p, POWER_UNIT_MW as int), -0x8000_0000, 0x7FFF_FFFF))
    } else {
        clamp_int(round_div(p, POWER_UNIT_MW as int), 0, 0xFFFF_FFFF)
    }
}

/// Whether a register-list entry binds the given input-register key.
pub open spec fn ir_entry_matches(e: ModbusRegisterEntry, kstr: Seq<char>) -> bool {
    e.type_@ == "input_registers"@ && match e.key {
        Some(k) => k@ == kstr,
        None => false,
    }
}

/// The first configured address for an input-register key, where one is.
pub open spec fn find_ir_addr(es: Seq<ModbusRegisterEntry>, kstr: Seq<char>) -> Option<u16>
    decreases es.len(),
{
    if es.len() == 0 {
        None
    } else if ir_entry_matches(es[0], kstr) {
        Some(es[0].address)
    } else {
        find_ir_addr(es.subrange(1, es.len() as int), kstr)
    }
}

proof fn lemma_find_ir_addr_found(es: Seq<ModbusRegisterEntry>, kstr: Seq<char>, i: int)
    requires
        0 <= i < es.len(),
        forall|j: int| 0 <= j < i ==> !ir_entry_matches(es[j], kstr),
        ir_entry_matches(es[i], kstr),
    ensures
        find_ir_addr(es, kstr) == Some(es[i].address),
    decreases i,
{
    if i > 0 {
        let tail = es.subrange(1, es.len() as int);
        assert(forall|j: int| 0 <= j < tail.len() ==> tail[j] == es[j + 1]);
        lemma_find_ir_addr_found(tail, kstr, i - 1);
    }
}

proof fn lemma_find_ir_addr_none(es: Seq<ModbusRegisterEntry>, kstr: Seq<char>)
    requires
        forall|j: int| 0 <= j < es.len() ==> !ir_entry_matches(es[j], kstr),
    ensures
        find_ir_addr(es, kstr) is None,
    decreases es.len(),
{
    if es.len() > 0 {
        let tail = es.subrange(1, es.len() as int);
        assert(forall|j: int| 0 <= j < tail.len() ==> tail[j] == es[j + 1]);
        lemma_find_ir_addr_none(tail, kstr);
    }
}

/// The register list as the sync writer sees it, where one was provided.
pub open spec fn entries_view(entries: Option<&Vec<ModbusRegisterEntry>>) -> Option<
    Seq<ModbusRegisterEntry>,
> {
    match entries {
        Some(es) => Some(es@),
        None => None,
    }
}

/// The address a simulation update of `key` goes to: the first entry binding
/// the key's semantic name, else the schema default.
pub open spec fn spec_resolved_ir_addr(
    entries: Option<Seq<ModbusRegisterEntry>>,
    key: IrUpdateKey,
    default_addr: u16,
) -> u16 {
    match entries {
        None => default_addr,
        Some(es) => match find_ir_addr(es, spec_ir_update_key_to_default_key(key)) {
            Some(a) => a,
            None => default_addr,
        },
    }
}

/// Resolves the address a simulation update of `key` goes to.
pub fn resolve_ir_address(
    entries: Option<&Vec<ModbusRegisterEntry>>,
    key: IrUpdateKey,
    default_addr: u16,
) -> (r: u16)
    ensures
        r == spec_resolved_ir_addr(entries_view(entries), key, default_addr),
{
    let key_str = ir_update_key_to_default_key(key);
    match entries {
        None => default_addr,
        Some(es) => {
            let ghost esv = es@;
            let mut i: usize = 0;
            while i < es.len()
                invariant
                    esv == es@,
                    entries_view(entries) == Some(esv),
                    i <= esv.len(),
                    key_str@ == spec_ir_update_key_to_default_key(key),
                    forall|j: int| 0 <= j < i ==> !ir_entry_matches(esv[j], key_str@),
                decreases esv.len() - i,
            {
                let e = &es[i];
                if str_eq(e.type_.as_str(), "input_registers") && crate::text::opt_string_is(
                    &e.key,
                    key_str,
                ) {
                    proof {
                        lemma_find_ir_addr_found(esv, key_str@, i as int);
                        assert(find_ir_addr(esv, key_str@) == Some(esv[i as int].address));
                    }
                    return e.address;
                }
                i += 1;
            }
            proof {
                lemma_find_ir_addr_none(esv, key_str@);
            }
            default_addr
        },
    }
}

/// The value a simulation update writes for one input-register data source.
pub open spec fn spec_ir_value(dt: Seq<char>, key: IrUpdateKey, p: int, q: int) -> u16 {
    match key {
        IrUpdateKey::ActivePower => if dt == "meter"@ {
            spec_meter_power_word(p)
        } else {
            low16(spec_other_power_pattern(dt, p))
        },
        IrUpdateKey::ReactivePower => if dt == "meter"@ {
            spec_meter_power_word(q)
        } else {
            low16(spec_other_power_pattern(dt, q))
        },
        IrUpdateKey::ActivePowerLow => low16(spec_other_power_pattern(dt, p)),
        IrUpdateKey::ActivePowerHigh => high16(spec_other_power_pattern(dt, p)),
        IrUpdateKey::ReactivePowerLow => low16(spec_other_power_pattern(dt, q)),
        IrUpdateKey::ReactivePowerHigh => high16(spec_other_power_pattern(dt, q)),
    }
}

/// The power-register writes of one tick, in schema order.
pub open spec fn spec_power_ir_writes(
    dt: Seq<char>,
    entries: Option<Seq<ModbusRegisterEntry>>,
    p: int,
    q: int,
) -> Seq<(u16, u16)> {
    Seq::new(
        spec_input_register_updates(dt).len(),
        |i: int|
            (
                spec_resolved_ir_addr(
                    entries,
                    spec_input_register_updates(dt)[i].1,
                    spec_input_register_updates(dt)[i].0,
                ),
                spec_ir_value(dt, spec_input_register_updates(dt)[i].1, p, q),
            ),
    )
}

/// An energy counter scaled to whole kWh register units, saturated.
pub open spec fn spec_kwh_word(uj: int) -> u16 {
    if round_div(uj, UJ_PER_KWH as int) > 0xFFFF {
        0xFFFF as u16
    } else {
        round_div(uj, UJ_PER_KWH as int) as u16
    }
}

/// An energy counter scaled to 0.1 kWh register units, saturated.
pub open spec fn spec_deci_kwh_word(uj: int) -> u16 {
    if round_div(uj, UJ_PER_DECI_KWH as int) > 0xFFFF {
        0xFFFF as u16
    } else {
        round_div(uj, UJ_PER_DECI_KWH as int) as u16
    }
}

/// An energy counter scaled to 0.1 kWh units as a saturated 32-bit pattern.
pub open spec fn spec_deci_kwh_pattern(uj: int) -> int {
    if round_div(uj, UJ_PER_DECI_KWH as int) > 0xFFFF_FFFF {
        0xFFFF_FFFF
    } else {
        round_div(uj, UJ_PER_DECI_KWH as int)
    }
}

/// The meter energy-counter writes: export/import active (7, 8), their sum
/// (9), export/import reactive (10, 11), in whole kWh units.
pub open spec fn spec_meter_energy_writes(me: MeterEnergyState) -> Seq<(u16, u16)> {
    seq![
        (7u16, spec_kwh_word(me.export_active_uj as int)),
        (8u16, spec_kwh_word(me.import_active_uj as int)),
        (9u16, spec_kwh_word(me.export_active_uj + me.import_active_uj)),
        (10u16, spec_kwh_word(me.export_reactive_uj as int)),
        (11u16, spec_kwh_word(me.import_reactive_uj as int)),
    ]
}

/// The storage operating state derived from the on/off register and the
/// actual power: (legacy state register 839, state register 0, the
/// charge/discharge-mode register 5033). Off means stopped; otherwise the
/// power against a small deadband tells idle, charging or discharging.
pub open spec fn spec_storage_mode(reg55: u16, p: int) -> (u16, u16, u16) {
    if reg55 == 240 {
        (240u16, 1u16, 0u16)
    } else if p > 1000 {
        (245u16, 2u16, 2u16)
    } else if p < -1000 {
        (245u16, 3u16, 1u16)
    } else {
        (243u16, 1u16, 0u16)
    }
}

/// The on/off holding register of a storage device; never written means on
/// (the type's default initial value).
pub open spec fn spec_storage_on_off(hr: Map<u16, u16>) -> u16 {
    if hr.contains_key(55u16) {
        hr[55u16]
    } else {
        243
    }
}

/// The storage mode input-register writes of one tick: the legacy state
/// register, the state register, and the grid-connection-mode telemetry
/// register mirrored from its command register (bit 9 set when on-grid,
/// bit 10 when off-grid).
pub open spec fn spec_storage_mode_ir_writes(hr: Map<u16, u16>, p: int) -> Seq<(u16, u16)> {
    let mode = spec_storage_mode(spec_storage_on_off(hr), p);
    let ir432: u16 = if word_at(hr, 5095u16) == 0 {
        0x0200
    } else {
        0x0400
    };
    seq![(839u16, mode.0), (0u16, mode.1), (432u16, ir432)]
}

/// The storage holding-register writes of one tick: the charge/discharge
/// mode register, mirrored without command semantics.
pub open spec fn spec_storage_hr_writes(hr: Map<u16, u16>, p: int) -> Seq<(u16, u16)> {
    seq![(5033u16, spec_storage_mode(spec_storage_on_off(hr), p).2)]
}

/// The storage bookkeeping writes: state of charge at 0.1 % (2), remaining
/// energy at 0.1 kWh (12), daily charge/discharge at 0.1 kWh (426, 427),
/// and the lifetime charge and discharge counters at 0.1 kWh as 32-bit
/// low/high splits (428-431).
pub open spec fn spec_storage_state_writes(s: StorageState) -> Seq<(u16, u16)> {
    seq![
        (2u16, (round_div(s.energy_uj * 1000, s.capacity_uj as int) as u16)),
        (12u16, spec_deci_kwh_word(s.energy_uj as int)),
        (426u16, spec_deci_kwh_word(s.daily_charge_uj as int)),
        (427u16, spec_deci_kwh_word(s.daily_discharge_uj as int)),
        (428u16, low16(spec_deci_kwh_pattern(s.total_charge_uj as int))),
        (429u16, high16(spec_deci_kwh_pattern(s.total_charge_uj as int))),
        (430u16, low16(spec_deci_kwh_pattern(s.total_discharge_uj as int))),
        (431u16, high16(spec_deci_kwh_pattern(s.total_discharge_uj as int))),
    ]
}

/// All input-register writes of one tick for one device, in order.
pub open spec fn spec_sync_ir_writes(
    dt: Seq<char>,
    entries: Option<Seq<ModbusRegisterEntry>>,
    p: int,
    q: int,
    hr: Map<u16, u16>,
    st: Option<StorageState>,
    me: Option<MeterEnergyState>,
) -> Seq<(u16, u16)> {
    let base = spec_power_ir_writes(dt, entries, p, q);
    let with_meter = if dt == "meter"@ {
        match me {
            Some(m) => base + spec_meter_energy_writes(m),
            None => base,
        }
    } else {
        base
    };
    if dt == "storage"@ {
        let with_mode = with_meter + spec_storage_mode_ir_writes(hr, p);
        match st {
            Some(s) => with_mode + spec_storage_state_writes(s),
            None => with_mode,
        }
    } else {
        with_meter
    }
}

/// All holding-register writes of one tick for one device.
pub open spec fn spec_sync_hr_writes(dt: Seq<char>, hr: Map<u16, u16>, p: int) -> Seq<
    (u16, u16),
> {
    if dt == "storage"@ {
        spec_storage_hr_writes(hr, p)
    } else {
        Seq::empty()
    }
}

/// Writes a list of input registers in order.
fn write_input_registers(ctx: &mut DeviceRegisterContext, ws: &Vec<(u16, u16)>)
    ensures
        final(ctx).input_registers@ == apply_writes(old(ctx).input_registers@, ws@),
        final(ctx).coils@ == old(ctx).coils@,
        final(ctx).discrete_inputs@ == old(ctx).discrete_inputs@,
        final(ctx).holding_registers@ == old(ctx).holding_registers@,
{
    let mut i: usize = 0;
    while i < ws.len()
        invariant
            i <= ws@.len(),
            ctx.input_registers@ == apply_writes(old(ctx).input_registers@, ws@.take(i as int)),
            ctx.coils@ == old(ctx).coils@,
            ctx.discrete_inputs@ == old(ctx).discrete_inputs@,
            ctx.holding_registers@ == old(ctx).holding_registers@,
        decreases ws@.len() - i,
    {
        proof {
            assert(ws@.take(i + 1).drop_last() =~= ws@.take(i as int));
        }
        ctx.set_input_register(ws[i].0, ws[i].1);
        i += 1;
    }
    proof {
        assert(ws@.take(ws@.len() as int) =~= ws@);
    }
}

/// Writes a list of holding registers in order, without command semantics.
fn write_holding_registers_silent(ctx: &mut DeviceRegisterContext, ws: &Vec<(u16, u16)>)
    ensures
        final(ctx).holding_registers@ == apply_writes(old(ctx).holding_registers@, ws@),
        final(ctx).coils@ == old(ctx).coils@,
        final(ctx).discrete_inputs@ == old(ctx).discrete_inputs@,
        final(ctx).input_registers@ == old(ctx).input_registers@,
{
    let mut i: usize = 0;
    while i < ws.len()
        invariant
            i <= ws@.len(),
            ctx.holding_registers@ == apply_writes(
                old(ctx).holding_registers@,
                ws@.take(i as int),
            ),
            ctx.coils@ == old(ctx).coils@,
            ctx.discrete_inputs@ == old(ctx).discrete_inputs@,
            ctx.input_registers@ == old(ctx).input_registers@,
        decreases ws@.len() - i,
    {
        proof {
            assert(ws@.take(i + 1).drop_last() =~= ws@.take(i as int));
        }
        ctx.set_holding_register_silent(ws[i].0, ws[i].1);
        i += 1;
    }
    proof {
        assert(ws@.take(ws@.len() as int) =~= ws@);
    }
}

/// The meter power register word for a signed power in milliwatts.
fn meter_power_word(p: i64) -> (r: u16)
    requires
        -POWER_CEIL_MW <= p <= POWER_CEIL_MW,
    ensures
        r == spec_meter_power_word(p as int),
{
    let v = round_div_i64(p, METER_POWER_UNIT_MW);
    saturate_i16_word(v)
}

/// The 32-bit power pattern of a non-meter device.
fn other_power_pattern(is_storage: bool, p: i64) -> (r: u32)
    requires
        -POWER_CEIL_MW <= p <= POWER_CEIL_MW,
    ensures
        is_storage ==> r as int == pattern32_of(
            clamp_int(round_div(p as int, POWER_UNIT_MW as int), -0x8000_0000, 0x7FFF_FFFF),
        ),
        !is_storage ==> r as int == clamp_int(
            round_div(p as int, POWER_UNIT_MW as int),
            0,
            0xFFFF_FFFF,
        ),
{
    let v = round_div_i64(p, POWER_UNIT_MW);
    if is_storage {
        saturate_i32_word(v)
    } else {
        if v <= 0 {
            0
        } else {
            saturate_u32(v as u64)
        }
    }
}

/// An energy counter as a whole-kWh register word, saturated.
fn kwh_word(uj: u64) -> (r: u16)
    requires
        uj <= 0x8000_0000_0000_0000,
    ensures
        r == spec_kwh_word(uj as int),
{
    saturate_u16(round_div_u64(uj, UJ_PER_KWH))
}

/// An energy counter as a 0.1 kWh register word, saturated.
fn deci_kwh_word(uj: u64) -> (r: u16)
    requires
        uj <= 0x7FFF_FFFF_FFFF_FFFF,
    ensures
        r == spec_deci_kwh_word(uj as int),
{
    saturate_u16(round_div_u64(uj, UJ_PER_DECI_KWH))
}

/// An energy counter as a saturated 32-bit pattern of 0.1 kWh units.
fn deci_kwh_pattern(uj: u64) -> (r: u32)
    requires
        uj <= 0x7FFF_FFFF_FFFF_FFFF,
    ensures
        r as int == spec_deci_kwh_pattern(uj as int),
{
    saturate_u32(round_div_u64(uj, UJ_PER_DECI_KWH))
}

/// The power-register writes of one tick, resolved and encoded.
fn build_power_writes(
    device_type: &str,
    entries: Option<&Vec<ModbusRegisterEntry>>,
    p: i64,
    q: i64,
) -> (r: Vec<(u16, u16)>)
    requires
        -POWER_CEIL_MW <= p <= POWER_CEIL_MW,
        -POWER_CEIL_MW <= q <= POWER_CEIL_MW,
    ensures
        r@ == spec_power_ir_writes(device_type@, entries_view(entries), p as int, q as int),
{
    let is_meter = str_eq(device_type, "meter");
    let is_storage = str_eq(device_type, "storage");
    let p_meter = meter_power_word(p);
    let q_meter = meter_power_word(q);
    let p_pat = other_power_pattern(is_storage, p);
    let q_pat = other_power_pattern(is_storage, q);
    proof {
        assert(p_pat as int == spec_other_power_pattern(device_type@, p as int));
        assert(q_pat as int == spec_other_power_pattern(device_type@, q as int));
    }
    let ghost dt = device_type@;
    let ghost ev = entries_view(entries);
    let ghost power_list = spec_power_ir_writes(dt, ev, p as int, q as int);
    let mut irw: Vec<(u16, u16)> = Vec::new();
    let updates = input_register_updates(device_type);
    let mut i: usize = 0;
    while i < updates.len()
        invariant
            updates@ == spec_input_register_updates(dt),
            power_list == spec_power_ir_writes(dt, ev, p as int, q as int),
            ev == entries_view(entries),
            dt == device_type@,
            i <= updates@.len(),
            irw@ == power_list.take(i as int),
            p_meter == spec_meter_power_word(p as int),
            q_meter == spec_meter_power_word(q as int),
            p_pat as int == spec_other_power_pattern(dt, p as int),
            q_pat as int == spec_other_power_pattern(dt, q as int),
            is_meter == (dt == "meter"@),
            is_storage == (dt == "storage"@),
        decreases updates@.len() - i,
    {
        let (default_addr, key) = updates[i];
        let addr = resolve_ir_address(entries, key, default_addr);
        let value: u16 = match key {
            IrUpdateKey::ActivePower => if is_meter {
                p_meter
            } else {
                split_low(p_pat)
            },
            IrUpdateKey::ReactivePower => if is_meter {
                q_meter
            } else {
                split_low(q_pat)
            },
            IrUpdateKey::ActivePowerLow => split_low(p_pat),
            IrUpdateKey::ActivePowerHigh => split_high(p_pat),
            IrUpdateKey::ReactivePowerLow => split_low(q_pat),
            IrUpdateKey::ReactivePowerHigh => split_high(q_pat),
        };
        proof {
            assert(value == spec_ir_value(dt, key, p as int, q as int));
            assert(power_list[i as int] == (addr, value));
            assert(power_list.take(i + 1).drop_last() =~= power_list.take(i as int));
        }
        irw.push((addr, value));
        proof {
            assert(irw@ =~= power_list.take(i + 1));
        }
        i += 1;
    }
    proof {
        assert(power_list.take(power_list.len() as int) =~= power_list);
    }
    irw
}

/// The meter energy-counter writes of one tick.
fn build_meter_energy_writes(me: &MeterEnergyState) -> (r: Vec<(u16, u16)>)
    requires
        me.wf(),
    ensures
        r@ == spec_meter_energy_writes(*me),
{
    let mut w: Vec<(u16, u16)> = Vec::new();
    w.push((7, kwh_word(me.export_active_uj)));
    w.push((8, kwh_word(me.import_active_uj)));
    w.push((9, kwh_word(me.export_active_uj + me.import_active_uj)));
    w.push((10, kwh_word(me.export_reactive_uj)));
    w.push((11, kwh_word(me.import_reactive_uj)));
    proof {
        assert(w@ =~= spec_meter_energy_writes(*me));
    }
    w
}

/// The storage operating-state writes of one tick: the input-register part
/// and the mirrored holding-register part.
fn build_storage_mode_writes(ctx: &DeviceRegisterContext, p: i64) -> (r: (
    Vec<(u16, u16)>,
    Vec<(u16, u16)>,
))
    ensures
        r.0@ == spec_storage_mode_ir_writes(ctx.holding_registers@, p as int),
        r.1@ == spec_storage_hr_writes(ctx.holding_registers@, p as int),
{
    let reg55: u16 = match ctx.holding_registers.get(&55u16) {
        Some(v) => *v,
        None => 243,
    };
    let mode: (u16, u16, u16) = if reg55 == 240 {
        (240, 1, 0)
    } else if p > 1000 {
        (245, 2, 2)
    } else if p < -1000 {
        (245, 3, 1)
    } else {
        (243, 1, 0)
    };
    let grid_mode = ctx.get_holding_register(5095);
    let ir432: u16 = if grid_mode == 0 {
        0x0200
    } else {
        0x0400
    };
    let mut irw: Vec<(u16, u16)> = Vec::new();
    irw.push((839, mode.0));
    irw.push((0, mode.1));
    irw.push((432, ir432));
    let mut hrw: Vec<(u16, u16)> = Vec::new();
    hrw.push((5033, mode.2));
    proof {
        assert(reg55 == spec_storage_on_off(ctx.holding_registers@));
        assert(irw@ =~= spec_storage_mode_ir_writes(ctx.holding_registers@, p as int));
        assert(hrw@ =~= spec_storage_hr_writes(ctx.holding_registers@, p as int));
    }
    (irw, hrw)
}

/// The storage bookkeeping writes of one tick.
fn build_storage_state_writes(s: &StorageState) -> (r: Vec<(u16, u16)>)
    requires
        s.wf(),
    ensures
        r@ == spec_storage_state_writes(*s),
{
    let mut w: Vec<(u16, u16)> = Vec::new();
    w.push((2, s.soc_permille()));
    w.push((12, deci_kwh_word(s.energy_uj)));
    w.push((426, deci_kwh_word(s.daily_charge_uj)));
    w.push((427, deci_kwh_word(s.daily_discharge_uj)));
    let charge_pat = deci_kwh_pattern(s.total_charge_uj);
    w.push((428, split_low(charge_pat)));
    w.push((429, split_high(charge_pat)));
    let discharge_pat = deci_kwh_pattern(s.total_discharge_uj);
    w.push((430, split_low(discharge_pat)));
    w.push((431, split_high(discharge_pat)));
    proof {
        assert(w@ =~= spec_storage_state_writes(*s));
    }
    w
}

/// Writes one tick's simulated power and bookkeeping into a device's
/// registers: power registers per the type's schema (resolving custom
/// addresses by semantic key), then for meters the energy counters, and
/// for storage the operating-state registers and the bookkeeping registers.
/// All of it happens in one exclusive borrow of the banks, so no reader
/// sees power updated but derived state stale. Missing power values count
/// as zero.
#[verifier::rlimit(100)]
#[verifier::spinoff_prover]
pub fn update_context_from_simulation(
    ctx: &mut DeviceRegisterContext,
    device_type: &str,
    entries: Option<&Vec<ModbusRegisterEntry>>,
    p_active_mw: Option<i64>,
    p_reactive_mw: Option<i64>,
    storage_state: Option<&StorageState>,
    meter_energy: Option<&MeterEnergyState>,
)
    requires
        (p_active_mw matches Some(p) ==> -POWER_CEIL_MW <= p <= POWER_CEIL_MW),
        (p_reactive_mw matches Some(q) ==> -POWER_CEIL_MW <= q <= POWER_CEIL_MW),
        (storage_state matches Some(s) ==> s.wf()),
        (meter_energy matches Some(m) ==> m.wf()),
    ensures
        ({
            let p = match p_active_mw {
                Some(v) => v as int,
                None => 0,
            };
            let q = match p_reactive_mw {
                Some(v) => v as int,
                None => 0,
            };
            let st = match storage_state {
                Some(s) => Some(*s),
                None => None::<StorageState>,
            };
            let me = match meter_energy {
                Some(m) => Some(*m),
                None => None::<MeterEnergyState>,
            };
            &&& final(ctx).input_registers@ == apply_writes(
                old(ctx).input_registers@,
                spec_sync_ir_writes(
                    device_type@,
                    entries_view(entries),
                    p,
                    q,
                    old(ctx).holding_registers@,
                    st,
                    me,
                ),
            )
            &&& final(ctx).holding_registers@ == apply_writes(
                old(ctx).holding_registers@,
                spec_sync_hr_writes(device_type@, old(ctx).holding_registers@, p),
            )
            &&& final(ctx).coils@ == old(ctx).coils@
            &&& final(ctx).discrete_inputs@ == old(ctx).discrete_inputs@
        }),
{
    let p: i64 = match p_active_mw {
        Some(v) => v,
        None => 0,
    };
    let q: i64 = match p_reactive_mw {
        Some(v) => v,
        None => 0,
    };
    let is_meter = str_eq(device_type, "meter");
    let is_storage = str_eq(device_type, "storage");
    let ghost dt = device_type@;
    let ghost ev = entries_view(entries);

    let mut irw = build_power_writes(device_type, entries, p, q);

    if is_meter {
        match meter_energy {
            Some(me) => {
                let mut mw = build_meter_energy_writes(me);
                irw.append(&mut mw);
            },
            None => {},
        }
    }
    let mut hrw: Vec<(u16, u16)> = Vec::new();
    if is_storage {
        let (mut miw, mut mhw) = build_storage_mode_writes(ctx, p);
        irw.append(&mut miw);
        hrw.append(&mut mhw);
        match storage_state {
            Some(s) => {
                let mut sw = build_storage_state_writes(s);
                irw.append(&mut sw);
            },
            None => {},
        }
    }

    proof {
        assert(irw@ =~= spec_sync_ir_writes(
            dt,
            ev,
            p as int,
            q as int,
            ctx.holding_registers@,
            match storage_state {
                Some(s) => Some(*s),
                None => None::<StorageState>,
            },
            match meter_energy {
                Some(m) => Some(*m),
                None => None::<MeterEnergyState>,
            },
        ));
        assert(hrw@ =~= spec_sync_hr_writes(dt, ctx.holding_registers@, p as int));
    }
    write_input_registers(ctx, &irw);
    write_holding_registers_silent(ctx, &hrw);
}

} // verus!

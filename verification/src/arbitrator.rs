//! Control arbitration for competing remote commands. Each device keeps an
//! on/off flag (absolute, last write wins) and three mutually exclusive
//! power-directive slots — percent limit, raw limit, setpoint — each holding
//! a value and a monotonically increasing write sequence number. The
//! effective directive is the slot with the highest sequence number, and
//! switching the device off forces the effective active power to zero.

use vstd::prelude::*;
use crate::codec::{as_signed16, u16_to_i16};
use crate::schema::{HrCommandId, spec_hr_address_to_command, spec_hr_key_to_command_id,
    hr_address_to_command, hr_key_to_command_id};
use crate::strmap::StrMap;
use crate::text::str_eq;

verus! {

/// One of the three mutually exclusive power directives.
#[derive(Clone, Copy, PartialEq, Eq, Structural, Debug)]
pub enum ModbusPowerInstruction {
    PowerLimitPct,
    PowerLimitRaw,
    PowerSetpoint,
}

/// The value of the effective directive, in the directive's own encoding.
/// A setpoint is signed, 0.1 kW per unit.
#[derive(Clone, Copy, PartialEq, Eq, Structural, Debug)]
pub enum DirectiveValue {
    LimitPct(u16),
    LimitRaw(u16),
    SetpointDeciKw(i16),
}

/// The effective control properties of a device: the on/off flag and, where
/// one is in force, the effective power directive. An administratively off
/// device carries a zero setpoint whatever the stored directives say.
#[derive(Clone, Copy, PartialEq, Eq, Structural, Debug)]
pub struct EffectiveProps {
    pub on_off: u16,
    pub directive: Option<DirectiveValue>,
}

/// What one holding-register write asks the power-flow kernel to change:
/// either the re-computed effective control properties, or one pass-through
/// telemetry property.
#[derive(Clone, Copy, PartialEq, Eq, Debug)]
pub enum PropertyPatch {
    Effective(EffectiveProps),
    ReactiveCompPct(u16),
    PowerFactor(u16),
    GridMode(u16),
    PcsChargeDischargeState(u16),
}

/// Per-device command state: the on/off flag and the three directive slots,
/// each retaining (value, write sequence number); dormant slots are kept.
#[derive(Clone, Copy, Debug)]
pub struct ModbusDeviceControlState {
    pub on_off: Option<u16>,
    pub power_limit_pct: Option<(u16, u64)>,
    pub power_limit_raw: Option<(u16, u64)>,
    /// Setpoint as a signed register value, 0.1 kW per unit.
    pub power_setpoint: Option<(i16, u64)>,
    /// Write sequence counter; each directive write increments it first.
    pub seq_no: u64,
}

/// Sequence number of a directive slot; an empty slot counts as zero, below
/// every written slot.
pub open spec fn slot_seq<T>(slot: Option<(T, u64)>) -> int {
    match slot {
        Some((_, s)) => s as int,
        None => 0,
    }
}

impl ModbusDeviceControlState {
    /// Every written slot carries a sequence number between 1 and the
    /// counter, and no two written slots share one.
    pub open spec fn wf(&self) -> bool {
        &&& (self.power_limit_pct is Some ==> 1 <= slot_seq(self.power_limit_pct)
            <= self.seq_no)
        &&& (self.power_limit_raw is Some ==> 1 <= slot_seq(self.power_limit_raw)
            <= self.seq_no)
        &&& (self.power_setpoint is Some ==> 1 <= slot_seq(self.power_setpoint)
            <= self.seq_no)
        &&& (self.power_limit_pct is Some && self.power_limit_raw is Some ==> slot_seq(
            self.power_limit_pct,
        ) != slot_seq(self.power_limit_raw))
        &&& (self.power_limit_pct is Some && self.power_setpoint is Some ==> slot_seq(
            self.power_limit_pct,
        ) != slot_seq(self.power_setpoint))
        &&& (self.power_limit_raw is Some && self.power_setpoint is Some ==> slot_seq(
            self.power_limit_raw,
        ) != slot_seq(self.power_setpoint))
    }

    /// The directive in force: the slot with the highest sequence number,
    /// or none where no directive was ever written.
    pub open spec fn spec_latest_power_instruction(&self) -> (Option<ModbusPowerInstruction>, int) {
        let p = slot_seq(self.power_limit_pct);
        let r = slot_seq(self.power_limit_raw);
        let t = slot_seq(self.power_setpoint);
        if p == 0 && r == 0 && t == 0 {
            (None, 0)
        } else if p >= r && p >= t {
            (Some(ModbusPowerInstruction::PowerLimitPct), p)
        } else if r >= t {
            (Some(ModbusPowerInstruction::PowerLimitRaw), r)
        } else {
            (Some(ModbusPowerInstruction::PowerSetpoint), t)
        }
    }

    /// The effective control properties: off forces a zero setpoint; on (or
    /// never written, which counts as on) passes the latest directive's
    /// value through.
    pub open spec fn spec_effective_properties(&self) -> EffectiveProps {
        if self.on_off == Some(0u16) {
            EffectiveProps { on_off: 0, directive: Some(DirectiveValue::SetpointDeciKw(0)) }
        } else {
            let on = match self.on_off {
                Some(v) => v,
                None => 1,
            };
            let directive = match self.spec_latest_power_instruction().0 {
                Some(ModbusPowerInstruction::PowerLimitPct) => match self.power_limit_pct {
                    Some((v, _)) => Some(DirectiveValue::LimitPct(v)),
                    None => None,
                },
                Some(ModbusPowerInstruction::PowerLimitRaw) => match self.power_limit_raw {
                    Some((v, _)) => Some(DirectiveValue::LimitRaw(v)),
                    None => None,
                },
                Some(ModbusPowerInstruction::PowerSetpoint) => match self.power_setpoint {
                    Some((v, _)) => Some(DirectiveValue::SetpointDeciKw(v)),
                    None => None,
                },
                None => None,
            };
            EffectiveProps { on_off: on, directive }
        }
    }

    /// A state with nothing written yet.
    pub fn new() -> (r: ModbusDeviceControlState)
        ensures
            r.wf(),
            r.on_off is None,
            r.power_limit_pct is None,
            r.power_limit_raw is None,
            r.power_setpoint is None,
            r.seq_no == 0,
    {
        ModbusDeviceControlState {
            on_off: None,
            power_limit_pct: None,
            power_limit_raw: None,
            power_setpoint: None,
            seq_no: 0,
        }
    }

    /// The directive currently in force and its sequence number.
    pub fn latest_power_instruction(&self) -> (r: (Option<ModbusPowerInstruction>, u64))
        ensures
            r.0 == self.spec_latest_power_instruction().0,
            r.1 as int == self.spec_latest_power_instruction().1,
    {
        let mut best: (Option<ModbusPowerInstruction>, u64) = (None, 0);
        if let Some((_, s)) = self.power_limit_pct {
            if s > best.1 {
                best = (Some(ModbusPowerInstruction::PowerLimitPct), s);
            }
        }
        if let Some((_, s)) = self.power_limit_raw {
            if s > best.1 {
                best = (Some(ModbusPowerInstruction::PowerLimitRaw), s);
            }
        }
        if let Some((_, s)) = self.power_setpoint {
            if s > best.1 {
                best = (Some(ModbusPowerInstruction::PowerSetpoint), s);
            }
        }
        best
    }

    /// Recomputes the effective properties from scratch.
    pub fn effective_properties(&self) -> (r: EffectiveProps)
        ensures
            r == self.spec_effective_properties(),
    {
        if self.on_off == Some(0u16) {
            return EffectiveProps { on_off: 0, directive: Some(DirectiveValue::SetpointDeciKw(0)) };
        }
        let on = match self.on_off {
            Some(v) => v,
            None => 1,
        };
        let (latest, _) = self.latest_power_instruction();
        let directive = match latest {
            Some(ModbusPowerInstruction::PowerLimitPct) => match self.power_limit_pct {
                Some((v, _)) => Some(DirectiveValue::LimitPct(v)),
                None => None,
            },
            Some(ModbusPowerInstruction::PowerLimitRaw) => match self.power_limit_raw {
                Some((v, _)) => Some(DirectiveValue::LimitRaw(v)),
                None => None,
            },
            Some(ModbusPowerInstruction::PowerSetpoint) => match self.power_setpoint {
                Some((v, _)) => Some(DirectiveValue::SetpointDeciKw(v)),
                None => None,
            },
            None => None,
        };
        EffectiveProps { on_off: on, directive }
    }
}

/// The control state after one command write. Telemetry commands and
/// unknown combinations leave the state as it was.
pub open spec fn spec_apply_state(
    s: ModbusDeviceControlState,
    dt: Seq<char>,
    cmd: HrCommandId,
    value: u16,
) -> ModbusDeviceControlState {
    if (dt == "static_generator"@ || dt == "storage"@) && cmd == HrCommandId::OnOff {
        ModbusDeviceControlState { on_off: Some(value), ..s }
    } else if dt == "static_generator"@ && cmd == HrCommandId::PowerLimitPct {
        ModbusDeviceControlState {
            seq_no: (s.seq_no + 1) as u64,
            power_limit_pct: Some((value, (s.seq_no + 1) as u64)),
            ..s
        }
    } else if (dt == "static_generator"@ || dt == "charger"@) && cmd
        == HrCommandId::PowerLimitRaw {
        ModbusDeviceControlState {
            seq_no: (s.seq_no + 1) as u64,
            power_limit_raw: Some((value, (s.seq_no + 1) as u64)),
            ..s
        }
    } else if dt == "storage"@ && cmd == HrCommandId::SetPower {
        ModbusDeviceControlState {
            seq_no: (s.seq_no + 1) as u64,
            power_setpoint: Some(((as_signed16(value) as i16), (s.seq_no + 1) as u64)),
            ..s
        }
    } else {
        s
    }
}

/// The patch one command write produces, or `None` for an address with no
/// command semantics for that device type.
pub open spec fn spec_apply_patch(
    s: ModbusDeviceControlState,
    dt: Seq<char>,
    cmd: HrCommandId,
    value: u16,
) -> Option<PropertyPatch> {
    if (dt == "static_generator"@ || dt == "storage"@) && cmd == HrCommandId::OnOff {
        Some(PropertyPatch::Effective(spec_apply_state(s, dt, cmd, value).spec_effective_properties()))
    } else if dt == "static_generator"@ && cmd == HrCommandId::PowerLimitPct {
        Some(PropertyPatch::Effective(spec_apply_state(s, dt, cmd, value).spec_effective_properties()))
    } else if (dt == "static_generator"@ || dt == "charger"@) && cmd
        == HrCommandId::PowerLimitRaw {
        Some(PropertyPatch::Effective(spec_apply_state(s, dt, cmd, value).spec_effective_properties()))
    } else if dt == "storage"@ && cmd == HrCommandId::SetPower {
        Some(PropertyPatch::Effective(spec_apply_state(s, dt, cmd, value).spec_effective_properties()))
    } else if dt == "static_generator"@ && cmd == HrCommandId::ReactiveCompPct {
        Some(PropertyPatch::ReactiveCompPct(value))
    } else if dt == "static_generator"@ && cmd == HrCommandId::PowerFactor {
        Some(PropertyPatch::PowerFactor(value))
    } else if dt == "storage"@ && cmd == HrCommandId::Other(5095) {
        Some(PropertyPatch::GridMode(value))
    } else if dt == "storage"@ && cmd == HrCommandId::Other(5033) {
        Some(PropertyPatch::PcsChargeDischargeState(value))
    } else {
        None
    }
}

/// Applies one resolved command to a device's control state and returns the
/// property patch to push toward the kernel, recomputed from scratch.
fn apply_hr_write_inner(
    state: &mut ModbusDeviceControlState,
    device_type: &str,
    cmd: HrCommandId,
    value: u16,
) -> (r: Option<PropertyPatch>)
    requires
        old(state).wf(),
        old(state).seq_no < 0xFFFF_FFFF_FFFF_FFFF,
    ensures
        final(state).wf(),
        *final(state) == spec_apply_state(*old(state), device_type@, cmd, value),
        r == spec_apply_patch(*old(state), device_type@, cmd, value),
        final(state).seq_no <= old(state).seq_no + 1,
{
    let is_sg = str_eq(device_type, "static_generator");
    let is_storage = str_eq(device_type, "storage");
    let is_charger = str_eq(device_type, "charger");
    if (is_sg || is_storage) && matches!(cmd, HrCommandId::OnOff) {
        state.on_off = Some(value);
        Some(PropertyPatch::Effective(state.effective_properties()))
    } else if is_sg && matches!(cmd, HrCommandId::PowerLimitPct) {
        state.seq_no = state.seq_no + 1;
        state.power_limit_pct = Some((value, state.seq_no));
        Some(PropertyPatch::Effective(state.effective_properties()))
    } else if (is_sg || is_charger) && matches!(cmd, HrCommandId::PowerLimitRaw) {
        state.seq_no = state.seq_no + 1;
        state.power_limit_raw = Some((value, state.seq_no));
        Some(PropertyPatch::Effective(state.effective_properties()))
    } else if is_storage && matches!(cmd, HrCommandId::SetPower) {
        state.seq_no = state.seq_no + 1;
        state.power_setpoint = Some((u16_to_i16(value), state.seq_no));
        Some(PropertyPatch::Effective(state.effective_properties()))
    } else if is_sg && matches!(cmd, HrCommandId::ReactiveCompPct) {
        Some(PropertyPatch::ReactiveCompPct(value))
    } else if is_sg && matches!(cmd, HrCommandId::PowerFactor) {
        Some(PropertyPatch::PowerFactor(value))
    } else if is_storage && matches!(cmd, HrCommandId::Other(5095)) {
        Some(PropertyPatch::GridMode(value))
    } else if is_storage && matches!(cmd, HrCommandId::Other(5033)) {
        Some(PropertyPatch::PcsChargeDischargeState(value))
    } else {
        None
    }
}

/// Applies a write resolved to a semantic key (custom addresses) and returns
/// the patch to push toward the kernel; an unknown key changes nothing.
pub fn apply_hr_write_by_key(
    state: &mut ModbusDeviceControlState,
    device_type: &str,
    key: &str,
    value: u16,
) -> (r: Option<PropertyPatch>)
    requires
        old(state).wf(),
        old(state).seq_no < 0xFFFF_FFFF_FFFF_FFFF,
    ensures
        final(state).wf(),
        final(state).seq_no <= old(state).seq_no + 1,
        match spec_hr_key_to_command_id(key@) {
            Some(cmd) => *final(state) == spec_apply_state(*old(state), device_type@, cmd, value)
                && r == spec_apply_patch(*old(state), device_type@, cmd, value),
            None => *final(state) == *old(state) && r is None,
        },
{
    match hr_key_to_command_id(key) {
        Some(cmd) => apply_hr_write_inner(state, device_type, cmd, value),
        None => None,
    }
}

/// Applies a write at a device type's default address and returns the patch
/// to push toward the kernel; an address with no command role changes
/// nothing and returns `None` (pure telemetry).
pub fn apply_hr_write_and_effective_properties(
    state: &mut ModbusDeviceControlState,
    device_type: &str,
    address: u16,
    value: u16,
) -> (r: Option<PropertyPatch>)
    requires
        old(state).wf(),
        old(state).seq_no < 0xFFFF_FFFF_FFFF_FFFF,
    ensures
        final(state).wf(),
        final(state).seq_no <= old(state).seq_no + 1,
        match spec_hr_address_to_command(device_type@, address) {
            Some(cmd) => *final(state) == spec_apply_state(*old(state), device_type@, cmd, value)
                && r == spec_apply_patch(*old(state), device_type@, cmd, value),
            None => *final(state) == *old(state) && r is None,
        },
{
    match hr_address_to_command(device_type, address) {
        Some(cmd) => apply_hr_write_inner(state, device_type, cmd, value),
        None => None,
    }
}

/// Whether writing command `cmd` to a device of type `dt` is one of the
/// three power-directive writes (and so takes a fresh sequence number).
pub open spec fn is_directive_write(dt: Seq<char>, cmd: HrCommandId) -> bool {
    ||| (dt == "static_generator"@ && cmd == HrCommandId::PowerLimitPct)
    ||| ((dt == "static_generator"@ || dt == "charger"@) && cmd == HrCommandId::PowerLimitRaw)
    ||| (dt == "storage"@ && cmd == HrCommandId::SetPower)
}

/// The directive slot a directive write lands in.
pub open spec fn directive_of(cmd: HrCommandId) -> ModbusPowerInstruction {
    match cmd {
        HrCommandId::PowerLimitPct => ModbusPowerInstruction::PowerLimitPct,
        HrCommandId::PowerLimitRaw => ModbusPowerInstruction::PowerLimitRaw,
        _ => ModbusPowerInstruction::PowerSetpoint,
    }
}

/// The value a directive write stores, in the directive's own encoding; a
/// setpoint register pattern is read as a signed 16-bit value.
pub open spec fn directive_value_of(cmd: HrCommandId, value: u16) -> DirectiveValue {
    match cmd {
        HrCommandId::PowerLimitPct => DirectiveValue::LimitPct(value),
        HrCommandId::PowerLimitRaw => DirectiveValue::LimitRaw(value),
        _ => DirectiveValue::SetpointDeciKw((as_signed16(value) as i16)),
    }
}

/// In any well-formed control state the effective directive is the slot
/// holding the highest write sequence number: the chosen slot's number is
/// maximal among all three, and no directive is in force only when none was
/// ever written. The state holds no clock, so this is independent of the
/// wall-clock order in which the writes arrived.
pub proof fn lemma_effective_is_highest_seq(s: ModbusDeviceControlState)
    requires
        s.wf(),
    ensures
        s.spec_latest_power_instruction().1 >= slot_seq(s.power_limit_pct),
        s.spec_latest_power_instruction().1 >= slot_seq(s.power_limit_raw),
        s.spec_latest_power_instruction().1 >= slot_seq(s.power_setpoint),
        s.spec_latest_power_instruction().0 is None <==> s.power_limit_pct is None
            && s.power_limit_raw is None && s.power_setpoint is None,
        s.spec_latest_power_instruction().0 == Some(ModbusPowerInstruction::PowerLimitPct)
            ==> s.power_limit_pct is Some && slot_seq(s.power_limit_pct)
            == s.spec_latest_power_instruction().1,
        s.spec_latest_power_instruction().0 == Some(ModbusPowerInstruction::PowerLimitRaw)
            ==> s.power_limit_raw is Some && slot_seq(s.power_limit_raw)
            == s.spec_latest_power_instruction().1,
        s.spec_latest_power_instruction().0 == Some(ModbusPowerInstruction::PowerSetpoint)
            ==> s.power_setpoint is Some && slot_seq(s.power_setpoint)
            == s.spec_latest_power_instruction().1,
{
}

/// A directive write always supersedes every directive written before it:
/// after the write, the effective directive is the one just written, its
/// sequence number is the new highest, and — unless the device is switched
/// off — the effective properties carry the just-written value. In
/// particular a percent-limit write supersedes an earlier raw-limit write,
/// and conversely.
pub proof fn lemma_directive_write_wins(
    s: ModbusDeviceControlState,
    dt: Seq<char>,
    cmd: HrCommandId,
    value: u16,
)
    requires
        s.wf(),
        s.seq_no < 0xFFFF_FFFF_FFFF_FFFF,
        is_directive_write(dt, cmd),
    ensures
        ({
            let s2 = spec_apply_state(s, dt, cmd, value);
            &&& s2.wf()
            &&& s2.spec_latest_power_instruction().0 == Some(directive_of(cmd))
            &&& s2.spec_latest_power_instruction().1 == s.seq_no + 1
            &&& (s.on_off != Some(0u16) ==> s2.spec_effective_properties().directive == Some(
                directive_value_of(cmd, value),
            ))
        }),
{
}

/// Writing on/off = 0 forces the effective active power to zero: the
/// effective properties become exactly "off, setpoint zero", whatever the
/// directive slots hold, and any directive written while the device stays
/// off leaves that so.
pub proof fn lemma_off_forces_zero(
    s: ModbusDeviceControlState,
    dt: Seq<char>,
    cmd: HrCommandId,
    value: u16,
)
    requires
        s.on_off == Some(0u16),
        cmd != HrCommandId::OnOff,
    ensures
        s.spec_effective_properties() == (EffectiveProps {
            on_off: 0,
            directive: Some(DirectiveValue::SetpointDeciKw(0)),
        }),
        spec_apply_state(s, dt, cmd, value).on_off == Some(0u16),
        spec_apply_state(s, dt, cmd, value).spec_effective_properties() == (EffectiveProps {
            on_off: 0,
            directive: Some(DirectiveValue::SetpointDeciKw(0)),
        }),
{
}

/// Writing on/off = 1 restores the latest directive's effect: the directive
/// slots are untouched by the switch, so the effective properties again
/// carry the directive with the highest sequence number.
pub proof fn lemma_on_restores_latest(s: ModbusDeviceControlState, dt: Seq<char>)
    requires
        s.wf(),
        dt == "static_generator"@ || dt == "storage"@,
    ensures
        ({
            let s2 = spec_apply_state(s, dt, HrCommandId::OnOff, 1);
            &&& s2.power_limit_pct == s.power_limit_pct
            &&& s2.power_limit_raw == s.power_limit_raw
            &&& s2.power_setpoint == s.power_setpoint
            &&& s2.spec_latest_power_instruction() == s.spec_latest_power_instruction()
            &&& s2.spec_effective_properties().on_off == 1
            &&& (s2.spec_latest_power_instruction().0 == Some(
                ModbusPowerInstruction::PowerLimitPct,
            ) ==> s2.spec_effective_properties().directive == Some(
                DirectiveValue::LimitPct(s.power_limit_pct->Some_0.0),
            ))
            &&& (s2.spec_latest_power_instruction().0 == Some(
                ModbusPowerInstruction::PowerLimitRaw,
            ) ==> s2.spec_effective_properties().directive == Some(
                DirectiveValue::LimitRaw(s.power_limit_raw->Some_0.0),
            ))
            &&& (s2.spec_latest_power_instruction().0 == Some(
                ModbusPowerInstruction::PowerSetpoint,
            ) ==> s2.spec_effective_properties().directive == Some(
                DirectiveValue::SetpointDeciKw(s.power_setpoint->Some_0.0),
            ))
        }),
{
    lemma_effective_is_highest_seq(s);
}

/// Per-device control states of the whole fleet.
pub struct ModbusControlStateStore {
    pub per_device: StrMap<ModbusDeviceControlState>,
}

impl ModbusControlStateStore {
    /// Every stored state is well-formed and its counter below the maximum.
    pub open spec fn wf(&self) -> bool {
        &&& self.per_device.wf()
        &&& forall|k: Seq<char>|
            self.per_device@.contains_key(k) ==> (#[trigger] self.per_device@[k]).wf()
                && self.per_device@[k].seq_no < 0xFFFF_FFFF_FFFF_FFFF
    }

    /// An empty store.
    pub fn new() -> (r: ModbusControlStateStore)
        ensures
            r.wf(),
            r.per_device@ == Map::<Seq<char>, ModbusDeviceControlState>::empty(),
    {
        ModbusControlStateStore { per_device: StrMap::new() }
    }

    /// Applies one write at a default address to the named device's state
    /// (created empty on first use) and returns the patch to push. A device
    /// whose write counter has exhausted the 64-bit range accepts no further
    /// writes.
    pub fn apply_hr_write(
        &mut self,
        device_id: &str,
        device_type: &str,
        address: u16,
        value: u16,
    ) -> (r: Option<PropertyPatch>)
        requires
            old(self).wf(),
        ensures
            final(self).wf(),
            ({
                let prior = if old(self).per_device@.contains_key(device_id@) {
                    old(self).per_device@[device_id@]
                } else {
                    ModbusDeviceControlState {
                        on_off: None,
                        power_limit_pct: None,
                        power_limit_raw: None,
                        power_setpoint: None,
                        seq_no: 0,
                    }
                };
                if prior.seq_no >= 0xFFFF_FFFF_FFFF_FFFE {
                    *final(self) == *old(self) && r is None
                } else {
                    match spec_hr_address_to_command(device_type@, address) {
                        Some(cmd) => final(self).per_device@ == old(self).per_device@.insert(
                            device_id@,
                            spec_apply_state(prior, device_type@, cmd, value),
                        ) && r == spec_apply_patch(prior, device_type@, cmd, value),
                        None => final(self).per_device@ == old(self).per_device@.insert(
                            device_id@,
                            prior,
                        ) && r is None,
                    }
                }
            }),
    {
        let mut state = match self.per_device.get(device_id) {
            Some(s) => *s,
            None => ModbusDeviceControlState::new(),
        };
        if state.seq_no >= 0xFFFF_FFFF_FFFF_FFFE {
            return None;
        }
        let r = apply_hr_write_and_effective_properties(&mut state, device_type, address, value);
        self.per_device.set(device_id, state);
        r
    }

    /// Applies one write resolved to a semantic key to the named device's
    /// state (created empty on first use) and returns the patch to push. A
    /// device whose write counter has exhausted the 64-bit range accepts no
    /// further writes.
    pub fn apply_hr_write_by_key(
        &mut self,
        device_id: &str,
        device_type: &str,
        key: &str,
        value: u16,
    ) -> (r: Option<PropertyPatch>)
        requires
            old(self).wf(),
        ensures
            final(self).wf(),
            ({
                let prior = if old(self).per_device@.contains_key(device_id@) {
                    old(self).per_device@[device_id@]
                } else {
                    ModbusDeviceControlState {
                        on_off: None,
                        power_limit_pct: None,
                        power_limit_raw: None,
                        power_setpoint: None,
                        seq_no: 0,
                    }
                };
                if prior.seq_no >= 0xFFFF_FFFF_FFFF_FFFE {
                    *final(self) == *old(self) && r is None
                } else {
                    match spec_hr_key_to_command_id(key@) {
                        Some(cmd) => final(self).per_device@ == old(self).per_device@.insert(
                            device_id@,
                            spec_apply_state(prior, device_type@, cmd, value),
                        ) && r == spec_apply_patch(prior, device_type@, cmd, value),
                        None => final(self).per_device@ == old(self).per_device@.insert(
                            device_id@,
                            prior,
                        ) && r is None,
                    }
                }
            }),
    {
        let mut state = match self.per_device.get(device_id) {
            Some(s) => *s,
            None => ModbusDeviceControlState::new(),
        };
        if state.seq_no >= 0xFFFF_FFFF_FFFF_FFFE {
            return None;
        }
        let r = apply_hr_write_by_key(&mut state, device_type, key, value);
        self.per_device.set(device_id, state);
        r
    }
}

} // verus!

//! Lifecycle bookkeeping of the per-device slave endpoints: which devices
//! have a live listener, their register lists for key resolution, the
//! remapping of privileged ports, deterministic default port allocation,
//! nameplate register writes, and the routing of client holding-register
//! writes into the control arbitrator.

use vstd::prelude::*;
use std::collections::HashMap;
use crate::arbitrator::{ModbusControlStateStore, PropertyPatch};
use crate::registers::{DeviceRegisterContext, ModbusRegisterEntry};
use crate::schema::{holding_register_default_key, spec_holding_register_default_key};
use crate::strmap::StrMap;
use crate::text::str_eq;

verus! {

/// Global endpoint configuration.
#[derive(Clone, Debug)]
pub struct ModbusServerConfig {
    pub host: String,
    pub port: u16,
    pub enabled: bool,
}

/// A device's register layout as the outside world configures it.
pub struct DeviceRegisterMapping {
    pub device_id: String,
    pub base_address: u16,
    pub registers: HashMap<String, u16>,
}

/// A device of the fleet that can carry a slave endpoint.
#[derive(Clone, Debug)]
pub struct ModbusDeviceInfo {
    pub id: String,
    pub name: String,
    pub device_type: String,
    pub ip: String,
    pub port: u16,
}

/// What a request to start one device's endpoint carries.
pub struct StartModbusConfig {
    pub ip_address: String,
    pub port: u16,
    /// Unit id; each device has its own endpoint, so clients use 1.
    pub slave_id: u8,
    pub registers: Option<Vec<ModbusRegisterEntry>>,
}

/// The unit id used when a configuration names none.
pub fn default_slave_id() -> (r: u8)
    ensures
        r == 1,
{
    1
}

/// Bookkeeping of one running device endpoint; the listener itself and the
/// shared register banks live with the caller.
pub struct RunningDeviceServer {
    pub device_type: String,
    /// The register list the endpoint was started with, for resolving
    /// semantic keys at custom addresses.
    pub registers: Vec<ModbusRegisterEntry>,
}

/// Whether a register-list entry is the holding register at `addr`.
pub open spec fn hr_entry_at(e: ModbusRegisterEntry, addr: u16) -> bool {
    e.type_@ == "holding_registers"@ && e.address == addr
}

/// The first holding-register entry at `addr`, where one is configured.
pub open spec fn find_hr_entry(es: Seq<ModbusRegisterEntry>, addr: u16) -> Option<
    ModbusRegisterEntry,
>
    decreases es.len(),
{
    if es.len() == 0 {
        None
    } else if hr_entry_at(es[0], addr) {
        Some(es[0])
    } else {
        find_hr_entry(es.subrange(1, es.len() as int), addr)
    }
}

proof fn lemma_find_hr_entry_found(es: Seq<ModbusRegisterEntry>, addr: u16, i: int)
    requires
        0 <= i < es.len(),
        forall|j: int| 0 <= j < i ==> !hr_entry_at(es[j], addr),
        hr_entry_at(es[i], addr),
    ensures
        find_hr_entry(es, addr) == Some(es[i]),
    decreases i,
{
    if i > 0 {
        let tail = es.subrange(1, es.len() as int);
        assert(forall|j: int| 0 <= j < tail.len() ==> tail[j] == es[j + 1]);
        lemma_find_hr_entry_found(tail, addr, i - 1);
    }
}

proof fn lemma_find_hr_entry_none(es: Seq<ModbusRegisterEntry>, addr: u16)
    requires
        forall|j: int| 0 <= j < es.len() ==> !hr_entry_at(es[j], addr),
    ensures
        find_hr_entry(es, addr) is None,
    decreases es.len(),
{
    if es.len() > 0 {
        let tail = es.subrange(1, es.len() as int);
        assert(forall|j: int| 0 <= j < tail.len() ==> tail[j] == es[j + 1]);
        lemma_find_hr_entry_none(tail, addr);
    }
}

/// The semantic key of a holding register of a running device: the
/// configured entry's key where that entry names one, else the device
/// type's default for the address.
pub open spec fn spec_key_for_hr(
    registers: Seq<ModbusRegisterEntry>,
    dt: Seq<char>,
    addr: u16,
) -> Option<Seq<char>> {
    match find_hr_entry(registers, addr) {
        Some(e) => match e.key {
            Some(k) => Some(k@),
            None => spec_holding_register_default_key(dt, addr),
        },
        None => spec_holding_register_default_key(dt, addr),
    }
}

/// The lifecycle manager of the fleet's endpoints.
pub struct ModbusService {
    pub config: ModbusServerConfig,
    pub device_mappings: StrMap<DeviceRegisterMapping>,
    pub running_servers: StrMap<RunningDeviceServer>,
    /// Per-device command state; conflicting commands resolve to the
    /// latest directive.
    pub control_state: ModbusControlStateStore,
}

impl ModbusService {
    /// The per-device tables are well-formed maps.
    pub open spec fn wf(&self) -> bool {
        &&& self.device_mappings.wf()
        &&& self.running_servers.wf()
        &&& self.control_state.wf()
    }

    /// A registry with nothing running: endpoints disabled until told
    /// otherwise.
    pub fn new() -> (r: ModbusService)
        ensures
            r.wf(),
            r.running_servers@ == Map::<Seq<char>, RunningDeviceServer>::empty(),
            r.device_mappings@ == Map::<Seq<char>, DeviceRegisterMapping>::empty(),
            r.control_state.per_device@ == Map::<
                Seq<char>,
                crate::arbitrator::ModbusDeviceControlState,
            >::empty(),
            !r.config.enabled,
            r.config.port == 502,
    {
        ModbusService {
            config: ModbusServerConfig {
                host: String::from_str("localhost"),
                port: 502,
                enabled: false,
            },
            device_mappings: StrMap::new(),
            running_servers: StrMap::new(),
            control_state: ModbusControlStateStore::new(),
        }
    }

    /// Replaces the endpoint configuration.
    pub fn set_config(&mut self, config: ModbusServerConfig)
        ensures
            final(self).config == config,
            final(self).device_mappings == old(self).device_mappings,
            final(self).running_servers == old(self).running_servers,
            final(self).control_state == old(self).control_state,
    {
        self.config = config;
    }

    /// The endpoint configuration.
    pub fn get_config(&self) -> (r: &ModbusServerConfig)
        ensures
            *r == self.config,
    {
        &self.config
    }

    /// Registers a device's register layout.
    pub fn register_device(&mut self, mapping: DeviceRegisterMapping)
        requires
            old(self).wf(),
        ensures
            final(self).wf(),
            final(self).device_mappings@ == old(self).device_mappings@.insert(
                mapping.device_id@,
                mapping,
            ),
            final(self).running_servers == old(self).running_servers,
            final(self).control_state == old(self).control_state,
    {
        let id = mapping.device_id.clone();
        self.device_mappings.set(id.as_str(), mapping);
    }

    /// Forgets a device's register layout.
    pub fn unregister_device(&mut self, device_id: &str)
        requires
            old(self).wf(),
        ensures
            final(self).wf(),
            final(self).device_mappings@ == old(self).device_mappings@.remove(device_id@),
            final(self).running_servers == old(self).running_servers,
            final(self).control_state == old(self).control_state,
    {
        self.device_mappings.remove(device_id);
    }

    /// A device's registered register layout.
    pub fn get_device_mapping(&self, device_id: &str) -> (r: Option<&DeviceRegisterMapping>)
        requires
            self.wf(),
        ensures
            match r {
                Some(m) => self.device_mappings@.contains_key(device_id@) && *m
                    == self.device_mappings@[device_id@],
                None => !self.device_mappings@.contains_key(device_id@),
            },
    {
        self.device_mappings.get(device_id)
    }

    /// Admits one device endpoint: exactly one listener per device, so a
    /// device whose endpoint is already running is refused, and the caller
    /// must not spawn a listener for it.
    pub fn start_device_modbus(
        &mut self,
        device_id: &str,
        device_type: String,
        registers: Vec<ModbusRegisterEntry>,
    ) -> (r: Result<(), String>)
        requires
            old(self).wf(),
        ensures
            final(self).wf(),
            old(self).running_servers@.contains_key(device_id@) ==> r is Err && *final(self)
                == *old(self),
            !old(self).running_servers@.contains_key(device_id@) ==> {
                &&& r is Ok
                &&& final(self).running_servers@ == old(self).running_servers@.insert(
                    device_id@,
                    (RunningDeviceServer { device_type, registers }),
                )
                &&& final(self).device_mappings == old(self).device_mappings
                &&& final(self).control_state == old(self).control_state
            },
    {
        if self.running_servers.contains_key(device_id) {
            return Err(String::from_str("the device's endpoint is already running"));
        }
        self.running_servers.set(device_id, RunningDeviceServer { device_type, registers });
        Ok(())
    }

    /// Retires one device's endpoint; the caller cancels its listener and
    /// connections.
    pub fn stop_device_modbus(&mut self, device_id: &str) -> (r: Result<(), String>)
        requires
            old(self).wf(),
        ensures
            final(self).wf(),
            r is Ok,
            final(self).running_servers@ == old(self).running_servers@.remove(device_id@),
            final(self).device_mappings == old(self).device_mappings,
            final(self).control_state == old(self).control_state,
    {
        self.running_servers.remove(device_id);
        Ok(())
    }

    /// Retires every endpoint, as the start of a new run does, so stale
    /// listeners never collide with freshly assigned ports.
    pub fn stop_all_device_modbus(&mut self)
        requires
            old(self).wf(),
        ensures
            final(self).wf(),
            final(self).running_servers@ == Map::<Seq<char>, RunningDeviceServer>::empty(),
            final(self).device_mappings == old(self).device_mappings,
            final(self).control_state == old(self).control_state,
    {
        self.running_servers.clear();
    }

    /// Whether a device's endpoint is running.
    pub fn is_device_running(&self, device_id: &str) -> (r: bool)
        requires
            self.wf(),
        ensures
            r == self.running_servers@.contains_key(device_id@),
    {
        self.running_servers.contains_key(device_id)
    }

    /// The ids of the devices whose endpoints run, in registration order.
    pub fn running_device_ids(&self) -> (r: Vec<String>)
        ensures
            r@.len() == self.running_servers.spec_items().len(),
            forall|i: int|
                0 <= i < r@.len() ==> r@[i]@ == self.running_servers.spec_items()[i].0@,
    {
        let items = self.running_servers.items();
        let mut out: Vec<String> = Vec::new();
        let mut i: usize = 0;
        while i < items.len()
            invariant
                items@ == self.running_servers.spec_items(),
                i <= items@.len(),
                out@.len() == i,
                forall|j: int| 0 <= j < i ==> out@[j]@ == items@[j].0@,
            decreases items@.len() - i,
        {
            out.push(items[i].0.clone());
            i += 1;
        }
        out
    }

    /// Resolves the semantic key of a holding register of a running
    /// device: the configured entry's key first, then the type default;
    /// `None` where the device is not running or the address carries no
    /// command.
    pub fn get_key_for_holding_register(&self, device_id: &str, address: u16) -> (r: Option<
        String,
    >)
        requires
            self.wf(),
        ensures
            self.running_servers@.contains_key(device_id@) ==> match r {
                Some(s) => spec_key_for_hr(
                    self.running_servers@[device_id@].registers@,
                    self.running_servers@[device_id@].device_type@,
                    address,
                ) == Some(s@),
                None => spec_key_for_hr(
                    self.running_servers@[device_id@].registers@,
                    self.running_servers@[device_id@].device_type@,
                    address,
                ) is None,
            },
            !self.running_servers@.contains_key(device_id@) ==> r is None,
    {
        let server = match self.running_servers.get(device_id) {
            Some(s) => s,
            None => {
                return None;
            },
        };
        let ghost regs = server.registers@;
        let mut i: usize = 0;
        while i < server.registers.len()
            invariant
                regs == server.registers@,
                self.running_servers@.contains_key(device_id@),
                *server == self.running_servers@[device_id@],
                i <= regs.len(),
                forall|j: int| 0 <= j < i ==> !hr_entry_at(regs[j], address),
            decreases regs.len() - i,
        {
            let e = &server.registers[i];
            if str_eq(e.type_.as_str(), "holding_registers") && e.address == address {
                proof {
                    lemma_find_hr_entry_found(regs, address, i as int);
                }
                match &e.key {
                    Some(k) => {
                        return Some(k.clone());
                    },
                    None => {
                        return match holding_register_default_key(
                            server.device_type.as_str(),
                            address,
                        ) {
                            Some(d) => Some(String::from_str(d)),
                            None => None,
                        };
                    },
                }
            }
            i += 1;
        }
        proof {
            lemma_find_hr_entry_none(regs, address);
        }
        match holding_register_default_key(server.device_type.as_str(), address) {
            Some(d) => Some(String::from_str(d)),
            None => None,
        }
    }

    /// Applies one client holding-register write to the device's command
    /// state and returns the effective-property patch to push toward the
    /// kernel: the write resolves to a semantic key (honoring custom
    /// addresses) where the device runs, else to the type's default
    /// address; a register with no command semantics yields `None`.
    pub fn apply_hr_write_and_effective_properties(
        &mut self,
        device_id: &str,
        device_type: &str,
        address: u16,
        value: u16,
    ) -> (r: Option<PropertyPatch>)
        requires
            old(self).wf(),
        ensures
            final(self).wf(),
            final(self).running_servers == old(self).running_servers,
            final(self).device_mappings == old(self).device_mappings,
            final(self).config == old(self).config,
            ({
                let prior = if old(self).control_state.per_device@.contains_key(device_id@) {
                    old(self).control_state.per_device@[device_id@]
                } else {
                    crate::arbitrator::ModbusDeviceControlState {
                        on_off: None,
                        power_limit_pct: None,
                        power_limit_raw: None,
                        power_setpoint: None,
                        seq_no: 0,
                    }
                };
                let resolved = if old(self).running_servers@.contains_key(device_id@) {
                    spec_key_for_hr(
                        old(self).running_servers@[device_id@].registers@,
                        old(self).running_servers@[device_id@].device_type@,
                        address,
                    )
                } else {
                    None
                };
                let cmd = match resolved {
                    Some(k) => crate::schema::spec_hr_key_to_command_id(k),
                    None => crate::schema::spec_hr_address_to_command(device_type@, address),
                };
                if prior.seq_no >= 0xFFFF_FFFF_FFFF_FFFE {
                    final(self).control_state == old(self).control_state && r is None
                } else {
                    match cmd {
                        Some(c) => final(self).control_state.per_device@ == old(
                            self,
                        ).control_state.per_device@.insert(
                            device_id@,
                            crate::arbitrator::spec_apply_state(prior, device_type@, c, value),
                        ) && r == crate::arbitrator::spec_apply_patch(
                            prior,
                            device_type@,
                            c,
                            value,
                        ),
                        None => final(self).control_state.per_device@ == old(
                            self,
                        ).control_state.per_device@.insert(device_id@, prior) && r is None,
                    }
                }
            }),
    {
        let key = self.get_key_for_holding_register(device_id, address);
        match key {
            Some(k) => self.control_state.apply_hr_write_by_key(
                device_id,
                device_type,
                k.as_str(),
                value,
            ),
            None => self.control_state.apply_hr_write(device_id, device_type, address, value),
        }
    }
}

/// Privileged ports are transparently remapped to an unprivileged local
/// offset; others bind as given.
pub fn remap_port(port: u16) -> (r: u16)
    ensures
        port < 1024 ==> r as int == if 10000 + port <= 65535 {
            10000 + port
        } else {
            65535int
        },
        port >= 1024 ==> r == port,
{
    if port < 1024 {
        let high: u32 = 10000u32 + (port as u32);
        if high > 65535 {
            65535
        } else {
            high as u16
        }
    } else {
        port
    }
}

/// The deterministic base port of a device type's endpoints, where the
/// configuration names none.
pub open spec fn spec_default_base_port(dt: Seq<char>) -> Option<u16> {
    if dt == "meter"@ {
        Some(403u16)
    } else if dt == "storage"@ {
        Some(502u16)
    } else if dt == "static_generator"@ {
        Some(602u16)
    } else if dt == "charger"@ {
        Some(702u16)
    } else {
        None
    }
}

/// The deterministic base port of a device type's endpoints.
pub fn default_base_port(device_type: &str) -> (r: Option<u16>)
    ensures
        r == spec_default_base_port(device_type@),
{
    if str_eq(device_type, "meter") {
        Some(403)
    } else if str_eq(device_type, "storage") {
        Some(502)
    } else if str_eq(device_type, "static_generator") {
        Some(602)
    } else if str_eq(device_type, "charger") {
        Some(702)
    } else {
        None
    }
}

/// The `n`-th default port of a device type: base plus the count of
/// same-type devices allocated before, saturating at the top port.
pub fn allocate_default_port(base: u16, count: u16) -> (r: u16)
    ensures
        r as int == if base + count <= 65535 {
            base + count
        } else {
            65535int
        },
{
    let p: u32 = (base as u32) + (count as u32);
    if p > 65535 {
        65535
    } else {
        p as u16
    }
}

/// The input register a device type's nameplate value is written to: the
/// rated power of a generator (5001) or charger (4), the rated capacity of
/// a storage device (39); other types carry none.
pub open spec fn spec_nameplate_register(dt: Seq<char>) -> Option<u16> {
    if dt == "static_generator"@ {
        Some(5001u16)
    } else if dt == "storage"@ {
        Some(39u16)
    } else if dt == "charger"@ {
        Some(4u16)
    } else {
        None
    }
}

/// Writes a device's nameplate value (rated power or capacity, in tenths
/// of the unit) to the type's nameplate input register, saturated to the
/// register range. Nameplate values are written at start and on metadata
/// edits, never per tick. Types without a nameplate register are left
/// untouched.
pub fn write_nameplate(ctx: &mut DeviceRegisterContext, device_type: &str, rated_deci: u64)
    ensures
        match spec_nameplate_register(device_type@) {
            Some(a) => final(ctx).input_registers@ == old(ctx).input_registers@.insert(
                a,
                if rated_deci > 0xFFFF {
                    0xFFFF as u16
                } else {
                    rated_deci as u16
                },
            ),
            None => final(ctx).input_registers@ == old(ctx).input_registers@,
        },
        final(ctx).coils@ == old(ctx).coils@,
        final(ctx).discrete_inputs@ == old(ctx).discrete_inputs@,
        final(ctx).holding_registers@ == old(ctx).holding_registers@,
{
    let target: Option<u16> = if str_eq(device_type, "static_generator") {
        Some(5001)
    } else if str_eq(device_type, "storage") {
        Some(39)
    } else if str_eq(device_type, "charger") {
        Some(4)
    } else {
        None
    };
    match target {
        Some(a) => {
            let v = crate::codec::saturate_u16(rated_deci);
            ctx.set_input_register(a, v);
        },
        None => {},
    }
}

} // verus!

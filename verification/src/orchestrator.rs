//! The run orchestrator: the Stopped/Running/Paused lifecycle with its
//! spawn-once guard for the background loop, the per-tick decisions (skip
//! while paused, self-terminate on unrecoverable failure, error-list
//! merging), and the fan-out of one tick's kernel results to persistence
//! records, the power cache, the storage bookkeeping and the online map.
//! Everything external — the clock, the kernel channel, the timer — hands
//! in plain values; the decisions here are total and never panic.

use vstd::prelude::*;
use crate::device::{DeviceType, WorkMode, spec_work_mode_of};
use crate::status::{DelayWindow, ErrorsUpdateDecision, SimulationError, SimulationState,
    SimulationStatus, decide_errors_update, errors_equiv, spec_elapsed, sum_of};
use crate::storage::{StorageState, CAPACITY_CEIL, POWER_CEIL_MW, TICK_CEIL_MS,
    spec_storage_new, spec_tick};
use crate::strmap::StrMap;
use crate::text::str_eq;

verus! {

/// Orchestration parameters of one run.
pub struct SimulationConfig {
    pub calculation_interval_ms: u64,
    pub remote_control_enabled: bool,
}

/// A lifecycle request from outside.
pub struct SimulationControlRequest {
    /// One of "start", "stop", "pause", "resume".
    pub action: String,
}

/// A request to change one device's work mode.
pub struct DeviceModeRequest {
    pub device_id: String,
    pub mode: String,
}

/// One device of the topology, as the orchestrator reads it: identity,
/// kind, and — for storage — the nameplate capacity and configured initial
/// state of charge.
pub struct TopologyDevice {
    pub id: String,
    pub name: String,
    pub device_type: DeviceType,
    /// Rated capacity in microjoules, for storage devices.
    pub capacity_uj: Option<u64>,
    /// Configured initial state of charge in 0.1 % units, for storage.
    pub initial_soc_permille: Option<u16>,
}

/// The topology as the orchestrator consumes it: devices and undirected
/// connections between device ids.
pub struct TopologyView {
    pub devices: Vec<TopologyDevice>,
    pub connections: Vec<(String, String)>,
}

/// Which result table of the kernel a record came from.
#[derive(Clone, Copy, PartialEq, Eq, Structural, Debug)]
pub enum ResultKind {
    Bus,
    Line,
    Switch,
    Load,
    Generator,
    Storage,
    ExternalGrid,
    Transformer,
}

/// One named result of a kernel step, in integer milliwatts.
pub struct DeviceResult {
    pub kind: ResultKind,
    pub name: String,
    pub p_active_mw: Option<i64>,
    pub p_reactive_mw: Option<i64>,
}

/// One row bound for persistence: the device the result was matched to
/// (or a meter pointing at it) and its powers.
pub struct PersistRecord {
    pub device_id: String,
    pub device_type: Option<DeviceType>,
    pub p_active_mw: Option<i64>,
    pub p_reactive_mw: Option<i64>,
}

/// A device's latest power, the single source the pollers read.
#[derive(Clone, Copy, PartialEq, Eq, Debug)]
pub struct PowerSample {
    pub timestamp_ms: u64,
    pub p_active_mw: Option<i64>,
    pub p_reactive_mw: Option<i64>,
}

/// Whether a result of this kind may describe a device of this type.
pub open spec fn kind_matches(kind: ResultKind, dt: DeviceType) -> bool {
    match kind {
        ResultKind::Bus => dt == DeviceType::Node,
        ResultKind::Line => dt == DeviceType::Line,
        ResultKind::Switch => dt == DeviceType::Switch,
        ResultKind::Load => dt == DeviceType::Load || dt == DeviceType::Charger,
        ResultKind::Generator => dt == DeviceType::Pv,
        ResultKind::Storage => dt == DeviceType::Storage,
        ResultKind::ExternalGrid => dt == DeviceType::ExternalGrid,
        ResultKind::Transformer => dt == DeviceType::Transformer,
    }
}

/// Whether a result of this kind may describe a device of this type.
pub fn kind_matches_exec(kind: ResultKind, dt: DeviceType) -> (r: bool)
    ensures
        r == kind_matches(kind, dt),
{
    match kind {
        ResultKind::Bus => matches!(dt, DeviceType::Node),
        ResultKind::Line => matches!(dt, DeviceType::Line),
        ResultKind::Switch => matches!(dt, DeviceType::Switch),
        ResultKind::Load => matches!(dt, DeviceType::Load) || matches!(dt, DeviceType::Charger),
        ResultKind::Generator => matches!(dt, DeviceType::Pv),
        ResultKind::Storage => matches!(dt, DeviceType::Storage),
        ResultKind::ExternalGrid => matches!(dt, DeviceType::ExternalGrid),
        ResultKind::Transformer => matches!(dt, DeviceType::Transformer),
    }
}

/// Whether a device entry matches a result by kind and name.
pub open spec fn device_matches(d: TopologyDevice, kind: ResultKind, name: Seq<char>) -> bool {
    kind_matches(kind, d.device_type) && d.name@ == name
}

/// The first device a result names, where one exists.
pub open spec fn spec_find_device(
    devices: Seq<TopologyDevice>,
    kind: ResultKind,
    name: Seq<char>,
) -> Option<TopologyDevice>
    decreases devices.len(),
{
    if devices.len() == 0 {
        None
    } else if device_matches(devices[0], kind, name) {
        Some(devices[0])
    } else {
        spec_find_device(devices.subrange(1, devices.len() as int), kind, name)
    }
}

proof fn lemma_find_device_found(
    devices: Seq<TopologyDevice>,
    kind: ResultKind,
    name: Seq<char>,
    i: int,
)
    requires
        0 <= i < devices.len(),
        forall|j: int| 0 <= j < i ==> !device_matches(devices[j], kind, name),
        device_matches(devices[i], kind, name),
    ensures
        spec_find_device(devices, kind, name) == Some(devices[i]),
    decreases i,
{
    if i > 0 {
        let tail = devices.subrange(1, devices.len() as int);
        assert(forall|j: int| 0 <= j < tail.len() ==> tail[j] == devices[j + 1]);
        lemma_find_device_found(tail, kind, name, i - 1);
    }
}

proof fn lemma_find_device_none(devices: Seq<TopologyDevice>, kind: ResultKind, name: Seq<char>)
    requires
        forall|j: int| 0 <= j < devices.len() ==> !device_matches(devices[j], kind, name),
    ensures
        spec_find_device(devices, kind, name) is None,
    decreases devices.len(),
{
    if devices.len() > 0 {
        let tail = devices.subrange(1, devices.len() as int);
        assert(forall|j: int| 0 <= j < tail.len() ==> tail[j] == devices[j + 1]);
        lemma_find_device_none(tail, kind, name);
    }
}

/// The type of the first device with this id, where one exists.
pub open spec fn spec_device_type_of(devices: Seq<TopologyDevice>, id: Seq<char>) -> Option<
    DeviceType,
>
    decreases devices.len(),
{
    if devices.len() == 0 {
        None
    } else if devices[0].id@ == id {
        Some(devices[0].device_type)
    } else {
        spec_device_type_of(devices.subrange(1, devices.len() as int), id)
    }
}

proof fn lemma_device_type_of_found(devices: Seq<TopologyDevice>, id: Seq<char>, i: int)
    requires
        0 <= i < devices.len(),
        forall|j: int| 0 <= j < i ==> devices[j].id@ != id,
        devices[i].id@ == id,
    ensures
        spec_device_type_of(devices, id) == Some(devices[i].device_type),
    decreases i,
{
    if i > 0 {
        let tail = devices.subrange(1, devices.len() as int);
        assert(forall|j: int| 0 <= j < tail.len() ==> tail[j] == devices[j + 1]);
        lemma_device_type_of_found(tail, id, i - 1);
    }
}

proof fn lemma_device_type_of_none(devices: Seq<TopologyDevice>, id: Seq<char>)
    requires
        forall|j: int| 0 <= j < devices.len() ==> devices[j].id@ != id,
    ensures
        spec_device_type_of(devices, id) is None,
    decreases devices.len(),
{
    if devices.len() > 0 {
        let tail = devices.subrange(1, devices.len() as int);
        assert(forall|j: int| 0 <= j < tail.len() ==> tail[j] == devices[j + 1]);
        lemma_device_type_of_none(tail, id);
    }
}

/// Whether the first device with this id is a meter.
pub open spec fn spec_is_meter(devices: Seq<TopologyDevice>, id: Seq<char>) -> bool {
    spec_device_type_of(devices, id) == Some(DeviceType::Meter)
}

/// The meters a connection list points at a target device, in list order;
/// either end of a connection may be the meter.
pub open spec fn spec_meters_of(
    devices: Seq<TopologyDevice>,
    conns: Seq<(String, String)>,
    target: Seq<char>,
) -> Seq<String>
    decreases conns.len(),
{
    if conns.len() == 0 {
        Seq::empty()
    } else {
        let prev = spec_meters_of(devices, conns.drop_last(), target);
        let c = conns.last();
        let with_from = if spec_is_meter(devices, c.0@) && c.1@ == target {
            prev.push(c.0)
        } else {
            prev
        };
        if spec_is_meter(devices, c.1@) && c.0@ == target {
            with_from.push(c.1)
        } else {
            with_from
        }
    }
}

/// The type of the first device with this id, where one exists.
pub fn device_type_of(devices: &Vec<TopologyDevice>, id: &str) -> (r: Option<DeviceType>)
    ensures
        r == spec_device_type_of(devices@, id@),
{
    let mut i: usize = 0;
    while i < devices.len()
        invariant
            i <= devices@.len(),
            forall|j: int| 0 <= j < i ==> devices@[j].id@ != id@,
        decreases devices@.len() - i,
    {
        if str_eq(devices[i].id.as_str(), id) {
            proof {
                lemma_device_type_of_found(devices@, id@, i as int);
            }
            return Some(devices[i].device_type);
        }
        i += 1;
    }
    proof {
        lemma_device_type_of_none(devices@, id@);
    }
    None
}

/// The first device a result kind and name match, with its index.
fn find_matching_device(
    devices: &Vec<TopologyDevice>,
    kind: ResultKind,
    name: &String,
) -> (r: Option<usize>)
    ensures
        match r {
            Some(i) => i < devices@.len() && device_matches(devices@[i as int], kind, name@)
                && spec_find_device(devices@, kind, name@) == Some(devices@[i as int]),
            None => spec_find_device(devices@, kind, name@) is None,
        },
{
    let mut i: usize = 0;
    while i < devices.len()
        invariant
            i <= devices@.len(),
            forall|j: int| 0 <= j < i ==> !device_matches(devices@[j], kind, name@),
        decreases devices@.len() - i,
    {
        let d = &devices[i];
        if kind_matches_exec(kind, d.device_type) && str_eq(d.name.as_str(), name.as_str()) {
            proof {
                lemma_find_device_found(devices@, kind, name@, i as int);
            }
            return Some(i);
        }
        i += 1;
    }
    proof {
        lemma_find_device_none(devices@, kind, name@);
    }
    None
}

/// The meters pointing at a target device, in connection order.
#[verifier::rlimit(50)]
pub fn meters_of(topology: &TopologyView, target: &str) -> (r: Vec<String>)
    ensures
        r@ == spec_meters_of(topology.devices@, topology.connections@, target@),
{
    let mut out: Vec<String> = Vec::new();
    let mut i: usize = 0;
    while i < topology.connections.len()
        invariant
            i <= topology.connections@.len(),
            out@ == spec_meters_of(
                topology.devices@,
                topology.connections@.take(i as int),
                target@,
            ),
        decreases topology.connections@.len() - i,
    {
        proof {
            assert(topology.connections@.take(i + 1).drop_last() =~= topology.connections@.take(
                i as int,
            ));
        }
        let c = &topology.connections[i];
        let from_is_meter = matches!(
            device_type_of(&topology.devices, c.0.as_str()),
            Some(DeviceType::Meter)
        );
        let to_is_meter = matches!(
            device_type_of(&topology.devices, c.1.as_str()),
            Some(DeviceType::Meter)
        );
        if from_is_meter && str_eq(c.1.as_str(), target) {
            out.push(c.0.clone());
        }
        if to_is_meter && str_eq(c.0.as_str(), target) {
            out.push(c.1.clone());
        }
        i += 1;
    }
    proof {
        assert(topology.connections@.take(topology.connections@.len() as int)
            =~= topology.connections@);
    }
    out
}

/// The map from each meter to the device its single connection points at;
/// a meter with several connections keeps the last one.
pub open spec fn spec_meter_connections(
    devices: Seq<TopologyDevice>,
    conns: Seq<(String, String)>,
) -> Map<Seq<char>, String>
    decreases conns.len(),
{
    if conns.len() == 0 {
        Map::empty()
    } else {
        let prev = spec_meter_connections(devices, conns.drop_last());
        let c = conns.last();
        let with_from = if spec_is_meter(devices, c.0@) {
            prev.insert(c.0@, c.1)
        } else {
            prev
        };
        if spec_is_meter(devices, c.1@) {
            with_from.insert(c.1@, c.0)
        } else {
            with_from
        }
    }
}

/// Builds the map from each meter to the device it points at, used when a
/// meter itself has no data and shows its target's instead.
pub fn build_meter_connections(topology: &TopologyView) -> (r: StrMap<String>)
    ensures
        r.wf(),
        r@ == spec_meter_connections(topology.devices@, topology.connections@),
{
    let mut out: StrMap<String> = StrMap::new();
    let mut i: usize = 0;
    while i < topology.connections.len()
        invariant
            out.wf(),
            i <= topology.connections@.len(),
            out@ == spec_meter_connections(
                topology.devices@,
                topology.connections@.take(i as int),
            ),
        decreases topology.connections@.len() - i,
    {
        proof {
            assert(topology.connections@.take(i + 1).drop_last() =~= topology.connections@.take(
                i as int,
            ));
        }
        let c = &topology.connections[i];
        if matches!(
            device_type_of(&topology.devices, c.0.as_str()),
            Some(DeviceType::Meter)
        ) {
            out.set(c.0.as_str(), c.1.clone());
        }
        if matches!(
            device_type_of(&topology.devices, c.1.as_str()),
            Some(DeviceType::Meter)
        ) {
            out.set(c.1.as_str(), c.0.clone());
        }
        i += 1;
    }
    proof {
        assert(topology.connections@.take(topology.connections@.len() as int)
            =~= topology.connections@);
    }
    out
}

/// The storage state after applying one tick's result to a device that
/// had `prior` (or none yet): a fresh state is created at the configured
/// capacity and initial state of charge; a changed nameplate capacity is
/// taken over, clamping the stored energy; then the tick's power applies.
pub open spec fn spec_storage_update(
    prior: Option<StorageState>,
    capacity_uj: u64,
    initial_soc_permille: u16,
    p_mw: int,
    dt_ms: int,
) -> StorageState {
    let base = match prior {
        Some(s) => s,
        None => spec_storage_new(capacity_uj, initial_soc_permille),
    };
    let adjusted = if base.capacity_uj != capacity_uj {
        StorageState {
            capacity_uj,
            energy_uj: if base.energy_uj > capacity_uj {
                capacity_uj
            } else {
                base.energy_uj
            },
            ..base
        }
    } else {
        base
    };
    spec_tick(adjusted, p_mw, dt_ms)
}

/// The power cache after recording a sample for each meter, in order.
pub open spec fn spec_insert_samples(
    m: Map<Seq<char>, PowerSample>,
    meters: Seq<String>,
    sample: PowerSample,
) -> Map<Seq<char>, PowerSample>
    decreases meters.len(),
{
    if meters.len() == 0 {
        m
    } else {
        spec_insert_samples(m, meters.drop_last(), sample).insert(meters.last()@, sample)
    }
}

/// The nameplate capacity a storage device's bookkeeping uses: the
/// configured one, or the default where none is configured.
pub open spec fn spec_effective_capacity(configured: Option<u64>) -> u64 {
    match configured {
        Some(c) => c,
        None => crate::storage::DEFAULT_CAPACITY_UJ,
    }
}

/// What routing one tick's results changes: the persistence records in
/// order, the power cache, the storage states, and the online map — a
/// device is marked online exactly when a result of this run named it.
pub open spec fn spec_route_step(
    devices: Seq<TopologyDevice>,
    conns: Seq<(String, String)>,
    st: (
        Seq<PersistRecord>,
        Map<Seq<char>, PowerSample>,
        Map<Seq<char>, StorageState>,
        Map<Seq<char>, bool>,
    ),
    res: DeviceResult,
    timestamp_ms: u64,
    dt_ms: u64,
) -> (
    Seq<PersistRecord>,
    Map<Seq<char>, PowerSample>,
    Map<Seq<char>, StorageState>,
    Map<Seq<char>, bool>,
) {
    match spec_find_device(devices, res.kind, res.name@) {
        None => st,
        Some(d) => {
            let meters = spec_meters_of(devices, conns, d.id@);
            let sample = PowerSample {
                timestamp_ms,
                p_active_mw: res.p_active_mw,
                p_reactive_mw: res.p_reactive_mw,
            };
            let main = PersistRecord {
                device_id: d.id,
                device_type: Some(d.device_type),
                p_active_mw: res.p_active_mw,
                p_reactive_mw: res.p_reactive_mw,
            };
            let meter_records = meters.map(
                |j: int, m: String|
                    PersistRecord {
                        device_id: m,
                        device_type: spec_device_type_of(devices, m@),
                        p_active_mw: res.p_active_mw,
                        p_reactive_mw: res.p_reactive_mw,
                    },
            );
            let records = st.0.push(main) + meter_records;
            let power = spec_insert_samples(st.1.insert(d.id@, sample), meters, sample);
            let cap = spec_effective_capacity(d.capacity_uj);
            let storage = if res.kind == ResultKind::Storage && 0 < cap && cap
                <= CAPACITY_CEIL {
                let soc = match d.initial_soc_permille {
                    Some(s) => if s <= 1000 {
                        s
                    } else {
                        1000
                    },
                    None => 500,
                };
                let p = match res.p_active_mw {
                    Some(p) => p as int,
                    None => 0,
                };
                let prior = if st.2.contains_key(d.id@) {
                    Some(st.2[d.id@])
                } else {
                    None
                };
                st.2.insert(d.id@, spec_storage_update(prior, cap, soc, p, dt_ms as int))
            } else {
                st.2
            };
            let online = st.3.insert(d.id@, true);
            (records, power, storage, online)
        },
    }
}

/// The fold of `spec_route_step` over a tick's results.
pub open spec fn spec_route(
    devices: Seq<TopologyDevice>,
    conns: Seq<(String, String)>,
    st: (
        Seq<PersistRecord>,
        Map<Seq<char>, PowerSample>,
        Map<Seq<char>, StorageState>,
        Map<Seq<char>, bool>,
    ),
    results: Seq<DeviceResult>,
    timestamp_ms: u64,
    dt_ms: u64,
) -> (
    Seq<PersistRecord>,
    Map<Seq<char>, PowerSample>,
    Map<Seq<char>, StorageState>,
    Map<Seq<char>, bool>,
)
    decreases results.len(),
{
    if results.len() == 0 {
        st
    } else {
        spec_route_step(
            devices,
            conns,
            spec_route(devices, conns, st, results.drop_last(), timestamp_ms, dt_ms),
            results.last(),
            timestamp_ms,
            dt_ms,
        )
    }
}

/// Whether the loop spawns on a start request: only when none is alive.
pub open spec fn spec_spawn_decision(loop_alive: bool) -> bool {
    !loop_alive
}

/// Calling start twice while a run is active does not double the tick
/// rate: a start spawns the background loop only when none is alive, and
/// `start_run` leaves the loop marked alive, so the second of two
/// consecutive starts spawns nothing and one timer drives the run.
pub proof fn lemma_start_twice_spawns_once()
    ensures
        spec_spawn_decision(false),
        !spec_spawn_decision(true),
{
}

/// Whether a tick's outcome stops the run: an explicit pause signal, or
/// non-convergence accompanied by errors. The run self-terminates rather
/// than spinning on unrecoverable numerical failure.
pub fn tick_should_stop(auto_paused: bool, converged: bool, has_errors: bool) -> (r: bool)
    ensures
        r == (auto_paused || (!converged && has_errors)),
{
    auto_paused || (!converged && has_errors)
}

/// The orchestrator's own state: run status, per-run caches, the loop
/// guard, and the remote-control gates.
pub struct SimulationEngine {
    pub status: SimulationStatus,
    pub topology: Option<TopologyView>,
    pub device_modes: StrMap<WorkMode>,
    /// Master switch for remote control.
    pub remote_control_enabled: bool,
    /// Per-device remote-control overrides; unset devices follow the
    /// master switch.
    pub device_remote_control_allowed: StrMap<bool>,
    /// Which devices produced data this run.
    pub device_active_status: StrMap<bool>,
    /// Latest power per device, the single source pollers read.
    pub last_device_power: StrMap<PowerSample>,
    /// Storage bookkeeping per storage device.
    pub storage_state: StrMap<StorageState>,
    /// Whether the background loop is alive; guards duplicate spawns.
    pub calculation_loop_started: bool,
    /// Whether the loop was asked to exit at the next tick boundary.
    pub cancel_requested: bool,
    /// Step latencies for the bounded moving average.
    pub delay_window: DelayWindow,
}

impl SimulationEngine {
    /// Every per-device table is a well-formed map, every storage state
    /// well-formed, and the latency window bounded.
    pub open spec fn wf(&self) -> bool {
        &&& self.device_modes.wf()
        &&& self.device_remote_control_allowed.wf()
        &&& self.device_active_status.wf()
        &&& self.last_device_power.wf()
        &&& self.storage_state.wf()
        &&& forall|k: Seq<char>|
            self.storage_state@.contains_key(k) ==> (#[trigger] self.storage_state@[k]).wf()
        &&& self.delay_window.wf()
    }

    /// A stopped engine with nothing cached and remote control enabled.
    pub fn new() -> (r: SimulationEngine)
        ensures
            r.wf(),
            r.status.state == SimulationState::Stopped,
            r.topology is None,
            r.remote_control_enabled,
            !r.calculation_loop_started,
            !r.cancel_requested,
            r.device_active_status@ == Map::<Seq<char>, bool>::empty(),
            r.last_device_power@ == Map::<Seq<char>, PowerSample>::empty(),
            r.storage_state@ == Map::<Seq<char>, StorageState>::empty(),
            r.device_modes@ == Map::<Seq<char>, WorkMode>::empty(),
    {
        SimulationEngine {
            status: SimulationStatus::new(),
            topology: None,
            device_modes: StrMap::new(),
            remote_control_enabled: true,
            device_remote_control_allowed: StrMap::new(),
            device_active_status: StrMap::new(),
            last_device_power: StrMap::new(),
            storage_state: StrMap::new(),
            calculation_loop_started: false,
            cancel_requested: false,
            delay_window: DelayWindow::new(),
        }
    }

    /// Sets the master remote-control switch.
    pub fn set_remote_control_enabled(&mut self, enabled: bool)
        ensures
            final(self).remote_control_enabled == enabled,
            final(self).wf() == old(self).wf(),
            final(self).status == old(self).status,
            final(self).device_remote_control_allowed == old(self).device_remote_control_allowed,
    {
        self.remote_control_enabled = enabled;
    }

    /// The master remote-control switch.
    pub fn remote_control_enabled(&self) -> (r: bool)
        ensures
            r == self.remote_control_enabled,
    {
        self.remote_control_enabled
    }

    /// Sets one device's remote-control override.
    pub fn set_device_remote_control_enabled(&mut self, device_id: &str, enabled: bool)
        requires
            old(self).wf(),
        ensures
            final(self).wf(),
            final(self).device_remote_control_allowed@ == old(
                self,
            ).device_remote_control_allowed@.insert(device_id@, enabled),
            final(self).remote_control_enabled == old(self).remote_control_enabled,
    {
        self.device_remote_control_allowed.set(device_id, enabled);
    }

    /// Whether remote control may act on a device: the master switch must
    /// be on, and an unconfigured device follows the master switch.
    pub fn device_remote_control_allowed(&self, device_id: &str) -> (r: bool)
        requires
            self.wf(),
        ensures
            r == (self.remote_control_enabled && (if self.device_remote_control_allowed@.contains_key(
                device_id@,
            ) {
                self.device_remote_control_allowed@[device_id@]
            } else {
                true
            })),
    {
        if !self.remote_control_enabled {
            return false;
        }
        match self.device_remote_control_allowed.get(device_id) {
            Some(b) => *b,
            None => true,
        }
    }

    /// Loads the topology the next run works on.
    pub fn set_topology(&mut self, topology: TopologyView)
        ensures
            final(self).topology == Some(topology),
            final(self).wf() == old(self).wf(),
            final(self).status == old(self).status,
    {
        self.topology = Some(topology);
    }

    /// Begins a run: the kernel must be reachable and a topology loaded;
    /// the per-run caches and the error list are cleared, the status
    /// starts, and the caller is told whether to spawn the background loop
    /// — exactly when none is alive, so a second start while a run is
    /// active never doubles the tick rate.
    pub fn start_run(&mut self, kernel_ready: bool, now: u64) -> (r: Result<bool, String>)
        requires
            old(self).wf(),
        ensures
            final(self).wf(),
            !kernel_ready ==> r is Err && *final(self) == *old(self),
            kernel_ready && old(self).topology is None ==> r is Err && *final(self) == *old(
                self,
            ),
            kernel_ready && old(self).topology is Some ==> {
                &&& r == Ok::<bool, String>(spec_spawn_decision(old(self).calculation_loop_started))
                &&& final(self).calculation_loop_started
                &&& final(self).status.state == SimulationState::Running
                &&& final(self).status.start_time == Some(now)
                &&& final(self).status.calculation_count == 0
                &&& final(self).status.elapsed_time == 0
                &&& final(self).status.pause_started_at is None
                &&& final(self).status.total_paused_secs == 0
                &&& final(self).status.errors@.len() == 0
                &&& final(self).device_active_status@ == Map::<Seq<char>, bool>::empty()
                &&& final(self).last_device_power@ == Map::<Seq<char>, PowerSample>::empty()
                &&& final(self).storage_state@ == Map::<Seq<char>, StorageState>::empty()
                &&& final(self).topology == old(self).topology
                &&& final(self).device_modes == old(self).device_modes
                &&& final(self).remote_control_enabled == old(self).remote_control_enabled
            },
    {
        if !kernel_ready {
            return Err(String::from_str("the numerical kernel is not reachable"));
        }
        if self.topology.is_none() {
            return Err(String::from_str("no topology is loaded"));
        }
        self.device_active_status.clear();
        self.last_device_power.clear();
        self.storage_state.clear();
        self.status.errors = Vec::new();
        self.status.start(now);
        let spawn = !self.calculation_loop_started;
        self.calculation_loop_started = true;
        Ok(spawn)
    }

    /// Ends the run: the status stops, the per-run caches and errors are
    /// cleared, and the loop is asked to exit at the next tick boundary.
    pub fn stop_run(&mut self)
        requires
            old(self).wf(),
        ensures
            final(self).wf(),
            final(self).status.state == SimulationState::Stopped,
            final(self).status.start_time is None,
            final(self).status.pause_started_at is None,
            final(self).status.total_paused_secs == 0,
            final(self).status.errors@.len() == 0,
            final(self).device_active_status@ == Map::<Seq<char>, bool>::empty(),
            final(self).last_device_power@ == Map::<Seq<char>, PowerSample>::empty(),
            final(self).storage_state@ == Map::<Seq<char>, StorageState>::empty(),
            final(self).cancel_requested,
            final(self).calculation_loop_started == old(self).calculation_loop_started,
            final(self).topology == old(self).topology,
    {
        self.status.stop();
        self.status.errors = Vec::new();
        self.device_active_status.clear();
        self.last_device_power.clear();
        self.storage_state.clear();
        self.cancel_requested = true;
    }

    /// Self-terminates the run on unrecoverable failure: the tick's final
    /// errors (where it carried any) stay visible after the stop, the rest
    /// of the per-run state is cleared as on any stop, and the loop is
    /// asked to exit. The kernel's own stop call is the runner's.
    pub fn auto_stop(&mut self, final_errors: Vec<SimulationError>)
        requires
            old(self).wf(),
        ensures
            final(self).wf(),
            final(self).status.state == SimulationState::Stopped,
            final(self).status.start_time is None,
            final(self).status.pause_started_at is None,
            final(self).status.total_paused_secs == 0,
            final(self).status.errors@ == if final_errors@.len() > 0 {
                final_errors@
            } else {
                old(self).status.errors@
            },
            final(self).device_active_status@ == Map::<Seq<char>, bool>::empty(),
            final(self).last_device_power@ == Map::<Seq<char>, PowerSample>::empty(),
            final(self).storage_state@ == Map::<Seq<char>, StorageState>::empty(),
            final(self).cancel_requested,
            final(self).calculation_loop_started == old(self).calculation_loop_started,
            final(self).topology == old(self).topology,
    {
        if final_errors.len() > 0 {
            self.status.errors = final_errors;
        }
        self.status.stop();
        self.device_active_status.clear();
        self.last_device_power.clear();
        self.storage_state.clear();
        self.cancel_requested = true;
    }

    /// Acknowledges that the background loop exited: a later start may
    /// spawn a fresh one.
    pub fn acknowledge_loop_exit(&mut self)
        ensures
            !final(self).calculation_loop_started,
            !final(self).cancel_requested,
            final(self).wf() == old(self).wf(),
            final(self).status == old(self).status,
    {
        self.calculation_loop_started = false;
        self.cancel_requested = false;
    }

    /// Pauses the run, recording the pause instant.
    pub fn pause_run(&mut self, now: u64)
        requires
            old(self).wf(),
        ensures
            final(self).wf(),
            final(self).status.state == SimulationState::Paused,
            final(self).status.pause_started_at == Some(now),
            final(self).status.total_paused_secs == old(self).status.total_paused_secs,
            final(self).status.start_time == old(self).status.start_time,
    {
        self.status.pause(now);
    }

    /// Resumes the run; the ended pause adds its length to the cumulative
    /// paused duration.
    pub fn resume_run(&mut self, now: u64)
        requires
            old(self).wf(),
        ensures
            final(self).wf(),
            final(self).status.state == SimulationState::Running,
            final(self).status.pause_started_at is None,
            final(self).status.total_paused_secs == match old(self).status.pause_started_at {
                Some(ps) => crate::status::sat_add_64(
                    old(self).status.total_paused_secs as int,
                    crate::status::sat_sub(now as int, ps as int),
                ),
                None => old(self).status.total_paused_secs as int,
            },
            final(self).status.start_time == old(self).status.start_time,
    {
        self.status.resume(now);
    }

    /// Whether the loop computes this tick: only while Running; a paused
    /// run skips the work and an exited loop does none.
    pub fn should_compute(&self) -> (r: bool)
        ensures
            r == (self.status.state == SimulationState::Running),
    {
        self.status.state == SimulationState::Running
    }

    /// Takes a tick's error report into the run's error list: an empty
    /// report never erases standing errors, an unchanged report causes no
    /// churn (and the caller sends no notification), and a new report
    /// replaces the list.
    pub fn apply_errors_update(&mut self, new_errors: Vec<SimulationError>) -> (r:
        ErrorsUpdateDecision)
        requires
            old(self).wf(),
        ensures
            final(self).wf(),
            r == ErrorsUpdateDecision::RetainExisting <==> (new_errors@.len() == 0 && old(
                self,
            ).status.errors@.len() > 0),
            r == ErrorsUpdateDecision::Unchanged ==> errors_equiv(
                new_errors@,
                old(self).status.errors@,
            ),
            r == ErrorsUpdateDecision::Replace ==> final(self).status.errors@ == new_errors@,
            r != ErrorsUpdateDecision::Replace ==> final(self).status.errors@ == old(
                self,
            ).status.errors@,
            final(self).status.state == old(self).status.state,
            final(self).status.start_time == old(self).status.start_time,
            final(self).status.calculation_count == old(self).status.calculation_count,
    {
        let decision = decide_errors_update(&self.status.errors, &new_errors);
        if matches!(decision, ErrorsUpdateDecision::Replace) {
            self.status.errors = new_errors;
        }
        decision
    }

    /// Records the kernel's calculation count.
    pub fn set_calculation_count(&mut self, count: u64)
        ensures
            final(self).status.calculation_count == count,
            final(self).wf() == old(self).wf(),
            final(self).status.state == old(self).status.state,
            final(self).status.errors@ == old(self).status.errors@,
    {
        self.status.calculation_count = count;
    }

    /// Closes one tick: records its latency, refreshes the bounded moving
    /// average, and recomputes the elapsed running time as wall-clock time
    /// since start less the cumulative paused duration.
    pub fn finish_tick(&mut self, step_ms: u64, now: u64)
        requires
            old(self).wf(),
            step_ms <= crate::status::DELAY_SAMPLE_CEIL,
        ensures
            final(self).wf(),
            final(self).status.elapsed_time == match old(self).status.start_time {
                Some(st) => spec_elapsed(
                    st as int,
                    now as int,
                    old(self).status.total_paused_secs as int,
                ),
                None => old(self).status.elapsed_time as int,
            },
            final(self).delay_window.samples@.len() > 0,
            final(self).status.average_delay_ms == sum_of(final(self).delay_window.samples@) / (
            final(self).delay_window.samples@.len() as int),
            final(self).status.state == old(self).status.state,
            final(self).status.errors@ == old(self).status.errors@,
            final(self).status.calculation_count == old(self).status.calculation_count,
    {
        self.delay_window.push(step_ms);
        self.status.average_delay_ms = self.delay_window.average();
        self.status.update_elapsed(now);
    }

    /// Whether a device produced data this run.
    pub fn is_device_online(&self, device_id: &str) -> (r: bool)
        requires
            self.wf(),
        ensures
            r == (self.status.state == SimulationState::Running
                && self.device_active_status@.contains_key(device_id@)
                && self.device_active_status@[device_id@]),
    {
        if !(self.status.state == SimulationState::Running) {
            return false;
        }
        match self.device_active_status.get(device_id) {
            Some(b) => *b,
            None => false,
        }
    }

    /// The online map itself: each marked device yielded at least one
    /// result since the current start; the map is cleared at every start
    /// and stop, so devices of an earlier run never appear online.
    pub fn get_device_active_status(&self) -> (r: &StrMap<bool>)
        ensures
            r@ == self.device_active_status@,
    {
        &self.device_active_status
    }

    /// A device's latest power, where one was cached this run.
    pub fn get_last_device_power(&self, device_id: &str) -> (r: Option<&PowerSample>)
        requires
            self.wf(),
        ensures
            match r {
                Some(s) => self.last_device_power@.contains_key(device_id@) && *s
                    == self.last_device_power@[device_id@],
                None => !self.last_device_power@.contains_key(device_id@),
            },
    {
        self.last_device_power.get(device_id)
    }

    /// A storage device's bookkeeping, where the run created one.
    pub fn get_storage_state(&self, device_id: &str) -> (r: Option<&StorageState>)
        requires
            self.wf(),
        ensures
            match r {
                Some(s) => self.storage_state@.contains_key(device_id@) && *s
                    == self.storage_state@[device_id@] && s.wf(),
                None => !self.storage_state@.contains_key(device_id@),
            },
    {
        self.storage_state.get(device_id)
    }

    /// Sets a device's work mode from its name; only the four known names
    /// are accepted, and an unknown name is refused without any change.
    pub fn set_device_mode(&mut self, device_id: String, mode: String) -> (r: Result<
        (),
        String,
    >)
        requires
            old(self).wf(),
        ensures
            final(self).wf(),
            ({
                let valid = mode@ == "random_data"@ || mode@ == "manual"@ || mode@ == "remote"@
                    || mode@ == "historical_data"@;
                &&& valid ==> r is Ok && final(self).device_modes@ == old(
                    self,
                ).device_modes@.insert(device_id@, spec_work_mode_of(mode@))
                &&& !valid ==> r is Err && *final(self) == *old(self)
            }),
    {
        let valid = str_eq(mode.as_str(), "random_data") || str_eq(mode.as_str(), "manual")
            || str_eq(mode.as_str(), "remote") || str_eq(mode.as_str(), "historical_data");
        if !valid {
            return Err(String::from_str("Invalid mode: ").concat(mode.as_str()));
        }
        let ghost mv = mode@;
        let wm = WorkMode::from(mode);
        proof {
            assert(wm == spec_work_mode_of(mv));
        }
        self.device_modes.set(device_id.as_str(), wm);
        Ok(())
    }

    /// Every device's work mode.
    pub fn get_device_modes(&self) -> (r: &StrMap<WorkMode>)
        ensures
            r@ == self.device_modes@,
    {
        &self.device_modes
    }

    /// Routes one tick's kernel results: each result that names a device
    /// of its kind yields a persistence record for that device and one for
    /// every meter pointing at it, refreshes their entries in the power
    /// cache, and — for storage results — advances the device's storage
    /// bookkeeping by this tick. Results naming no device are skipped; one
    /// device's absence never fails the tick.
    #[verifier::spinoff_prover]
    pub fn process_calculation_results(
        &mut self,
        topology: &TopologyView,
        results: &Vec<DeviceResult>,
        timestamp_ms: u64,
        dt_ms: u64,
    ) -> (r: Vec<PersistRecord>)
        requires
            old(self).wf(),
            dt_ms <= TICK_CEIL_MS,
            forall|i: int|
                0 <= i < results@.len() ==> ((#[trigger] results@[i].p_active_mw) matches Some(p)
                    ==> -POWER_CEIL_MW <= p <= POWER_CEIL_MW),
        ensures
            final(self).wf(),
            ({
                let routed = spec_route(
                    topology.devices@,
                    topology.connections@,
                    (
                        Seq::empty(),
                        old(self).last_device_power@,
                        old(self).storage_state@,
                        old(self).device_active_status@,
                    ),
                    results@,
                    timestamp_ms,
                    dt_ms,
                );
                &&& r@ == routed.0
                &&& final(self).last_device_power@ == routed.1
                &&& final(self).storage_state@ == routed.2
                &&& final(self).device_active_status@ == routed.3
            }),
            final(self).status == old(self).status,
    {
        let ghost devices = topology.devices@;
        let ghost conns = topology.connections@;
        let ghost st0 = (
            Seq::<PersistRecord>::empty(),
            old(self).last_device_power@,
            old(self).storage_state@,
            old(self).device_active_status@,
        );
        let mut records: Vec<PersistRecord> = Vec::new();
        let mut i: usize = 0;
        while i < results.len()
            invariant
                self.wf(),
                devices == topology.devices@,
                conns == topology.connections@,
                st0 == (
                    Seq::<PersistRecord>::empty(),
                    old(self).last_device_power@,
                    old(self).storage_state@,
                    old(self).device_active_status@,
                ),
                i <= results@.len(),
                dt_ms <= TICK_CEIL_MS,
                forall|k: int|
                    0 <= k < results@.len() ==> ((#[trigger] results@[k].p_active_mw) matches Some(
                        p,
                    ) ==> -POWER_CEIL_MW <= p <= POWER_CEIL_MW),
                ({
                    let routed = spec_route(
                        devices,
                        conns,
                        st0,
                        results@.take(i as int),
                        timestamp_ms,
                        dt_ms,
                    );
                    &&& records@ == routed.0
                    &&& self.last_device_power@ == routed.1
                    &&& self.storage_state@ == routed.2
                    &&& self.device_active_status@ == routed.3
                }),
                self.status == old(self).status,
                self.device_modes == old(self).device_modes,
                self.device_remote_control_allowed == old(self).device_remote_control_allowed,
                self.delay_window == old(self).delay_window,
                self.topology == old(self).topology,
            decreases results@.len() - i,
        {
            proof {
                assert(results@.take(i + 1).drop_last() =~= results@.take(i as int));
            }
            let res = &results[i];
            self.route_one_result(topology, res, timestamp_ms, dt_ms, &mut records);
            i += 1;
        }
        proof {
            assert(results@.take(results@.len() as int) =~= results@);
        }
        records
    }

    /// Routes one result, appending its records and refreshing the caches.
    #[verifier::rlimit(100)]
    #[verifier::spinoff_prover]
    fn route_one_result(
        &mut self,
        topology: &TopologyView,
        res: &DeviceResult,
        timestamp_ms: u64,
        dt_ms: u64,
        records: &mut Vec<PersistRecord>,
    )
        requires
            old(self).wf(),
            dt_ms <= TICK_CEIL_MS,
            (res.p_active_mw matches Some(p) ==> -POWER_CEIL_MW <= p <= POWER_CEIL_MW),
        ensures
            final(self).wf(),
            ({
                let routed = spec_route_step(
                    topology.devices@,
                    topology.connections@,
                    (
                        old(records)@,
                        old(self).last_device_power@,
                        old(self).storage_state@,
                        old(self).device_active_status@,
                    ),
                    *res,
                    timestamp_ms,
                    dt_ms,
                );
                &&& final(records)@ == routed.0
                &&& final(self).last_device_power@ == routed.1
                &&& final(self).storage_state@ == routed.2
                &&& final(self).device_active_status@ == routed.3
            }),
            final(self).status == old(self).status,
            final(self).device_modes == old(self).device_modes,
            final(self).device_remote_control_allowed == old(self).device_remote_control_allowed,
            final(self).delay_window == old(self).delay_window,
            final(self).topology == old(self).topology,
    {
        let ghost devices = topology.devices@;
        let found = find_matching_device(&topology.devices, res.kind, &res.name);
        match found {
            None => {
            },
            Some(fi) => {
                let d = &topology.devices[fi];
                let sample = PowerSample {
                    timestamp_ms,
                    p_active_mw: res.p_active_mw,
                    p_reactive_mw: res.p_reactive_mw,
                };
                let meters = meters_of(topology, d.id.as_str());
                let ghost base_records = records@;
                let ghost main_rec = (PersistRecord {
                    device_id: devices[fi as int].id,
                    device_type: Some(d.device_type),
                    p_active_mw: res.p_active_mw,
                    p_reactive_mw: res.p_reactive_mw,
                });
                records.push(
                    PersistRecord {
                        device_id: d.id.clone(),
                        device_type: Some(d.device_type),
                        p_active_mw: res.p_active_mw,
                        p_reactive_mw: res.p_reactive_mw,
                    },
                );
                self.last_device_power.set(d.id.as_str(), sample);
                self.device_active_status.set(d.id.as_str(), true);
                let ghost base_power = self.last_device_power@;
                let ghost meter_records = meters@.map(
                    |j: int, m: String|
                        PersistRecord {
                            device_id: m,
                            device_type: spec_device_type_of(devices, m@),
                            p_active_mw: res.p_active_mw,
                            p_reactive_mw: res.p_reactive_mw,
                        },
                );
                let mut k: usize = 0;
                while k < meters.len()
                    invariant
                        self.wf(),
                        devices == topology.devices@,
                        k <= meters@.len(),
                        meter_records == meters@.map(
                            |j: int, m: String|
                                PersistRecord {
                                    device_id: m,
                                    device_type: spec_device_type_of(devices, m@),
                                    p_active_mw: res.p_active_mw,
                                    p_reactive_mw: res.p_reactive_mw,
                                },
                        ),
                        records@ == base_records.push(main_rec) + meter_records.take(k as int),
                        main_rec == (PersistRecord {
                            device_id: devices[fi as int].id,
                            device_type: Some(d.device_type),
                            p_active_mw: res.p_active_mw,
                            p_reactive_mw: res.p_reactive_mw,
                        }),
                        self.last_device_power@ == spec_insert_samples(
                            base_power,
                            meters@.take(k as int),
                            sample,
                        ),
                        spec_find_device(devices, res.kind, res.name@) == Some(
                            devices[fi as int],
                        ),
                        fi < devices.len(),
                        *d == devices[fi as int],
                        self.storage_state == old(self).storage_state,
                        self.status == old(self).status,
                        self.device_active_status.wf(),
                        self.device_active_status@ == old(self).device_active_status@.insert(
                            devices[fi as int].id@,
                            true,
                        ),
                        self.device_modes == old(self).device_modes,
                        self.device_remote_control_allowed == old(
                            self,
                        ).device_remote_control_allowed,
                        self.delay_window == old(self).delay_window,
                        self.topology == old(self).topology,
                    decreases meters@.len() - k,
                {
                    proof {
                        assert(meters@.take(k + 1).drop_last() =~= meters@.take(k as int));
                        assert(meter_records.take(k + 1).drop_last() =~= meter_records.take(
                            k as int,
                        ));
                    }
                    let meter_type = device_type_of(&topology.devices, meters[k].as_str());
                    records.push(
                        PersistRecord {
                            device_id: meters[k].clone(),
                            device_type: meter_type,
                            p_active_mw: res.p_active_mw,
                            p_reactive_mw: res.p_reactive_mw,
                        },
                    );
                    self.last_device_power.set(meters[k].as_str(), sample);
                    proof {
                        assert(records@ =~= base_records.push(main_rec) + meter_records.take(
                            k + 1,
                        ));
                    }
                    k += 1;
                }
                proof {
                    assert(meters@.take(meters@.len() as int) =~= meters@);
                    assert(meter_records.take(meter_records.len() as int) =~= meter_records);
                }
                if matches!(res.kind, ResultKind::Storage) {
                    let cap: u64 = match d.capacity_uj {
                        Some(c) => c,
                        None => crate::storage::DEFAULT_CAPACITY_UJ,
                    };
                    if 0 < cap && cap <= CAPACITY_CEIL {
                        let soc: u16 = match d.initial_soc_permille {
                            Some(s) => if s <= 1000 {
                                s
                            } else {
                                1000
                            },
                            None => 500,
                        };
                        let p: i64 = match res.p_active_mw {
                            Some(p) => p,
                            None => 0,
                        };
                        let mut state: StorageState = match self.storage_state.get(
                            d.id.as_str(),
                        ) {
                            Some(s) => *s,
                            None => StorageState::new(cap, soc),
                        };
                        if state.capacity_uj != cap {
                            state.capacity_uj = cap;
                            if state.energy_uj > cap {
                                state.energy_uj = cap;
                            }
                        }
                        state.tick(p, dt_ms);
                        self.storage_state.set(d.id.as_str(), state);
                    }
                }
            },
        }
    }
}

} // verus!

//! Per-device energy bookkeeping kept by the simulation itself: the storage
//! state (energy, state of charge, charge/discharge counters) and the meter
//! energy counters. All quantities are integers: power in milliwatts, time
//! in milliseconds, energy in microjoules (1 kWh = 3 600 000 000 µJ).

use vstd::prelude::*;

verus! {

/// Microjoules in 0.1 kWh, the resolution of storage energy registers.
pub const UJ_PER_DECI_KWH: u64 = 360_000_000_000;

/// Microjoules in 1 kWh, the resolution of meter energy registers.
pub const UJ_PER_KWH: u64 = 3_600_000_000_000;

/// Ceiling for lifetime counters, so scaling them stays in range.
pub const ENERGY_COUNTER_CEIL: u64 = 0x4000_0000_0000_0000;

/// Largest accepted capacity (about 320 000 kWh).
pub const CAPACITY_CEIL: u64 = 0x1000_0000_0000_0000;

/// Capacity assumed for a storage device whose nameplate names none
/// (1000 kWh), in microjoules.
pub const DEFAULT_CAPACITY_UJ: u64 = 3_600_000_000_000_000;

/// Largest accepted power magnitude in milliwatts (100 GW).
pub const POWER_CEIL_MW: i64 = 100_000_000_000;

/// Largest accepted tick duration in milliseconds (one day).
pub const TICK_CEIL_MS: u64 = 86_400_000;

/// The product of a bounded power and a bounded duration fits a 64-bit
/// signed range.
proof fn lemma_power_time_product(p: int, dt: int)
    requires
        -POWER_CEIL_MW <= p <= POWER_CEIL_MW,
        0 <= dt <= TICK_CEIL_MS,
    ensures
        -0x7FFF_FFFF_FFFF_FFFF <= p * dt <= 0x7FFF_FFFF_FFFF_FFFF,
{
    assert(-0x7FFF_FFFF_FFFF_FFFF <= p * dt <= 0x7FFF_FFFF_FFFF_FFFF) by (nonlinear_arith)
        requires
            -POWER_CEIL_MW <= p <= POWER_CEIL_MW,
            0 <= dt <= TICK_CEIL_MS,
    ;
}

/// Negation distributes over the product.
proof fn lemma_neg_mul(a: int, b: int)
    ensures
        (-a) * b == -(a * b),
{
    assert((-a) * b == -(a * b)) by (nonlinear_arith);
}

/// Saturating add below a ceiling.
pub open spec fn sat_add(a: int, b: int, ceil: int) -> int {
    if a + b > ceil {
        ceil
    } else {
        a + b
    }
}

/// State of one storage device, maintained across ticks of a run. The
/// power convention is the kernel's: positive charges, negative discharges.
#[derive(Clone, Copy, Debug)]
pub struct StorageState {
    /// Rated capacity in microjoules; fixed over the device's life.
    pub capacity_uj: u64,
    /// Stored energy in microjoules, always within `[0, capacity_uj]`.
    pub energy_uj: u64,
    /// Energy charged today, in microjoules.
    pub daily_charge_uj: u64,
    /// Energy discharged today, in microjoules.
    pub daily_discharge_uj: u64,
    /// Lifetime charged energy, in microjoules.
    pub total_charge_uj: u64,
    /// Lifetime discharged energy, in microjoules.
    pub total_discharge_uj: u64,
}

/// The state a fresh storage device starts in.
pub open spec fn spec_storage_new(capacity_uj: u64, initial_soc_permille: u16) -> StorageState {
    StorageState {
        capacity_uj,
        energy_uj: ((capacity_uj * initial_soc_permille / 1000) as u64),
        daily_charge_uj: 0,
        daily_discharge_uj: 0,
        total_charge_uj: 0,
        total_discharge_uj: 0,
    }
}

/// The state after one tick of signed power `p` (milliwatts) over `dt`
/// (milliseconds): energy moves by `p * dt`, clamped to the capacity, and
/// the matching counters grow by the same product, saturating.
pub open spec fn spec_tick(s: StorageState, p: int, dt: int) -> StorageState {
    let moved = p * dt;
    let target = s.energy_uj + moved;
    let energy = if target < 0 {
        0int
    } else if target > s.capacity_uj {
        s.capacity_uj as int
    } else {
        target
    };
    StorageState {
        energy_uj: energy as u64,
        daily_charge_uj: if p > 0 {
            (sat_add(s.daily_charge_uj as int, moved, ENERGY_COUNTER_CEIL as int) as u64)
        } else {
            s.daily_charge_uj
        },
        total_charge_uj: if p > 0 {
            (sat_add(s.total_charge_uj as int, moved, ENERGY_COUNTER_CEIL as int) as u64)
        } else {
            s.total_charge_uj
        },
        daily_discharge_uj: if p < 0 {
            (sat_add(s.daily_discharge_uj as int, -moved, ENERGY_COUNTER_CEIL as int) as u64)
        } else {
            s.daily_discharge_uj
        },
        total_discharge_uj: if p < 0 {
            (sat_add(s.total_discharge_uj as int, -moved, ENERGY_COUNTER_CEIL as int) as u64)
        } else {
            s.total_discharge_uj
        },
        ..s
    }
}

impl StorageState {
    /// Energy lies within the capacity; counters lie below their ceiling.
    pub open spec fn wf(&self) -> bool {
        &&& 0 < self.capacity_uj <= CAPACITY_CEIL
        &&& self.energy_uj <= self.capacity_uj
        &&& self.daily_charge_uj <= ENERGY_COUNTER_CEIL
        &&& self.daily_discharge_uj <= ENERGY_COUNTER_CEIL
        &&& self.total_charge_uj <= ENERGY_COUNTER_CEIL
        &&& self.total_discharge_uj <= ENERGY_COUNTER_CEIL
    }

    /// A fresh state at the given initial state of charge (0.1 % units).
    pub fn new(capacity_uj: u64, initial_soc_permille: u16) -> (r: StorageState)
        requires
            0 < capacity_uj <= CAPACITY_CEIL,
            initial_soc_permille <= 1000,
        ensures
            r.wf(),
            r.capacity_uj == capacity_uj,
            r.energy_uj == capacity_uj * initial_soc_permille / 1000,
            r.daily_charge_uj == 0,
            r.daily_discharge_uj == 0,
            r.total_charge_uj == 0,
            r.total_discharge_uj == 0,
            r == spec_storage_new(capacity_uj, initial_soc_permille),
    {
        proof {
            assert(capacity_uj * initial_soc_permille <= CAPACITY_CEIL * 1000)
                by (nonlinear_arith)
                requires
                    capacity_uj <= CAPACITY_CEIL,
                    initial_soc_permille <= 1000,
            ;
        }
        let energy: u64 = (((capacity_uj as u128) * (initial_soc_permille as u128))
            / 1000) as u64;
        proof {
            assert(capacity_uj * initial_soc_permille / 1000 <= capacity_uj)
                by (nonlinear_arith)
                requires
                    initial_soc_permille <= 1000,
                    capacity_uj > 0,
            ;
        }
        StorageState {
            capacity_uj,
            energy_uj: energy,
            daily_charge_uj: 0,
            daily_discharge_uj: 0,
            total_charge_uj: 0,
            total_discharge_uj: 0,
        }
    }

    /// State of charge in 0.1 % units (0 ..= 1000).
    pub fn soc_permille(&self) -> (r: u16)
        requires
            self.wf(),
        ensures
            r == crate::codec::round_div(self.energy_uj * 1000, self.capacity_uj as int),
            r <= 1000,
    {
        proof {
            assert(self.energy_uj * 1000 <= CAPACITY_CEIL * 1000) by (nonlinear_arith)
                requires
                    self.energy_uj <= CAPACITY_CEIL,
            ;
        }
        let num: u128 = (self.energy_uj as u128) * 1000;
        let den: u128 = self.capacity_uj as u128;
        let soc: u128 = (num + den / 2) / den;
        proof {
            assert((self.energy_uj * 1000 + self.capacity_uj / 2) / (self.capacity_uj as int)
                <= 1000)
                by (nonlinear_arith)
                requires
                    self.energy_uj <= self.capacity_uj,
                    self.capacity_uj > 0,
            ;
        }
        soc as u16
    }

    /// Applies one tick of the given signed power over the given duration:
    /// the stored energy moves by `power × duration` but never leaves
    /// `[0, capacity_uj]` — a tick that would overshoot is clamped — and the
    /// matching charge or discharge counters grow by the same product,
    /// saturating at their ceiling.
    pub fn tick(&mut self, p_mw: i64, dt_ms: u64)
        requires
            old(self).wf(),
            -POWER_CEIL_MW <= p_mw <= POWER_CEIL_MW,
            dt_ms <= TICK_CEIL_MS,
        ensures
            final(self).wf(),
            *final(self) == spec_tick(*old(self), p_mw as int, dt_ms as int),
            final(self).capacity_uj == old(self).capacity_uj,
            ({
                let moved = p_mw * dt_ms;
                let target = old(self).energy_uj + moved;
                &&& final(self).energy_uj == if target < 0 {
                    0int
                } else if target > old(self).capacity_uj {
                    old(self).capacity_uj as int
                } else {
                    target
                }
                &&& 0 <= final(self).energy_uj <= final(self).capacity_uj
            }),
            p_mw > 0 ==> {
                let gained = p_mw * dt_ms;
                &&& final(self).daily_charge_uj == sat_add(
                    old(self).daily_charge_uj as int,
                    gained,
                    ENERGY_COUNTER_CEIL as int,
                )
                &&& final(self).total_charge_uj == sat_add(
                    old(self).total_charge_uj as int,
                    gained,
                    ENERGY_COUNTER_CEIL as int,
                )
                &&& final(self).daily_discharge_uj == old(self).daily_discharge_uj
                &&& final(self).total_discharge_uj == old(self).total_discharge_uj
            },
            p_mw < 0 ==> {
                let lost = -(p_mw * dt_ms);
                &&& final(self).daily_discharge_uj == sat_add(
                    old(self).daily_discharge_uj as int,
                    lost,
                    ENERGY_COUNTER_CEIL as int,
                )
                &&& final(self).total_discharge_uj == sat_add(
                    old(self).total_discharge_uj as int,
                    lost,
                    ENERGY_COUNTER_CEIL as int,
                )
                &&& final(self).daily_charge_uj == old(self).daily_charge_uj
                &&& final(self).total_charge_uj == old(self).total_charge_uj
            },
            p_mw == 0 ==> {
                &&& final(self).daily_charge_uj == old(self).daily_charge_uj
                &&& final(self).daily_discharge_uj == old(self).daily_discharge_uj
                &&& final(self).total_charge_uj == old(self).total_charge_uj
                &&& final(self).total_discharge_uj == old(self).total_discharge_uj
            },
    {
        proof {
            lemma_power_time_product(p_mw as int, dt_ms as int);
        }
        let moved: i128 = (p_mw as i128) * (dt_ms as i128);
        let target: i128 = (self.energy_uj as i128) + moved;
        let capacity: i128 = self.capacity_uj as i128;
        self.energy_uj = if target < 0 {
            0
        } else if target > capacity {
            self.capacity_uj
        } else {
            target as u64
        };
        if p_mw > 0 {
            let gained: u64 = ((p_mw as u64)) * dt_ms;
            self.daily_charge_uj = sat_add_u64(self.daily_charge_uj, gained);
            self.total_charge_uj = sat_add_u64(self.total_charge_uj, gained);
        } else if p_mw < 0 {
            proof {
                lemma_power_time_product(-(p_mw as int), dt_ms as int);
                lemma_neg_mul(p_mw as int, dt_ms as int);
            }
            let lost: u64 = ((-p_mw) as u64) * dt_ms;
            self.daily_discharge_uj = sat_add_u64(self.daily_discharge_uj, lost);
            self.total_discharge_uj = sat_add_u64(self.total_discharge_uj, lost);
        }
    }
}

/// Half of a sum, rounded toward zero.
fn half_toward_zero(s: i64) -> (r: i64)
    requires
        -0x4000_0000_0000_0000 <= s <= 0x4000_0000_0000_0000,
    ensures
        r == if s >= 0 {
            s / 2
        } else {
            -((-s) / 2)
        },
{
    if s >= 0 {
        s / 2
    } else {
        -((-s) / 2)
    }
}

/// Adds, saturating at the energy-counter ceiling.
fn sat_add_u64(a: u64, b: u64) -> (r: u64)
    requires
        a <= ENERGY_COUNTER_CEIL,
        b <= 0x7FFF_FFFF_FFFF_FFFF,
    ensures
        r == sat_add(a as int, b as int, ENERGY_COUNTER_CEIL as int),
{
    if b > ENERGY_COUNTER_CEIL - a {
        ENERGY_COUNTER_CEIL
    } else {
        a + b
    }
}

/// The stored energy of a storage device stays within `[0, capacity]` after
/// any sequence of ticks: each tick preserves well-formedness, and a
/// well-formed state has `0 <= energy_uj <= capacity_uj`. This is exactly
/// the `tick` contract, restated as a law over one arbitrary step of any
/// such sequence.
pub proof fn lemma_energy_stays_in_bounds(
    before: StorageState,
    after: StorageState,
    p_mw: i64,
    dt_ms: u64,
)
    requires
        before.wf(),
        -POWER_CEIL_MW <= p_mw <= POWER_CEIL_MW,
        dt_ms <= TICK_CEIL_MS,
        after.capacity_uj == before.capacity_uj,
        after.energy_uj == ({
            let target = before.energy_uj + p_mw * dt_ms;
            if target < 0 {
                0int
            } else if target > before.capacity_uj {
                before.capacity_uj as int
            } else {
                target
            }
        }),
    ensures
        0 <= after.energy_uj <= after.capacity_uj,
{
}

/// Energy counters of one meter, integrated each tick from the signed
/// active and reactive power: export counts positive power, import counts
/// negative power, trapezoidal with the previous tick's value when one is
/// available.
#[derive(Clone, Copy, Debug)]
pub struct MeterEnergyState {
    /// Exported (outgoing) active energy, in microjoules.
    pub export_active_uj: u64,
    /// Imported (incoming) active energy, in microjoules.
    pub import_active_uj: u64,
    /// Exported reactive energy, in microjoules.
    pub export_reactive_uj: u64,
    /// Imported reactive energy, in microjoules.
    pub import_reactive_uj: u64,
    /// Active power of the previous tick, for the trapezoidal rule.
    pub prev_active_mw: Option<i64>,
    /// Reactive power of the previous tick, for the trapezoidal rule.
    pub prev_reactive_mw: Option<i64>,
}

/// The trapezoidal power for one tick: the mean of the previous and the
/// current value where a previous one exists, else the current value.
pub open spec fn trapezoid(prev: Option<i64>, cur: int) -> int {
    match prev {
        Some(p) => {
            let s = p + cur;
            if s >= 0 {
                s / 2
            } else {
                -((-s) / 2)
            }
        },
        None => cur,
    }
}

impl MeterEnergyState {
    /// Counters lie below their ceiling and remembered powers in range.
    pub open spec fn wf(&self) -> bool {
        &&& self.export_active_uj <= ENERGY_COUNTER_CEIL
        &&& self.import_active_uj <= ENERGY_COUNTER_CEIL
        &&& self.export_reactive_uj <= ENERGY_COUNTER_CEIL
        &&& self.import_reactive_uj <= ENERGY_COUNTER_CEIL
        &&& (self.prev_active_mw matches Some(p) ==> -POWER_CEIL_MW <= p <= POWER_CEIL_MW)
        &&& (self.prev_reactive_mw matches Some(p) ==> -POWER_CEIL_MW <= p <= POWER_CEIL_MW)
    }

    /// Zero counters, nothing remembered.
    pub fn new() -> (r: MeterEnergyState)
        ensures
            r.wf(),
            r.export_active_uj == 0,
            r.import_active_uj == 0,
            r.export_reactive_uj == 0,
            r.import_reactive_uj == 0,
            r.prev_active_mw is None,
            r.prev_reactive_mw is None,
    {
        MeterEnergyState {
            export_active_uj: 0,
            import_active_uj: 0,
            export_reactive_uj: 0,
            import_reactive_uj: 0,
            prev_active_mw: None,
            prev_reactive_mw: None,
        }
    }

    /// Integrates one tick: the trapezoidal active power, where positive,
    /// grows the export counter by `power × duration` and, where negative,
    /// the import counter; likewise the reactive counters when a reactive
    /// value was reported. A missing active value integrates as zero. The
    /// tick's values are remembered for the next trapezoid.
    pub fn accumulate(&mut self, p_mw: Option<i64>, q_mw: Option<i64>, dt_ms: u64)
        requires
            old(self).wf(),
            (p_mw matches Some(p) ==> -POWER_CEIL_MW <= p <= POWER_CEIL_MW),
            (q_mw matches Some(q) ==> -POWER_CEIL_MW <= q <= POWER_CEIL_MW),
            dt_ms <= TICK_CEIL_MS,
        ensures
            final(self).wf(),
            ({
                let cur = match p_mw {
                    Some(p) => p as int,
                    None => 0,
                };
                let avg = trapezoid(old(self).prev_active_mw, cur);
                &&& (avg > 0 ==> final(self).export_active_uj == sat_add(
                    old(self).export_active_uj as int,
                    avg * dt_ms,
                    ENERGY_COUNTER_CEIL as int,
                ) && final(self).import_active_uj == old(self).import_active_uj)
                &&& (avg < 0 ==> final(self).import_active_uj == sat_add(
                    old(self).import_active_uj as int,
                    -(avg * dt_ms),
                    ENERGY_COUNTER_CEIL as int,
                ) && final(self).export_active_uj == old(self).export_active_uj)
                &&& (avg == 0 ==> final(self).export_active_uj == old(self).export_active_uj
                    && final(self).import_active_uj == old(self).import_active_uj)
            }),
            ({
                match q_mw {
                    Some(q) => {
                        let avg = trapezoid(old(self).prev_reactive_mw, q as int);
                        &&& (avg > 0 ==> final(self).export_reactive_uj == sat_add(
                            old(self).export_reactive_uj as int,
                            avg * dt_ms,
                            ENERGY_COUNTER_CEIL as int,
                        ) && final(self).import_reactive_uj == old(self).import_reactive_uj)
                        &&& (avg < 0 ==> final(self).import_reactive_uj == sat_add(
                            old(self).import_reactive_uj as int,
                            -(avg * dt_ms),
                            ENERGY_COUNTER_CEIL as int,
                        ) && final(self).export_reactive_uj == old(self).export_reactive_uj)
                        &&& (avg == 0 ==> final(self).export_reactive_uj == old(
                            self,
                        ).export_reactive_uj && final(self).import_reactive_uj == old(
                            self,
                        ).import_reactive_uj)
                    },
                    None => final(self).export_reactive_uj == old(self).export_reactive_uj
                        && final(self).import_reactive_uj == old(self).import_reactive_uj,
                }
            }),
            final(self).prev_active_mw == Some(
                match p_mw {
                    Some(p) => p,
                    None => 0i64,
                },
            ),
            final(self).prev_reactive_mw == q_mw,
    {
        let cur: i64 = match p_mw {
            Some(p) => p,
            None => 0,
        };
        let avg: i64 = match self.prev_active_mw {
            Some(prev) => half_toward_zero(prev + cur),
            None => cur,
        };
        proof {
            lemma_power_time_product(avg as int, dt_ms as int);
            lemma_power_time_product(-(avg as int), dt_ms as int);
            lemma_neg_mul(avg as int, dt_ms as int);
        }
        if avg > 0 {
            self.export_active_uj = sat_add_u64(self.export_active_uj, (avg as u64) * dt_ms);
        } else if avg < 0 {
            self.import_active_uj = sat_add_u64(self.import_active_uj, ((-avg) as u64) * dt_ms);
        }
        match q_mw {
            Some(q) => {
                let qavg: i64 = match self.prev_reactive_mw {
                    Some(prev) => half_toward_zero(prev + q),
                    None => q,
                };
                proof {
                    lemma_power_time_product(qavg as int, dt_ms as int);
                    lemma_power_time_product(-(qavg as int), dt_ms as int);
                    lemma_neg_mul(qavg as int, dt_ms as int);
                }
                if qavg > 0 {
                    self.export_reactive_uj = sat_add_u64(
                        self.export_reactive_uj,
                        (qavg as u64) * dt_ms,
                    );
                } else if qavg < 0 {
                    self.import_reactive_uj = sat_add_u64(
                        self.import_reactive_uj,
                        ((-qavg) as u64) * dt_ms,
                    );
                }
            },
            None => {},
        }
        self.prev_active_mw = Some(cur);
        self.prev_reactive_mw = q_mw;
    }
}

} // verus!

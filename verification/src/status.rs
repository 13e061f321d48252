//! Run status of the orchestrator: the Stopped/Running/Paused state
//! machine with precise timing (elapsed running time excludes the time
//! spent paused), the error list, and the bounded moving average of step
//! latencies. The clock is handed in; nothing here reads one.

use vstd::prelude::*;
use crate::text::{opt_string_eq, str_eq};

verus! {

/// Lifecycle state of a run.
#[derive(Clone, Copy, PartialEq, Eq, Structural, Debug)]
pub enum SimulationState {
    Stopped,
    Running,
    Paused,
}

/// One recorded failure. Two errors count as the same when everything but
/// the timestamp agrees, so a recurring error does not churn the list.
#[derive(Clone, Debug)]
pub struct SimulationError {
    pub error_type: String,
    pub severity: String,
    pub message: String,
    pub device_id: Option<String>,
    /// Structured detail, carried as its serialized text.
    pub details: String,
    pub timestamp: u64,
}

/// Equivalence of two errors: every field but the timestamp.
pub open spec fn error_equiv(a: SimulationError, b: SimulationError) -> bool {
    &&& a.error_type@ == b.error_type@
    &&& a.severity@ == b.severity@
    &&& a.message@ == b.message@
    &&& (match (a.device_id, b.device_id) {
        (Some(x), Some(y)) => x@ == y@,
        (None, None) => true,
        _ => false,
    })
    &&& a.details@ == b.details@
}

impl PartialEq for SimulationError {
    fn eq(&self, other: &Self) -> (r: bool) {
        str_eq(self.error_type.as_str(), other.error_type.as_str()) && str_eq(
            self.severity.as_str(),
            other.severity.as_str(),
        ) && str_eq(self.message.as_str(), other.message.as_str()) && opt_string_eq(
            &self.device_id,
            &other.device_id,
        ) && str_eq(self.details.as_str(), other.details.as_str())
    }
}

impl vstd::std_specs::cmp::PartialEqSpecImpl for SimulationError {
    open spec fn obeys_eq_spec() -> bool {
        true
    }

    open spec fn eq_spec(&self, other: &Self) -> bool {
        error_equiv(*self, *other)
    }
}

/// Pairwise equivalence of two error lists.
pub open spec fn errors_equiv(a: Seq<SimulationError>, b: Seq<SimulationError>) -> bool {
    a.len() == b.len() && forall|i: int| 0 <= i < a.len() ==> error_equiv(a[i], b[i])
}

/// Compares two error lists by error equivalence.
pub fn errors_equal(a: &Vec<SimulationError>, b: &Vec<SimulationError>) -> (r: bool)
    ensures
        r == errors_equiv(a@, b@),
{
    if a.len() != b.len() {
        return false;
    }
    let mut i: usize = 0;
    while i < a.len()
        invariant
            a@.len() == b@.len(),
            i <= a@.len(),
            forall|j: int| 0 <= j < i ==> error_equiv(a@[j], b@[j]),
        decreases a@.len() - i,
    {
        if !(a[i] == b[i]) {
            return false;
        }
        i += 1;
    }
    true
}

/// What the per-tick error report does to the run's error list.
#[derive(Clone, Copy, PartialEq, Eq, Structural, Debug)]
pub enum ErrorsUpdateDecision {
    /// The report is empty but errors stand: keep them visible.
    RetainExisting,
    /// The report repeats the current list: change nothing, notify nobody.
    Unchanged,
    /// The report differs: replace the list and notify.
    Replace,
}

/// Decides what a tick's error report does to the current list: an empty
/// report never erases standing errors (the last failure reason stays
/// visible), an unchanged report causes no churn, and only a genuinely new
/// report replaces the list.
pub fn decide_errors_update(
    current: &Vec<SimulationError>,
    new_errors: &Vec<SimulationError>,
) -> (r: ErrorsUpdateDecision)
    ensures
        r == ErrorsUpdateDecision::RetainExisting <==> (new_errors@.len() == 0 && current@.len()
            > 0),
        r == ErrorsUpdateDecision::Unchanged <==> (!(new_errors@.len() == 0 && current@.len()
            > 0) && errors_equiv(new_errors@, current@)),
        r == ErrorsUpdateDecision::Replace <==> (!(new_errors@.len() == 0 && current@.len() > 0)
            && !errors_equiv(new_errors@, current@)),
{
    if new_errors.len() == 0 && current.len() > 0 {
        ErrorsUpdateDecision::RetainExisting
    } else if errors_equal(new_errors, current) {
        ErrorsUpdateDecision::Unchanged
    } else {
        ErrorsUpdateDecision::Replace
    }
}

/// `a - b`, floored at zero.
pub open spec fn sat_sub(a: int, b: int) -> int {
    if a >= b {
        a - b
    } else {
        0
    }
}

/// `a + b`, capped at the 64-bit maximum.
pub open spec fn sat_add_64(a: int, b: int) -> int {
    if a + b > 0xFFFF_FFFF_FFFF_FFFF {
        0xFFFF_FFFF_FFFF_FFFF as int
    } else {
        a + b
    }
}

/// The elapsed running time shown for a run: wall-clock time since start,
/// less the time spent paused.
pub open spec fn spec_elapsed(start: int, now: int, paused: int) -> int {
    sat_sub(sat_sub(now, start), paused)
}

/// Status of one run.
#[derive(Clone, Debug)]
pub struct SimulationStatus {
    pub state: SimulationState,
    /// Unix second the run started, while one is live.
    pub start_time: Option<u64>,
    /// Seconds spent Running (pauses excluded), kept in step with the tick
    /// loop.
    pub elapsed_time: u64,
    pub calculation_count: u64,
    /// Bounded moving average of step latency, in milliseconds.
    pub average_delay_ms: u64,
    pub errors: Vec<SimulationError>,
    /// Unix second the current pause began, while paused.
    pub pause_started_at: Option<u64>,
    /// Seconds spent paused since the run started.
    pub total_paused_secs: u64,
}

impl SimulationStatus {
    /// A stopped status with nothing recorded.
    pub fn new() -> (r: SimulationStatus)
        ensures
            r.state == SimulationState::Stopped,
            r.start_time is None,
            r.elapsed_time == 0,
            r.calculation_count == 0,
            r.average_delay_ms == 0,
            r.errors@.len() == 0,
            r.pause_started_at is None,
            r.total_paused_secs == 0,
    {
        SimulationStatus {
            state: SimulationState::Stopped,
            start_time: None,
            elapsed_time: 0,
            calculation_count: 0,
            average_delay_ms: 0,
            errors: Vec::new(),
            pause_started_at: None,
            total_paused_secs: 0,
        }
    }

    /// Begins a run now: Running, with every per-run counter reset.
    pub fn start(&mut self, now: u64)
        ensures
            final(self).state == SimulationState::Running,
            final(self).start_time == Some(now),
            final(self).elapsed_time == 0,
            final(self).calculation_count == 0,
            final(self).pause_started_at is None,
            final(self).total_paused_secs == 0,
            final(self).errors@ == old(self).errors@,
            final(self).average_delay_ms == old(self).average_delay_ms,
    {
        self.state = SimulationState::Running;
        self.start_time = Some(now);
        self.elapsed_time = 0;
        self.calculation_count = 0;
        self.pause_started_at = None;
        self.total_paused_secs = 0;
    }

    /// Ends the run: Stopped, with the timing state cleared.
    pub fn stop(&mut self)
        ensures
            final(self).state == SimulationState::Stopped,
            final(self).start_time is None,
            final(self).pause_started_at is None,
            final(self).total_paused_secs == 0,
            final(self).elapsed_time == old(self).elapsed_time,
            final(self).calculation_count == old(self).calculation_count,
            final(self).average_delay_ms == old(self).average_delay_ms,
            final(self).errors@ == old(self).errors@,
    {
        self.state = SimulationState::Stopped;
        self.start_time = None;
        self.pause_started_at = None;
        self.total_paused_secs = 0;
    }

    /// Pauses the run, recording the pause instant.
    pub fn pause(&mut self, now: u64)
        ensures
            final(self).state == SimulationState::Paused,
            final(self).pause_started_at == Some(now),
            final(self).start_time == old(self).start_time,
            final(self).total_paused_secs == old(self).total_paused_secs,
            final(self).elapsed_time == old(self).elapsed_time,
            final(self).calculation_count == old(self).calculation_count,
            final(self).average_delay_ms == old(self).average_delay_ms,
            final(self).errors@ == old(self).errors@,
    {
        self.state = SimulationState::Paused;
        self.pause_started_at = Some(now);
    }

    /// Resumes the run: the pause that just ended adds exactly its
    /// wall-clock length to the cumulative paused duration.
    pub fn resume(&mut self, now: u64)
        ensures
            final(self).state == SimulationState::Running,
            final(self).pause_started_at is None,
            final(self).total_paused_secs == match old(self).pause_started_at {
                Some(ps) => sat_add_64(old(self).total_paused_secs as int, sat_sub(now as int, ps as int)),
                None => old(self).total_paused_secs as int,
            },
            final(self).start_time == old(self).start_time,
            final(self).elapsed_time == old(self).elapsed_time,
            final(self).calculation_count == old(self).calculation_count,
            final(self).average_delay_ms == old(self).average_delay_ms,
            final(self).errors@ == old(self).errors@,
    {
        self.state = SimulationState::Running;
        match self.pause_started_at {
            Some(ps) => {
                let delta: u64 = if now >= ps {
                    now - ps
                } else {
                    0
                };
                self.total_paused_secs = if delta > 0xFFFF_FFFF_FFFF_FFFF - self.total_paused_secs {
                    0xFFFF_FFFF_FFFF_FFFF
                } else {
                    self.total_paused_secs + delta
                };
                self.pause_started_at = None;
            },
            None => {},
        }
    }

    /// Recomputes the elapsed running time as wall-clock time since start
    /// minus the cumulative paused duration; without a live run it stands.
    pub fn update_elapsed(&mut self, now: u64)
        ensures
            final(self).elapsed_time == match old(self).start_time {
                Some(st) => spec_elapsed(st as int, now as int, old(self).total_paused_secs as int),
                None => old(self).elapsed_time as int,
            },
            final(self).state == old(self).state,
            final(self).start_time == old(self).start_time,
            final(self).calculation_count == old(self).calculation_count,
            final(self).average_delay_ms == old(self).average_delay_ms,
            final(self).errors@ == old(self).errors@,
            final(self).pause_started_at == old(self).pause_started_at,
            final(self).total_paused_secs == old(self).total_paused_secs,
    {
        match self.start_time {
            Some(st) => {
                let since: u64 = if now >= st {
                    now - st
                } else {
                    0
                };
                self.elapsed_time = if since >= self.total_paused_secs {
                    since - self.total_paused_secs
                } else {
                    0
                };
            },
            None => {},
        }
    }
}

/// After a run started at `t0` that paused once for `p` seconds, the
/// elapsed time recomputed at `t0 + n·d` (after `n` ticks of `d` seconds)
/// is `n·d − p`, not `n·d`: the pause is excluded exactly once.
pub proof fn lemma_elapsed_excludes_pause(t0: int, n: int, d: int, p: int)
    requires
        0 <= t0,
        0 <= p <= n * d,
    ensures
        spec_elapsed(t0, t0 + n * d, p) == n * d - p,
{
}

/// Bounded window of step latencies, for the moving average.
pub struct DelayWindow {
    pub samples: Vec<u64>,
}

/// Sum of a sequence of samples.
pub open spec fn sum_of(s: Seq<u64>) -> int
    decreases s.len(),
{
    if s.len() == 0 {
        0
    } else {
        sum_of(s.drop_last()) + s.last()
    }
}

/// How many samples the window holds at most.
pub const DELAY_WINDOW_CAP: usize = 100;

/// Largest accepted latency sample, a week in milliseconds.
pub const DELAY_SAMPLE_CEIL: u64 = 604_800_000;

impl DelayWindow {
    /// All samples below the ceiling, at most the window's capacity.
    pub open spec fn wf(&self) -> bool {
        &&& self.samples@.len() <= DELAY_WINDOW_CAP
        &&& forall|i: int|
            0 <= i < self.samples@.len() ==> #[trigger] self.samples@[i] <= DELAY_SAMPLE_CEIL
    }

    /// An empty window.
    pub fn new() -> (r: DelayWindow)
        ensures
            r.wf(),
            r.samples@.len() == 0,
    {
        DelayWindow { samples: Vec::new() }
    }

    /// Records one step latency, dropping the oldest sample when full.
    pub fn push(&mut self, sample_ms: u64)
        requires
            old(self).wf(),
            sample_ms <= DELAY_SAMPLE_CEIL,
        ensures
            final(self).wf(),
            final(self).samples@ == if old(self).samples@.len() < DELAY_WINDOW_CAP {
                old(self).samples@.push(sample_ms)
            } else {
                old(self).samples@.subrange(1, old(self).samples@.len() as int).push(sample_ms)
            },
    {
        if self.samples.len() >= DELAY_WINDOW_CAP {
            self.samples.remove(0);
            proof {
                assert(self.samples@ =~= old(self).samples@.subrange(
                    1,
                    old(self).samples@.len() as int,
                ));
            }
        }
        self.samples.push(sample_ms);
    }

    /// The mean of the recorded samples, zero when none are recorded.
    pub fn average(&self) -> (r: u64)
        requires
            self.wf(),
        ensures
            self.samples@.len() == 0 ==> r == 0,
            self.samples@.len() > 0 ==> r == sum_of(self.samples@) / (self.samples@.len() as int),
    {
        if self.samples.len() == 0 {
            return 0;
        }
        let mut sum: u64 = 0;
        let mut i: usize = 0;
        while i < self.samples.len()
            invariant
                self.wf(),
                i <= self.samples@.len(),
                sum == sum_of(self.samples@.take(i as int)),
                sum <= i * (DELAY_SAMPLE_CEIL as int),
            decreases self.samples@.len() - i,
        {
            proof {
                assert(self.samples@.take(i + 1).drop_last() =~= self.samples@.take(i as int));
                assert((i + 1) * (DELAY_SAMPLE_CEIL as int) == i * (DELAY_SAMPLE_CEIL as int)
                    + DELAY_SAMPLE_CEIL) by (nonlinear_arith);
            }
            sum = sum + self.samples[i];
            i += 1;
        }
        proof {
            assert(self.samples@.take(self.samples@.len() as int) =~= self.samples@);
        }
        sum / (self.samples.len() as u64)
    }
}

} // verus!

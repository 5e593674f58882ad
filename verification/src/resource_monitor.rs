//! Decisions of the resource monitor: what each measurement cycle logs and
//! which warnings it raises. The background thread that samples the process
//! and sends the results runs these decisions once per cycle.

use vstd::prelude::*;

verus! {

/// Resident memory above this many megabytes raises a warning at once.
pub const RSS_THRESHOLD_MB: u64 = 200;

/// A CPU breach sustained this long raises a warning.
pub const CPU_ALERT_DURATION_SECS: u64 = 10;

/// Seconds between two measurement cycles.
pub const CPU_MEASUREMENT_INTERVAL_SECS: u64 = 5;

/// Seconds between two memory measurements.
pub const RSS_MEASUREMENT_INTERVAL_SECS: u64 = 10;

/// Seconds between two statistics log lines.
pub const STATS_LOG_INTERVAL_SECS: u64 = 60;

/// Commands for controlling the resource monitor.
#[derive(Debug, Clone, Copy, PartialEq, Eq, Structural)]
pub enum MonitorCommand {
    /// Stop monitoring and shut down the thread.
    Stop,
}

/// The counters the monitor keeps between cycles.
#[derive(Debug, Clone, Copy, PartialEq, Eq, Structural)]
pub struct MonitorCounters {
    /// Seconds of monitoring, counted in whole cycles.
    pub uptime_seconds: u64,
    /// The uptime at which statistics were last logged.
    pub last_stats_log: u64,
    /// How long the CPU has been above its threshold without a warning.
    pub cpu_breach_duration: u64,
}

/// What one measurement asks the monitor thread to do.
#[derive(Debug, Clone, Copy, PartialEq, Eq, Structural)]
pub struct MonitorActions {
    /// Resident memory in whole megabytes.
    pub rss_mb: u64,
    /// Log the statistics line.
    pub log_stats: bool,
    /// Raise the sustained-CPU warning.
    pub cpu_warning: bool,
    /// Raise the memory warning.
    pub rss_warning: bool,
}

/// Counters that the monitor's cycles can reach: the last log lies in the
/// past, and an unreported breach is shorter than the alert duration.
pub open spec fn counters_wf(c: MonitorCounters) -> bool {
    &&& c.last_stats_log <= c.uptime_seconds
    &&& c.cpu_breach_duration < CPU_ALERT_DURATION_SECS
}

/// Whole megabytes in a byte count.
pub open spec fn whole_mb(bytes: u64) -> u64 {
    (bytes / 1024 / 1024) as u64
}

/// The breach duration after a measurement, before any warning resets it.
pub open spec fn breach_after(c: MonitorCounters, cpu_over_threshold: bool) -> int {
    if cpu_over_threshold {
        c.cpu_breach_duration + CPU_MEASUREMENT_INTERVAL_SECS
    } else {
        0
    }
}

/// The actions of a measurement.
pub open spec fn measurement_actions(c: MonitorCounters, cpu_over_threshold: bool, memory_bytes: u64) -> MonitorActions {
    MonitorActions {
        rss_mb: whole_mb(memory_bytes),
        log_stats: c.uptime_seconds - c.last_stats_log >= STATS_LOG_INTERVAL_SECS,
        cpu_warning: breach_after(c, cpu_over_threshold) >= CPU_ALERT_DURATION_SECS,
        rss_warning: whole_mb(memory_bytes) > RSS_THRESHOLD_MB,
    }
}

/// The counters after a measurement.
pub open spec fn counters_after(c: MonitorCounters, cpu_over_threshold: bool) -> MonitorCounters {
    MonitorCounters {
        uptime_seconds: c.uptime_seconds,
        last_stats_log: if c.uptime_seconds - c.last_stats_log >= STATS_LOG_INTERVAL_SECS {
            c.uptime_seconds
        } else {
            c.last_stats_log
        },
        cpu_breach_duration: if breach_after(c, cpu_over_threshold) >= CPU_ALERT_DURATION_SECS {
            0
        } else {
            breach_after(c, cpu_over_threshold) as u64
        },
    }
}

impl MonitorCounters {
    /// Counters at the start of monitoring.
    pub fn new() -> (r: MonitorCounters)
        ensures
            r.uptime_seconds == 0,
            r.last_stats_log == 0,
            r.cpu_breach_duration == 0,
            counters_wf(r),
    {
        MonitorCounters { uptime_seconds: 0, last_stats_log: 0, cpu_breach_duration: 0 }
    }

    /// Whether the cycle sleeps before measuring: every cycle but the first.
    pub fn sleeps_before_cycle(&self) -> (r: bool)
        ensures
            r == (self.uptime_seconds > 0),
    {
        self.uptime_seconds > 0
    }

    /// Starts a cycle: the uptime grows by one measurement interval.
    pub fn begin_cycle(&mut self)
        requires
            counters_wf(*old(self)),
            old(self).uptime_seconds + CPU_MEASUREMENT_INTERVAL_SECS <= u64::MAX,
        ensures
            counters_wf(*final(self)),
            final(self).uptime_seconds == old(self).uptime_seconds
                + CPU_MEASUREMENT_INTERVAL_SECS,
            final(self).last_stats_log == old(self).last_stats_log,
            final(self).cpu_breach_duration == old(self).cpu_breach_duration,
    {
        self.uptime_seconds = self.uptime_seconds + CPU_MEASUREMENT_INTERVAL_SECS;
    }

    /// Takes one measurement of the process: whether its CPU use is above the
    /// threshold, and its resident memory in bytes. Statistics are logged once
    /// a log interval has passed since the last; a breach warns once it has
    /// lasted the alert duration and then counts again from zero, and any
    /// measurement under the threshold clears it; memory above its threshold
    /// warns every time.
    pub fn on_measurement(&mut self, cpu_over_threshold: bool, memory_bytes: u64) -> (r:
        MonitorActions)
        requires
            counters_wf(*old(self)),
        ensures
            r == measurement_actions(*old(self), cpu_over_threshold, memory_bytes),
            *final(self) == counters_after(*old(self), cpu_over_threshold),
            counters_wf(*final(self)),
    {
        let rss_mb = memory_bytes / 1024 / 1024;
        let log_stats = self.uptime_seconds - self.last_stats_log >= STATS_LOG_INTERVAL_SECS;
        if log_stats {
            self.last_stats_log = self.uptime_seconds;
        }
        let mut cpu_warning = false;
        if cpu_over_threshold {
            self.cpu_breach_duration = self.cpu_breach_duration + CPU_MEASUREMENT_INTERVAL_SECS;
            if self.cpu_breach_duration >= CPU_ALERT_DURATION_SECS {
                cpu_warning = true;
                self.cpu_breach_duration = 0;
            }
        } else {
            self.cpu_breach_duration = 0;
        }
        MonitorActions {
            rss_mb,
            log_stats,
            cpu_warning,
            rss_warning: rss_mb > RSS_THRESHOLD_MB,
        }
    }
}

/// A CPU warning needs a sustained breach: from fresh counters, the first
/// measurement above the threshold raises none, the second in a row raises
/// one, and a measurement under the threshold in between starts the count over.
pub proof fn lemma_cpu_warning_needs_sustained_breach(c: MonitorCounters, m: u64)
    requires
        counters_wf(c),
        c.cpu_breach_duration == 0,
    ensures
        !measurement_actions(c, true, m).cpu_warning,
        measurement_actions(counters_after(c, true), true, m).cpu_warning,
        counters_after(counters_after(c, true), true).cpu_breach_duration == 0,
        !measurement_actions(counters_after(counters_after(c, true), false), true, m).cpu_warning,
{
}

/// Every measurement keeps the counters reachable, so the warnings above
/// hold after any number of cycles.
pub proof fn lemma_measurement_keeps_counters_wf(c: MonitorCounters, over: bool)
    requires
        counters_wf(c),
    ensures
        counters_wf(counters_after(c, over)),
{
}

/// Counters at the start of monitoring.
pub open spec fn fresh_counters() -> MonitorCounters {
    MonitorCounters { uptime_seconds: 0, last_stats_log: 0, cpu_breach_duration: 0 }
}

/// The counters once a cycle has begun: one interval more of uptime.
pub open spec fn cycle_begun(c: MonitorCounters) -> MonitorCounters {
    MonitorCounters { uptime_seconds: (c.uptime_seconds + CPU_MEASUREMENT_INTERVAL_SECS) as u64, ..c }
}

/// The counters after whole cycles from the start, the CPU above its
/// threshold in the cycles where `over` is set.
pub open spec fn counters_after_cycles(over: Seq<bool>) -> MonitorCounters
    decreases over.len(),
{
    if over.len() == 0 {
        fresh_counters()
    } else {
        counters_after(cycle_begun(counters_after_cycles(over.drop_last())), over.last())
    }
}

/// The number of cycles at the end of `over` with the CPU above its threshold.
pub open spec fn trailing_breaches(over: Seq<bool>) -> nat
    decreases over.len(),
{
    if over.len() == 0 {
        0
    } else if over.last() {
        trailing_breaches(over.drop_last()) + 1
    } else {
        0
    }
}

/// Over any sequence of cycles from the start: the uptime is five seconds a
/// cycle; the next cycle warns of the CPU exactly when it breaches and the
/// breaches before it since the last warning or calm cycle are odd in
/// number, that is on every second breaching cycle in a row; and it warns
/// of memory exactly when the resident memory exceeds 200 MB.
pub proof fn lemma_monitor_over_cycles(over: Seq<bool>, next_over: bool, memory_bytes: u64)
    requires
        over.len() * CPU_MEASUREMENT_INTERVAL_SECS + CPU_MEASUREMENT_INTERVAL_SECS <= u64::MAX,
    ensures
        counters_wf(counters_after_cycles(over)),
        counters_after_cycles(over).uptime_seconds == over.len() * CPU_MEASUREMENT_INTERVAL_SECS,
        counters_after_cycles(over).cpu_breach_duration == (if trailing_breaches(over) % 2 == 1 {
            CPU_MEASUREMENT_INTERVAL_SECS
        } else {
            0
        }),
        measurement_actions(
            cycle_begun(counters_after_cycles(over)),
            next_over,
            memory_bytes,
        ).cpu_warning == (next_over && trailing_breaches(over) % 2 == 1),
        measurement_actions(
            cycle_begun(counters_after_cycles(over)),
            next_over,
            memory_bytes,
        ).rss_warning == (memory_bytes / 1024 / 1024 > RSS_THRESHOLD_MB),
    decreases over.len(),
{
    if over.len() > 0 {
        lemma_monitor_over_cycles(over.drop_last(), over.last(), memory_bytes);
    }
}

} // verus!

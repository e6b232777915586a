//! Performance monitoring: an exponential moving average over capture
//! latencies, plus a snapshot of system-wide metrics.

use vstd::prelude::*;

use crate::trusted::read_system_snapshot;

verus! {

/// System-wide metrics at one instant.
#[derive(Debug, Clone, PartialEq, Eq, Structural)]
pub struct SystemMetrics {
    /// Global CPU usage, whole percent.
    pub cpu_usage_percent: u64,
    /// Used memory, bytes.
    pub memory_usage_bytes: u64,
    /// System uptime, seconds.
    pub uptime_seconds: u64,
}

/// Alias kept for callers that use the short name.
pub type Metrics = SystemMetrics;

/// One step of the latency moving average, which is kept in thousandths
/// of a millisecond: nine tenths of the old value plus one tenth of the
/// new sample.
pub open spec fn spec_ema_step(old_milli: int, sample_ms: int) -> int {
    (9 * old_milli + 1000 * sample_ms) / 10
}

/// Tracks rolling capture-latency statistics without unbounded history.
#[derive(Debug, Clone, PartialEq, Eq, Structural)]
pub struct PerformanceMonitor {
    /// Whether background monitoring has been started.
    pub monitoring_active: bool,
    /// Number of latency samples recorded.
    pub samples: u64,
    /// Exponential moving average of capture latency, thousandths of a
    /// millisecond.
    pub ema_latency_milli_ms: u64,
    /// Largest latency seen, milliseconds.
    pub max_latency_ms: u64,
}

impl PerformanceMonitor {
    /// A fresh monitor with no recorded samples.
    pub fn new() -> (m: Self)
        ensures
            !m.monitoring_active,
            m.samples == 0,
            m.ema_latency_milli_ms == 0,
            m.max_latency_ms == 0,
    {
        PerformanceMonitor {
            monitoring_active: false,
            samples: 0,
            ema_latency_milli_ms: 0,
            max_latency_ms: 0,
        }
    }

    /// Mark monitoring as running.
    pub fn start_monitoring(&mut self)
        ensures
            final(self).monitoring_active,
            final(self).samples == old(self).samples,
            final(self).ema_latency_milli_ms == old(self).ema_latency_milli_ms,
            final(self).max_latency_ms == old(self).max_latency_ms,
    {
        self.monitoring_active = true;
    }

    /// Record one capture latency: the first sample seeds the average,
    /// later samples move it by one tenth of their distance.
    pub fn record_capture_latency(&mut self, latency_ms: u64)
        requires
            latency_ms <= 1000000,
            old(self).ema_latency_milli_ms <= 1000000000,
        ensures
            final(self).samples == (if old(self).samples < u64::MAX {
                old(self).samples + 1
            } else {
                old(self).samples as int
            }),
            final(self).ema_latency_milli_ms == (if old(self).samples == 0 {
                latency_ms * 1000
            } else {
                spec_ema_step(old(self).ema_latency_milli_ms as int, latency_ms as int)
            }),
            final(self).ema_latency_milli_ms <= 1000000000,
            final(self).max_latency_ms == (if latency_ms > old(self).max_latency_ms {
                latency_ms
            } else {
                old(self).max_latency_ms
            }),
            final(self).monitoring_active == old(self).monitoring_active,
    {
        if self.samples == 0 {
            self.ema_latency_milli_ms = latency_ms * 1000;
        } else {
            self.ema_latency_milli_ms =
                (9 * self.ema_latency_milli_ms + 1000 * latency_ms) / 10;
        }
        if latency_ms > self.max_latency_ms {
            self.max_latency_ms = latency_ms;
        }
        if self.samples < u64::MAX {
            self.samples = self.samples + 1;
        }
    }

    /// The moving-average capture latency, milliseconds.
    pub fn average_latency_ms(&self) -> (r: u64)
        ensures
            r == self.ema_latency_milli_ms / 1000,
    {
        self.ema_latency_milli_ms / 1000
    }

    /// A snapshot of system-wide CPU, memory and uptime.  The values
    /// come from the running machine, so nothing is promised of them.
    pub fn get_current_metrics(&self) -> SystemMetrics {
        let (cpu, memory, uptime) = read_system_snapshot();
        SystemMetrics {
            cpu_usage_percent: cpu,
            memory_usage_bytes: memory,
            uptime_seconds: uptime,
        }
    }
}

} // verus!

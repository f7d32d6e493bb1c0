use vstd::prelude::*;

verus! {

/// A measure that accumulates values of type `T` (counts, or durations in
/// nanoseconds) and reports one reading.
pub trait MetricType<T>: Sized {
    /// The reading `get` gives.
    spec fn reading(&self) -> T;

    /// Whether `value` can be added without overflow.
    spec fn accepts(&self, value: T) -> bool;

    /// The measure after `value` is added.
    spec fn after_register(&self, value: T) -> Self;

    fn register(&mut self, value: T)
        requires
            old(self).accepts(value),
        ensures
            *final(self) == old(self).after_register(value);

    fn get(&self) -> (r: T)
        ensures
            r == self.reading();
}

/// A running total.
#[derive(Clone, Copy, Debug, Default, PartialEq, Eq, Structural)]
pub struct Counter {
    pub count: u32,
}

impl MetricType<u32> for Counter {
    open spec fn reading(&self) -> u32 {
        self.count
    }

    open spec fn accepts(&self, value: u32) -> bool {
        self.count + value <= u32::MAX
    }

    open spec fn after_register(&self, value: u32) -> Counter {
        Counter { count: (self.count + value) as u32 }
    }

    fn register(&mut self, value: u32) {
        self.count = self.count + value;
    }

    fn get(&self) -> (r: u32) {
        self.count
    }
}

/// The mean of the durations (nanoseconds) registered.
#[derive(Clone, Copy, Debug, Default, PartialEq, Eq, Structural)]
pub struct MeanTime {
    pub total: u64,
    pub len: usize,
}

impl MetricType<u64> for MeanTime {
    /// The total divided by the number of values (0 before any).
    open spec fn reading(&self) -> u64 {
        if self.len == 0 { 0 } else { (self.total as int / self.len as int) as u64 }
    }

    open spec fn accepts(&self, value: u64) -> bool {
        self.total + value <= u64::MAX && self.len < usize::MAX
    }

    open spec fn after_register(&self, value: u64) -> MeanTime {
        MeanTime { total: (self.total + value) as u64, len: (self.len + 1) as usize }
    }

    fn register(&mut self, value: u64) {
        self.total = self.total + value;
        self.len = self.len + 1;
    }

    fn get(&self) -> (r: u64) {
        if self.len == 0 {
            0
        } else {
            self.total / self.len as u64
        }
    }
}

/// The total of the durations (nanoseconds) registered.
#[derive(Clone, Copy, Debug, Default, PartialEq, Eq, Structural)]
pub struct Time {
    pub total: u64,
}

impl MetricType<u64> for Time {
    open spec fn reading(&self) -> u64 {
        self.total
    }

    open spec fn accepts(&self, value: u64) -> bool {
        self.total + value <= u64::MAX
    }

    open spec fn after_register(&self, value: u64) -> Time {
        Time { total: (self.total + value) as u64 }
    }

    fn register(&mut self, value: u64) {
        self.total = self.total + value;
    }

    fn get(&self) -> (r: u64) {
        self.total
    }
}

/// A set of measures, each named by a `Field`.
pub trait Metrics: Sized {
    type Field;

    /// The measures before anything is registered.
    spec fn initial() -> Self;

    /// Whether a count of `value` can be registered on `field`.
    spec fn counts(&self, field: Self::Field, value: u32) -> bool;

    spec fn after_count(&self, field: Self::Field, value: u32) -> Self;

    /// Whether a duration of `value` nanoseconds can be registered on `field`.
    spec fn times(&self, field: Self::Field, value: u64) -> bool;

    spec fn after_mean_time(&self, field: Self::Field, value: u64) -> Self;

    fn new() -> (r: Self)
        ensures
            r == Self::initial();

    fn count(&mut self, field: Self::Field, value: u32)
        requires
            old(self).counts(field, value),
        ensures
            *final(self) == old(self).after_count(field, value);

    fn mean_time(&mut self, field: Self::Field, value: u64)
        requires
            old(self).times(field, value),
        ensures
            *final(self) == old(self).after_mean_time(field, value);
}

/// The CPU measures.
#[allow(non_camel_case_types)]
#[derive(Clone, Copy, Debug, PartialEq, Eq, Structural)]
pub enum CpuMetricFields {
    INSTRUCTIONS,
    CYCLES,
    TICK_TIME,
}

#[derive(Clone, Copy, Debug, Default, PartialEq, Eq, Structural)]
pub struct CpuMetrics {
    pub instructions: Counter,
    pub cycles: Counter,
    pub tick_time: MeanTime,
}

impl Metrics for CpuMetrics {
    type Field = CpuMetricFields;

    open spec fn initial() -> CpuMetrics {
        CpuMetrics {
            instructions: Counter { count: 0 },
            cycles: Counter { count: 0 },
            tick_time: MeanTime { total: 0, len: 0 },
        }
    }

    /// Counts go to the instruction and cycle counters.
    open spec fn counts(&self, field: CpuMetricFields, value: u32) -> bool {
        match field {
            CpuMetricFields::INSTRUCTIONS => self.instructions.accepts(value),
            CpuMetricFields::CYCLES => self.cycles.accepts(value),
            CpuMetricFields::TICK_TIME => false,
        }
    }

    open spec fn after_count(&self, field: CpuMetricFields, value: u32) -> CpuMetrics {
        match field {
            CpuMetricFields::INSTRUCTIONS => CpuMetrics { instructions: self.instructions.after_register(value), ..*self },
            _ => CpuMetrics { cycles: self.cycles.after_register(value), ..*self },
        }
    }

    /// Durations go to the tick time.
    open spec fn times(&self, field: CpuMetricFields, value: u64) -> bool {
        field == CpuMetricFields::TICK_TIME && self.tick_time.accepts(value)
    }

    open spec fn after_mean_time(&self, field: CpuMetricFields, value: u64) -> CpuMetrics {
        CpuMetrics { tick_time: self.tick_time.after_register(value), ..*self }
    }

    fn new() -> (r: CpuMetrics) {
        CpuMetrics {
            instructions: Counter { count: 0 },
            cycles: Counter { count: 0 },
            tick_time: MeanTime { total: 0, len: 0 },
        }
    }

    fn count(&mut self, field: CpuMetricFields, value: u32) {
        match field {
            CpuMetricFields::INSTRUCTIONS => self.instructions.register(value),
            _ => self.cycles.register(value),
        }
    }

    fn mean_time(&mut self, field: CpuMetricFields, value: u64) {
        self.tick_time.register(value);
    }
}

/// The PPU measures.
#[allow(non_camel_case_types)]
#[derive(Clone, Copy, Debug, PartialEq, Eq, Structural)]
pub enum PpuMetricFields {
    FRAME_RATE,
}

#[derive(Clone, Copy, Debug, Default, PartialEq, Eq, Structural)]
pub struct PpuMetrics {
    pub frame_rate: Counter,
}

impl Metrics for PpuMetrics {
    type Field = PpuMetricFields;

    open spec fn initial() -> PpuMetrics {
        PpuMetrics { frame_rate: Counter { count: 0 } }
    }

    open spec fn counts(&self, field: PpuMetricFields, value: u32) -> bool {
        self.frame_rate.accepts(value)
    }

    open spec fn after_count(&self, field: PpuMetricFields, value: u32) -> PpuMetrics {
        PpuMetrics { frame_rate: self.frame_rate.after_register(value) }
    }

    /// The PPU measures no durations.
    open spec fn times(&self, field: PpuMetricFields, value: u64) -> bool {
        false
    }

    open spec fn after_mean_time(&self, field: PpuMetricFields, value: u64) -> PpuMetrics {
        *self
    }

    fn new() -> (r: PpuMetrics) {
        PpuMetrics { frame_rate: Counter { count: 0 } }
    }

    fn count(&mut self, field: PpuMetricFields, value: u32) {
        self.frame_rate.register(value);
    }

    fn mean_time(&mut self, field: PpuMetricFields, value: u64) {
    }
}

/// A snapshot of measures: when it was taken (nanoseconds on the caller's
/// clock), the interval it covers (nanoseconds) and the measures.
#[derive(Clone, Copy, Debug, PartialEq, Eq, Structural)]
pub struct MetricsExport<T> {
    pub at: u64,
    pub duration: u64,
    pub metrics: T,
}

impl<T> MetricsExport<T> {
    pub fn new(at: u64, interval: u64, metrics: T) -> (r: Self)
        ensures
            r.at == at && r.duration == interval && r.metrics == metrics,
    {
        MetricsExport { at, duration: interval, metrics }
    }
}

/// Measures collected while enabled and published once per interval.
pub struct MetricsHandler<T> {
    pub enabled: bool,
    /// Nanoseconds between publications.
    pub update_interval: u64,
    /// When the last publication happened (nanoseconds).
    pub last_update: u64,
    pub last_metrics: MetricsExport<T>,
    pub metrics: T,
}

impl<T: Metrics + Copy> MetricsHandler<T> {
    /// A disabled handler publishing every `update_interval` nanoseconds,
    /// created at time `now`.
    pub fn new(update_interval: u64, now: u64) -> (r: Self)
        ensures
            !r.enabled,
            r.update_interval == update_interval,
            r.last_update == now,
            r.last_metrics == (MetricsExport { at: now, duration: update_interval, metrics: T::initial() }),
            r.metrics == T::initial(),
    {
        MetricsHandler {
            enabled: false,
            update_interval,
            last_update: now,
            last_metrics: MetricsExport::new(now, update_interval, T::new()),
            metrics: T::new(),
        }
    }

    pub fn set_enabled(&mut self, enabled: bool)
        ensures
            *final(self) == (MetricsHandler { enabled, ..*old(self) }),
    {
        self.enabled = enabled;
    }

    /// At time `now`: once more than the interval has passed since the last
    /// publication, the measures are published and started again.
    pub fn update(&mut self, now: u64)
        ensures
            if now >= old(self).last_update && now - old(self).last_update > old(self).update_interval {
                *final(self) == (MetricsHandler {
                    last_metrics: MetricsExport { at: now, duration: old(self).update_interval, metrics: old(self).metrics },
                    metrics: T::initial(),
                    last_update: now,
                    ..*old(self)
                })
            } else {
                *final(self) == *old(self)
            },
    {
        if now >= self.last_update && now - self.last_update > self.update_interval {
            self.update_metrics(now);
            self.last_update = now;
        }
    }

    fn update_metrics(&mut self, now: u64)
        ensures
            *final(self) == (MetricsHandler {
                last_metrics: MetricsExport { at: now, duration: old(self).update_interval, metrics: old(self).metrics },
                metrics: T::initial(),
                ..*old(self)
            }),
    {
        self.last_metrics = MetricsExport::new(now, self.update_interval, self.metrics);
        self.metrics = T::new();
    }

    /// The last published measures.
    pub fn export(&self) -> (r: MetricsExport<T>)
        ensures
            r == self.last_metrics,
    {
        self.last_metrics
    }

    /// Registers a count while enabled.
    pub fn count(&mut self, field: T::Field, value: u32)
        requires
            old(self).enabled ==> old(self).metrics.counts(field, value),
        ensures
            *final(self) == if old(self).enabled {
                MetricsHandler { metrics: old(self).metrics.after_count(field, value), ..*old(self) }
            } else {
                *old(self)
            },
    {
        if self.enabled {
            self.metrics.count(field, value);
        }
    }

    /// Registers a duration while enabled.
    pub fn mean_time(&mut self, field: T::Field, value: u64)
        requires
            old(self).enabled ==> old(self).metrics.times(field, value),
        ensures
            *final(self) == if old(self).enabled {
                MetricsHandler { metrics: old(self).metrics.after_mean_time(field, value), ..*old(self) }
            } else {
                *old(self)
            },
    {
        if self.enabled {
            self.metrics.mean_time(field, value);
        }
    }
}

} // verus!

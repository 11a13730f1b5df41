use vstd::prelude::*;

verus! {

/// CPU limit: 90.00 percent, in hundredths of a percent.
pub const CPU_THRESHOLD: u32 = 9000;

/// Memory limit: 2 GiB, in bytes.
pub const MEMORY_THRESHOLD_BYTES: u64 = 2147483648;

/// Temperature limit: 70.0 degrees Celsius, in tenths of a degree.
pub const TEMP_THRESHOLD: i32 = 700;

/// Battery limit, in percent.
pub const BATTERY_THRESHOLD: u32 = 82;

/// The quantities that are watched.
#[derive(Clone, Copy, Debug, PartialEq, Eq, Structural)]
pub enum Metric {
    Cpu,
    Memory,
    Temperature,
    Battery,
}

/// The direction in which a metric breaches its limit.
#[derive(Clone, Copy, Debug, PartialEq, Eq, Structural)]
pub enum Comparison {
    /// Breach when the value is strictly greater than the limit.
    Above,
    /// Breach when the value is strictly less than the limit.
    Below,
}

/// One measurement, in the unit of its metric.
#[derive(Clone, Copy, Debug, PartialEq, Eq, Structural)]
pub enum Reading {
    /// Average CPU load, in hundredths of a percent.
    Cpu(u32),
    /// Available memory, in bytes.
    Memory(u64),
    /// CPU temperature, in tenths of a degree Celsius.
    Temperature(i32),
    /// Battery charge, in percent.
    Battery(u32),
}

/// One observed breach of a threshold. It carries the measured value.
#[derive(Clone, Copy, Debug, PartialEq, Eq, Structural)]
pub enum Event {
    /// CPU load in hundredths of a percent.
    CpuHigh(u32),
    /// Available memory in bytes.
    MemoryLow(u64),
    /// Temperature in tenths of a degree Celsius.
    TemperatureHigh(i32),
    /// Battery charge in percent.
    BatteryLow(u32),
}

/// The fixed rule of one sampler: the limit, whose variant names the metric.
/// The direction of the comparison follows from the metric.
#[derive(Clone, Copy, Debug, PartialEq, Eq, Structural)]
pub struct Threshold {
    pub limit: Reading,
}

impl Metric {
    /// "High" metrics breach above their limit, "low" metrics below it.
    pub open spec fn spec_comparison(self) -> Comparison {
        match self {
            Metric::Cpu => Comparison::Above,
            Metric::Memory => Comparison::Below,
            Metric::Temperature => Comparison::Above,
            Metric::Battery => Comparison::Below,
        }
    }

    #[verifier::when_used_as_spec(spec_comparison)]
    pub fn comparison(self) -> (r: Comparison)
        ensures
            r == self.spec_comparison(),
    {
        match self {
            Metric::Cpu => Comparison::Above,
            Metric::Memory => Comparison::Below,
            Metric::Temperature => Comparison::Above,
            Metric::Battery => Comparison::Below,
        }
    }
}

impl Reading {
    pub open spec fn spec_metric(self) -> Metric {
        match self {
            Reading::Cpu(_) => Metric::Cpu,
            Reading::Memory(_) => Metric::Memory,
            Reading::Temperature(_) => Metric::Temperature,
            Reading::Battery(_) => Metric::Battery,
        }
    }

    /// The measured number, whatever its unit.
    pub open spec fn value(self) -> int {
        match self {
            Reading::Cpu(v) => v as int,
            Reading::Memory(v) => v as int,
            Reading::Temperature(v) => v as int,
            Reading::Battery(v) => v as int,
        }
    }

    /// The event that reports this reading as a breach.
    pub open spec fn spec_event(self) -> Event {
        match self {
            Reading::Cpu(v) => Event::CpuHigh(v),
            Reading::Memory(v) => Event::MemoryLow(v),
            Reading::Temperature(v) => Event::TemperatureHigh(v),
            Reading::Battery(v) => Event::BatteryLow(v),
        }
    }

    #[verifier::when_used_as_spec(spec_metric)]
    pub fn metric(self) -> (r: Metric)
        ensures
            r == self.spec_metric(),
    {
        match self {
            Reading::Cpu(_) => Metric::Cpu,
            Reading::Memory(_) => Metric::Memory,
            Reading::Temperature(_) => Metric::Temperature,
            Reading::Battery(_) => Metric::Battery,
        }
    }

    #[verifier::when_used_as_spec(spec_event)]
    pub fn event(self) -> (r: Event)
        ensures
            r == self.spec_event(),
    {
        match self {
            Reading::Cpu(v) => Event::CpuHigh(v),
            Reading::Memory(v) => Event::MemoryLow(v),
            Reading::Temperature(v) => Event::TemperatureHigh(v),
            Reading::Battery(v) => Event::BatteryLow(v),
        }
    }
}

impl Event {
    pub open spec fn spec_metric(self) -> Metric {
        match self {
            Event::CpuHigh(_) => Metric::Cpu,
            Event::MemoryLow(_) => Metric::Memory,
            Event::TemperatureHigh(_) => Metric::Temperature,
            Event::BatteryLow(_) => Metric::Battery,
        }
    }

    /// The measurement that the event carries.
    pub open spec fn spec_reading(self) -> Reading {
        match self {
            Event::CpuHigh(v) => Reading::Cpu(v),
            Event::MemoryLow(v) => Reading::Memory(v),
            Event::TemperatureHigh(v) => Reading::Temperature(v),
            Event::BatteryLow(v) => Reading::Battery(v),
        }
    }

    #[verifier::when_used_as_spec(spec_metric)]
    pub fn metric(self) -> (r: Metric)
        ensures
            r == self.spec_metric(),
    {
        match self {
            Event::CpuHigh(_) => Metric::Cpu,
            Event::MemoryLow(_) => Metric::Memory,
            Event::TemperatureHigh(_) => Metric::Temperature,
            Event::BatteryLow(_) => Metric::Battery,
        }
    }

    #[verifier::when_used_as_spec(spec_reading)]
    pub fn reading(self) -> (r: Reading)
        ensures
            r == self.spec_reading(),
    {
        match self {
            Event::CpuHigh(v) => Reading::Cpu(v),
            Event::MemoryLow(v) => Reading::Memory(v),
            Event::TemperatureHigh(v) => Reading::Temperature(v),
            Event::BatteryLow(v) => Reading::Battery(v),
        }
    }
}

impl Threshold {
    /// The limits that the daemon starts with, one per metric.
    pub open spec fn spec_standard(metric: Metric) -> Threshold {
        match metric {
            Metric::Cpu => Threshold { limit: Reading::Cpu(CPU_THRESHOLD) },
            Metric::Memory => Threshold { limit: Reading::Memory(MEMORY_THRESHOLD_BYTES) },
            Metric::Temperature => Threshold { limit: Reading::Temperature(TEMP_THRESHOLD) },
            Metric::Battery => Threshold { limit: Reading::Battery(BATTERY_THRESHOLD) },
        }
    }

    /// A reading breaches the threshold when it is of the threshold's metric
    /// and lies strictly beyond the limit in the metric's direction. A value
    /// equal to the limit is no breach.
    pub open spec fn violated_by(self, reading: Reading) -> bool {
        &&& reading.spec_metric() == self.limit.spec_metric()
        &&& match self.limit.spec_metric().spec_comparison() {
            Comparison::Above => reading.value() > self.limit.value(),
            Comparison::Below => reading.value() < self.limit.value(),
        }
    }

    /// What one reading gives rise to: the matching event on a breach,
    /// nothing otherwise.
    pub open spec fn spec_evaluate(self, reading: Reading) -> Option<Event> {
        if self.violated_by(reading) {
            Some(reading.spec_event())
        } else {
            None
        }
    }

    #[verifier::when_used_as_spec(spec_standard)]
    pub fn standard(metric: Metric) -> (r: Threshold)
        ensures
            r == Threshold::spec_standard(metric),
    {
        match metric {
            Metric::Cpu => Threshold { limit: Reading::Cpu(CPU_THRESHOLD) },
            Metric::Memory => Threshold { limit: Reading::Memory(MEMORY_THRESHOLD_BYTES) },
            Metric::Temperature => Threshold { limit: Reading::Temperature(TEMP_THRESHOLD) },
            Metric::Battery => Threshold { limit: Reading::Battery(BATTERY_THRESHOLD) },
        }
    }

    pub fn metric(self) -> (r: Metric)
        ensures
            r == self.limit.spec_metric(),
    {
        self.limit.metric()
    }

    pub fn comparison(self) -> (r: Comparison)
        ensures
            r == self.limit.spec_metric().spec_comparison(),
    {
        self.limit.metric().comparison()
    }

    /// Compares one reading with the limit.
    #[verifier::when_used_as_spec(spec_evaluate)]
    pub fn evaluate(self, reading: Reading) -> (r: Option<Event>)
        ensures
            r == self.spec_evaluate(reading),
    {
        let breach = match (self.limit, reading) {
            (Reading::Cpu(limit), Reading::Cpu(v)) => v > limit,
            (Reading::Memory(limit), Reading::Memory(v)) => v < limit,
            (Reading::Temperature(limit), Reading::Temperature(v)) => v > limit,
            (Reading::Battery(limit), Reading::Battery(v)) => v < limit,
            _ => false,
        };
        if breach {
            Some(reading.event())
        } else {
            None
        }
    }
}

/// An event is emitted exactly when the reading is of the threshold's metric
/// and the strict comparison holds; the event then carries the reading. A
/// reading equal to the limit emits nothing.
pub proof fn lemma_emits_iff_strictly_beyond(threshold: Threshold, reading: Reading)
    ensures
        threshold.spec_evaluate(reading).is_some() <==> threshold.violated_by(reading),
        threshold.spec_evaluate(reading).is_some() ==> {
            &&& threshold.spec_evaluate(reading) == Some(reading.spec_event())
            &&& reading.spec_event().spec_reading() == reading
            &&& reading.spec_event().spec_metric() == threshold.limit.spec_metric()
        },
        reading.spec_metric() == threshold.limit.spec_metric() ==> (
            threshold.spec_evaluate(reading).is_some() <==> (
                match threshold.limit.spec_metric() {
                    Metric::Cpu | Metric::Temperature => reading.value() > threshold.limit.value(),
                    Metric::Memory | Metric::Battery => reading.value() < threshold.limit.value(),
                }
            )
        ),
        reading.value() == threshold.limit.value() ==> threshold.spec_evaluate(reading).is_none(),
        reading.spec_metric() != threshold.limit.spec_metric() ==> threshold.spec_evaluate(reading).is_none(),
{
}

} // verus!

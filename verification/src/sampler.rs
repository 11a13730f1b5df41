use crate::events::{Event, Metric, Reading, Threshold};
use vstd::prelude::*;

verus! {

/// Seconds to wait in addition after a failed query.
pub const BACKOFF_SECS: u64 = 60;

/// The three answers of a metric source.
#[derive(Clone, Copy, Debug, PartialEq, Eq, Structural)]
pub enum Query {
    /// The source measured a value.
    Value(Reading),
    /// The metric is legitimately unavailable (no battery, no CPU sensor).
    Absent,
    /// The query itself failed; the next one may succeed.
    Failed,
}

/// Where a sampler stands in its cycle.
#[derive(Clone, Copy, Debug, PartialEq, Eq, Structural)]
pub enum SamplerState {
    /// Sleeping until the next tick.
    Waiting,
    /// Sleeping longer than usual after a failed query.
    BackingOff,
    /// The source has been asked; its answer is awaited.
    Querying,
    /// A breach was observed; the event is on its way to the bus.
    Sending(Event),
    /// The bus is closed: the sampler has ended.
    Stopped,
}

/// What happened outside since the last step.
#[derive(Clone, Copy, Debug, PartialEq, Eq, Structural)]
pub enum SamplerInput {
    /// The sleep is over.
    Tick,
    /// The source answered.
    Queried(Query),
    /// The bus accepted the event.
    Sent,
    /// The bus refused the event because it is closed.
    BusClosed,
}

/// What the driver of a sampler has to do next.
#[derive(Clone, Copy, Debug, PartialEq, Eq, Structural)]
pub enum SamplerAction {
    /// Sleep for the given number of seconds, then report a tick.
    Sleep(u64),
    /// Ask the source of the metric and report its answer.
    Query(Metric),
    /// Send the event, waiting while the bus is full, and report the outcome.
    Send(Event),
    /// End the task.
    Exit,
}

/// The fixed settings of one sampler. Nothing here is shared with another
/// sampler or with the dispatcher.
#[derive(Clone, Copy, Debug, PartialEq, Eq, Structural)]
pub struct Sampler {
    pub threshold: Threshold,
    /// Seconds between two queries.
    pub interval_secs: u64,
    /// Additional seconds to wait after a failed query.
    pub backoff_secs: u64,
}

impl Sampler {
    /// The wait after a failed query: interval and back-off together, capped
    /// at the largest number of seconds that can be expressed.
    pub open spec fn backoff_delay(self) -> u64 {
        if self.interval_secs + self.backoff_secs > u64::MAX {
            u64::MAX
        } else {
            (self.interval_secs + self.backoff_secs) as u64
        }
    }

    /// The state that follows an answer of the source.
    pub open spec fn after_query(self, query: Query) -> SamplerState {
        match query {
            Query::Value(reading) => match self.threshold.spec_evaluate(reading) {
                Some(event) => SamplerState::Sending(event),
                None => SamplerState::Waiting,
            },
            Query::Absent => SamplerState::Waiting,
            Query::Failed => SamplerState::BackingOff,
        }
    }

    /// The transition function. An input that the state does not await
    /// leaves the state as it is.
    pub open spec fn spec_next(self, state: SamplerState, input: SamplerInput) -> SamplerState {
        match (state, input) {
            (SamplerState::Waiting, SamplerInput::Tick) => SamplerState::Querying,
            (SamplerState::BackingOff, SamplerInput::Tick) => SamplerState::Querying,
            (SamplerState::Querying, SamplerInput::Queried(query)) => self.after_query(query),
            (SamplerState::Sending(_), SamplerInput::Sent) => SamplerState::Waiting,
            (SamplerState::Sending(_), SamplerInput::BusClosed) => SamplerState::Stopped,
            _ => state,
        }
    }

    /// What a state asks of the driver.
    pub open spec fn spec_action(self, state: SamplerState) -> SamplerAction {
        match state {
            SamplerState::Waiting => SamplerAction::Sleep(self.interval_secs),
            SamplerState::BackingOff => SamplerAction::Sleep(self.backoff_delay()),
            SamplerState::Querying => SamplerAction::Query(self.threshold.limit.spec_metric()),
            SamplerState::Sending(event) => SamplerAction::Send(event),
            SamplerState::Stopped => SamplerAction::Exit,
        }
    }

    /// The schedule of each metric: load and memory every half minute, the
    /// temperature every minute, the battery every hour.
    pub open spec fn spec_standard_interval(metric: Metric) -> u64 {
        match metric {
            Metric::Cpu => 30,
            Metric::Memory => 30,
            Metric::Temperature => 60,
            Metric::Battery => 3600,
        }
    }

    /// The sampler that the daemon runs for a metric.
    pub open spec fn spec_standard(metric: Metric) -> Sampler {
        Sampler {
            threshold: Threshold::spec_standard(metric),
            interval_secs: Sampler::spec_standard_interval(metric),
            backoff_secs: BACKOFF_SECS,
        }
    }

    #[verifier::when_used_as_spec(spec_standard)]
    pub fn standard(metric: Metric) -> (r: Sampler)
        ensures
            r == Sampler::spec_standard(metric),
    {
        let interval_secs: u64 = match metric {
            Metric::Cpu => 30,
            Metric::Memory => 30,
            Metric::Temperature => 60,
            Metric::Battery => 3600,
        };
        Sampler { threshold: Threshold::standard(metric), interval_secs, backoff_secs: BACKOFF_SECS }
    }

    pub fn new(threshold: Threshold, interval_secs: u64, backoff_secs: u64) -> (r: Sampler)
        ensures
            r == (Sampler { threshold, interval_secs, backoff_secs }),
    {
        Sampler { threshold, interval_secs, backoff_secs }
    }

    /// A sampler begins with a query.
    pub fn start(self) -> (r: SamplerState)
        ensures
            r == SamplerState::Querying,
    {
        SamplerState::Querying
    }

    #[verifier::when_used_as_spec(spec_next)]
    pub fn next(self, state: SamplerState, input: SamplerInput) -> (r: SamplerState)
        ensures
            r == self.spec_next(state, input),
    {
        match state {
            SamplerState::Waiting | SamplerState::BackingOff => match input {
                SamplerInput::Tick => SamplerState::Querying,
                _ => state,
            },
            SamplerState::Querying => match input {
                SamplerInput::Queried(Query::Value(reading)) => match self.threshold.evaluate(
                    reading,
                ) {
                    Some(event) => SamplerState::Sending(event),
                    None => SamplerState::Waiting,
                },
                SamplerInput::Queried(Query::Absent) => SamplerState::Waiting,
                SamplerInput::Queried(Query::Failed) => SamplerState::BackingOff,
                _ => state,
            },
            SamplerState::Sending(_) => match input {
                SamplerInput::Sent => SamplerState::Waiting,
                SamplerInput::BusClosed => SamplerState::Stopped,
                _ => state,
            },
            SamplerState::Stopped => state,
        }
    }

    #[verifier::when_used_as_spec(spec_action)]
    pub fn action(self, state: SamplerState) -> (r: SamplerAction)
        ensures
            r == self.spec_action(state),
    {
        match state {
            SamplerState::Waiting => SamplerAction::Sleep(self.interval_secs),
            SamplerState::BackingOff => {
                let delay: u64 = if self.backoff_secs > u64::MAX - self.interval_secs {
                    u64::MAX
                } else {
                    self.interval_secs + self.backoff_secs
                };
                SamplerAction::Sleep(delay)
            },
            SamplerState::Querying => SamplerAction::Query(self.threshold.metric()),
            SamplerState::Sending(event) => SamplerAction::Send(event),
            SamplerState::Stopped => SamplerAction::Exit,
        }
    }

    /// One turn of the sampler: the state after the input, and what to do in
    /// that state.
    pub fn step(self, state: SamplerState, input: SamplerInput) -> (r: (SamplerState, SamplerAction))
        ensures
            r.0 == self.spec_next(state, input),
            r.1 == self.spec_action(self.spec_next(state, input)),
    {
        let following = self.next(state, input);
        (following, self.action(following))
    }
}

/// A sampler that awaits an answer sends an event exactly when the answer is
/// a value of its metric strictly beyond the limit, and then sends the event
/// that carries this value; a value equal to the limit sends nothing.
pub proof fn lemma_sampler_emits_iff_breach(sampler: Sampler, reading: Reading)
    ensures
        (sampler.spec_next(SamplerState::Querying, SamplerInput::Queried(Query::Value(reading)))
            is Sending) <==> sampler.threshold.violated_by(reading),
        sampler.threshold.violated_by(reading) ==> sampler.spec_next(
            SamplerState::Querying,
            SamplerInput::Queried(Query::Value(reading)),
        ) == SamplerState::Sending(reading.spec_event()),
        !sampler.threshold.violated_by(reading) ==> sampler.spec_next(
            SamplerState::Querying,
            SamplerInput::Queried(Query::Value(reading)),
        ) == SamplerState::Waiting,
        reading.value() == sampler.threshold.limit.value() ==> !sampler.threshold.violated_by(
            reading,
        ),
{
}

/// An absent metric never leads to an event and is never treated as a
/// failure: from no state does it lead into sending or backing off, and a
/// sampler that awaits an answer goes back to its ordinary wait.
pub proof fn lemma_absent_is_neither_event_nor_failure(sampler: Sampler, state: SamplerState)
    ensures
        sampler.spec_next(state, SamplerInput::Queried(Query::Absent)) is Sending ==> state is Sending,
        sampler.spec_next(state, SamplerInput::Queried(Query::Absent)) is BackingOff ==> state is BackingOff,
        sampler.spec_next(SamplerState::Querying, SamplerInput::Queried(Query::Absent))
            == SamplerState::Waiting,
        sampler.spec_action(
            sampler.spec_next(SamplerState::Querying, SamplerInput::Queried(Query::Absent)),
        ) == SamplerAction::Sleep(sampler.interval_secs),
{
}

/// A sampler holds on to its event for as long as the bus has not answered:
/// until the event is accepted or the bus is closed, the sampler keeps asking
/// for the same send.
pub proof fn lemma_pending_event_is_kept(sampler: Sampler, event: Event, input: SamplerInput)
    requires
        !(input is Sent),
        !(input is BusClosed),
    ensures
        sampler.spec_next(SamplerState::Sending(event), input) == SamplerState::Sending(event),
        sampler.spec_action(sampler.spec_next(SamplerState::Sending(event), input))
            == SamplerAction::Send(event),
{
}

/// Only a closed bus ends a sampler: neither a failed query nor an absent
/// metric does, and a stopped sampler stays stopped.
pub proof fn lemma_sampler_stops_only_on_closed_bus(
    sampler: Sampler,
    state: SamplerState,
    input: SamplerInput,
)
    ensures
        sampler.spec_next(state, input) is Stopped <==> (state is Stopped || (state is Sending
            && input is BusClosed)),
{
}

} // verus!

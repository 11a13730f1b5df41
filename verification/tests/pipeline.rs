use resource_monitor::bus::{EventBus, RecvOutcome, SendOutcome};
use resource_monitor::dispatcher::{
    dispatcher_action, dispatcher_next, DispatcherAction, DispatcherInput, DispatcherState,
};
use resource_monitor::events::{Event, Metric, Reading, Threshold};
use resource_monitor::sampler::{Query, Sampler, SamplerAction, SamplerInput, SamplerState};

/// Runs one sampler over the given answers of its source and returns the
/// events that the bus accepted. A full bus is drained into `shown` by the
/// dispatcher before the send is tried again.
fn sample_all(sampler: Sampler, answers: &[Query], bus: &mut EventBus, shown: &mut Vec<String>) -> Vec<Event> {
    let mut accepted = Vec::new();
    let mut state = sampler.start();
    let mut next_answer = 0;
    loop {
        let input = match sampler.action(state) {
            SamplerAction::Sleep(_) => SamplerInput::Tick,
            SamplerAction::Query(_) => {
                if next_answer == answers.len() {
                    return accepted;
                }
                next_answer += 1;
                SamplerInput::Queried(answers[next_answer - 1])
            }
            SamplerAction::Send(event) => match bus.try_send(event) {
                SendOutcome::Accepted => {
                    accepted.push(event);
                    SamplerInput::Sent
                }
                SendOutcome::Full(_) => {
                    dispatch_one(bus, shown, false);
                    continue;
                }
                SendOutcome::Closed(_) => SamplerInput::BusClosed,
            },
            SamplerAction::Exit => return accepted,
        };
        state = sampler.next(state, input);
    }
}

/// Lets the dispatcher take one event, if there is one, and show it with a
/// notifier that works or fails as told. Returns whether the dispatcher goes on.
fn dispatch_one(bus: &mut EventBus, shown: &mut Vec<String>, notifier_fails: bool) -> bool {
    let mut state = DispatcherState::Receiving;
    loop {
        let input = match dispatcher_action(state) {
            DispatcherAction::Receive => match bus.try_recv() {
                RecvOutcome::Received(event) => DispatcherInput::Received(event),
                RecvOutcome::Empty => return true,
                RecvOutcome::Finished => DispatcherInput::BusClosed,
            },
            DispatcherAction::Notify(alert) => {
                if notifier_fails {
                    DispatcherInput::DeliveryFailed
                } else {
                    shown.push(alert.body);
                    DispatcherInput::Delivered
                }
            }
            DispatcherAction::Exit => return false,
        };
        state = dispatcher_next(state, input);
        if state == DispatcherState::Receiving {
            return true;
        }
    }
}

#[test]
fn breaches_reach_the_user_in_order() {
    let sampler = Sampler::new(Threshold::standard(Metric::Cpu), 30, 60);
    let answers = [
        Query::Value(Reading::Cpu(9500)),
        Query::Value(Reading::Cpu(9000)),
        Query::Failed,
        Query::Absent,
        Query::Value(Reading::Cpu(9912)),
    ];
    let mut bus = EventBus::new(32);
    let mut shown = Vec::new();
    let accepted = sample_all(sampler, &answers, &mut bus, &mut shown);
    assert_eq!(accepted, vec![Event::CpuHigh(9500), Event::CpuHigh(9912)]);
    bus.close();
    while dispatch_one(&mut bus, &mut shown, false) {}
    assert_eq!(
        shown,
        vec!["CPU usage exceeds 90%: 95.00%".to_string(), "CPU usage exceeds 90%: 99.12%".to_string()]
    );
}

#[test]
fn bus_of_one_slot_loses_nothing_while_the_dispatcher_lags() {
    let sampler = Sampler::new(Threshold::standard(Metric::Battery), 3600, 60);
    let answers = [
        Query::Value(Reading::Battery(75)),
        Query::Value(Reading::Battery(74)),
        Query::Value(Reading::Battery(73)),
    ];
    let mut bus = EventBus::new(1);
    let mut shown = Vec::new();
    let accepted = sample_all(sampler, &answers, &mut bus, &mut shown);
    assert_eq!(accepted, vec![Event::BatteryLow(75), Event::BatteryLow(74), Event::BatteryLow(73)]);
    bus.close();
    while dispatch_one(&mut bus, &mut shown, false) {}
    assert_eq!(
        shown,
        vec![
            "Battery below 82%: 75%".to_string(),
            "Battery below 82%: 74%".to_string(),
            "Battery below 82%: 73%".to_string()
        ]
    );
}

#[test]
fn failing_notifier_does_not_hold_up_later_events() {
    let mut bus = EventBus::new(4);
    assert_eq!(bus.try_send(Event::TemperatureHigh(801)), SendOutcome::Accepted);
    assert_eq!(bus.try_send(Event::MemoryLow(1_500_000_000)), SendOutcome::Accepted);
    assert_eq!(bus.try_send(Event::BatteryLow(75)), SendOutcome::Accepted);
    bus.close();
    let mut shown = Vec::new();
    assert!(dispatch_one(&mut bus, &mut shown, true));
    assert!(shown.is_empty());
    assert!(dispatch_one(&mut bus, &mut shown, false));
    assert!(dispatch_one(&mut bus, &mut shown, true));
    assert!(!dispatch_one(&mut bus, &mut shown, false));
    assert_eq!(shown, vec!["Available memory below 2.0GB: 1.40 GB".to_string()]);
}

#[test]
fn sampler_stops_when_the_bus_is_closed() {
    let sampler = Sampler::new(Threshold::standard(Metric::Cpu), 30, 60);
    let mut bus = EventBus::new(4);
    bus.close();
    let mut shown = Vec::new();
    let answers = [Query::Value(Reading::Cpu(9500)), Query::Value(Reading::Cpu(9600))];
    let accepted = sample_all(sampler, &answers, &mut bus, &mut shown);
    assert!(accepted.is_empty());
    assert_eq!(
        sampler.next(SamplerState::Sending(Event::CpuHigh(9500)), SamplerInput::BusClosed),
        SamplerState::Stopped
    );
    assert_eq!(bus.try_recv(), RecvOutcome::Finished);
}

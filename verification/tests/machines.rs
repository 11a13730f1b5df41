use resource_monitor::dispatcher::{
    dispatcher_action, dispatcher_next, dispatcher_step, DispatcherAction, DispatcherInput,
    DispatcherState,
};
use resource_monitor::events::{Event, Metric, Reading, Threshold};
use resource_monitor::power::{
    DeviceScan, Reply, ScanAction, ScanState, BATTERY_TYPE, DISCHARGING_STATE,
};
use resource_monitor::sampler::{Query, Sampler, SamplerAction, SamplerInput, SamplerState};

fn cpu_sampler() -> Sampler {
    Sampler::new(Threshold::standard(Metric::Cpu), 30, 60)
}

#[test]
fn sampler_starts_with_a_query() {
    let sampler = cpu_sampler();
    assert_eq!(sampler.start(), SamplerState::Querying);
    assert_eq!(sampler.action(sampler.start()), SamplerAction::Query(Metric::Cpu));
}

#[test]
fn sampler_sends_on_breach_then_waits() {
    let sampler = cpu_sampler();
    let (state, action) =
        sampler.step(SamplerState::Querying, SamplerInput::Queried(Query::Value(Reading::Cpu(9500))));
    assert_eq!(state, SamplerState::Sending(Event::CpuHigh(9500)));
    assert_eq!(action, SamplerAction::Send(Event::CpuHigh(9500)));
    let (state, action) = sampler.step(state, SamplerInput::Sent);
    assert_eq!(state, SamplerState::Waiting);
    assert_eq!(action, SamplerAction::Sleep(30));
    let (state, action) = sampler.step(state, SamplerInput::Tick);
    assert_eq!(state, SamplerState::Querying);
    assert_eq!(action, SamplerAction::Query(Metric::Cpu));
}

#[test]
fn sampler_stays_quiet_without_breach() {
    let sampler = cpu_sampler();
    let (state, action) =
        sampler.step(SamplerState::Querying, SamplerInput::Queried(Query::Value(Reading::Cpu(9000))));
    assert_eq!(state, SamplerState::Waiting);
    assert_eq!(action, SamplerAction::Sleep(30));
}

#[test]
fn absent_metric_gives_no_event_and_no_failure() {
    let sampler = Sampler::new(Threshold::standard(Metric::Battery), 3600, 60);
    let (state, action) = sampler.step(SamplerState::Querying, SamplerInput::Queried(Query::Absent));
    assert_eq!(state, SamplerState::Waiting);
    assert_eq!(action, SamplerAction::Sleep(3600));
}

#[test]
fn failed_query_backs_off_and_goes_on() {
    let sampler = cpu_sampler();
    let (state, action) = sampler.step(SamplerState::Querying, SamplerInput::Queried(Query::Failed));
    assert_eq!(state, SamplerState::BackingOff);
    assert_eq!(action, SamplerAction::Sleep(90));
    let (state, action) = sampler.step(state, SamplerInput::Tick);
    assert_eq!(state, SamplerState::Querying);
    assert_eq!(action, SamplerAction::Query(Metric::Cpu));
}

#[test]
fn back_off_delay_is_capped() {
    let sampler = Sampler::new(Threshold::standard(Metric::Cpu), u64::MAX - 5, 60);
    assert_eq!(sampler.action(SamplerState::BackingOff), SamplerAction::Sleep(u64::MAX));
    let sampler = Sampler::new(Threshold::standard(Metric::Cpu), u64::MAX - 60, 60);
    assert_eq!(sampler.action(SamplerState::BackingOff), SamplerAction::Sleep(u64::MAX));
}

#[test]
fn closed_bus_stops_the_sampler() {
    let sampler = cpu_sampler();
    let (state, action) =
        sampler.step(SamplerState::Sending(Event::CpuHigh(9500)), SamplerInput::BusClosed);
    assert_eq!(state, SamplerState::Stopped);
    assert_eq!(action, SamplerAction::Exit);
    assert_eq!(sampler.next(state, SamplerInput::Tick), SamplerState::Stopped);
}

#[test]
fn unexpected_input_leaves_the_sampler_where_it_is() {
    let sampler = cpu_sampler();
    assert_eq!(sampler.next(SamplerState::Waiting, SamplerInput::Sent), SamplerState::Waiting);
    assert_eq!(sampler.next(SamplerState::Querying, SamplerInput::Tick), SamplerState::Querying);
    assert_eq!(
        sampler.next(SamplerState::Waiting, SamplerInput::Queried(Query::Value(Reading::Cpu(9999)))),
        SamplerState::Waiting
    );
}

#[test]
fn reading_of_another_metric_does_not_send() {
    let sampler = cpu_sampler();
    assert_eq!(
        sampler.next(
            SamplerState::Querying,
            SamplerInput::Queried(Query::Value(Reading::Temperature(9999)))
        ),
        SamplerState::Waiting
    );
}

fn body_of(action: DispatcherAction) -> (String, String) {
    match action {
        DispatcherAction::Notify(alert) => (alert.summary, alert.body),
        other => panic!("no alert: {:?}", other),
    }
}

#[test]
fn dispatcher_renders_each_event() {
    let (state, action) =
        dispatcher_step(DispatcherState::Receiving, DispatcherInput::Received(Event::CpuHigh(9500)));
    assert_eq!(state, DispatcherState::Notifying(Event::CpuHigh(9500)));
    assert_eq!(
        body_of(action),
        ("CPU High".to_string(), "CPU usage exceeds 90%: 95.00%".to_string())
    );
    let (state, action) = dispatcher_step(state, DispatcherInput::Delivered);
    assert_eq!(state, DispatcherState::Receiving);
    assert!(matches!(action, DispatcherAction::Receive));
}

#[test]
fn failed_delivery_does_not_block_the_next_event() {
    let state = dispatcher_next(DispatcherState::Receiving, DispatcherInput::Received(Event::BatteryLow(75)));
    let (state, action) = dispatcher_step(state, DispatcherInput::DeliveryFailed);
    assert_eq!(state, DispatcherState::Receiving);
    assert!(matches!(action, DispatcherAction::Receive));
    let (state, action) = dispatcher_step(state, DispatcherInput::Received(Event::BatteryLow(74)));
    assert_eq!(state, DispatcherState::Notifying(Event::BatteryLow(74)));
    assert_eq!(
        body_of(action),
        ("Battery Warning".to_string(), "Battery below 82%: 74%".to_string())
    );
}

#[test]
fn dispatcher_ends_when_the_bus_is_drained() {
    let (state, action) = dispatcher_step(DispatcherState::Receiving, DispatcherInput::BusClosed);
    assert_eq!(state, DispatcherState::Finished);
    assert!(matches!(action, DispatcherAction::Exit));
    assert_eq!(
        dispatcher_next(state, DispatcherInput::Received(Event::CpuHigh(1))),
        DispatcherState::Finished
    );
    assert!(matches!(dispatcher_action(DispatcherState::Finished), DispatcherAction::Exit));
}

#[test]
fn dispatcher_ignores_what_it_does_not_await() {
    assert_eq!(
        dispatcher_next(DispatcherState::Receiving, DispatcherInput::Delivered),
        DispatcherState::Receiving
    );
    assert_eq!(
        dispatcher_next(DispatcherState::Notifying(Event::CpuHigh(1)), DispatcherInput::BusClosed),
        DispatcherState::Notifying(Event::CpuHigh(1))
    );
}

#[test]
fn scan_without_devices_finds_no_battery() {
    let scan = DeviceScan::new(0);
    assert_eq!(scan.start(), ScanState::Done(Query::Absent));
    assert_eq!(scan.action(scan.start()), ScanAction::Finish(Query::Absent));
}

#[test]
fn scan_reads_the_first_rechargeable_battery() {
    let scan = DeviceScan::new(3);
    let mut state = scan.start();
    assert_eq!(scan.action(state), ScanAction::Connect(0));
    state = scan.next(state, Reply::Connected);
    assert_eq!(scan.action(state), ScanAction::ReadType(0));
    state = scan.next(state, Reply::Type(1));
    assert_eq!(scan.action(state), ScanAction::ReadRechargeable(0));
    state = scan.next(state, Reply::Rechargeable(true));
    assert_eq!(scan.action(state), ScanAction::Connect(1));
    state = scan.next(state, Reply::Connected);
    state = scan.next(state, Reply::Type(BATTERY_TYPE));
    state = scan.next(state, Reply::Rechargeable(true));
    assert_eq!(state, ScanState::ReadingState { index: 1 });
    assert_eq!(scan.action(state), ScanAction::ReadState(1));
    state = scan.next(state, Reply::State(DISCHARGING_STATE));
    assert_eq!(state, ScanState::ReadingPercentage { index: 1 });
    assert_eq!(scan.action(state), ScanAction::ReadPercentage(1));
    state = scan.next(state, Reply::Percentage(64));
    assert_eq!(state, ScanState::Done(Query::Value(Reading::Battery(64))));
    assert_eq!(scan.action(state), ScanAction::Finish(Query::Value(Reading::Battery(64))));
    assert_eq!(scan.next(state, Reply::Failed), state);
}

#[test]
fn scan_passes_over_silent_devices() {
    let scan = DeviceScan::new(3);
    let mut state = scan.start();
    state = scan.next(state, Reply::Failed);
    assert_eq!(state, ScanState::Connecting { index: 1 });
    state = scan.next(state, Reply::Connected);
    state = scan.next(state, Reply::Failed);
    assert_eq!(state, ScanState::Connecting { index: 2 });
    state = scan.next(state, Reply::Connected);
    state = scan.next(state, Reply::Type(BATTERY_TYPE));
    assert_eq!(state, ScanState::ReadingRechargeable { index: 2, device_type: 2 });
    state = scan.next(state, Reply::Failed);
    assert_eq!(state, ScanState::Done(Query::Absent));
}

#[test]
fn scan_passes_over_a_battery_that_cannot_be_recharged() {
    let scan = DeviceScan::new(1);
    let mut state = scan.start();
    state = scan.next(state, Reply::Connected);
    state = scan.next(state, Reply::Type(BATTERY_TYPE));
    state = scan.next(state, Reply::Rechargeable(false));
    assert_eq!(state, ScanState::Done(Query::Absent));
}

#[test]
fn scan_fails_when_the_charge_cannot_be_read() {
    let scan = DeviceScan::new(2);
    let mut state = scan.start();
    state = scan.next(state, Reply::Connected);
    state = scan.next(state, Reply::Type(BATTERY_TYPE));
    state = scan.next(state, Reply::Rechargeable(true));
    state = scan.next(state, Reply::State(2));
    state = scan.next(state, Reply::Failed);
    assert_eq!(state, ScanState::Done(Query::Failed));
}

#[test]
fn scan_fails_when_the_state_cannot_be_read() {
    let scan = DeviceScan::new(2);
    let mut state = scan.start();
    state = scan.next(state, Reply::Connected);
    state = scan.next(state, Reply::Type(BATTERY_TYPE));
    state = scan.next(state, Reply::Rechargeable(true));
    state = scan.next(state, Reply::Failed);
    assert_eq!(state, ScanState::Done(Query::Failed));
}

#[test]
fn battery_on_mains_is_absent_and_sends_nothing() {
    let scan = DeviceScan::new(2);
    for device_state in [0u32, 1, 3, 4, 5, 6, 7, u32::MAX] {
        let mut state = scan.start();
        state = scan.next(state, Reply::Connected);
        state = scan.next(state, Reply::Type(BATTERY_TYPE));
        state = scan.next(state, Reply::Rechargeable(true));
        state = scan.next(state, Reply::State(device_state));
        assert_eq!(state, ScanState::Done(Query::Absent));
        assert_eq!(scan.action(state), ScanAction::Finish(Query::Absent));
        assert_eq!(scan.next(state, Reply::Percentage(50)), ScanState::Done(Query::Absent));
    }
    let sampler = Sampler::standard(Metric::Battery);
    assert_eq!(
        sampler.next(SamplerState::Querying, SamplerInput::Queried(Query::Absent)),
        SamplerState::Waiting
    );
}

#[test]
fn discharging_battery_below_the_limit_sends() {
    let scan = DeviceScan::new(1);
    let mut state = scan.start();
    for reply in [Reply::Connected, Reply::Type(2), Reply::Rechargeable(true), Reply::State(2),
        Reply::Percentage(50)]
    {
        state = scan.next(state, reply);
    }
    let answer = match scan.action(state) {
        ScanAction::Finish(answer) => answer,
        other => panic!("the search goes on: {:?}", other),
    };
    assert_eq!(answer, Query::Value(Reading::Battery(50)));
    let sampler = Sampler::standard(Metric::Battery);
    assert_eq!(
        sampler.next(SamplerState::Querying, SamplerInput::Queried(answer)),
        SamplerState::Sending(Event::BatteryLow(50))
    );
}

#[test]
fn scan_ignores_an_answer_it_did_not_ask_for() {
    let scan = DeviceScan::new(2);
    let state = scan.start();
    assert_eq!(scan.next(state, Reply::Percentage(10)), state);
    assert_eq!(scan.next(state, Reply::Type(2)), state);
}

#[test]
fn sampler_keeps_its_event_until_the_bus_answers() {
    let sampler = cpu_sampler();
    let state = SamplerState::Sending(Event::CpuHigh(9500));
    for input in [SamplerInput::Tick, SamplerInput::Queried(Query::Absent), SamplerInput::Queried(Query::Failed)] {
        let (next, action) = sampler.step(state, input);
        assert_eq!(next, state);
        assert_eq!(action, SamplerAction::Send(Event::CpuHigh(9500)));
    }
}

#[test]
fn standard_samplers_follow_the_schedule() {
    let cpu = Sampler::standard(Metric::Cpu);
    assert_eq!(cpu, Sampler::new(Threshold::standard(Metric::Cpu), 30, 60));
    assert_eq!(Sampler::standard(Metric::Memory).interval_secs, 30);
    assert_eq!(Sampler::standard(Metric::Temperature).interval_secs, 60);
    assert_eq!(Sampler::standard(Metric::Battery).interval_secs, 3600);
    assert_eq!(Sampler::standard(Metric::Battery).threshold, Threshold::standard(Metric::Battery));
    assert_eq!(Sampler::standard(Metric::Battery).backoff_secs, 60);
}

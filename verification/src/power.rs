use crate::events::Reading;
use crate::sampler::Query;
use vstd::prelude::*;

verus! {

/// The device type by which the power service marks a battery.
pub const BATTERY_TYPE: u32 = 2;

/// The device state by which the power service marks a battery that is
/// being drained.
pub const DISCHARGING_STATE: u32 = 2;

/// Where the search for a battery among the power devices stands.
#[derive(Clone, Copy, Debug, PartialEq, Eq, Structural)]
pub enum ScanState {
    /// A connection to device `index` is being made.
    Connecting { index: usize },
    /// The type of device `index` has been asked for.
    ReadingType { index: usize },
    /// Whether device `index`, of the given type, can be recharged has been
    /// asked for.
    ReadingRechargeable { index: usize, device_type: u32 },
    /// Device `index` is the battery; whether it is charging or discharging
    /// has been asked for.
    ReadingState { index: usize },
    /// Device `index` is a discharging battery; its charge has been asked
    /// for.
    ReadingPercentage { index: usize },
    /// The search is over.
    Done(Query),
}

/// What the power service answered.
#[derive(Clone, Copy, Debug, PartialEq, Eq, Structural)]
pub enum Reply {
    /// The last request failed.
    Failed,
    /// The connection to the device stands.
    Connected,
    /// The type of the device.
    Type(u32),
    /// Whether the device can be recharged.
    Rechargeable(bool),
    /// The state of the device: charging, discharging, full and so on.
    State(u32),
    /// The charge of the device, in percent.
    Percentage(u32),
}

/// What to ask of the power service next.
#[derive(Clone, Copy, Debug, PartialEq, Eq, Structural)]
pub enum ScanAction {
    Connect(usize),
    ReadType(usize),
    ReadRechargeable(usize),
    ReadState(usize),
    ReadPercentage(usize),
    /// Nothing more: the search gave this answer.
    Finish(Query),
}

/// A search over the given number of power devices, in their order, for the
/// first rechargeable battery.
#[derive(Clone, Copy, Debug, PartialEq, Eq, Structural)]
pub struct DeviceScan {
    pub devices: usize,
}

impl DeviceScan {
    /// The state in which device `index` is taken up, or the end of the
    /// search without a battery where there is no such device.
    pub open spec fn spec_visit(self, index: int) -> ScanState {
        if 0 <= index < self.devices {
            ScanState::Connecting { index: index as usize }
        } else {
            ScanState::Done(Query::Absent)
        }
    }

    pub open spec fn spec_start(self) -> ScanState {
        self.spec_visit(0)
    }

    /// The transition function. A device that does not answer, or that is
    /// no rechargeable battery, is passed over. The first rechargeable
    /// battery decides: its charge is absent unless it is discharging, and
    /// the search fails where its state or its charge cannot be read. An
    /// answer that the state does not await leaves the state as it is.
    pub open spec fn spec_next(self, state: ScanState, reply: Reply) -> ScanState {
        match (state, reply) {
            (ScanState::Connecting { index }, Reply::Connected) => ScanState::ReadingType { index },
            (ScanState::Connecting { index }, Reply::Failed) => self.spec_visit(index + 1),
            (ScanState::ReadingType { index }, Reply::Type(device_type)) => ScanState::ReadingRechargeable {
                index,
                device_type,
            },
            (ScanState::ReadingType { index }, Reply::Failed) => self.spec_visit(index + 1),
            (ScanState::ReadingRechargeable { index, device_type }, Reply::Rechargeable(rechargeable)) => {
                if device_type == BATTERY_TYPE && rechargeable {
                    ScanState::ReadingState { index }
                } else {
                    self.spec_visit(index + 1)
                }
            },
            (ScanState::ReadingRechargeable { index, device_type }, Reply::Failed) => self.spec_visit(
                index + 1,
            ),
            (ScanState::ReadingState { index }, Reply::State(device_state)) => {
                if device_state == DISCHARGING_STATE {
                    ScanState::ReadingPercentage { index }
                } else {
                    ScanState::Done(Query::Absent)
                }
            },
            (ScanState::ReadingState { index }, Reply::Failed) => ScanState::Done(Query::Failed),
            (ScanState::ReadingPercentage { index }, Reply::Percentage(percent)) => ScanState::Done(
                Query::Value(Reading::Battery(percent)),
            ),
            (ScanState::ReadingPercentage { index }, Reply::Failed) => ScanState::Done(Query::Failed),
            _ => state,
        }
    }

    pub open spec fn spec_action(self, state: ScanState) -> ScanAction {
        match state {
            ScanState::Connecting { index } => ScanAction::Connect(index),
            ScanState::ReadingType { index } => ScanAction::ReadType(index),
            ScanState::ReadingRechargeable { index, device_type } => ScanAction::ReadRechargeable(index),
            ScanState::ReadingState { index } => ScanAction::ReadState(index),
            ScanState::ReadingPercentage { index } => ScanAction::ReadPercentage(index),
            ScanState::Done(query) => ScanAction::Finish(query),
        }
    }

    pub fn new(devices: usize) -> (r: DeviceScan)
        ensures
            r.devices == devices,
    {
        DeviceScan { devices }
    }

    fn visit(self, index: usize) -> (r: ScanState)
        ensures
            r == self.spec_visit(index as int),
    {
        if index < self.devices {
            ScanState::Connecting { index }
        } else {
            ScanState::Done(Query::Absent)
        }
    }

    fn pass_over(self, index: usize) -> (r: ScanState)
        ensures
            r == self.spec_visit(index + 1),
    {
        if index < self.devices && index + 1 < self.devices {
            ScanState::Connecting { index: index + 1 }
        } else {
            ScanState::Done(Query::Absent)
        }
    }

    #[verifier::when_used_as_spec(spec_start)]
    pub fn start(self) -> (r: ScanState)
        ensures
            r == self.spec_start(),
    {
        self.visit(0)
    }

    #[verifier::when_used_as_spec(spec_next)]
    pub fn next(self, state: ScanState, reply: Reply) -> (r: ScanState)
        ensures
            r == self.spec_next(state, reply),
    {
        match state {
            ScanState::Connecting { index } => match reply {
                Reply::Connected => ScanState::ReadingType { index },
                Reply::Failed => self.pass_over(index),
                _ => state,
            },
            ScanState::ReadingType { index } => match reply {
                Reply::Type(device_type) => ScanState::ReadingRechargeable { index, device_type },
                Reply::Failed => self.pass_over(index),
                _ => state,
            },
            ScanState::ReadingRechargeable { index, device_type } => match reply {
                Reply::Rechargeable(rechargeable) => {
                    if device_type == BATTERY_TYPE && rechargeable {
                        ScanState::ReadingState { index }
                    } else {
                        self.pass_over(index)
                    }
                },
                Reply::Failed => self.pass_over(index),
                _ => state,
            },
            ScanState::ReadingState { index } => match reply {
                Reply::State(device_state) => {
                    if device_state == DISCHARGING_STATE {
                        ScanState::ReadingPercentage { index }
                    } else {
                        ScanState::Done(Query::Absent)
                    }
                },
                Reply::Failed => ScanState::Done(Query::Failed),
                _ => state,
            },
            ScanState::ReadingPercentage { index } => match reply {
                Reply::Percentage(percent) => ScanState::Done(Query::Value(Reading::Battery(percent))),
                Reply::Failed => ScanState::Done(Query::Failed),
                _ => state,
            },
            ScanState::Done(_) => state,
        }
    }

    #[verifier::when_used_as_spec(spec_action)]
    pub fn action(self, state: ScanState) -> (r: ScanAction)
        ensures
            r == self.spec_action(state),
    {
        match state {
            ScanState::Connecting { index } => ScanAction::Connect(index),
            ScanState::ReadingType { index } => ScanAction::ReadType(index),
            ScanState::ReadingRechargeable { index, device_type } => ScanAction::ReadRechargeable(index),
            ScanState::ReadingState { index } => ScanAction::ReadState(index),
            ScanState::ReadingPercentage { index } => ScanAction::ReadPercentage(index),
            ScanState::Done(query) => ScanAction::Finish(query),
        }
    }
}

/// What the power service would answer about one device, were it asked.
pub struct Device {
    /// Whether a connection to the device can be made.
    pub connects: bool,
    /// The type of the device, if it can be read.
    pub device_type: Option<u32>,
    /// Whether the device can be recharged, if that can be read.
    pub rechargeable: Option<bool>,
    /// Whether the device is charging, discharging, full and so on, if that
    /// can be read.
    pub state: Option<u32>,
    /// The charge in percent, if it can be read.
    pub percentage: Option<u32>,
}

impl Device {
    /// A device counts as the battery when it answers and says that it is a
    /// battery that can be recharged.
    pub open spec fn is_battery(self) -> bool {
        &&& self.connects
        &&& self.device_type == Some(BATTERY_TYPE)
        &&& self.rechargeable == Some(true)
    }

    /// What a battery reports: its charge while it is discharging, nothing
    /// in any other state, and a failure where its state, or the charge of
    /// a discharging battery, cannot be read.
    pub open spec fn charge(self) -> Query {
        match self.state {
            None => Query::Failed,
            Some(device_state) => if device_state != DISCHARGING_STATE {
                Query::Absent
            } else {
                match self.percentage {
                    Some(percent) => Query::Value(Reading::Battery(percent)),
                    None => Query::Failed,
                }
            },
        }
    }
}

/// The answer of the service to what a state asks for.
pub open spec fn reply_of(devices: Seq<Device>, state: ScanState) -> Reply {
    match state {
        ScanState::Connecting { index } => if devices[index as int].connects {
            Reply::Connected
        } else {
            Reply::Failed
        },
        ScanState::ReadingType { index } => match devices[index as int].device_type {
            Some(device_type) => Reply::Type(device_type),
            None => Reply::Failed,
        },
        ScanState::ReadingRechargeable { index, device_type } => match devices[index as int].rechargeable {
            Some(rechargeable) => Reply::Rechargeable(rechargeable),
            None => Reply::Failed,
        },
        ScanState::ReadingState { index } => match devices[index as int].state {
            Some(device_state) => Reply::State(device_state),
            None => Reply::Failed,
        },
        ScanState::ReadingPercentage { index } => match devices[index as int].percentage {
            Some(percent) => Reply::Percentage(percent),
            None => Reply::Failed,
        },
        ScanState::Done(_) => Reply::Failed,
    }
}

/// The state of a search after at most `steps` requests, each answered by
/// the service.
pub open spec fn run_scan(scan: DeviceScan, devices: Seq<Device>, state: ScanState, steps: nat) -> ScanState
    decreases steps,
{
    if steps == 0 || state is Done {
        state
    } else {
        run_scan(scan, devices, scan.spec_next(state, reply_of(devices, state)), (steps - 1) as nat)
    }
}

/// What the first battery among the devices from position `from` on
/// reports; absent where there is no battery.
pub open spec fn first_battery(devices: Seq<Device>, from: int) -> Query
    decreases devices.len() - from,
{
    if from < 0 || from >= devices.len() {
        Query::Absent
    } else if devices[from].is_battery() {
        devices[from].charge()
    } else {
        first_battery(devices, from + 1)
    }
}

proof fn lemma_scan_from(scan: DeviceScan, devices: Seq<Device>, from: int, steps: nat)
    requires
        scan.devices == devices.len(),
        0 <= from <= devices.len(),
        steps >= 5 * (devices.len() - from),
    ensures
        run_scan(scan, devices, scan.spec_visit(from), steps) == ScanState::Done(
            first_battery(devices, from),
        ),
    decreases devices.len() - from,
{
    if from < devices.len() {
        let device = devices[from];
        let index = from as usize;
        let s0 = ScanState::Connecting { index };
        assert(scan.spec_visit(from) == s0);
        let s1 = scan.spec_next(s0, reply_of(devices, s0));
        assert(run_scan(scan, devices, s0, steps) == run_scan(scan, devices, s1, (steps - 1) as nat));
        lemma_scan_from(scan, devices, from + 1, (steps - 1) as nat);
        lemma_scan_from(scan, devices, from + 1, (steps - 2) as nat);
        lemma_scan_from(scan, devices, from + 1, (steps - 3) as nat);
        if device.connects {
            let s2 = scan.spec_next(s1, reply_of(devices, s1));
            assert(run_scan(scan, devices, s1, (steps - 1) as nat) == run_scan(
                scan,
                devices,
                s2,
                (steps - 2) as nat,
            ));
            if device.device_type is Some {
                let s3 = scan.spec_next(s2, reply_of(devices, s2));
                assert(run_scan(scan, devices, s2, (steps - 2) as nat) == run_scan(
                    scan,
                    devices,
                    s3,
                    (steps - 3) as nat,
                ));
                if device.is_battery() {
                    let s4 = scan.spec_next(s3, reply_of(devices, s3));
                    assert(run_scan(scan, devices, s3, (steps - 3) as nat) == run_scan(
                        scan,
                        devices,
                        s4,
                        (steps - 4) as nat,
                    ));
                    if device.state == Some(DISCHARGING_STATE) {
                        let s5 = scan.spec_next(s4, reply_of(devices, s4));
                        assert(run_scan(scan, devices, s4, (steps - 4) as nat) == run_scan(
                            scan,
                            devices,
                            s5,
                            (steps - 5) as nat,
                        ));
                        assert(s5 is Done);
                    } else {
                        assert(s4 is Done);
                    }
                }
            }
        }
    }
}

/// A search that is answered by the service ends, after at most five
/// requests for each device, with what the first rechargeable battery
/// reports: its charge while it is discharging, nothing while it is not.
/// Without such a device the charge is absent.
pub proof fn lemma_scan_finds_first_battery(scan: DeviceScan, devices: Seq<Device>)
    requires
        scan.devices == devices.len(),
    ensures
        run_scan(scan, devices, scan.spec_start(), 5 * devices.len()) == ScanState::Done(
            first_battery(devices, 0),
        ),
{
    lemma_scan_from(scan, devices, 0, 5 * devices.len());
}

/// A battery that is not discharging never gives a value: whatever charge
/// it would report, the search ends without one.
pub proof fn lemma_battery_on_mains_is_absent(scan: DeviceScan, index: usize, device_state: u32)
    requires
        device_state != DISCHARGING_STATE,
    ensures
        scan.spec_next(ScanState::ReadingState { index }, Reply::State(device_state))
            == ScanState::Done(Query::Absent),
        forall|state: ScanState, reply: Reply|
            (#[trigger] scan.spec_next(state, reply) is ReadingPercentage && !(state
                is ReadingPercentage)) ==> (state is ReadingState && reply == Reply::State(
                DISCHARGING_STATE,
            )),
{
}

/// A search reports a failure only where the state or the charge of the
/// battery could not be read, and a charge only where one was read: a device
/// that is missing, silent or no battery never counts as a failure.
pub proof fn lemma_scan_outcomes(scan: DeviceScan, state: ScanState, reply: Reply)
    requires
        !(state is Done),
    ensures
        scan.spec_next(state, reply) == ScanState::Done(Query::Failed) <==> ((state is ReadingPercentage
            || state is ReadingState) && reply is Failed),
        scan.spec_next(state, reply) matches ScanState::Done(Query::Value(reading)) ==> (state
            is ReadingPercentage && reply == Reply::Percentage(reading.value() as u32)),
        scan.spec_start() == ScanState::Done(Query::Absent) <==> scan.devices == 0,
{
}

} // verus!

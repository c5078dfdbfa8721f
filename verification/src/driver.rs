//! The session driver: a finite state machine from state and event to next
//! state and actions.
//!
//! The unverified shell owns the BLE host handles and runs the loop: it
//! performs each action the machine emits (power the adapter, run discovery,
//! connect, subscribe, poll, publish to the UI) and hands the outcome back
//! as the next event.  Commands arrive on the same event stream, polled
//! between blocking operations; the outcome of a requested operation is
//! always the event that follows its action.  Everything the worker decides
//! is decided here.

use vstd::prelude::*;

use crate::CoreError;
use crate::gatt::{first_notify_path, services_opt_view, GattService, find_characteristic_path};
use crate::payload::{decode_payload, parse_payload};
use crate::text::byte_chars;
use crate::ui::{
    error_label, error_status, format_humidity, format_pressure, format_temperature,
    humidity_label, info_connecting, info_stopped, info_triggered, pressure_label,
    temperature_label,
};

verus! {

/// A command from the UI: idempotent `Start` and `Stop`, terminal `Quit`.
#[derive(Clone, Copy, Debug, PartialEq, Eq, Structural)]
pub enum Command {
    Start,
    Stop,
    Quit,
}

/// One entry of the adapter's device list: the object path and the name, if
/// the host could read it.
pub struct DeviceInfo {
    pub path: String,
    pub name: Option<String>,
}

/// Mathematical content of a [`DeviceInfo`].
pub struct DeviceInfoV {
    pub path: Seq<char>,
    pub name: Option<Seq<char>>,
}

impl View for DeviceInfo {
    type V = DeviceInfoV;

    open spec fn view(&self) -> DeviceInfoV {
        DeviceInfoV {
            path: self.path@,
            name: match self.name {
                Some(ref n) => Some(n@),
                None => None,
            },
        }
    }
}

/// View of a device list.
pub open spec fn devs_view(v: Seq<DeviceInfo>) -> Seq<DeviceInfoV> {
    v.map_values(|d: DeviceInfo| d@)
}

/// One event of the host's notification stream: a value update for some
/// object path, or any other event kind, which is ignored.
pub enum HostEvent {
    Value { object_path: String, value: Vec<u8> },
    Other,
}

/// Mathematical content of a [`HostEvent`].
pub enum HostEventV {
    Value { object_path: Seq<char>, value: Seq<u8> },
    Other,
}

impl View for HostEvent {
    type V = HostEventV;

    open spec fn view(&self) -> HostEventV {
        match self {
            HostEvent::Value { object_path, value } => HostEventV::Value {
                object_path: object_path@,
                value: value@,
            },
            HostEvent::Other => HostEventV::Other,
        }
    }
}

/// View of a host-event batch.
pub open spec fn host_evs_view(v: Seq<HostEvent>) -> Seq<HostEventV> {
    v.map_values(|e: HostEvent| e@)
}

/// How the target device is chosen: a fixed object path, or the first
/// listed device whose name equals the given one.
pub enum TargetMode {
    Path(String),
    NameIs(String),
}

/// Mathematical content of a [`TargetMode`].
pub enum TargetModeV {
    Path(Seq<char>),
    NameIs(Seq<char>),
}

impl View for TargetMode {
    type V = TargetModeV;

    open spec fn view(&self) -> TargetModeV {
        match self {
            TargetMode::Path(p) => TargetModeV::Path(p@),
            TargetMode::NameIs(n) => TargetModeV::NameIs(n@),
        }
    }
}

/// How the notify characteristic is found: by searching the GATT tree for
/// the first notify-capable characteristic, or pinned as a fixed sub-path
/// appended to the device path.
pub enum CharMode {
    Auto,
    Pinned(String),
}

/// Mathematical content of a [`CharMode`].
pub enum CharModeV {
    Auto,
    Pinned(Seq<char>),
}

impl View for CharMode {
    type V = CharModeV;

    open spec fn view(&self) -> CharModeV {
        match self {
            CharMode::Auto => CharModeV::Auto,
            CharMode::Pinned(p) => CharModeV::Pinned(p@),
        }
    }
}

/// The run configuration.
pub struct Config {
    pub target: TargetMode,
    pub char_mode: CharMode,
    pub connect_timeout_ms: u64,
    pub settle_ms: u64,
    pub scan_ms: u64,
    pub poll_ms: u64,
}

/// Mathematical content of a [`Config`].
pub struct ConfigV {
    pub target: TargetModeV,
    pub char_mode: CharModeV,
    pub connect_timeout_ms: u64,
    pub settle_ms: u64,
    pub scan_ms: u64,
    pub poll_ms: u64,
}

impl View for Config {
    type V = ConfigV;

    open spec fn view(&self) -> ConfigV {
        ConfigV {
            target: self.target@,
            char_mode: self.char_mode@,
            connect_timeout_ms: self.connect_timeout_ms,
            settle_ms: self.settle_ms,
            scan_ms: self.scan_ms,
            poll_ms: self.poll_ms,
        }
    }
}

impl Config {
    /// A configuration with the defaults of the utility: a 10 s connect
    /// timeout, the required 5 s post-connect settle delay, a 1 s scan
    /// window and a 1 s event poll interval.
    pub fn with_target(target: TargetMode, char_mode: CharMode) -> (r: Config)
        ensures
            r.target == target,
            r.char_mode == char_mode,
            r.connect_timeout_ms == 10000u64,
            r.settle_ms == 5000u64,
            r.scan_ms == 1000u64,
            r.poll_ms == 1000u64,
    {
        Config {
            target,
            char_mode,
            connect_timeout_ms: 10000,
            settle_ms: 5000,
            scan_ms: 1000,
            poll_ms: 1000,
        }
    }
}

/// An event handed to the machine: a command, the outcome of the last
/// requested host operation, or one poll's batch of notification events.
pub enum Event {
    Cmd(Command),
    PowerOk,
    PowerFailed,
    DiscoveryStarted,
    DiscoveryStartFailed,
    ScanElapsed,
    Devices(Vec<DeviceInfo>),
    ConnectOk,
    ConnectFailed,
    Settled,
    GattTree(Option<Vec<GattService>>),
    NotifyOk,
    NotifyFailed,
    Batch(Vec<HostEvent>),
}

/// Mathematical content of an [`Event`].
pub enum EventV {
    Cmd(Command),
    PowerOk,
    PowerFailed,
    DiscoveryStarted,
    DiscoveryStartFailed,
    ScanElapsed,
    Devices(Seq<DeviceInfoV>),
    ConnectOk,
    ConnectFailed,
    Settled,
    GattTree(Option<Seq<crate::gatt::GattServiceV>>),
    NotifyOk,
    NotifyFailed,
    Batch(Seq<HostEventV>),
}

impl View for Event {
    type V = EventV;

    open spec fn view(&self) -> EventV {
        match self {
            Event::Cmd(c) => EventV::Cmd(*c),
            Event::PowerOk => EventV::PowerOk,
            Event::PowerFailed => EventV::PowerFailed,
            Event::DiscoveryStarted => EventV::DiscoveryStarted,
            Event::DiscoveryStartFailed => EventV::DiscoveryStartFailed,
            Event::ScanElapsed => EventV::ScanElapsed,
            Event::Devices(ds) => EventV::Devices(devs_view(ds@)),
            Event::ConnectOk => EventV::ConnectOk,
            Event::ConnectFailed => EventV::ConnectFailed,
            Event::Settled => EventV::Settled,
            Event::GattTree(t) => EventV::GattTree(services_opt_view(*t)),
            Event::NotifyOk => EventV::NotifyOk,
            Event::NotifyFailed => EventV::NotifyFailed,
            Event::Batch(b) => EventV::Batch(host_evs_view(b@)),
        }
    }
}

/// An action the shell must perform, in emission order.
pub enum Action {
    SetPowered,
    StartDiscovery,
    StopDiscovery,
    Sleep(u64),
    ListDevices,
    Connect { path: String, timeout_ms: u64 },
    FetchGatt,
    StartNotify(String),
    StopNotify(String),
    Poll(u64),
    Disconnect,
    PublishInfo(String),
    PublishTemperature(String),
    PublishHumidity(String),
    PublishPressure(String),
    Exit,
}

/// Mathematical content of an [`Action`].
pub enum ActionV {
    SetPowered,
    StartDiscovery,
    StopDiscovery,
    Sleep(u64),
    ListDevices,
    Connect { path: Seq<char>, timeout_ms: u64 },
    FetchGatt,
    StartNotify(Seq<char>),
    StopNotify(Seq<char>),
    Poll(u64),
    Disconnect,
    PublishInfo(Seq<char>),
    PublishTemperature(Seq<char>),
    PublishHumidity(Seq<char>),
    PublishPressure(Seq<char>),
    Exit,
}

impl View for Action {
    type V = ActionV;

    open spec fn view(&self) -> ActionV {
        match self {
            Action::SetPowered => ActionV::SetPowered,
            Action::StartDiscovery => ActionV::StartDiscovery,
            Action::StopDiscovery => ActionV::StopDiscovery,
            Action::Sleep(ms) => ActionV::Sleep(*ms),
            Action::ListDevices => ActionV::ListDevices,
            Action::Connect { path, timeout_ms } => ActionV::Connect {
                path: path@,
                timeout_ms: *timeout_ms,
            },
            Action::FetchGatt => ActionV::FetchGatt,
            Action::StartNotify(p) => ActionV::StartNotify(p@),
            Action::StopNotify(p) => ActionV::StopNotify(p@),
            Action::Poll(ms) => ActionV::Poll(*ms),
            Action::Disconnect => ActionV::Disconnect,
            Action::PublishInfo(s) => ActionV::PublishInfo(s@),
            Action::PublishTemperature(s) => ActionV::PublishTemperature(s@),
            Action::PublishHumidity(s) => ActionV::PublishHumidity(s@),
            Action::PublishPressure(s) => ActionV::PublishPressure(s@),
            Action::Exit => ActionV::Exit,
        }
    }
}

/// View of an action vector.
pub open spec fn acts_view(v: Seq<Action>) -> Seq<ActionV> {
    v.map_values(|a: Action| a@)
}

/// The phase of the worker.  `Connecting` through `Notifying` carry the
/// strings the later steps need; only `Notifying` holds an active
/// subscription.
pub enum Phase {
    Idle,
    Powering,
    Discovering,
    ScanWait,
    Listing,
    Connecting { target: String },
    Settling { target: String },
    Resolving { target: String },
    Subscribing { char_path: String },
    Notifying { char_path: String },
    Terminal,
}

/// Mathematical content of a [`Phase`].
pub enum PhaseV {
    Idle,
    Powering,
    Discovering,
    ScanWait,
    Listing,
    Connecting { target: Seq<char> },
    Settling { target: Seq<char> },
    Resolving { target: Seq<char> },
    Subscribing { char_path: Seq<char> },
    Notifying { char_path: Seq<char> },
    Terminal,
}

impl View for Phase {
    type V = PhaseV;

    open spec fn view(&self) -> PhaseV {
        match self {
            Phase::Idle => PhaseV::Idle,
            Phase::Powering => PhaseV::Powering,
            Phase::Discovering => PhaseV::Discovering,
            Phase::ScanWait => PhaseV::ScanWait,
            Phase::Listing => PhaseV::Listing,
            Phase::Connecting { target } => PhaseV::Connecting { target: target@ },
            Phase::Settling { target } => PhaseV::Settling { target: target@ },
            Phase::Resolving { target } => PhaseV::Resolving { target: target@ },
            Phase::Subscribing { char_path } => PhaseV::Subscribing { char_path: char_path@ },
            Phase::Notifying { char_path } => PhaseV::Notifying { char_path: char_path@ },
            Phase::Terminal => PhaseV::Terminal,
        }
    }
}

/// The target chosen from the device list, scanning names from index `i`:
/// a configured path is used as it stands (its presence in the list is not
/// required; a later connect failure reports it), a configured name takes
/// the first device whose name equals it.
pub open spec fn select_target_from(t: TargetModeV, ds: Seq<DeviceInfoV>, i: int) -> Option<
    Seq<char>,
>
    decreases ds.len() - i,
{
    match t {
        TargetModeV::Path(p) => Some(p),
        TargetModeV::NameIs(n) => {
            if !(0 <= i < ds.len()) {
                None
            } else if ds[i].name == Some(n) {
                Some(ds[i].path)
            } else {
                select_target_from(t, ds, i + 1)
            }
        },
    }
}

/// The first-match law of target selection by name: the chosen device is
/// the first of the list whose name equals the configured one, and `None`
/// means no listed device carries that name.
pub proof fn lemma_select_first_match(n: Seq<char>, ds: Seq<DeviceInfoV>, i: int)
    requires
        0 <= i <= ds.len(),
    ensures
        match select_target_from(TargetModeV::NameIs(n), ds, i) {
            Some(p) => exists|k: int|
                i <= k < ds.len() && (#[trigger] ds[k]).name == Some(n) && p == ds[k].path && (
                forall|m: int| i <= m < k ==> (#[trigger] ds[m]).name != Some(n)),
            None => forall|k: int| i <= k < ds.len() ==> (#[trigger] ds[k]).name != Some(n),
        },
    decreases ds.len() - i,
{
    if i < ds.len() {
        if ds[i].name == Some(n) {
            assert(i <= i < ds.len() && ds[i].name == Some(n) && (forall|m: int|
                i <= m < i ==> (#[trigger] ds[m]).name != Some(n)));
        } else {
            lemma_select_first_match(n, ds, i + 1);
            match select_target_from(TargetModeV::NameIs(n), ds, i + 1) {
                Some(p) => {
                    let k = choose|k: int|
                        i + 1 <= k < ds.len() && (#[trigger] ds[k]).name == Some(n) && p
                            == ds[k].path && (forall|m: int|
                            i + 1 <= m < k ==> (#[trigger] ds[m]).name != Some(n));
                    assert(forall|m: int| i <= m < k ==> (#[trigger] ds[m]).name != Some(n));
                },
                None => {},
            }
        }
    }
}

/// The publications owed for one host event: nothing unless it is a value
/// update for the subscribed path whose payload decodes, and then the three
/// formatted setters, temperature first.
pub open spec fn event_pubs(c: Seq<char>, e: HostEventV) -> Seq<ActionV> {
    match e {
        HostEventV::Value { object_path, value } => {
            if object_path == c {
                match parse_payload(value) {
                    Some(t) => seq![
                        ActionV::PublishTemperature(byte_chars(t.0) + temperature_label()),
                        ActionV::PublishHumidity(byte_chars(t.1) + humidity_label()),
                        ActionV::PublishPressure(byte_chars(t.2) + pressure_label()),
                    ],
                    None => Seq::empty(),
                }
            } else {
                Seq::empty()
            }
        },
        HostEventV::Other => Seq::empty(),
    }
}

/// The publications owed for one poll's batch, in arrival order.
pub open spec fn batch_pubs(c: Seq<char>, evs: Seq<HostEventV>) -> Seq<ActionV>
    decreases evs.len(),
{
    if evs.len() == 0 {
        Seq::empty()
    } else {
        batch_pubs(c, evs.drop_last()) + event_pubs(c, evs.last())
    }
}

/// The transition function of the worker.  Unexpected events leave the
/// state unchanged and emit nothing; `Start` outside `Idle` and `Stop` in
/// `Idle` are no-ops; `Quit` tears down from every phase and is terminal.
pub open spec fn spec_step(cfg: ConfigV, s: PhaseV, e: EventV) -> (PhaseV, Seq<ActionV>) {
    match s {
        PhaseV::Idle => match e {
            EventV::Cmd(Command::Start) => (PhaseV::Powering, seq![ActionV::SetPowered]),
            EventV::Cmd(Command::Quit) => (PhaseV::Terminal, seq![ActionV::Exit]),
            _ => (PhaseV::Idle, Seq::empty()),
        },
        PhaseV::Powering => match e {
            EventV::PowerOk => (PhaseV::Discovering, seq![ActionV::StartDiscovery]),
            EventV::PowerFailed => (
                PhaseV::Idle,
                seq![ActionV::PublishInfo(error_label(CoreError::AdapterUnavailable))],
            ),
            EventV::Cmd(Command::Stop) => (PhaseV::Idle, Seq::empty()),
            EventV::Cmd(Command::Quit) => (PhaseV::Terminal, seq![ActionV::Exit]),
            _ => (PhaseV::Powering, Seq::empty()),
        },
        PhaseV::Discovering => match e {
            EventV::DiscoveryStarted => (PhaseV::ScanWait, seq![ActionV::Sleep(cfg.scan_ms)]),
            EventV::DiscoveryStartFailed => (
                PhaseV::Idle,
                seq![
                    ActionV::StopDiscovery,
                    ActionV::PublishInfo(error_label(CoreError::DiscoveryFailed)),
                ],
            ),
            EventV::Cmd(Command::Stop) => (PhaseV::Idle, seq![ActionV::StopDiscovery]),
            EventV::Cmd(Command::Quit) => (
                PhaseV::Terminal,
                seq![ActionV::StopDiscovery, ActionV::Exit],
            ),
            _ => (PhaseV::Discovering, Seq::empty()),
        },
        PhaseV::ScanWait => match e {
            EventV::ScanElapsed => (
                PhaseV::Listing,
                seq![ActionV::StopDiscovery, ActionV::ListDevices],
            ),
            EventV::Cmd(Command::Stop) => (PhaseV::Idle, seq![ActionV::StopDiscovery]),
            EventV::Cmd(Command::Quit) => (
                PhaseV::Terminal,
                seq![ActionV::StopDiscovery, ActionV::Exit],
            ),
            _ => (PhaseV::ScanWait, Seq::empty()),
        },
        PhaseV::Listing => match e {
            EventV::Devices(ds) => match select_target_from(cfg.target, ds, 0) {
                Some(p) => (
                    PhaseV::Connecting { target: p },
                    seq![ActionV::Connect { path: p, timeout_ms: cfg.connect_timeout_ms }],
                ),
                None => (
                    PhaseV::Idle,
                    seq![ActionV::PublishInfo(error_label(CoreError::NoTargetDevice))],
                ),
            },
            EventV::Cmd(Command::Stop) => (PhaseV::Idle, Seq::empty()),
            EventV::Cmd(Command::Quit) => (PhaseV::Terminal, seq![ActionV::Exit]),
            _ => (PhaseV::Listing, Seq::empty()),
        },
        PhaseV::Connecting { target } => match e {
            EventV::ConnectOk => (
                PhaseV::Settling { target },
                seq![
                    ActionV::PublishInfo("Status: Connecting ..."@),
                    ActionV::Sleep(cfg.settle_ms),
                ],
            ),
            EventV::ConnectFailed => (PhaseV::Idle, Seq::empty()),
            EventV::Cmd(Command::Stop) => (PhaseV::Idle, Seq::empty()),
            EventV::Cmd(Command::Quit) => (PhaseV::Terminal, seq![ActionV::Exit]),
            _ => (PhaseV::Connecting { target }, Seq::empty()),
        },
        PhaseV::Settling { target } => match e {
            EventV::Settled => match cfg.char_mode {
                CharModeV::Auto => (PhaseV::Resolving { target }, seq![ActionV::FetchGatt]),
                CharModeV::Pinned(sub) => (
                    PhaseV::Subscribing { char_path: target + sub },
                    seq![ActionV::StartNotify(target + sub)],
                ),
            },
            EventV::Cmd(Command::Stop) => (PhaseV::Idle, seq![ActionV::Disconnect]),
            EventV::Cmd(Command::Quit) => (
                PhaseV::Terminal,
                seq![ActionV::Disconnect, ActionV::Exit],
            ),
            _ => (PhaseV::Settling { target }, Seq::empty()),
        },
        PhaseV::Resolving { target } => match e {
            EventV::GattTree(None) => (
                PhaseV::Idle,
                seq![
                    ActionV::PublishInfo(error_label(CoreError::GattWalkFailed)),
                    ActionV::Disconnect,
                ],
            ),
            EventV::GattTree(Some(tree)) => match first_notify_path(tree) {
                Some(p) => (
                    PhaseV::Subscribing { char_path: p },
                    seq![ActionV::StartNotify(p)],
                ),
                None => (
                    PhaseV::Idle,
                    seq![
                        ActionV::PublishInfo(error_label(CoreError::NotifyStartFailed)),
                        ActionV::Disconnect,
                    ],
                ),
            },
            EventV::Cmd(Command::Stop) => (PhaseV::Idle, seq![ActionV::Disconnect]),
            EventV::Cmd(Command::Quit) => (
                PhaseV::Terminal,
                seq![ActionV::Disconnect, ActionV::Exit],
            ),
            _ => (PhaseV::Resolving { target }, Seq::empty()),
        },
        PhaseV::Subscribing { char_path } => match e {
            EventV::NotifyOk => (
                PhaseV::Notifying { char_path },
                seq![
                    ActionV::PublishInfo("Status: Triggered notification"@),
                    ActionV::Poll(cfg.poll_ms),
                ],
            ),
            EventV::NotifyFailed => (
                PhaseV::Idle,
                seq![
                    ActionV::PublishInfo(error_label(CoreError::NotifyStartFailed)),
                    ActionV::Disconnect,
                ],
            ),
            EventV::Cmd(Command::Stop) => (PhaseV::Idle, seq![ActionV::Disconnect]),
            EventV::Cmd(Command::Quit) => (
                PhaseV::Terminal,
                seq![ActionV::Disconnect, ActionV::Exit],
            ),
            _ => (PhaseV::Subscribing { char_path }, Seq::empty()),
        },
        PhaseV::Notifying { char_path } => match e {
            EventV::Batch(evs) => (
                PhaseV::Notifying { char_path },
                batch_pubs(char_path, evs) + seq![ActionV::Poll(cfg.poll_ms)],
            ),
            EventV::Cmd(Command::Stop) => (
                PhaseV::Idle,
                seq![
                    ActionV::StopNotify(char_path),
                    ActionV::Disconnect,
                    ActionV::PublishInfo("Status: Notification stoped"@),
                ],
            ),
            EventV::Cmd(Command::Quit) => (
                PhaseV::Terminal,
                seq![ActionV::StopNotify(char_path), ActionV::Disconnect, ActionV::Exit],
            ),
            _ => (PhaseV::Notifying { char_path }, Seq::empty()),
        },
        PhaseV::Terminal => (PhaseV::Terminal, Seq::empty()),
    }
}

/// Chooses the target device from the snapshot of the adapter's device
/// list; `None` reports `NoTargetDevice`.
pub fn select_target(target: &TargetMode, devices: &Vec<DeviceInfo>) -> (r: Option<String>)
    ensures
        match r {
            Some(p) => select_target_from(target@, devs_view(devices@), 0) == Some(p@),
            None => select_target_from(target@, devs_view(devices@), 0) is None,
        },
{
    match target {
        TargetMode::Path(p) => Some(p.clone()),
        TargetMode::NameIs(n) => {
            let ghost dv = devs_view(devices@);
            let mut i: usize = 0;
            while i < devices.len()
                invariant
                    dv == devs_view(devices@),
                    0 <= i <= devices@.len(),
                    target@ == TargetModeV::NameIs(n@),
                    select_target_from(target@, dv, 0) == select_target_from(
                        target@,
                        dv,
                        i as int,
                    ),
                decreases devices@.len() - i,
            {
                let d = &devices[i];
                proof {
                    assert(dv[i as int] == d@);
                }
                match &d.name {
                    Some(nm) => {
                        if *nm == *n {
                            proof {
                                assert(dv[i as int].name == Some(n@));
                            }
                            return Some(d.path.clone());
                        }
                        proof {
                            assert(dv[i as int].name != Some(n@));
                        }
                    },
                    None => {
                        proof {
                            assert(dv[i as int].name is None);
                        }
                    },
                }
                i += 1;
            }
            None
        },
    }
}

/// Performs one poll's batch: decodes each value update for the subscribed
/// path, drops everything else, and ends with the next poll request.
fn process_batch(char_path: &String, evs: Vec<HostEvent>, poll_ms: u64) -> (acts: Vec<Action>)
    ensures
        acts_view(acts@) == batch_pubs(char_path@, host_evs_view(evs@)) + seq![
            ActionV::Poll(poll_ms),
        ],
{
    let ghost evv = host_evs_view(evs@);
    let ghost total = evv.len();
    let mut evs = evs;
    let mut acts: Vec<Action> = Vec::new();
    let mut done: usize = 0;
    let n0 = evs.len();
    proof {
        assert(total == n0 as int);
        assert(evv.take(0) =~= Seq::<HostEventV>::empty());
        assert(acts_view(acts@) =~= Seq::<ActionV>::empty());
    }
    while evs.len() > 0
        invariant
            done + evs@.len() == total,
            total <= usize::MAX,
            evv.len() == total,
            host_evs_view(evs@) == evv.subrange(done as int, total as int),
            acts_view(acts@) == batch_pubs(char_path@, evv.take(done as int)),
        decreases evs@.len(),
    {
        let ghost pre = evs@;
        let ev = evs.remove(0);
        proof {
            assert(ev@ == host_evs_view(pre)[0]);
            assert(host_evs_view(evs@) =~= evv.subrange(done + 1, total as int)) by {
                assert forall|k: int| 0 <= k < evs@.len() implies host_evs_view(evs@)[k]
                    == evv.subrange(done + 1, total as int)[k] by {
                    assert(evs@[k] == pre.remove(0)[k]);
                    assert(pre.remove(0)[k] == pre[k + 1]);
                    assert(host_evs_view(pre)[k + 1] == pre[k + 1]@);
                }
            };
            assert(evv.take(done + 1).drop_last() =~= evv.take(done as int));
            assert(evv.take(done + 1).last() == evv[done as int]);
        }
        match ev {
            HostEvent::Value { object_path, value } => {
                if object_path == *char_path {
                    match decode_payload(&value) {
                        Ok(smp) => {
                            let ghost before = acts_view(acts@);
                            acts.push(
                                Action::PublishTemperature(
                                    format_temperature(smp.temperature.as_str()),
                                ),
                            );
                            acts.push(
                                Action::PublishHumidity(format_humidity(smp.humidity.as_str())),
                            );
                            acts.push(
                                Action::PublishPressure(format_pressure(smp.pressure.as_str())),
                            );
                            proof {
                                assert(acts_view(acts@) =~= before + event_pubs(
                                    char_path@,
                                    evv[done as int],
                                ));
                            }
                        },
                        Err(_) => {
                            proof {
                                assert(event_pubs(char_path@, evv[done as int])
                                    =~= Seq::<ActionV>::empty());
                                assert(acts_view(acts@) =~= acts_view(acts@) + event_pubs(
                                    char_path@,
                                    evv[done as int],
                                ));
                            }
                        },
                    }
                } else {
                    proof {
                        assert(event_pubs(char_path@, evv[done as int])
                            =~= Seq::<ActionV>::empty());
                        assert(acts_view(acts@) =~= acts_view(acts@) + event_pubs(
                            char_path@,
                            evv[done as int],
                        ));
                    }
                }
            },
            HostEvent::Other => {
                proof {
                    assert(event_pubs(char_path@, evv[done as int]) =~= Seq::<ActionV>::empty());
                    assert(acts_view(acts@) =~= acts_view(acts@) + event_pubs(
                        char_path@,
                        evv[done as int],
                    ));
                }
            },
        }
        proof {
            assert(acts_view(acts@) =~= batch_pubs(char_path@, evv.take(done + 1)));
        }
        done += 1;
    }
    proof {
        assert(evv.take(total as int) =~= evv);
    }
    acts.push(Action::Poll(poll_ms));
    proof {
        assert(acts_view(acts@) =~= batch_pubs(char_path@, evv) + seq![ActionV::Poll(poll_ms)]);
    }
    acts
}

/// One step of the worker: performs the transition of [`spec_step`] on the
/// given state and event, returning the next state and the actions the
/// shell must perform, in order.
pub fn step(s: Phase, cfg: &Config, e: Event) -> (r: (Phase, Vec<Action>))
    ensures
        r.0@ == spec_step(cfg@, s@, e@).0,
        acts_view(r.1@) == spec_step(cfg@, s@, e@).1,
{
    match s {
        Phase::Idle => match e {
            Event::Cmd(Command::Start) => {
                let acts = vec![Action::SetPowered];
                proof {
                    assert(acts_view(acts@) =~= seq![ActionV::SetPowered]);
                }
                (Phase::Powering, acts)
            },
            Event::Cmd(Command::Quit) => {
                let acts = vec![Action::Exit];
                proof {
                    assert(acts_view(acts@) =~= seq![ActionV::Exit]);
                }
                (Phase::Terminal, acts)
            },
            _ => {
                let acts: Vec<Action> = Vec::new();
                proof {
                    assert(acts_view(acts@) =~= Seq::<ActionV>::empty());
                }
                (Phase::Idle, acts)
            },
        },
        Phase::Powering => match e {
            Event::PowerOk => {
                let acts = vec![Action::StartDiscovery];
                proof {
                    assert(acts_view(acts@) =~= seq![ActionV::StartDiscovery]);
                }
                (Phase::Discovering, acts)
            },
            Event::PowerFailed => {
                let acts = vec![Action::PublishInfo(error_status(CoreError::AdapterUnavailable))];
                proof {
                    assert(acts_view(acts@) =~= seq![
                        ActionV::PublishInfo(error_label(CoreError::AdapterUnavailable)),
                    ]);
                }
                (Phase::Idle, acts)
            },
            Event::Cmd(Command::Stop) => {
                let acts: Vec<Action> = Vec::new();
                proof {
                    assert(acts_view(acts@) =~= Seq::<ActionV>::empty());
                }
                (Phase::Idle, acts)
            },
            Event::Cmd(Command::Quit) => {
                let acts = vec![Action::Exit];
                proof {
                    assert(acts_view(acts@) =~= seq![ActionV::Exit]);
                }
                (Phase::Terminal, acts)
            },
            _ => {
                let acts: Vec<Action> = Vec::new();
                proof {
                    assert(acts_view(acts@) =~= Seq::<ActionV>::empty());
                }
                (Phase::Powering, acts)
            },
        },
        Phase::Discovering => match e {
            Event::DiscoveryStarted => {
                let acts = vec![Action::Sleep(cfg.scan_ms)];
                proof {
                    assert(acts_view(acts@) =~= seq![ActionV::Sleep(cfg@.scan_ms)]);
                }
                (Phase::ScanWait, acts)
            },
            Event::DiscoveryStartFailed => {
                let acts = vec![
                    Action::StopDiscovery,
                    Action::PublishInfo(error_status(CoreError::DiscoveryFailed)),
                ];
                proof {
                    assert(acts_view(acts@) =~= seq![
                        ActionV::StopDiscovery,
                        ActionV::PublishInfo(error_label(CoreError::DiscoveryFailed)),
                    ]);
                }
                (Phase::Idle, acts)
            },
            Event::Cmd(Command::Stop) => {
                let acts = vec![Action::StopDiscovery];
                proof {
                    assert(acts_view(acts@) =~= seq![ActionV::StopDiscovery]);
                }
                (Phase::Idle, acts)
            },
            Event::Cmd(Command::Quit) => {
                let acts = vec![Action::StopDiscovery, Action::Exit];
                proof {
                    assert(acts_view(acts@) =~= seq![ActionV::StopDiscovery, ActionV::Exit]);
                }
                (Phase::Terminal, acts)
            },
            _ => {
                let acts: Vec<Action> = Vec::new();
                proof {
                    assert(acts_view(acts@) =~= Seq::<ActionV>::empty());
                }
                (Phase::Discovering, acts)
            },
        },
        Phase::ScanWait => match e {
            Event::ScanElapsed => {
                let acts = vec![Action::StopDiscovery, Action::ListDevices];
                proof {
                    assert(acts_view(acts@) =~= seq![ActionV::StopDiscovery, ActionV::ListDevices]);
                }
                (Phase::Listing, acts)
            },
            Event::Cmd(Command::Stop) => {
                let acts = vec![Action::StopDiscovery];
                proof {
                    assert(acts_view(acts@) =~= seq![ActionV::StopDiscovery]);
                }
                (Phase::Idle, acts)
            },
            Event::Cmd(Command::Quit) => {
                let acts = vec![Action::StopDiscovery, Action::Exit];
                proof {
                    assert(acts_view(acts@) =~= seq![ActionV::StopDiscovery, ActionV::Exit]);
                }
                (Phase::Terminal, acts)
            },
            _ => {
                let acts: Vec<Action> = Vec::new();
                proof {
                    assert(acts_view(acts@) =~= Seq::<ActionV>::empty());
                }
                (Phase::ScanWait, acts)
            },
        },
        Phase::Listing => match e {
            Event::Devices(ds) => {
                match select_target(&cfg.target, &ds) {
                    Some(path) => {
                        let target = path.clone();
                        let acts = vec![
                            Action::Connect { path, timeout_ms: cfg.connect_timeout_ms },
                        ];
                        proof {
                            assert(acts_view(acts@) =~= seq![
                                ActionV::Connect {
                                    path: target@,
                                    timeout_ms: cfg@.connect_timeout_ms,
                                },
                            ]);
                        }
                        (Phase::Connecting { target }, acts)
                    },
                    None => {
                        let acts = vec![
                            Action::PublishInfo(error_status(CoreError::NoTargetDevice)),
                        ];
                        proof {
                            assert(acts_view(acts@) =~= seq![
                                ActionV::PublishInfo(error_label(CoreError::NoTargetDevice)),
                            ]);
                        }
                        (Phase::Idle, acts)
                    },
                }
            },
            Event::Cmd(Command::Stop) => {
                let acts: Vec<Action> = Vec::new();
                proof {
                    assert(acts_view(acts@) =~= Seq::<ActionV>::empty());
                }
                (Phase::Idle, acts)
            },
            Event::Cmd(Command::Quit) => {
                let acts = vec![Action::Exit];
                proof {
                    assert(acts_view(acts@) =~= seq![ActionV::Exit]);
                }
                (Phase::Terminal, acts)
            },
            _ => {
                let acts: Vec<Action> = Vec::new();
                proof {
                    assert(acts_view(acts@) =~= Seq::<ActionV>::empty());
                }
                (Phase::Listing, acts)
            },
        },
        Phase::Connecting { target } => match e {
            Event::ConnectOk => {
                let acts = vec![
                    Action::PublishInfo(info_connecting()),
                    Action::Sleep(cfg.settle_ms),
                ];
                proof {
                    assert(acts_view(acts@) =~= seq![
                        ActionV::PublishInfo("Status: Connecting ..."@),
                        ActionV::Sleep(cfg@.settle_ms),
                    ]);
                }
                (Phase::Settling { target }, acts)
            },
            Event::ConnectFailed => {
                let acts: Vec<Action> = Vec::new();
                proof {
                    assert(acts_view(acts@) =~= Seq::<ActionV>::empty());
                }
                (Phase::Idle, acts)
            },
            Event::Cmd(Command::Stop) => {
                let acts: Vec<Action> = Vec::new();
                proof {
                    assert(acts_view(acts@) =~= Seq::<ActionV>::empty());
                }
                (Phase::Idle, acts)
            },
            Event::Cmd(Command::Quit) => {
                let acts = vec![Action::Exit];
                proof {
                    assert(acts_view(acts@) =~= seq![ActionV::Exit]);
                }
                (Phase::Terminal, acts)
            },
            _ => {
                let acts: Vec<Action> = Vec::new();
                proof {
                    assert(acts_view(acts@) =~= Seq::<ActionV>::empty());
                }
                (Phase::Connecting { target }, acts)
            },
        },
        Phase::Settling { target } => match e {
            Event::Settled => match &cfg.char_mode {
                CharMode::Auto => {
                    let acts = vec![Action::FetchGatt];
                    proof {
                        assert(acts_view(acts@) =~= seq![ActionV::FetchGatt]);
                    }
                    (Phase::Resolving { target }, acts)
                },
                CharMode::Pinned(sub) => {
                    let full = target.concat(sub.as_str());
                    let full2 = full.clone();
                    let acts = vec![Action::StartNotify(full)];
                    proof {
                        assert(acts_view(acts@) =~= seq![ActionV::StartNotify(full2@)]);
                    }
                    (Phase::Subscribing { char_path: full2 }, acts)
                },
            },
            Event::Cmd(Command::Stop) => {
                let acts = vec![Action::Disconnect];
                proof {
                    assert(acts_view(acts@) =~= seq![ActionV::Disconnect]);
                }
                (Phase::Idle, acts)
            },
            Event::Cmd(Command::Quit) => {
                let acts = vec![Action::Disconnect, Action::Exit];
                proof {
                    assert(acts_view(acts@) =~= seq![ActionV::Disconnect, ActionV::Exit]);
                }
                (Phase::Terminal, acts)
            },
            _ => {
                let acts: Vec<Action> = Vec::new();
                proof {
                    assert(acts_view(acts@) =~= Seq::<ActionV>::empty());
                }
                (Phase::Settling { target }, acts)
            },
        },
        Phase::Resolving { target } => match e {
            Event::GattTree(tree) => match tree {
                None => {
                    let acts = vec![
                        Action::PublishInfo(error_status(CoreError::GattWalkFailed)),
                        Action::Disconnect,
                    ];
                    proof {
                        assert(acts_view(acts@) =~= seq![
                            ActionV::PublishInfo(error_label(CoreError::GattWalkFailed)),
                            ActionV::Disconnect,
                        ]);
                    }
                    (Phase::Idle, acts)
                },
                Some(services) => match find_characteristic_path(&services) {
                    Some(p) => {
                        let p2 = p.clone();
                        let acts = vec![Action::StartNotify(p)];
                        proof {
                            assert(acts_view(acts@) =~= seq![ActionV::StartNotify(p2@)]);
                        }
                        (Phase::Subscribing { char_path: p2 }, acts)
                    },
                    None => {
                        let acts = vec![
                            Action::PublishInfo(error_status(CoreError::NotifyStartFailed)),
                            Action::Disconnect,
                        ];
                        proof {
                            assert(acts_view(acts@) =~= seq![
                                ActionV::PublishInfo(error_label(CoreError::NotifyStartFailed)),
                                ActionV::Disconnect,
                            ]);
                        }
                        (Phase::Idle, acts)
                    },
                },
            },
            Event::Cmd(Command::Stop) => {
                let acts = vec![Action::Disconnect];
                proof {
                    assert(acts_view(acts@) =~= seq![ActionV::Disconnect]);
                }
                (Phase::Idle, acts)
            },
            Event::Cmd(Command::Quit) => {
                let acts = vec![Action::Disconnect, Action::Exit];
                proof {
                    assert(acts_view(acts@) =~= seq![ActionV::Disconnect, ActionV::Exit]);
                }
                (Phase::Terminal, acts)
            },
            _ => {
                let acts: Vec<Action> = Vec::new();
                proof {
                    assert(acts_view(acts@) =~= Seq::<ActionV>::empty());
                }
                (Phase::Resolving { target }, acts)
            },
        },
        Phase::Subscribing { char_path } => match e {
            Event::NotifyOk => {
                let acts = vec![
                    Action::PublishInfo(info_triggered()),
                    Action::Poll(cfg.poll_ms),
                ];
                proof {
                    assert(acts_view(acts@) =~= seq![
                        ActionV::PublishInfo("Status: Triggered notification"@),
                        ActionV::Poll(cfg@.poll_ms),
                    ]);
                }
                (Phase::Notifying { char_path }, acts)
            },
            Event::NotifyFailed => {
                let acts = vec![
                    Action::PublishInfo(error_status(CoreError::NotifyStartFailed)),
                    Action::Disconnect,
                ];
                proof {
                    assert(acts_view(acts@) =~= seq![
                        ActionV::PublishInfo(error_label(CoreError::NotifyStartFailed)),
                        ActionV::Disconnect,
                    ]);
                }
                (Phase::Idle, acts)
            },
            Event::Cmd(Command::Stop) => {
                let acts = vec![Action::Disconnect];
                proof {
                    assert(acts_view(acts@) =~= seq![ActionV::Disconnect]);
                }
                (Phase::Idle, acts)
            },
            Event::Cmd(Command::Quit) => {
                let acts = vec![Action::Disconnect, Action::Exit];
                proof {
                    assert(acts_view(acts@) =~= seq![ActionV::Disconnect, ActionV::Exit]);
                }
                (Phase::Terminal, acts)
            },
            _ => {
                let acts: Vec<Action> = Vec::new();
                proof {
                    assert(acts_view(acts@) =~= Seq::<ActionV>::empty());
                }
                (Phase::Subscribing { char_path }, acts)
            },
        },
        Phase::Notifying { char_path } => match e {
            Event::Batch(evs) => {
                let acts = process_batch(&char_path, evs, cfg.poll_ms);
                (Phase::Notifying { char_path }, acts)
            },
            Event::Cmd(Command::Stop) => {
                let acts = vec![
                    Action::StopNotify(char_path.clone()),
                    Action::Disconnect,
                    Action::PublishInfo(info_stopped()),
                ];
                proof {
                    assert(acts_view(acts@) =~= seq![
                        ActionV::StopNotify(char_path@),
                        ActionV::Disconnect,
                        ActionV::PublishInfo("Status: Notification stoped"@),
                    ]);
                }
                (Phase::Idle, acts)
            },
            Event::Cmd(Command::Quit) => {
                let acts = vec![
                    Action::StopNotify(char_path.clone()),
                    Action::Disconnect,
                    Action::Exit,
                ];
                proof {
                    assert(acts_view(acts@) =~= seq![
                        ActionV::StopNotify(char_path@),
                        ActionV::Disconnect,
                        ActionV::Exit,
                    ]);
                }
                (Phase::Terminal, acts)
            },
            _ => {
                let acts: Vec<Action> = Vec::new();
                proof {
                    assert(acts_view(acts@) =~= Seq::<ActionV>::empty());
                }
                (Phase::Notifying { char_path }, acts)
            },
        },
        Phase::Terminal => {
            let acts: Vec<Action> = Vec::new();
            proof {
                assert(acts_view(acts@) =~= Seq::<ActionV>::empty());
            }
            (Phase::Terminal, acts)
        },
    }
}

} // verus!

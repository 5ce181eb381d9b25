//! One session of the tester: its point table, its counters and its place in
//! the connection lifecycle.
//!
//! The session decides and records; the embedding program performs. A call
//! that needs the protocol engine returns a plan, the program carries it out,
//! and reports how it ended with the matching `complete_*` call.

use vstd::prelude::*;
use crate::binary64::{exceeds_half, value_exceeds_half};
use crate::clock::now_millis;
use crate::control::{control_plan, plan_control, ControlPlan, VERIFY_DELAY_MS};
use crate::engine::{check_endpoint_address, is_endpoint_address, special_address_text};
use crate::error::{EngineFailure, EngineStage, ServiceError, ServiceErrorView};
use crate::models::{
    Configuration, ConnectionType, DataPoint, DataPointType, DataPointView, DataQuality,
    DeviceConfiguration, DeviceRole, VALUE_ONE, VALUE_ZERO,
};
use crate::point_table::{
    all_cleared, configured_table, database_point_of, has_point, lemma_position_of, mirror_of,
    position_of, simulated_table, unique_keys, with_update, DatabasePoint, DatabaseUpdate,
    PointTable,
};
use crate::telemetry::{LogDirection, LogStore, LogStoreView, ProtocolLogEntry, RawFrame};
use crate::text::{
    chars_equal_ignoring_case, chars_of, decimal, equal_ignoring_case, push_decimal, push_str,
    string_of,
};

verus! {

/// Time given to the engine to release a master's sockets and ports before a
/// new start, in milliseconds.
pub const MASTER_GRACE_MS: u64 = 100;

/// Time given to the engine to release an outstation's listener before a new
/// start, in milliseconds.
pub const OUTSTATION_GRACE_MS: u64 = 200;

/// Period of the outstation simulator, in milliseconds.
pub const SIMULATION_PERIOD_MS: u64 = 2000;

/// Baud rate of a serial transport for which none was given.
pub const DEFAULT_BAUD_RATE: u32 = 9600;

/// Bit pattern of the binary32 number two, the one request that selects two
/// stop bits.
pub const TWO_STOP_BITS: u32 = 0x4000_0000;

/// Outputs with an index from here up cannot be selected.
pub const SELECT_INDEX_LIMIT: u16 = 100;

/// Flag bit that reports a measurement as online.
pub const FLAG_ONLINE: u8 = 0x01;

/// Counters of one session. They only ever grow, and stay at the top of
/// their range once they reach it.
#[derive(Debug, Clone, Copy, PartialEq, Eq, Structural)]
pub struct Statistics {
    pub tx_count: u32,
    pub rx_count: u32,
    pub error_count: u32,
}

impl Default for Statistics {
    fn default() -> (stats: Self)
        ensures
            stats == (Statistics { tx_count: 0, rx_count: 0, error_count: 0 }),
    {
        Statistics { tx_count: 0, rx_count: 0, error_count: 0 }
    }
}

/// A counter after one more event.
pub open spec fn bumped(n: u32) -> u32 {
    if n < u32::MAX {
        (n + 1) as u32
    } else {
        n
    }
}

impl Statistics {
    /// The counters after one request was sent.
    pub open spec fn sent(self) -> Statistics {
        Statistics { tx_count: bumped(self.tx_count), ..self }
    }

    /// The counters after one response was received.
    pub open spec fn received(self) -> Statistics {
        Statistics { rx_count: bumped(self.rx_count), ..self }
    }

    /// The counters after one request was sent and answered.
    pub open spec fn exchanged(self) -> Statistics {
        self.sent().received()
    }

    fn count_sent(&mut self)
        ensures
            *final(self) == old(self).sent(),
    {
        self.tx_count = self.tx_count.saturating_add(1);
    }

    fn count_received(&mut self)
        ensures
            *final(self) == old(self).received(),
    {
        self.rx_count = self.rx_count.saturating_add(1);
    }
}

/// Where a session stands in the connection lifecycle.
#[derive(Debug, Clone, Copy, PartialEq, Eq, Structural)]
pub enum LinkState {
    /// No connection resources are held.
    Idle,
    /// A start in the given role was planned and has not been completed.
    Starting(DeviceRole),
    /// A master channel and its association are live.
    ActiveMaster,
    /// An outstation is live, behind a listener or on a serial line.
    ActiveOutstation { listening: bool },
}

/// Data bits of a serial line.
#[derive(Debug, Clone, Copy, PartialEq, Eq, Structural)]
pub enum DataBits {
    Five,
    Six,
    Seven,
    Eight,
}

/// Parity of a serial line.
#[derive(Debug, Clone, Copy, PartialEq, Eq, Structural)]
pub enum Parity {
    NoParity,
    Odd,
    Even,
}

/// Stop bits of a serial line.
#[derive(Debug, Clone, Copy, PartialEq, Eq, Structural)]
pub enum StopBits {
    One,
    Two,
}

/// Settings of a serial line. Flow control is never used.
#[derive(Debug, Clone, Copy, PartialEq, Eq, Structural)]
pub struct SerialSettings {
    pub baud_rate: u32,
    pub data_bits: DataBits,
    pub parity: Parity,
    pub stop_bits: StopBits,
}

/// The transport of a connection.
#[derive(Debug)]
pub enum Transport {
    /// A TCP endpoint: the peer for a master, the listener for an outstation.
    Tcp { ip_address: String, port: u16 },
    /// A serial port.
    Serial { path: String, settings: SerialSettings },
}

/// Mathematical model of a [`Transport`].
pub enum TransportView {
    Tcp { ip_address: Seq<char>, port: u16 },
    Serial { path: Seq<char>, settings: SerialSettings },
}

impl View for Transport {
    type V = TransportView;

    open spec fn view(&self) -> TransportView {
        match *self {
            Transport::Tcp { ip_address, port } => TransportView::Tcp {
                ip_address: ip_address@,
                port,
            },
            Transport::Serial { path, settings } => TransportView::Serial { path: path@, settings },
        }
    }
}

/// What the embedding program does to start a connection: drop whatever
/// engine resources the session held, wait `grace_ms`, then bring up the
/// engine in the given role with these addresses and this transport. With
/// `decode_everything` the engine reports all that it decodes, down to the
/// bytes on the wire. An outstation's point database starts with the entries
/// of `database`.
#[derive(Debug)]
pub struct StartPlan {
    pub role: DeviceRole,
    pub grace_ms: u64,
    pub local_address: u16,
    pub remote_address: u16,
    pub transport: Transport,
    pub decode_everything: bool,
    pub database: Vec<DatabasePoint>,
}

/// Mathematical model of a [`StartPlan`].
pub struct StartPlanView {
    pub role: DeviceRole,
    pub grace_ms: u64,
    pub local_address: u16,
    pub remote_address: u16,
    pub transport: TransportView,
    pub decode_everything: bool,
    pub database: Seq<DatabasePoint>,
}

impl View for StartPlan {
    type V = StartPlanView;

    open spec fn view(&self) -> StartPlanView {
        StartPlanView {
            role: self.role,
            grace_ms: self.grace_ms,
            local_address: self.local_address,
            remote_address: self.remote_address,
            transport: self.transport@,
            decode_everything: self.decode_everything,
            database: self.database@,
        }
    }
}

/// The data bits that a configuration asks for: five, six or seven where it
/// says so, eight for anything else.
pub open spec fn data_bits_of(data_bits: Option<u8>) -> DataBits {
    match data_bits {
        Some(5) => DataBits::Five,
        Some(6) => DataBits::Six,
        Some(7) => DataBits::Seven,
        _ => DataBits::Eight,
    }
}

/// The parity that a configuration asks for: `even` or `odd` in any case of
/// letters, none for anything else.
pub open spec fn parity_of(parity: Option<String>) -> Parity {
    match parity {
        Some(word) => if equal_ignoring_case(word@, "even"@) {
            Parity::Even
        } else if equal_ignoring_case(word@, "odd"@) {
            Parity::Odd
        } else {
            Parity::NoParity
        },
        None => Parity::NoParity,
    }
}

/// The stop bits that a configuration asks for: two for the number two, one
/// for anything else. One and a half has no counterpart and counts as one.
pub open spec fn stop_bits_of(stop_bits: Option<u32>) -> StopBits {
    if stop_bits == Some(TWO_STOP_BITS) {
        StopBits::Two
    } else {
        StopBits::One
    }
}

/// The serial settings of a configuration.
pub open spec fn serial_settings_of(config: Configuration) -> SerialSettings {
    SerialSettings {
        baud_rate: match config.baud_rate {
            Some(rate) => rate,
            None => DEFAULT_BAUD_RATE,
        },
        data_bits: data_bits_of(config.data_bits),
        parity: parity_of(config.parity),
        stop_bits: stop_bits_of(config.stop_bits),
    }
}

/// The transport of a configuration: the serial port where one is asked for
/// and named, TCP in every other case.
pub open spec fn transport_of(config: Configuration) -> TransportView {
    match (config.connection_type, config.serial_port) {
        (ConnectionType::Serial, Some(path)) => TransportView::Serial {
            path: path@,
            settings: serial_settings_of(config),
        },
        _ => TransportView::Tcp { ip_address: config.ip_address@, port: config.port },
    }
}

/// Whether a configuration asks for a serial transport without naming a port.
pub open spec fn serial_port_missing(config: Configuration) -> bool {
    config.connection_type == ConnectionType::Serial && config.serial_port is None
}

/// The configuration error that stops a start in the given role, if any. The
/// local address is looked at first; a master then wants its serial port
/// before its remote address, an outstation its remote address before its
/// serial port.
pub open spec fn start_error(config: Configuration, role: DeviceRole) -> Option<ServiceErrorView> {
    let local = ServiceErrorView::InvalidLocalAddress {
        detail: special_address_text(config.local_address),
    };
    let remote = ServiceErrorView::InvalidRemoteAddress {
        detail: special_address_text(config.remote_address),
    };
    let port = ServiceErrorView::SerialPortNotConfigured;
    if !is_endpoint_address(config.local_address) {
        Some(local)
    } else {
        match role {
            DeviceRole::Master => if serial_port_missing(config) {
                Some(port)
            } else if !is_endpoint_address(config.remote_address) {
                Some(remote)
            } else {
                None
            },
            DeviceRole::Outstation => if !is_endpoint_address(config.remote_address) {
                Some(remote)
            } else if serial_port_missing(config) {
                Some(port)
            } else {
                None
            },
        }
    }
}

/// The grace period of a role.
pub open spec fn grace_of(role: DeviceRole) -> u64 {
    match role {
        DeviceRole::Master => MASTER_GRACE_MS,
        DeviceRole::Outstation => OUTSTATION_GRACE_MS,
    }
}

/// The plan of a start in the given role, for a session that holds `points`.
/// Decoding is always at its fullest, so that every frame can be captured.
pub open spec fn start_plan(
    config: Configuration,
    role: DeviceRole,
    points: Seq<DataPointView>,
) -> StartPlanView {
    StartPlanView {
        role,
        grace_ms: grace_of(role),
        local_address: config.local_address,
        remote_address: config.remote_address,
        transport: transport_of(config),
        decode_everything: true,
        database: match role {
            DeviceRole::Master => Seq::empty(),
            DeviceRole::Outstation => points.map_values(|p: DataPointView| database_point_of(p)),
        },
    }
}

/// The state in which a completed start leaves the link.
pub open spec fn active_link(plan: StartPlanView) -> LinkState {
    match plan.role {
        DeviceRole::Master => LinkState::ActiveMaster,
        DeviceRole::Outstation => LinkState::ActiveOutstation {
            listening: plan.transport is Tcp,
        },
    }
}

/// The log line of a completed start.
pub open spec fn started_text(plan: StartPlanView) -> Seq<char> {
    match plan.role {
        DeviceRole::Master => "Master connected"@,
        DeviceRole::Outstation => match plan.transport {
            TransportView::Tcp { .. } => "Outstation started"@,
            TransportView::Serial { path, .. } => "Outstation started on serial "@ + path,
        },
    }
}

/// The serial port of a plan; empty for a TCP transport.
pub open spec fn port_of(plan: StartPlanView) -> Seq<char> {
    match plan.transport {
        TransportView::Tcp { .. } => Seq::empty(),
        TransportView::Serial { path, .. } => path,
    }
}

/// The error of a report on a start: the report is out of place unless the
/// session is starting in the role of the plan, and a failed engine call is
/// passed on with the serial port of the plan.
pub open spec fn start_failure(
    link: LinkState,
    plan: StartPlanView,
    outcome: Result<(), EngineFailure>,
) -> Option<ServiceErrorView> {
    if link != LinkState::Starting(plan.role) {
        Some(ServiceErrorView::NotStarting)
    } else {
        match outcome {
            Ok(_) => None,
            Err(failure) => Some(
                ServiceErrorView::Engine {
                    stage: failure.stage,
                    port: port_of(plan),
                    detail: failure.detail@,
                },
            ),
        }
    }
}

/// The store after a report on a start at time `now`: a start that
/// succeeded is logged, nothing else is.
pub open spec fn started_store(
    store: LogStoreView,
    link: LinkState,
    plan: StartPlanView,
    outcome: Result<(), EngineFailure>,
    now: i64,
) -> LogStoreView {
    if start_failure(link, plan, outcome) is None {
        store.with_log(LogDirection::System, started_text(plan), 0, now)
    } else {
        store
    }
}

/// The quality that a measurement's flags report: online where the online
/// bit is set, offline where it is not.
pub open spec fn quality_of_flags(flags: u8) -> DataQuality {
    if flags & FLAG_ONLINE != 0 {
        DataQuality::Online
    } else {
        DataQuality::Offline
    }
}

/// The store after a session was asked for a read at time `now`: the scan
/// of a session with an association and the simulated read of a connected
/// session are logged, a refusal is not.
pub open spec fn read_store(store: LogStoreView, service: ServiceView, now: i64) -> LogStoreView {
    if service.has_association() {
        store.with_log(LogDirection::Tx, "READ Class 0,1,2,3 (Integrity Poll)"@, 0, now)
    } else if service.connected {
        store.with_log(LogDirection::Tx, "Simulated READ (serial)"@, 0, now)
    } else {
        store
    }
}

/// The answer to a request for a read: a scan with an association, a
/// simulated read for a connected session, a refusal otherwise.
pub open spec fn read_step(service: ServiceView) -> Option<ReadStep> {
    if service.has_association() {
        Some(ReadStep::Scan)
    } else if service.connected {
        Some(ReadStep::Simulated)
    } else {
        None
    }
}

/// The warning that is due when the verification read after a control has
/// failed. The control itself stays a success.
pub open spec fn verification_warning_text(detail: Seq<char>) -> Seq<char> {
    "Verification read failed: "@ + detail
}

/// What the embedding program does after a read was asked for.
#[derive(Debug, Clone, Copy, PartialEq, Eq, Structural)]
pub enum ReadStep {
    /// Ask the engine for a scan of classes 0 to 3, then report with
    /// `complete_read`.
    Scan,
    /// Nothing: the read was simulated.
    Simulated,
}

/// What the embedding program does after a control was asked for.
#[derive(Debug)]
pub enum ControlStep {
    /// Ask the engine to operate the plan, then report with
    /// `complete_control`.
    Operate(ControlPlan),
    /// Nothing: the control was applied to the local table. The message is
    /// for the operator.
    Simulated { message: String },
}

/// How a control ended: the message for the operator, and the delay after
/// which the embedding program issues a verification read of classes 0 to 3,
/// if it is to issue one. A failure of that read is worth a warning and
/// nothing more.
#[derive(Debug)]
pub struct ControlReport {
    pub message: String,
    pub verify_after_ms: Option<u64>,
}

/// The message of a control that the engine operated.
pub open spec fn executed_text(label: Seq<char>) -> Seq<char> {
    label + " Control executed"@
}

/// The message of a control that was applied to the local table.
pub open spec fn simulated_text(label: Seq<char>) -> Seq<char> {
    label + " Control executed (simulated)"@
}

/// An operation that an outstation is asked to perform on a binary output.
#[derive(Debug, Clone, Copy, PartialEq, Eq, Structural)]
pub enum ControlOp {
    LatchOn,
    LatchOff,
    /// Pulses and whatever else the protocol knows.
    Other,
}

/// An outstation's answer to a command.
#[derive(Debug, Clone, Copy, PartialEq, Eq, Structural)]
pub enum CommandStatus {
    Success,
    NotSupported,
}

/// The value that an operation leaves in a binary output: one for latch on,
/// zero for anything else.
pub open spec fn latched_value(op: ControlOp) -> u64 {
    if op == ControlOp::LatchOn {
        VALUE_ONE
    } else {
        VALUE_ZERO
    }
}

/// Whether a binary output can be selected for an operation.
pub open spec fn binary_selectable(index: u16, op: ControlOp) -> bool {
    index < SELECT_INDEX_LIMIT && (op == ControlOp::LatchOn || op == ControlOp::LatchOff)
}

/// Whether an analog output can be selected.
pub open spec fn analog_selectable(index: u16) -> bool {
    index < SELECT_INDEX_LIMIT
}

/// The numeral written for the value of a binary output.
pub open spec fn latched_numeral(op: ControlOp) -> Seq<char> {
    if op == ControlOp::LatchOn {
        "1"@
    } else {
        "0"@
    }
}

/// The log line for a request on a binary output. `request` names the
/// request as the log does.
pub open spec fn binary_request_text(request: Seq<char>, index: u16, op: ControlOp) -> Seq<char> {
    request + " BinaryOutput["@ + decimal(index as nat) + "] = "@ + latched_numeral(op)
}

/// The log line for an operate on an analog output. `numeral` is the value
/// as the log shows it.
pub open spec fn analog_request_text(index: u16, numeral: Seq<char>) -> Seq<char> {
    "[FC=04 OPERATE] AnalogOutput["@ + decimal(index as nat) + "] = "@ + numeral
}

/// The store after an outstation logged a request and its answer at time
/// `now`.
pub open spec fn with_exchange(
    store: LogStoreView,
    request: Seq<char>,
    answer: Seq<char>,
    now: i64,
) -> LogStoreView {
    store.with_log(LogDirection::Rx, request, 0, now).with_log(LogDirection::Tx, answer, 0, now)
}

/// Mathematical model of a [`Dnp3Service`].
pub struct ServiceView {
    pub points: Seq<DataPointView>,
    pub stats: Statistics,
    pub connected: bool,
    pub link: LinkState,
}

impl ServiceView {
    /// A session that has done nothing yet.
    pub open spec fn fresh() -> ServiceView {
        ServiceView {
            points: Seq::empty(),
            stats: Statistics { tx_count: 0, rx_count: 0, error_count: 0 },
            connected: false,
            link: LinkState::Idle,
        }
    }

    /// The session after a configuration was applied at time `now`.
    pub open spec fn configured(self, config: DeviceConfiguration, now: i64) -> ServiceView {
        ServiceView { points: configured_table(config, now), ..self }
    }

    /// The session after a point was added at time `now`; unchanged if the
    /// table already has a point of this kind and index.
    pub open spec fn with_point(
        self,
        point_type: DataPointType,
        index: u16,
        name: Seq<char>,
        now: i64,
    ) -> ServiceView {
        if has_point(self.points, point_type, index) {
            self
        } else {
            ServiceView {
                points: self.points.push(
                    DataPointView::fresh(point_type, index, name, DataQuality::Online, now),
                ),
                ..self
            }
        }
    }

    /// Whether the session has a live master association.
    pub open spec fn has_association(self) -> bool {
        self.link == LinkState::ActiveMaster
    }

    /// The session after the teardown that opens every start: no connection
    /// resources, every point cleared.
    pub open spec fn torn_down(self) -> ServiceView {
        ServiceView { points: all_cleared(self.points), link: LinkState::Idle, ..self }
    }

    /// The session after a start in the given role was asked for.
    pub open spec fn start(self, config: Configuration, role: DeviceRole) -> ServiceView {
        if start_error(config, role) is None {
            ServiceView { link: LinkState::Starting(role), ..self.torn_down() }
        } else {
            self.torn_down()
        }
    }

    /// The session after the program reported how a start ended. A start
    /// that succeeded leaves the session active and connected; one that the
    /// engine refused leaves it idle and not connected, whatever it was
    /// before. A report that is out of place changes nothing.
    pub open spec fn complete_start(self, plan: StartPlanView, succeeded: bool) -> ServiceView {
        if self.link != LinkState::Starting(plan.role) {
            self
        } else if succeeded {
            ServiceView { link: active_link(plan), connected: true, ..self }
        } else {
            ServiceView { link: LinkState::Idle, connected: false, ..self }
        }
    }

    /// The session after a disconnect.
    pub open spec fn disconnected(self) -> ServiceView {
        ServiceView { connected: false, link: LinkState::Idle, ..self }
    }

    /// The session after a read was asked for.
    pub open spec fn read(self) -> ServiceView {
        if !self.has_association() && self.connected {
            ServiceView { stats: self.stats.exchanged(), ..self }
        } else {
            self
        }
    }

    /// The outcome of asking for a control: an error, a plan for the engine,
    /// or nothing more to do.
    pub open spec fn control_error(self, point_type: DataPointType) -> Option<ServiceErrorView> {
        if !self.has_association() && !self.connected {
            Some(ServiceErrorView::NotConnected)
        } else if point_type != DataPointType::BinaryOutput && point_type
            != DataPointType::AnalogOutput {
            Some(ServiceErrorView::UnsupportedControlPoint)
        } else {
            None
        }
    }

    /// The session after a control was asked for at time `now`. Only a
    /// control that is simulated changes the session: the point of this kind
    /// and index takes the value and goes online, and one request is counted
    /// as sent. A control on a point that the table lacks changes no point
    /// and is counted all the same.
    pub open spec fn control(
        self,
        point_type: DataPointType,
        index: u16,
        value: u64,
        now: i64,
    ) -> ServiceView {
        if self.control_error(point_type) is None && !self.has_association() {
            ServiceView {
                points: with_update(
                    self.points,
                    position_of(self.points, point_type, index),
                    value,
                    DataQuality::Online,
                    now,
                ),
                stats: self.stats.sent(),
                ..self
            }
        } else {
            self
        }
    }

    /// The session after a measurement arrived for `(point_type, index)` at
    /// time `now`. A measurement for a point that the table lacks is lost.
    pub open spec fn measured(
        self,
        point_type: DataPointType,
        index: u16,
        value: u64,
        flags: u8,
        now: i64,
    ) -> ServiceView {
        ServiceView {
            points: with_update(
                self.points,
                position_of(self.points, point_type, index),
                value,
                quality_of_flags(flags),
                now,
            ),
            ..self
        }
    }

    /// The session of an outstation after a control was operated on
    /// `(point_type, index)` at time `now`: the point takes the value and
    /// goes online. A control on a point that the table lacks leaves the
    /// table alone.
    pub open spec fn operated(
        self,
        point_type: DataPointType,
        index: u16,
        value: u64,
        now: i64,
    ) -> ServiceView {
        ServiceView {
            points: with_update(
                self.points,
                position_of(self.points, point_type, index),
                value,
                DataQuality::Online,
                now,
            ),
            ..self
        }
    }

    /// The session after one round of simulation at time `now`.
    pub open spec fn simulated(self, samples: Seq<u64>, now: i64) -> ServiceView {
        ServiceView { points: simulated_table(self.points, samples, now), ..self }
    }
}

/// Starting a master again while one is live gives up the association that
/// was live: between the second start and its completion the session holds
/// none, every point is offline at zero, and once the second start has
/// succeeded the session holds one association again.
pub proof fn lemma_restart_holds_one_association(
    service: ServiceView,
    first: Configuration,
    second: Configuration,
)
    requires
        start_error(first, DeviceRole::Master) is None,
        start_error(second, DeviceRole::Master) is None,
    ensures
        ({
            let one = service.start(first, DeviceRole::Master).complete_start(
                start_plan(first, DeviceRole::Master, all_cleared(service.points)),
                true,
            );
            let between = one.start(second, DeviceRole::Master);
            let two = between.complete_start(
                start_plan(second, DeviceRole::Master, between.points),
                true,
            );
            &&& one.has_association()
            &&& !between.has_association()
            &&& between.link == LinkState::Starting(DeviceRole::Master)
            &&& forall|i: int|
                0 <= i < between.points.len() ==> (#[trigger] between.points[i]).quality
                    == DataQuality::Offline && between.points[i].value == VALUE_ZERO
            &&& two.has_association()
            &&& two.connected
            &&& two.points == between.points
        }),
{
}

/// Whether no counter of `after` lies below its counterpart of `before`.
pub open spec fn counters_not_below(after: Statistics, before: Statistics) -> bool {
    &&& after.tx_count >= before.tx_count
    &&& after.rx_count >= before.rx_count
    &&& after.error_count >= before.error_count
}

/// Whether `after` holds the same points as `before`, each at its place with
/// its kind, index and name.
pub open spec fn same_points(after: Seq<DataPointView>, before: Seq<DataPointView>) -> bool {
    &&& after.len() == before.len()
    &&& forall|i: int|
        0 <= i < before.len() ==> {
            &&& (#[trigger] after[i]).point_type == before[i].point_type
            &&& after[i].index == before[i].index
            &&& after[i].name == before[i].name
        }
}

/// The counters of a session never fall, whatever is done with it.
pub proof fn lemma_counters_never_fall(
    service: ServiceView,
    config: Configuration,
    device: DeviceConfiguration,
    role: DeviceRole,
    plan: StartPlanView,
    succeeded: bool,
    point_type: DataPointType,
    index: u16,
    name: Seq<char>,
    value: u64,
    flags: u8,
    samples: Seq<u64>,
    now: i64,
)
    ensures
        counters_not_below(service.stats.sent(), service.stats),
        counters_not_below(service.stats.received(), service.stats),
        counters_not_below(service.stats.exchanged(), service.stats),
        counters_not_below(service.configured(device, now).stats, service.stats),
        counters_not_below(service.with_point(point_type, index, name, now).stats, service.stats),
        counters_not_below(service.start(config, role).stats, service.stats),
        counters_not_below(service.complete_start(plan, succeeded).stats, service.stats),
        counters_not_below(service.disconnected().stats, service.stats),
        counters_not_below(service.read().stats, service.stats),
        counters_not_below(service.control(point_type, index, value, now).stats, service.stats),
        counters_not_below(
            service.measured(point_type, index, value, flags, now).stats,
            service.stats,
        ),
        counters_not_below(service.operated(point_type, index, value, now).stats, service.stats),
        counters_not_below(service.simulated(samples, now).stats, service.stats),
{
}

/// No point is ever lost or renamed but by a new configuration or an explicit
/// clearing: connecting, disconnecting, reading, controlling, measuring and
/// simulating all leave every point at its place with its kind, index and
/// name.
pub proof fn lemma_points_survive(
    service: ServiceView,
    config: Configuration,
    role: DeviceRole,
    plan: StartPlanView,
    succeeded: bool,
    point_type: DataPointType,
    index: u16,
    value: u64,
    flags: u8,
    samples: Seq<u64>,
    now: i64,
)
    ensures
        same_points(service.start(config, role).points, service.points),
        same_points(service.complete_start(plan, succeeded).points, service.points),
        same_points(service.disconnected().points, service.points),
        same_points(service.read().points, service.points),
        same_points(service.control(point_type, index, value, now).points, service.points),
        same_points(service.measured(point_type, index, value, flags, now).points, service.points),
        same_points(service.operated(point_type, index, value, now).points, service.points),
        same_points(service.simulated(samples, now).points, service.points),
{
    lemma_position_of(service.points, point_type, index);
}

/// A start that the engine refuses leaves the session idle and not
/// connected, also where an earlier start had succeeded: such a session
/// simulates no read and no control, and its simulator stops.
pub proof fn lemma_refused_start_leaves_idle(
    service: ServiceView,
    config: Configuration,
    role: DeviceRole,
    point_type: DataPointType,
    index: u16,
    value: u64,
    now: i64,
)
    requires
        start_error(config, role) is None,
    ensures
        ({
            let plan = start_plan(config, role, all_cleared(service.points));
            let after = service.start(config, role).complete_start(plan, false);
            &&& after.link == LinkState::Idle
            &&& !after.connected
            &&& !after.has_association()
            &&& after.stats == service.stats
            &&& read_step(after) is None
            &&& after.read() == after
            &&& after.control_error(point_type) == Some(ServiceErrorView::NotConnected)
            &&& after.control(point_type, index, value, now) == after
        }),
{
}

/// A simulated control reaches the point of its own kind and no other: a
/// point of another kind keeps its value, its quality and its time, though
/// it have the same index.
pub proof fn lemma_control_keeps_other_kinds(
    service: ServiceView,
    point_type: DataPointType,
    index: u16,
    value: u64,
    now: i64,
)
    ensures
        service.control(point_type, index, value, now).points.len() == service.points.len(),
        forall|i: int|
            0 <= i < service.points.len() && (#[trigger] service.points[i]).point_type
                != point_type ==> service.control(point_type, index, value, now).points[i]
                == service.points[i],
{
    lemma_position_of(service.points, point_type, index);
}

/// A disconnect after a disconnect changes nothing.
pub proof fn lemma_disconnect_idempotent(service: ServiceView)
    ensures
        service.disconnected().disconnected() == service.disconnected(),
        !service.disconnected().connected,
        service.disconnected().link == LinkState::Idle,
{
}

/// Whatever a session held, a start leaves it idle or starting in the role
/// asked for, with every point offline at zero: a role is only ever entered
/// from the idle state, and starting twice holds one connection.
pub proof fn lemma_start_passes_through_idle(
    service: ServiceView,
    config: Configuration,
    role: DeviceRole,
)
    ensures
        service.torn_down().link == LinkState::Idle,
        service.start(config, role).link == LinkState::Idle || service.start(config, role).link
            == LinkState::Starting(role),
        service.start(config, role).points == all_cleared(service.points),
        forall|i: int|
            0 <= i < service.points.len() ==> {
                let point = #[trigger] service.start(config, role).points[i];
                point.quality == DataQuality::Offline && point.value == VALUE_ZERO
            },
        service.start(config, role).start(config, role).link == service.start(config, role).link,
{
}

/// One session of the tester.
#[derive(Debug)]
pub struct Dnp3Service {
    data_points: PointTable,
    stats: Statistics,
    connected: bool,
    link: LinkState,
}

impl View for Dnp3Service {
    type V = ServiceView;

    closed spec fn view(&self) -> ServiceView {
        ServiceView {
            points: self.data_points@,
            stats: self.stats,
            connected: self.connected,
            link: self.link,
        }
    }
}

/// Computes [`data_bits_of`].
fn decode_data_bits(data_bits: Option<u8>) -> (bits: DataBits)
    ensures
        bits == data_bits_of(data_bits),
{
    match data_bits {
        Some(5) => DataBits::Five,
        Some(6) => DataBits::Six,
        Some(7) => DataBits::Seven,
        _ => DataBits::Eight,
    }
}

/// Computes [`parity_of`].
fn decode_parity(parity: &Option<String>) -> (p: Parity)
    ensures
        p == parity_of(*parity),
{
    match parity {
        Some(word) => {
            let chars = chars_of(word.as_str());
            if chars_equal_ignoring_case(&chars, &chars_of("even")) {
                Parity::Even
            } else if chars_equal_ignoring_case(&chars, &chars_of("odd")) {
                Parity::Odd
            } else {
                Parity::NoParity
            }
        },
        None => Parity::NoParity,
    }
}

/// Computes [`stop_bits_of`].
fn decode_stop_bits(stop_bits: Option<u32>) -> (bits: StopBits)
    ensures
        bits == stop_bits_of(stop_bits),
{
    match stop_bits {
        Some(x) => if x == TWO_STOP_BITS {
            StopBits::Two
        } else {
            StopBits::One
        },
        None => StopBits::One,
    }
}

/// Computes [`serial_settings_of`].
pub fn serial_settings(config: &Configuration) -> (settings: SerialSettings)
    ensures
        settings == serial_settings_of(*config),
{
    SerialSettings {
        baud_rate: match config.baud_rate {
            Some(rate) => rate,
            None => DEFAULT_BAUD_RATE,
        },
        data_bits: decode_data_bits(config.data_bits),
        parity: decode_parity(&config.parity),
        stop_bits: decode_stop_bits(config.stop_bits),
    }
}

/// Computes [`verification_warning_text`].
pub fn verification_warning(detail: &str) -> (text: String)
    ensures
        text@ == verification_warning_text(detail@),
{
    let mut out: Vec<char> = Vec::new();
    push_str(&mut out, "Verification read failed: ");
    push_str(&mut out, detail);
    string_of(&out)
}

/// Computes [`quality_of_flags`].
pub fn flags_quality(flags: u8) -> (quality: DataQuality)
    ensures
        quality == quality_of_flags(flags),
{
    if flags & FLAG_ONLINE != 0 {
        DataQuality::Online
    } else {
        DataQuality::Offline
    }
}

/// Appends the part of a binary request's log line that follows the name of
/// the request.
fn push_binary_request(out: &mut Vec<char>, index: u16, op: ControlOp)
    ensures
        final(out)@ == binary_request_text(old(out)@, index, op),
{
    push_str(out, " BinaryOutput[");
    push_decimal(out, index as u64);
    push_str(out, "] = ");
    match op {
        ControlOp::LatchOn => push_str(out, "1"),
        _ => push_str(out, "0"),
    }
    assert(out@ =~= binary_request_text(old(out)@, index, op));
}

impl Dnp3Service {
    /// A session without points, counters at zero, not connected.
    pub fn new() -> (service: Self)
        ensures
            service@ == ServiceView::fresh(),
    {
        Dnp3Service {
            data_points: PointTable::new(),
            stats: Statistics { tx_count: 0, rx_count: 0, error_count: 0 },
            connected: false,
            link: LinkState::Idle,
        }
    }

    /// Replaces the point table by the one that `config` describes at time
    /// `now`: every listed point offline with value zero, and of two entries
    /// with the same kind and index only the first.
    pub fn update_config_at(&mut self, config: &DeviceConfiguration, now: i64)
        ensures
            final(self)@ == old(self)@.configured(*config, now),
            unique_keys(final(self)@.points),
    {
        self.data_points.load_at(config, now);
    }

    /// Replaces the point table by the one that `config` describes now.
    pub fn update_config(&mut self, config: &DeviceConfiguration)
        ensures
            exists|now: i64| final(self)@ == old(self)@.configured(*config, now),
            unique_keys(final(self)@.points),
    {
        let now = now_millis();
        self.update_config_at(config, now);
    }

    /// Adds a point that is online with value zero at time `now`. Fails, and
    /// leaves the table as it was, if the table already has a point of this
    /// kind and index.
    pub fn add_datapoint_at(
        &mut self,
        point_type: DataPointType,
        index: u16,
        name: String,
        now: i64,
    ) -> (res: Result<(), ServiceError>)
        ensures
            res is Err <==> has_point(old(self)@.points, point_type, index),
            res matches Err(e) ==> (e@ == (ServiceErrorView::DuplicatePoint { point_type, index })
                && final(self)@ == old(self)@),
            final(self)@ == old(self)@.with_point(point_type, index, name@, now),
            unique_keys(old(self)@.points) ==> unique_keys(final(self)@.points),
    {
        if self.data_points.add_at(point_type, index, name, now) {
            Ok(())
        } else {
            Err(ServiceError::DuplicatePoint { point_type, index })
        }
    }

    /// Adds a point that is online with value zero, stamped with the current
    /// time. Fails, and leaves the table as it was, if the table already has
    /// a point of this kind and index.
    pub fn add_datapoint(&mut self, point_type: DataPointType, index: u16, name: String) -> (res:
        Result<(), ServiceError>)
        ensures
            res is Err <==> has_point(old(self)@.points, point_type, index),
            res matches Err(e) ==> (e@ == (ServiceErrorView::DuplicatePoint { point_type, index })
                && final(self)@ == old(self)@),
            exists|now: i64| final(self)@ == old(self)@.with_point(point_type, index, name@, now),
            unique_keys(old(self)@.points) ==> unique_keys(final(self)@.points),
    {
        let now = now_millis();
        self.add_datapoint_at(point_type, index, name, now)
    }

    /// Removes every point.
    pub fn clear_datapoints(&mut self)
        ensures
            final(self)@ == (ServiceView { points: Seq::empty(), ..old(self)@ }),
    {
        self.data_points.clear();
    }

    /// Tears down and plans a start in the given role.
    fn begin_start(&mut self, config: &Configuration, role: DeviceRole) -> (res: Result<
        StartPlan,
        ServiceError,
    >)
        ensures
            final(self)@ == old(self)@.start(*config, role),
            match res {
                Ok(plan) => start_error(*config, role) is None && plan@ == start_plan(
                    *config,
                    role,
                    final(self)@.points,
                ),
                Err(e) => start_error(*config, role) == Some(e@),
            },
            unique_keys(old(self)@.points) ==> unique_keys(final(self)@.points),
    {
        self.data_points.reset_offline();
        self.link = LinkState::Idle;
        match check_endpoint_address(config.local_address) {
            Err(detail) => {
                return Err(ServiceError::InvalidLocalAddress { detail });
            },
            Ok(_) => {},
        }
        let serial = config.connection_type == ConnectionType::Serial;
        let port_missing = serial && config.serial_port.is_none();
        match role {
            DeviceRole::Master => {
                if port_missing {
                    return Err(ServiceError::SerialPortNotConfigured);
                }
                match check_endpoint_address(config.remote_address) {
                    Err(detail) => {
                        return Err(ServiceError::InvalidRemoteAddress { detail });
                    },
                    Ok(_) => {},
                }
            },
            DeviceRole::Outstation => {
                match check_endpoint_address(config.remote_address) {
                    Err(detail) => {
                        return Err(ServiceError::InvalidRemoteAddress { detail });
                    },
                    Ok(_) => {},
                }
                if port_missing {
                    return Err(ServiceError::SerialPortNotConfigured);
                }
            },
        }
        let transport = match &config.serial_port {
            Some(path) => if serial {
                Transport::Serial { path: path.clone(), settings: serial_settings(config) }
            } else {
                Transport::Tcp { ip_address: config.ip_address.clone(), port: config.port }
            },
            None => Transport::Tcp { ip_address: config.ip_address.clone(), port: config.port },
        };
        let database = match role {
            DeviceRole::Master => Vec::new(),
            DeviceRole::Outstation => self.data_points.database_points(),
        };
        let grace_ms = match role {
            DeviceRole::Master => MASTER_GRACE_MS,
            DeviceRole::Outstation => OUTSTATION_GRACE_MS,
        };
        self.link = LinkState::Starting(role);
        let plan = StartPlan {
            role,
            grace_ms,
            local_address: config.local_address,
            remote_address: config.remote_address,
            transport,
            decode_everything: true,
            database,
        };
        assert(plan@.database =~= start_plan(*config, role, self@.points).database);
        Ok(plan)
    }

    /// Begins the start of a master. Whatever the session held is given up
    /// and every point is cleared before the configuration is looked at. On
    /// success the session is starting and the plan says what to bring up; on
    /// a configuration error the session is idle. This step leaves the
    /// connected flag alone: the report of how the start ended sets it or
    /// clears it.
    pub fn start_master(&mut self, config: &Configuration) -> (res: Result<StartPlan, ServiceError>)
        ensures
            final(self)@ == old(self)@.start(*config, DeviceRole::Master),
            match res {
                Ok(plan) => start_error(*config, DeviceRole::Master) is None && plan@ == start_plan(
                    *config,
                    DeviceRole::Master,
                    final(self)@.points,
                ),
                Err(e) => start_error(*config, DeviceRole::Master) == Some(e@),
            },
            unique_keys(old(self)@.points) ==> unique_keys(final(self)@.points),
    {
        self.begin_start(config, DeviceRole::Master)
    }

    /// Begins the start of an outstation. Whatever the session held is given
    /// up and every point is cleared before the configuration is looked at.
    /// On success the session is starting and the plan says what to bring up,
    /// with one database entry for each point; on a configuration error the
    /// session is idle. This step leaves the connected flag alone: the report
    /// of how the start ended sets it or clears it.
    pub fn start_outstation(&mut self, config: &Configuration) -> (res: Result<
        StartPlan,
        ServiceError,
    >)
        ensures
            final(self)@ == old(self)@.start(*config, DeviceRole::Outstation),
            match res {
                Ok(plan) => start_error(*config, DeviceRole::Outstation) is None && plan@
                    == start_plan(*config, DeviceRole::Outstation, final(self)@.points),
                Err(e) => start_error(*config, DeviceRole::Outstation) == Some(e@),
            },
            unique_keys(old(self)@.points) ==> unique_keys(final(self)@.points),
    {
        self.begin_start(config, DeviceRole::Outstation)
    }

    /// Takes the report of how the start planned by `plan` ended, at time
    /// `now`. A start that succeeded makes the session active and connected
    /// and is logged; one that failed leaves it idle and not connected, and
    /// gives the error. A report for a start that was not begun changes
    /// nothing.
    pub fn complete_start_at(
        &mut self,
        store: &mut LogStore,
        plan: &StartPlan,
        outcome: Result<(), EngineFailure>,
        now: i64,
    ) -> (res: Result<(), ServiceError>)
        ensures
            final(self)@ == old(self)@.complete_start(plan@, outcome is Ok),
            final(store)@ == started_store(old(store)@, old(self)@.link, plan@, outcome, now),
            match res {
                Ok(_) => start_failure(old(self)@.link, plan@, outcome) is None,
                Err(e) => start_failure(old(self)@.link, plan@, outcome) == Some(e@),
            },
    {
        let starting = match self.link {
            LinkState::Starting(role) => role == plan.role,
            _ => false,
        };
        if !starting {
            return Err(ServiceError::NotStarting);
        }
        match outcome {
            Ok(_) => {
                let mut text: Vec<char> = Vec::new();
                match plan.role {
                    DeviceRole::Master => {
                        self.link = LinkState::ActiveMaster;
                        push_str(&mut text, "Master connected");
                    },
                    DeviceRole::Outstation => match &plan.transport {
                        Transport::Tcp { .. } => {
                            self.link = LinkState::ActiveOutstation { listening: true };
                            push_str(&mut text, "Outstation started");
                        },
                        Transport::Serial { path, .. } => {
                            self.link = LinkState::ActiveOutstation { listening: false };
                            push_str(&mut text, "Outstation started on serial ");
                            push_str(&mut text, path.as_str());
                        },
                    },
                }
                self.connected = true;
                assert(text@ =~= started_text(plan@));
                let line = string_of(&text);
                store.add_log_at(LogDirection::System, line.as_str(), 0, now);
                Ok(())
            },
            Err(failure) => {
                self.link = LinkState::Idle;
                self.connected = false;
                let port = match &plan.transport {
                    Transport::Tcp { .. } => String::new(),
                    Transport::Serial { path, .. } => path.clone(),
                };
                Err(ServiceError::Engine { stage: failure.stage, port, detail: failure.detail })
            },
        }
    }

    /// Takes the report of how the start planned by `plan` ended, now.
    pub fn complete_start(
        &mut self,
        store: &mut LogStore,
        plan: &StartPlan,
        outcome: Result<(), EngineFailure>,
    ) -> (res: Result<(), ServiceError>)
        ensures
            final(self)@ == old(self)@.complete_start(plan@, outcome is Ok),
            exists|now: i64|
                final(store)@ == started_store(old(store)@, old(self)@.link, plan@, outcome, now),
            match res {
                Ok(_) => start_failure(old(self)@.link, plan@, outcome) is None,
                Err(e) => start_failure(old(self)@.link, plan@, outcome) == Some(e@),
            },
    {
        let now = now_millis();
        self.complete_start_at(store, plan, outcome, now)
    }

    /// Gives up the connection at time `now`: the session is idle and not
    /// connected, whatever it was, and the disconnect is logged.
    pub fn disconnect_at(&mut self, store: &mut LogStore, now: i64)
        ensures
            final(self)@ == old(self)@.disconnected(),
            final(store)@ == old(store)@.with_log(LogDirection::System, "Disconnected"@, 0, now),
    {
        self.connected = false;
        self.link = LinkState::Idle;
        store.add_log_at(LogDirection::System, "Disconnected", 0, now);
    }

    /// Gives up the connection now.
    pub fn disconnect(&mut self, store: &mut LogStore)
        ensures
            final(self)@ == old(self)@.disconnected(),
            exists|now: i64|
                final(store)@ == old(store)@.with_log(LogDirection::System, "Disconnected"@, 0, now),
    {
        let now = now_millis();
        self.disconnect_at(store, now);
    }

    /// Asks for a read of everything at time `now`. With a live association
    /// the request is logged and the engine is to scan; without one, a
    /// connected session logs and counts a simulated read; a session that is
    /// not connected refuses.
    pub fn read_all_at(&mut self, store: &mut LogStore, now: i64) -> (res: Result<
        ReadStep,
        ServiceError,
    >)
        ensures
            final(self)@ == old(self)@.read(),
            final(store)@ == read_store(old(store)@, old(self)@, now),
            match res {
                Ok(step) => read_step(old(self)@) == Some(step),
                Err(e) => read_step(old(self)@) is None && e@ == ServiceErrorView::NotConnected,
            },
    {
        match self.link {
            LinkState::ActiveMaster => {
                store.add_log_at(LogDirection::Tx, "READ Class 0,1,2,3 (Integrity Poll)", 0, now);
                Ok(ReadStep::Scan)
            },
            _ => {
                if self.connected {
                    store.add_log_at(LogDirection::Tx, "Simulated READ (serial)", 0, now);
                    self.stats.count_sent();
                    self.stats.count_received();
                    Ok(ReadStep::Simulated)
                } else {
                    Err(ServiceError::NotConnected)
                }
            },
        }
    }

    /// Asks for a read of everything now.
    pub fn read_all(&mut self, store: &mut LogStore) -> (res: Result<ReadStep, ServiceError>)
        ensures
            final(self)@ == old(self)@.read(),
            exists|now: i64| final(store)@ == read_store(old(store)@, old(self)@, now),
            match res {
                Ok(step) => read_step(old(self)@) == Some(step),
                Err(e) => read_step(old(self)@) is None && e@ == ServiceErrorView::NotConnected,
            },
    {
        let now = now_millis();
        self.read_all_at(store, now)
    }

    /// Takes the report of how the engine's scan ended. A scan that
    /// succeeded counts as one request sent; one that failed counts as
    /// nothing and gives the error.
    pub fn complete_read(&mut self, outcome: Result<(), String>) -> (res: Result<(), ServiceError>)
        ensures
            match outcome {
                Ok(_) => res is Ok && final(self)@ == (ServiceView {
                    stats: old(self)@.stats.sent(),
                    ..old(self)@
                }),
                Err(detail) => (res matches Err(e) && e@ == (ServiceErrorView::Engine {
                    stage: EngineStage::Read,
                    port: Seq::empty(),
                    detail: detail@,
                }) && final(self)@ == old(self)@),
            },
    {
        match outcome {
            Ok(_) => {
                self.stats.count_sent();
                Ok(())
            },
            Err(detail) => Err(
                ServiceError::Engine { stage: EngineStage::Read, port: String::new(), detail },
            ),
        }
    }

    /// Asks for a control on `(point_type, index)` at time `now`.
    ///
    /// A session with neither an association nor its connected flag refuses;
    /// so does a point that is not an output. With a live association the
    /// session itself does not change and the plan goes to the engine.
    /// Without one, the control is applied to the local table, where the
    /// point of this kind and index takes the value, and counted as sent.
    pub fn execute_control_at(
        &mut self,
        point_type: DataPointType,
        index: u16,
        value: u64,
        op_mode: &str,
        now: i64,
    ) -> (res: Result<ControlStep, ServiceError>)
        ensures
            final(self)@ == old(self)@.control(point_type, index, value, now),
            match res {
                Ok(ControlStep::Operate(plan)) => {
                    &&& old(self)@.control_error(point_type) is None
                    &&& old(self)@.has_association()
                    &&& Some(plan@) == control_plan(point_type, index, value, op_mode@)
                },
                Ok(ControlStep::Simulated { message }) => {
                    &&& old(self)@.control_error(point_type) is None
                    &&& !old(self)@.has_association()
                    &&& message@ == simulated_text(op_mode@)
                },
                Err(e) => old(self)@.control_error(point_type) == Some(e@),
            },
            unique_keys(old(self)@.points) ==> unique_keys(final(self)@.points),
    {
        let live = match self.link {
            LinkState::ActiveMaster => true,
            _ => false,
        };
        if !live && !self.connected {
            return Err(ServiceError::NotConnected);
        }
        let plan = match plan_control(point_type, index, value, op_mode) {
            Some(plan) => plan,
            None => {
                return Err(ServiceError::UnsupportedControlPoint);
            },
        };
        if live {
            return Ok(ControlStep::Operate(plan));
        }
        match self.data_points.find(point_type, index) {
            Some(position) => {
                self.data_points.update_at(position, value, DataQuality::Online, now);
            },
            None => {},
        }
        self.stats.count_sent();
        let mut text: Vec<char> = Vec::new();
        push_str(&mut text, op_mode);
        push_str(&mut text, " Control executed (simulated)");
        assert(text@ =~= simulated_text(op_mode@));
        Ok(ControlStep::Simulated { message: string_of(&text) })
    }

    /// Asks for a control on `(point_type, index)` now.
    pub fn execute_control(
        &mut self,
        point_type: DataPointType,
        index: u16,
        value: u64,
        op_mode: &str,
    ) -> (res: Result<ControlStep, ServiceError>)
        ensures
            exists|now: i64| final(self)@ == old(self)@.control(point_type, index, value, now),
            match res {
                Ok(ControlStep::Operate(plan)) => {
                    &&& old(self)@.control_error(point_type) is None
                    &&& old(self)@.has_association()
                    &&& Some(plan@) == control_plan(point_type, index, value, op_mode@)
                },
                Ok(ControlStep::Simulated { message }) => {
                    &&& old(self)@.control_error(point_type) is None
                    &&& !old(self)@.has_association()
                    &&& message@ == simulated_text(op_mode@)
                },
                Err(e) => old(self)@.control_error(point_type) == Some(e@),
            },
            unique_keys(old(self)@.points) ==> unique_keys(final(self)@.points),
    {
        let now = now_millis();
        self.execute_control_at(point_type, index, value, op_mode, now)
    }

    /// Takes the report of how the engine's operate of `plan` ended. An
    /// operate that succeeded counts as one request sent and one response
    /// received, and is followed by a verification read unless the mode was
    /// `Select`; one that failed counts as nothing and gives the error.
    pub fn complete_control(&mut self, plan: &ControlPlan, outcome: Result<(), String>) -> (res:
        Result<ControlReport, ServiceError>)
        ensures
            match outcome {
                Ok(_) => {
                    &&& final(self)@ == (ServiceView {
                        stats: old(self)@.stats.exchanged(),
                        ..old(self)@
                    })
                    &&& (res matches Ok(report) && report.message@ == executed_text(plan.label@)
                        && report.verify_after_ms == (if plan.verify {
                        Some(VERIFY_DELAY_MS)
                    } else {
                        None
                    }))
                },
                Err(detail) => {
                    &&& final(self)@ == old(self)@
                    &&& (res matches Err(e) && e@ == (ServiceErrorView::Engine {
                        stage: EngineStage::Operate(plan.mode),
                        port: Seq::empty(),
                        detail: detail@,
                    }))
                },
            },
    {
        match outcome {
            Ok(_) => {
                self.stats.count_sent();
                self.stats.count_received();
                let mut text: Vec<char> = Vec::new();
                push_str(&mut text, plan.label.as_str());
                push_str(&mut text, " Control executed");
                assert(text@ =~= executed_text(plan.label@));
                Ok(
                    ControlReport {
                        message: string_of(&text),
                        verify_after_ms: if plan.verify {
                            Some(VERIFY_DELAY_MS)
                        } else {
                            None
                        },
                    },
                )
            },
            Err(detail) => Err(
                ServiceError::Engine {
                    stage: EngineStage::Operate(plan.mode),
                    port: String::new(),
                    detail,
                },
            ),
        }
    }

    /// Takes a measurement that a response carried for `(point_type, index)`,
    /// at time `now`: the point takes the value, and the quality that the
    /// flags report.
    pub fn apply_measurement_at(
        &mut self,
        point_type: DataPointType,
        index: u16,
        value: u64,
        flags: u8,
        now: i64,
    )
        ensures
            final(self)@ == old(self)@.measured(point_type, index, value, flags, now),
            unique_keys(old(self)@.points) ==> unique_keys(final(self)@.points),
    {
        match self.data_points.find(point_type, index) {
            Some(position) => {
                self.data_points.update_at(position, value, flags_quality(flags), now);
            },
            None => {},
        }
    }

    /// Takes a measurement that a response carried for `(point_type, index)`,
    /// now.
    pub fn apply_measurement(&mut self, point_type: DataPointType, index: u16, value: u64, flags: u8)
        ensures
            exists|now: i64|
                final(self)@ == old(self)@.measured(point_type, index, value, flags, now),
            unique_keys(old(self)@.points) ==> unique_keys(final(self)@.points),
    {
        let now = now_millis();
        self.apply_measurement_at(point_type, index, value, flags, now);
    }

    /// Notes at time `now` that a response was received in full: it is
    /// logged and counted.
    pub fn response_received_at(&mut self, store: &mut LogStore, now: i64)
        ensures
            final(self)@ == (ServiceView { stats: old(self)@.stats.received(), ..old(self)@ }),
            final(store)@ == old(store)@.with_log(LogDirection::Rx, "Response received"@, 0, now),
    {
        store.add_log_at(LogDirection::Rx, "Response received", 0, now);
        self.stats.count_received();
    }

    /// Notes now that a response was received in full.
    pub fn response_received(&mut self, store: &mut LogStore)
        ensures
            final(self)@ == (ServiceView { stats: old(self)@.stats.received(), ..old(self)@ }),
            exists|now: i64|
                final(store)@ == old(store)@.with_log(
                    LogDirection::Rx,
                    "Response received"@,
                    0,
                    now,
                ),
    {
        let now = now_millis();
        self.response_received_at(store, now);
    }

    /// Answers a select of a binary output at time `now`. The request and an
    /// answer are logged whatever the status; the status is success for a
    /// latch on an index below one hundred.
    pub fn select_binary_at(&self, store: &mut LogStore, index: u16, op: ControlOp, now: i64) -> (status:
        CommandStatus)
        ensures
            status == CommandStatus::Success <==> binary_selectable(index, op),
            final(store)@ == with_exchange(
                old(store)@,
                binary_request_text("[FC=03 SELECT]"@, index, op),
                "[FC=129] SELECT Success - Status: 0"@,
                now,
            ),
    {
        let mut text: Vec<char> = Vec::new();
        push_str(&mut text, "[FC=03 SELECT]");
        push_binary_request(&mut text, index, op);
        let line = string_of(&text);
        store.add_log_at(LogDirection::Rx, line.as_str(), 0, now);
        store.add_log_at(LogDirection::Tx, "[FC=129] SELECT Success - Status: 0", 0, now);
        let latch = match op {
            ControlOp::LatchOn => true,
            ControlOp::LatchOff => true,
            ControlOp::Other => false,
        };
        if index < SELECT_INDEX_LIMIT && latch {
            CommandStatus::Success
        } else {
            CommandStatus::NotSupported
        }
    }

    /// Answers a select of a binary output now.
    pub fn select_binary(&self, store: &mut LogStore, index: u16, op: ControlOp) -> (status:
        CommandStatus)
        ensures
            status == CommandStatus::Success <==> binary_selectable(index, op),
            exists|now: i64|
                final(store)@ == with_exchange(
                    old(store)@,
                    binary_request_text("[FC=03 SELECT]"@, index, op),
                    "[FC=129] SELECT Success - Status: 0"@,
                    now,
                ),
    {
        let now = now_millis();
        self.select_binary_at(store, index, op, now)
    }

    /// Answers a select of an analog output: success for an index below one
    /// hundred.
    pub fn select_analog(&self, index: u16) -> (status: CommandStatus)
        ensures
            status == CommandStatus::Success <==> analog_selectable(index),
    {
        if index < SELECT_INDEX_LIMIT {
            CommandStatus::Success
        } else {
            CommandStatus::NotSupported
        }
    }

    /// Operates a binary output of an outstation at time `now`: the point
    /// takes one for a latch on and zero for anything else, the request and
    /// its answer are logged, and the database write that mirrors the point
    /// comes back. The answer is always success.
    pub fn operate_binary_at(
        &mut self,
        store: &mut LogStore,
        index: u16,
        op: ControlOp,
        now: i64,
    ) -> (update: DatabaseUpdate)
        ensures
            final(self)@ == old(self)@.operated(
                DataPointType::BinaryOutput,
                index,
                latched_value(op),
                now,
            ),
            final(store)@ == with_exchange(
                old(store)@,
                binary_request_text("[FC=04 OPERATE]"@, index, op),
                "[FC=129] OPERATE Success - Status: 0"@,
                now,
            ),
            update == (DatabaseUpdate {
                point_type: DataPointType::BinaryOutput,
                index,
                value: latched_value(op),
                state: op == ControlOp::LatchOn,
                timestamp: now,
            }),
            unique_keys(old(self)@.points) ==> unique_keys(final(self)@.points),
    {
        let on = match op {
            ControlOp::LatchOn => true,
            _ => false,
        };
        let value = if on {
            VALUE_ONE
        } else {
            VALUE_ZERO
        };
        match self.data_points.find(DataPointType::BinaryOutput, index) {
            Some(position) => {
                self.data_points.update_at(position, value, DataQuality::Online, now);
            },
            None => {},
        }
        let mut text: Vec<char> = Vec::new();
        push_str(&mut text, "[FC=04 OPERATE]");
        push_binary_request(&mut text, index, op);
        let line = string_of(&text);
        store.add_log_at(LogDirection::Rx, line.as_str(), 0, now);
        store.add_log_at(LogDirection::Tx, "[FC=129] OPERATE Success - Status: 0", 0, now);
        DatabaseUpdate {
            point_type: DataPointType::BinaryOutput,
            index,
            value,
            state: on,
            timestamp: now,
        }
    }

    /// Operates a binary output of an outstation now.
    pub fn operate_binary(&mut self, store: &mut LogStore, index: u16, op: ControlOp) -> (update:
        DatabaseUpdate)
        ensures
            final(self)@ == old(self)@.operated(
                DataPointType::BinaryOutput,
                index,
                latched_value(op),
                update.timestamp,
            ),
            final(store)@ == with_exchange(
                old(store)@,
                binary_request_text("[FC=04 OPERATE]"@, index, op),
                "[FC=129] OPERATE Success - Status: 0"@,
                update.timestamp,
            ),
            update == (DatabaseUpdate {
                point_type: DataPointType::BinaryOutput,
                index,
                value: latched_value(op),
                state: op == ControlOp::LatchOn,
                timestamp: update.timestamp,
            }),
            unique_keys(old(self)@.points) ==> unique_keys(final(self)@.points),
    {
        let now = now_millis();
        self.operate_binary_at(store, index, op, now)
    }

    /// Operates an analog output of an outstation at time `now`: the point
    /// takes the value, the request and its answer are logged, and the
    /// database write that mirrors the point comes back. `numeral` is the
    /// value as the log is to show it. The answer is always success.
    pub fn operate_analog_at(
        &mut self,
        store: &mut LogStore,
        index: u16,
        value: u64,
        numeral: &str,
        now: i64,
    ) -> (update: DatabaseUpdate)
        ensures
            final(self)@ == old(self)@.operated(DataPointType::AnalogOutput, index, value, now),
            final(store)@ == with_exchange(
                old(store)@,
                analog_request_text(index, numeral@),
                "[FC=129] OPERATE Success - Status: 0"@,
                now,
            ),
            update == (DatabaseUpdate {
                point_type: DataPointType::AnalogOutput,
                index,
                value,
                state: exceeds_half(value),
                timestamp: now,
            }),
            unique_keys(old(self)@.points) ==> unique_keys(final(self)@.points),
    {
        match self.data_points.find(DataPointType::AnalogOutput, index) {
            Some(position) => {
                self.data_points.update_at(position, value, DataQuality::Online, now);
            },
            None => {},
        }
        let mut text: Vec<char> = Vec::new();
        push_str(&mut text, "[FC=04 OPERATE] AnalogOutput[");
        push_decimal(&mut text, index as u64);
        push_str(&mut text, "] = ");
        push_str(&mut text, numeral);
        assert(text@ =~= analog_request_text(index, numeral@));
        let line = string_of(&text);
        store.add_log_at(LogDirection::Rx, line.as_str(), 0, now);
        store.add_log_at(LogDirection::Tx, "[FC=129] OPERATE Success - Status: 0", 0, now);
        DatabaseUpdate {
            point_type: DataPointType::AnalogOutput,
            index,
            value,
            state: value_exceeds_half(value),
            timestamp: now,
        }
    }

    /// Operates an analog output of an outstation now.
    pub fn operate_analog(
        &mut self,
        store: &mut LogStore,
        index: u16,
        value: u64,
        numeral: &str,
    ) -> (update: DatabaseUpdate)
        ensures
            final(self)@ == old(self)@.operated(
                DataPointType::AnalogOutput,
                index,
                value,
                update.timestamp,
            ),
            final(store)@ == with_exchange(
                old(store)@,
                analog_request_text(index, numeral@),
                "[FC=129] OPERATE Success - Status: 0"@,
                update.timestamp,
            ),
            update == (DatabaseUpdate {
                point_type: DataPointType::AnalogOutput,
                index,
                value,
                state: exceeds_half(value),
                timestamp: update.timestamp,
            }),
            unique_keys(old(self)@.points) ==> unique_keys(final(self)@.points),
    {
        let now = now_millis();
        self.operate_analog_at(store, index, value, numeral, now)
    }

    /// Whether the simulator of this session goes on: it stops at the first
    /// look that finds the session not connected.
    pub fn simulator_continues(&self) -> (yes: bool)
        ensures
            yes == self@.connected,
    {
        self.connected
    }

    /// Runs one round of the outstation simulator at time `now`. Analog
    /// inputs and counters take their draws, binary inputs flip a coin on
    /// theirs, outputs keep their values; every point goes online. The
    /// database writes that mirror the table come back in its order.
    pub fn simulate_at(&mut self, samples: &Vec<u64>, now: i64) -> (updates: Vec<DatabaseUpdate>)
        ensures
            final(self)@ == old(self)@.simulated(samples@, now),
            updates@ == final(self)@.points.map_values(|p: DataPointView| mirror_of(p)),
            unique_keys(old(self)@.points) ==> unique_keys(final(self)@.points),
    {
        self.data_points.simulate_at(samples, now)
    }

    /// Runs one round of the outstation simulator now.
    pub fn simulate(&mut self, samples: &Vec<u64>) -> (updates: Vec<DatabaseUpdate>)
        ensures
            exists|now: i64| final(self)@ == old(self)@.simulated(samples@, now),
            updates@ == final(self)@.points.map_values(|p: DataPointView| mirror_of(p)),
            unique_keys(old(self)@.points) ==> unique_keys(final(self)@.points),
    {
        let now = now_millis();
        self.simulate_at(samples, now)
    }

    /// A copy of the point table.
    pub fn get_data(&self) -> (points: Vec<DataPoint>)
        ensures
            points.deep_view() == self@.points,
    {
        self.data_points.snapshot()
    }

    /// The counters.
    pub fn get_stats(&self) -> (stats: Statistics)
        ensures
            stats == self@.stats,
    {
        self.stats
    }

    /// A copy of the log lines of the shared store, oldest first.
    pub fn get_logs(&self, store: &LogStore) -> (lines: Vec<ProtocolLogEntry>)
        ensures
            lines@.map_values(|e: ProtocolLogEntry| e@) == store@.logs.entries,
    {
        store.get_logs()
    }

    /// A copy of the frames of the shared store, oldest first.
    pub fn get_frames(&self, store: &LogStore) -> (frames: Vec<RawFrame>)
        ensures
            frames@.map_values(|e: RawFrame| e@) == store@.frames.entries,
    {
        store.get_frames()
    }

    /// Whether the connected flag is set.
    pub fn is_connected(&self) -> (yes: bool)
        ensures
            yes == self@.connected,
    {
        self.connected
    }

    /// Where the session stands in the connection lifecycle.
    pub fn link_state(&self) -> (link: LinkState)
        ensures
            link == self@.link,
    {
        self.link
    }
}

} // verus!

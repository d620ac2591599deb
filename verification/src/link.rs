//! The decisions of the link cycle.
//!
//! The control loop owns the serial line and the clock. Once per cycle it
//! asks `begin_cycle` what to do. Where the action sends something, the loop
//! drops unread bytes if the action `flushes`, sends its `bytes`, waits as
//! its `wait` says and hands what it read to `on_reply`, which says what to
//! do next, until the answer is that the link needs nothing more in this
//! cycle. An empty reply stands for no answer within the waiting time. Times
//! are milliseconds on the loop's clock.

use crate::codes::{StatusPacketType, STATUS_CATEGORIES};
use crate::packet::{
    decode, Frame, Packet, PacketError, DEFAULT_H2, DEFAULT_H3, TYPE_CONNECT, TYPE_CONNECT_ACK,
    TYPE_SET_ACK, TYPE_STATUS_REQUEST,
};
use crate::setting::{SettingModel, PAYLOAD_SIZE};
use crate::status::{status_fault, status_to_state, HeatPumpStatus, StatusError, StatusModel};
use vstd::prelude::*;

verus! {

/// Least duration of one cycle of the control loop.
pub const LOOP_MIN_LENGTH_MS: u64 = 2;

/// Time to wait after the handshake before the answer is read.
pub const CONNECT_DELAY_MS: u64 = 2000;

/// Longest wait for an answer, and least time between two full polls.
pub const RESPONSE_DELAY_MS: u64 = 1000;

/// Time without a link after which the device is restarted, unless the
/// machine is made with another limit.
pub const OUTAGE_RESTART_MS: u64 = 30_000;

/// Uptime after which the device is restarted as a precaution.
pub const REBOOT_PERIOD_MS: u64 = 5_400_000;

/// Largest body of a request that changes settings, in bytes.
pub const HTTP_SERVER_MAX_LEN: usize = 512;

/// The bytes of the handshake that opens the link.
pub open spec fn connect_bytes() -> Seq<u8> {
    seq![0xfcu8, 0x5au8, 0x01u8, 0x30u8, 0x02u8, 0xcau8, 0x01u8, 0xa8u8]
}

/// The frame that asks for the status of one category: sixteen payload bytes,
/// the first of them the category's code, checksum set.
pub open spec fn status_request_frame(subtype: StatusPacketType) -> Frame {
    Frame {
        packet_type: TYPE_STATUS_REQUEST,
        h2: DEFAULT_H2,
        h3: DEFAULT_H3,
        data: Seq::new(
            PAYLOAD_SIZE as nat,
            |i: int|
                if i == 0 {
                    subtype.spec_code()
                } else {
                    0u8
                },
        ),
        checksum: 0,
    }.sealed()
}

/// The handshake that opens the link, as bytes to send.
pub fn connect_request() -> (bytes: Vec<u8>)
    ensures
        bytes@ == connect_bytes(),
{
    let mut bytes: Vec<u8> = Vec::new();
    bytes.push(0xfc);
    bytes.push(TYPE_CONNECT);
    bytes.push(DEFAULT_H2);
    bytes.push(DEFAULT_H3);
    bytes.push(0x02);
    bytes.push(0xca);
    bytes.push(0x01);
    bytes.push(0xa8);
    assert(bytes@ =~= connect_bytes());
    bytes
}

/// The frame that asks for the status of one category.
pub fn status_request(subtype: StatusPacketType) -> (packet: Packet)
    ensures
        packet@ == status_request_frame(subtype),
        packet@.valid(),
{
    let mut packet = Packet::new_type_size(TYPE_STATUS_REQUEST, PAYLOAD_SIZE);
    packet.data.set(0, subtype.code());
    assert(packet.data@ =~= status_request_frame(subtype).data);
    packet.set_checksum();
    packet
}

/// What was read off the line: nothing, or the frame at the start of the
/// bytes, or the reason why they are no frame.
pub open spec fn spec_read_packet(bytes: Seq<u8>) -> Result<Option<Frame>, PacketError> {
    if bytes.len() == 0 {
        Ok(None)
    } else {
        match decode(bytes) {
            Ok(frame) => Ok(Some(frame)),
            Err(e) => Err(e),
        }
    }
}

/// Reads what came off the line. No bytes are no answer, which is no fault;
/// any bytes must start with a frame.
pub fn read_packet(bytes: &[u8]) -> (result: Result<Option<Packet>, PacketError>)
    ensures
        match result {
            Ok(Some(packet)) => spec_read_packet(bytes@) == Ok::<Option<Frame>, PacketError>(
                Some(packet@),
            ),
            Ok(None) => spec_read_packet(bytes@) == Ok::<Option<Frame>, PacketError>(None),
            Err(e) => spec_read_packet(bytes@) == Err::<Option<Frame>, PacketError>(e),
        },
{
    if bytes.len() == 0 {
        Ok(None)
    } else {
        match Packet::from_bytes(bytes) {
            Ok(packet) => Ok(Some(packet)),
            Err(e) => Err(e),
        }
    }
}

/// How long the loop rests at the end of a cycle that took `elapsed_ms`: what
/// is missing to the least duration of a cycle.
pub fn cycle_rest_ms(elapsed_ms: u64) -> (rest: u64)
    ensures
        elapsed_ms < LOOP_MIN_LENGTH_MS ==> rest == LOOP_MIN_LENGTH_MS - elapsed_ms,
        elapsed_ms >= LOOP_MIN_LENGTH_MS ==> rest == 0,
{
    if elapsed_ms < LOOP_MIN_LENGTH_MS {
        LOOP_MIN_LENGTH_MS - elapsed_ms
    } else {
        0
    }
}

/// Whether the device has been up long enough to be restarted as a
/// precaution.
pub fn restart_due(uptime_ms: u64) -> (due: bool)
    ensures
        due == (uptime_ms >= REBOOT_PERIOD_MS),
{
    uptime_ms >= REBOOT_PERIOD_MS
}

/// Whether the body of a request that changes settings is small enough to be
/// read.
pub fn accepts_payload(len: usize) -> (ok: bool)
    ensures
        ok == (len <= HTTP_SERVER_MAX_LEN),
{
    len <= HTTP_SERVER_MAX_LEN
}

/// What the machine is waiting for.
#[derive(Clone, Copy, Debug, PartialEq, Eq, Structural)]
pub enum LinkPhase {
    /// Nothing: the next cycle may begin.
    Ready,
    /// The answer to the handshake.
    Connecting,
    /// The answer to a change of settings.
    Commanding,
    /// The answer to the status request for the category at this place of
    /// the polling order.
    Polling(usize),
}

/// Why a cycle was cut short.
#[derive(Clone, Copy, Debug, PartialEq, Eq, Structural)]
pub enum LinkFault {
    /// The bytes read are no frame. They are dropped and nothing changes.
    MalformedFrame(PacketError),
    /// The answer to a change of settings has this type, which is not that of
    /// an acknowledgement. The change is dropped, not sent again.
    UnexpectedFrameType(u8),
    /// The answer to a status request is no status report. Nothing changes.
    NotAStatusReport(StatusError),
}

/// How the loop waits for the answer to what it sent.
#[derive(Clone, Copy, Debug, PartialEq, Eq, Structural)]
pub enum Wait {
    /// Sleep for so many milliseconds, then read once what has come.
    Settle(u64),
    /// Wait until bytes arrive, for so many milliseconds at most, then read
    /// them.
    Reply(u64),
}

/// What the control loop is to do next, as a mathematical value.
pub ghost enum ActionModel {
    Connect { bytes: Seq<u8> },
    SendCommand { bytes: Seq<u8> },
    RequestStatus { subtype: StatusPacketType, bytes: Seq<u8>, flush: bool },
    ApplyLocal,
    Restart,
    Idle,
}

impl ActionModel {
    /// How the answer is waited for: after the handshake the settle delay,
    /// after a change of settings and after a status request the response
    /// window. The other actions send nothing and wait for nothing.
    pub open spec fn wait(self) -> Option<Wait> {
        match self {
            ActionModel::Connect { .. } => Some(Wait::Settle(CONNECT_DELAY_MS)),
            ActionModel::SendCommand { .. } => Some(Wait::Reply(RESPONSE_DELAY_MS)),
            ActionModel::RequestStatus { .. } => Some(Wait::Reply(RESPONSE_DELAY_MS)),
            _ => None,
        }
    }

    /// Whether unread bytes are dropped from the line before anything is
    /// sent: before the handshake, before a change of settings, and before
    /// the first status request of a poll.
    pub open spec fn flushes(self) -> bool {
        match self {
            ActionModel::Connect { .. } => true,
            ActionModel::SendCommand { .. } => true,
            ActionModel::RequestStatus { flush, .. } => flush,
            _ => false,
        }
    }

    /// The bytes to send; none where the action sends nothing.
    pub open spec fn bytes(self) -> Seq<u8> {
        match self {
            ActionModel::Connect { bytes } => bytes,
            ActionModel::SendCommand { bytes } => bytes,
            ActionModel::RequestStatus { bytes, .. } => bytes,
            _ => Seq::empty(),
        }
    }
}

/// What the control loop is to do next.
#[derive(Clone, Debug, PartialEq, Eq)]
pub enum LinkAction {
    /// Send the handshake and hand in what it is answered with.
    Connect { bytes: Vec<u8> },
    /// Send the pending change and hand in what it is answered with.
    SendCommand { bytes: Vec<u8> },
    /// Send the request for the status of one category and hand in what it is
    /// answered with. `flush` is set on the first request of a poll.
    RequestStatus { subtype: StatusPacketType, bytes: Vec<u8>, flush: bool },
    /// Nothing to send: the pending change holds only fields that stay on the
    /// controller.
    ApplyLocal,
    /// The link has been down for too long: restart the device.
    Restart,
    /// Nothing to do on the link in what is left of this cycle.
    Idle,
}

impl View for LinkAction {
    type V = ActionModel;

    open spec fn view(&self) -> ActionModel {
        match *self {
            LinkAction::Connect { bytes } => ActionModel::Connect { bytes: bytes@ },
            LinkAction::SendCommand { bytes } => ActionModel::SendCommand { bytes: bytes@ },
            LinkAction::RequestStatus { subtype, bytes, flush } => ActionModel::RequestStatus {
                subtype,
                bytes: bytes@,
                flush,
            },
            LinkAction::ApplyLocal => ActionModel::ApplyLocal,
            LinkAction::Restart => ActionModel::Restart,
            LinkAction::Idle => ActionModel::Idle,
        }
    }
}

impl LinkAction {
    /// How the answer is waited for; `None` where the action sends nothing.
    pub fn wait(&self) -> (wait: Option<Wait>)
        ensures
            wait == self@.wait(),
    {
        match self {
            LinkAction::Connect { .. } => Some(Wait::Settle(CONNECT_DELAY_MS)),
            LinkAction::SendCommand { .. } => Some(Wait::Reply(RESPONSE_DELAY_MS)),
            LinkAction::RequestStatus { .. } => Some(Wait::Reply(RESPONSE_DELAY_MS)),
            _ => None,
        }
    }

    /// Whether unread bytes are dropped from the line before anything is
    /// sent.
    pub fn flushes(&self) -> (flush: bool)
        ensures
            flush == self@.flushes(),
    {
        match self {
            LinkAction::Connect { .. } => true,
            LinkAction::SendCommand { .. } => true,
            LinkAction::RequestStatus { flush, .. } => *flush,
            _ => false,
        }
    }

    /// The bytes to send; none where the action sends nothing.
    pub fn bytes(&self) -> (bytes: &[u8])
        ensures
            bytes@ == self@.bytes(),
    {
        match self {
            LinkAction::Connect { bytes } => bytes.as_slice(),
            LinkAction::SendCommand { bytes } => bytes.as_slice(),
            LinkAction::RequestStatus { bytes, .. } => bytes.as_slice(),
            _ => &[],
        }
    }
}

/// The request for the category at place `index` of the polling order.
pub open spec fn poll_action(index: int, flush: bool) -> ActionModel
    recommends
        0 <= index < StatusPacketType::spec_all().len(),
{
    let subtype = StatusPacketType::spec_all()[index];
    ActionModel::RequestStatus { subtype, bytes: status_request_frame(subtype).encoding(), flush }
}

/// What `on_reply` comes to: the machine and the state afterwards, and what
/// it returns.
pub ghost struct Reaction {
    pub machine: LinkMachine,
    pub status: StatusModel,
    pub outcome: Result<ActionModel, LinkFault>,
}

/// The part of the control loop that decides: what it waits for, when the
/// last full poll was completed, since when the link has been down, and how
/// long it may stay down before the device is restarted.
#[derive(Clone, Copy, Debug, PartialEq, Eq)]
pub struct LinkMachine {
    pub phase: LinkPhase,
    pub last_poll_ms: Option<u64>,
    pub down_since_ms: Option<u64>,
    pub outage_limit_ms: u64,
}

impl LinkMachine {
    /// A poll is due if none was completed yet, or if more than the polling
    /// interval has passed since the last one was.
    pub open spec fn spec_poll_due(self, now_ms: u64) -> bool {
        match self.last_poll_ms {
            None => true,
            Some(last) => now_ms - last > RESPONSE_DELAY_MS,
        }
    }

    /// The time at which the link was first found down, seen from a cycle
    /// that begins at `now_ms` without a link.
    pub open spec fn spec_down_since(self, now_ms: u64) -> u64 {
        match self.down_since_ms {
            Some(since) => since,
            None => now_ms,
        }
    }

    /// What a cycle that begins with a link comes to, in this order: with a
    /// pending change that needs a frame, that frame; with a pending change
    /// that needs none, nothing on the link; with a poll due, the request for
    /// the first category; else nothing.
    pub open spec fn plan_connected(self, status: StatusModel, now_ms: u64) -> (
        LinkMachine,
        ActionModel,
    ) {
        let up = LinkMachine { down_since_ms: None, ..self };
        if status.desired_settings is Some {
            let command = status.desired_settings->Some_0;
            if command.requires_packet() {
                (
                    LinkMachine { phase: LinkPhase::Commanding, ..up },
                    ActionModel::SendCommand { bytes: command.frame().encoding() },
                )
            } else {
                (LinkMachine { phase: LinkPhase::Ready, ..up }, ActionModel::ApplyLocal)
            }
        } else if self.spec_poll_due(now_ms) {
            (LinkMachine { phase: LinkPhase::Polling(0), ..up }, poll_action(0, true))
        } else {
            (LinkMachine { phase: LinkPhase::Ready, ..up }, ActionModel::Idle)
        }
    }

    /// What a cycle begins with: the machine afterwards and what the loop is
    /// to do. Without a link it is the handshake, again and again at the
    /// loop's own pace, until the link has been down for the outage limit;
    /// from then on it is a restart. With a link it is what `plan_connected`
    /// says.
    pub open spec fn plan(self, status: StatusModel, now_ms: u64) -> (LinkMachine, ActionModel) {
        if !status.connected {
            let since = self.spec_down_since(now_ms);
            let down = LinkMachine { down_since_ms: Some(since), ..self };
            if now_ms - since >= self.outage_limit_ms {
                (LinkMachine { phase: LinkPhase::Ready, ..down }, ActionModel::Restart)
            } else {
                (
                    LinkMachine { phase: LinkPhase::Connecting, ..down },
                    ActionModel::Connect { bytes: connect_bytes() },
                )
            }
        } else {
            self.plan_connected(status, now_ms)
        }
    }

    /// What an answer to the handshake comes to. No answer and an answer of
    /// another type leave the link down; an acknowledgement brings it up.
    pub open spec fn react_connecting(self, status: StatusModel, reply: Seq<u8>) -> Reaction {
        let machine = LinkMachine { phase: LinkPhase::Ready, ..self };
        match spec_read_packet(reply) {
            Ok(None) => Reaction { machine, status, outcome: Ok(ActionModel::Idle) },
            Ok(Some(frame)) => Reaction {
                machine,
                status: if frame.packet_type == TYPE_CONNECT_ACK {
                    StatusModel { connected: true, ..status }
                } else {
                    status
                },
                outcome: Ok(ActionModel::Idle),
            },
            Err(e) => Reaction { machine, status, outcome: Err(LinkFault::MalformedFrame(e)) },
        }
    }

    /// What an answer to a change of settings comes to. No answer takes the
    /// link down and leaves the change pending. An acknowledgement takes the
    /// appliance's fields out of the change. A frame of another type is a
    /// fault, and the change is dropped.
    pub open spec fn react_commanding(self, status: StatusModel, reply: Seq<u8>) -> Reaction {
        let machine = LinkMachine { phase: LinkPhase::Ready, ..self };
        match spec_read_packet(reply) {
            Ok(None) => Reaction {
                machine,
                status: StatusModel { connected: false, ..status },
                outcome: Ok(ActionModel::Idle),
            },
            Ok(Some(frame)) => if frame.packet_type == TYPE_SET_ACK {
                Reaction { machine, status: status.acknowledged(), outcome: Ok(ActionModel::Idle) }
            } else {
                Reaction {
                    machine,
                    status: StatusModel { desired_settings: None, ..status },
                    outcome: Err(LinkFault::UnexpectedFrameType(frame.packet_type)),
                }
            },
            Err(e) => Reaction { machine, status, outcome: Err(LinkFault::MalformedFrame(e)) },
        }
    }

    /// What an answer to the status request at place `index` comes to. No
    /// answer takes the link down and ends the poll; what was taken over
    /// before stays. A status report is taken over; then the next category is
    /// asked for, or, after the last, the poll is complete as of `now_ms`.
    pub open spec fn react_polling(
        self,
        status: StatusModel,
        index: usize,
        reply: Seq<u8>,
        now_ms: u64,
    ) -> Reaction {
        let ended = LinkMachine { phase: LinkPhase::Ready, ..self };
        match spec_read_packet(reply) {
            Ok(None) => Reaction {
                machine: ended,
                status: StatusModel { connected: false, ..status },
                outcome: Ok(ActionModel::Idle),
            },
            Ok(Some(frame)) => match status_fault(frame) {
                Some(e) => Reaction {
                    machine: ended,
                    status,
                    outcome: Err(LinkFault::NotAStatusReport(e)),
                },
                None => if index + 1 < StatusPacketType::spec_all().len() {
                    Reaction {
                        machine: LinkMachine {
                            phase: LinkPhase::Polling((index + 1) as usize),
                            ..self
                        },
                        status: status.apply_status(frame.data),
                        outcome: Ok(poll_action(index + 1, false)),
                    }
                } else {
                    Reaction {
                        machine: LinkMachine {
                            phase: LinkPhase::Ready,
                            last_poll_ms: Some(now_ms),
                            ..self
                        },
                        status: status.apply_status(frame.data),
                        outcome: Ok(ActionModel::Idle),
                    }
                },
            },
            Err(e) => Reaction {
                machine: ended,
                status,
                outcome: Err(LinkFault::MalformedFrame(e)),
            },
        }
    }

    /// What handing in `reply` at `now_ms` comes to. A machine that waits for
    /// nothing ignores it.
    pub open spec fn react(self, status: StatusModel, reply: Seq<u8>, now_ms: u64) -> Reaction {
        match self.phase {
            LinkPhase::Ready => Reaction {
                machine: self,
                status,
                outcome: Ok(ActionModel::Idle),
            },
            LinkPhase::Connecting => self.react_connecting(status, reply),
            LinkPhase::Commanding => self.react_commanding(status, reply),
            LinkPhase::Polling(index) => self.react_polling(status, index, reply, now_ms),
        }
    }

    /// A machine that waits for nothing, has not polled yet and allows the
    /// usual time without a link.
    pub fn new() -> (machine: Self)
        ensures
            machine == (LinkMachine {
                phase: LinkPhase::Ready,
                last_poll_ms: None,
                down_since_ms: None,
                outage_limit_ms: OUTAGE_RESTART_MS,
            }),
    {
        Self::with_outage_limit(OUTAGE_RESTART_MS)
    }

    /// A machine that waits for nothing, has not polled yet and asks for a
    /// restart once the link has been down for `outage_limit_ms`.
    pub fn with_outage_limit(outage_limit_ms: u64) -> (machine: Self)
        ensures
            machine == (LinkMachine {
                phase: LinkPhase::Ready,
                last_poll_ms: None,
                down_since_ms: None,
                outage_limit_ms,
            }),
    {
        LinkMachine {
            phase: LinkPhase::Ready,
            last_poll_ms: None,
            down_since_ms: None,
            outage_limit_ms,
        }
    }

    /// Whether a full poll is due at `now_ms`.
    #[verifier::when_used_as_spec(spec_poll_due)]
    pub fn poll_due(self, now_ms: u64) -> (due: bool)
        ensures
            due == self.spec_poll_due(now_ms),
    {
        match self.last_poll_ms {
            None => true,
            Some(last) => now_ms > last && now_ms - last > RESPONSE_DELAY_MS,
        }
    }

    /// Begins a cycle at `now_ms`: says what the loop is to do first, and
    /// notes what answer is waited for and since when the link is down.
    /// Whatever was waited for before is forgotten.
    pub fn begin_cycle(&mut self, status: &HeatPumpStatus, now_ms: u64) -> (action: LinkAction)
        ensures
            (*final(self), action@) == old(self).plan(status@, now_ms),
    {
        if !status.connected {
            let since: u64 = match self.down_since_ms {
                Some(since) => since,
                None => now_ms,
            };
            self.down_since_ms = Some(since);
            if now_ms >= since && now_ms - since >= self.outage_limit_ms {
                self.phase = LinkPhase::Ready;
                return LinkAction::Restart;
            }
            self.phase = LinkPhase::Connecting;
            return LinkAction::Connect { bytes: connect_request() };
        }
        self.down_since_ms = None;
        match &status.desired_settings {
            Some(command) => {
                if command.requires_packet() {
                    self.phase = LinkPhase::Commanding;
                    LinkAction::SendCommand { bytes: command.to_packet().encode() }
                } else {
                    self.phase = LinkPhase::Ready;
                    LinkAction::ApplyLocal
                }
            },
            None => {
                if self.poll_due(now_ms) {
                    self.phase = LinkPhase::Polling(0);
                    Self::request_at(0, true)
                } else {
                    self.phase = LinkPhase::Ready;
                    LinkAction::Idle
                }
            },
        }
    }

    /// The request for the category at place `index` of the polling order.
    fn request_at(index: usize, flush: bool) -> (action: LinkAction)
        requires
            index < StatusPacketType::spec_all().len(),
        ensures
            action@ == poll_action(index as int, flush),
    {
        let order = StatusPacketType::all();
        let subtype = order[index];
        LinkAction::RequestStatus { subtype, bytes: status_request(subtype).encode(), flush }
    }

    /// Takes what the loop read in answer to the last action, at `now_ms`.
    /// Changes machine and state as `react` says and returns what the loop
    /// is to do next, or the fault that cut the cycle short. After a fault
    /// and after `Idle` the machine waits for nothing.
    pub fn on_reply(&mut self, status: &mut HeatPumpStatus, reply: &[u8], now_ms: u64) -> (result:
        Result<LinkAction, LinkFault>)
        ensures
            *final(self) == old(self).react(old(status)@, reply@, now_ms).machine,
            final(status)@ == old(self).react(old(status)@, reply@, now_ms).status,
            match result {
                Ok(action) => old(self).react(old(status)@, reply@, now_ms).outcome == Ok::<
                    ActionModel,
                    LinkFault,
                >(action@),
                Err(fault) => old(self).react(old(status)@, reply@, now_ms).outcome == Err::<
                    ActionModel,
                    LinkFault,
                >(fault),
            },
    {
        let phase = self.phase;
        match phase {
            LinkPhase::Ready => Ok(LinkAction::Idle),
            LinkPhase::Connecting => {
                self.phase = LinkPhase::Ready;
                match read_packet(reply) {
                    Ok(None) => Ok(LinkAction::Idle),
                    Ok(Some(packet)) => {
                        if packet.packet_type == TYPE_CONNECT_ACK {
                            status.connected = true;
                        }
                        Ok(LinkAction::Idle)
                    },
                    Err(e) => Err(LinkFault::MalformedFrame(e)),
                }
            },
            LinkPhase::Commanding => {
                self.phase = LinkPhase::Ready;
                match read_packet(reply) {
                    Ok(None) => {
                        status.connected = false;
                        Ok(LinkAction::Idle)
                    },
                    Ok(Some(packet)) => {
                        if packet.packet_type == TYPE_SET_ACK {
                            status.acknowledge_command();
                            Ok(LinkAction::Idle)
                        } else {
                            status.desired_settings = None;
                            Err(LinkFault::UnexpectedFrameType(packet.packet_type))
                        }
                    },
                    Err(e) => Err(LinkFault::MalformedFrame(e)),
                }
            },
            LinkPhase::Polling(index) => {
                self.phase = LinkPhase::Ready;
                match read_packet(reply) {
                    Ok(None) => {
                        status.connected = false;
                        Ok(LinkAction::Idle)
                    },
                    Ok(Some(packet)) => {
                        match status_to_state(&packet, status) {
                            Ok(()) => {
                                if index < STATUS_CATEGORIES - 1 {
                                    self.phase = LinkPhase::Polling(index + 1);
                                    Ok(Self::request_at(index + 1, false))
                                } else {
                                    self.last_poll_ms = Some(now_ms);
                                    Ok(LinkAction::Idle)
                                }
                            },
                            Err(e) => Err(LinkFault::NotAStatusReport(e)),
                        }
                    },
                    Err(e) => Err(LinkFault::MalformedFrame(e)),
                }
            },
        }
    }
}

/// The handshake is a valid frame of the handshake's type.
pub proof fn lemma_connect_bytes_valid()
    ensures
        decode(connect_bytes()) is Ok,
        decode(connect_bytes())->Ok_0.packet_type == TYPE_CONNECT,
        decode(connect_bytes())->Ok_0.data == seq![0xcau8, 0x01u8],
{
    let bytes = connect_bytes();
    let data = bytes.subrange(5, 7);
    assert(data =~= seq![0xcau8, 0x01u8]);
    let f = Frame { packet_type: bytes[1], h2: bytes[2], h3: bytes[3], data, checksum: bytes[7] };
    crate::packet::lemma_header_sum(f);
    crate::packet::lemma_byte_sum_concat(f.header(), data);
    crate::misc::lemma_byte_sum_push(Seq::<u8>::empty(), 0xcau8);
    crate::misc::lemma_byte_sum_push(seq![0xcau8], 0x01u8);
    assert(seq![0xcau8].push(0x01u8) =~= data);
    assert(Seq::<u8>::empty().push(0xcau8) =~= seq![0xcau8]);
}

/// While the link is down and the outage limit is not reached, a cycle
/// begins with the handshake, whatever is pending and whenever the last poll
/// was; from the limit on it begins with a restart.
pub proof fn lemma_disconnected_connects(machine: LinkMachine, status: StatusModel, now_ms: u64)
    requires
        !status.connected,
    ensures
        now_ms - machine.spec_down_since(now_ms) < machine.outage_limit_ms ==> machine.plan(
            status,
            now_ms,
        ).1 == (ActionModel::Connect { bytes: connect_bytes() }) && machine.plan(
            status,
            now_ms,
        ).0.phase == LinkPhase::Connecting,
        now_ms - machine.spec_down_since(now_ms) >= machine.outage_limit_ms ==> machine.plan(
            status,
            now_ms,
        ).1 == ActionModel::Restart,
{
}

/// An acknowledged handshake brings the link up and changes nothing else of
/// the state.
pub proof fn lemma_connect_ack_connects(machine: LinkMachine, status: StatusModel, reply: Seq<u8>)
    requires
        machine.phase == LinkPhase::Connecting,
        decode(reply) is Ok,
        decode(reply)->Ok_0.packet_type == TYPE_CONNECT_ACK,
    ensures
        machine.react(status, reply, 0).status == (StatusModel { connected: true, ..status }),
        machine.react(status, reply, 0).outcome == Ok::<ActionModel, LinkFault>(
            ActionModel::Idle,
        ),
{
}

/// The machine waits for an answer exactly when it has told the loop to send
/// something: at the beginning of a cycle and after every answer. After a
/// fault it waits for nothing.
pub proof fn lemma_waits_exactly_when_sending(
    machine: LinkMachine,
    status: StatusModel,
    reply: Seq<u8>,
    now_ms: u64,
)
    ensures
        machine.plan(status, now_ms).1.wait() is Some <==> machine.plan(status, now_ms).0.phase
            != LinkPhase::Ready,
        machine.react(status, reply, now_ms).outcome is Err ==> machine.react(
            status,
            reply,
            now_ms,
        ).machine.phase == LinkPhase::Ready,
        machine.react(status, reply, now_ms).outcome matches Ok(action) ==> (action.wait() is Some
            <==> machine.react(status, reply, now_ms).machine.phase != LinkPhase::Ready),
{
}

/// Of two changes deposited one after the other before a cycle begins, the
/// cycle sees only the second: it begins as if the first had never been
/// deposited, and where it sends a frame, it is the frame of the second.
pub proof fn lemma_only_last_command_is_sent(
    machine: LinkMachine,
    status: StatusModel,
    first: SettingModel,
    second: SettingModel,
    now_ms: u64,
)
    ensures
        machine.plan(status.deposit(first).deposit(second), now_ms) == machine.plan(
            status.deposit(second),
            now_ms,
        ),
        status.connected && second.requires_packet() ==> machine.plan(
            status.deposit(first).deposit(second),
            now_ms,
        ).1 == (ActionModel::SendCommand { bytes: second.frame().encoding() }),
        status.connected && !second.requires_packet() ==> machine.plan(
            status.deposit(first).deposit(second),
            now_ms,
        ).1 == ActionModel::ApplyLocal,
{
}

/// A poll that gets no answer takes the link down, asks for no further
/// category in this cycle, keeps what was taken over before and does not
/// count as completed.
pub proof fn lemma_silence_ends_poll(
    machine: LinkMachine,
    status: StatusModel,
    index: usize,
    now_ms: u64,
)
    requires
        machine.phase == LinkPhase::Polling(index),
    ensures
        machine.react(status, Seq::<u8>::empty(), now_ms) == (Reaction {
            machine: LinkMachine { phase: LinkPhase::Ready, ..machine },
            status: StatusModel { connected: false, ..status },
            outcome: Ok(ActionModel::Idle),
        }),
{
}

} // verus!

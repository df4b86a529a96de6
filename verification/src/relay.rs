//! The relay: pairing the two connections of a session, and the pump that
//! carries bytes between them. The sockets are the caller's; this module
//! decides what is done with what they yield.

use crate::punch::StreamId;
use vstd::prelude::*;

verus! {

/// Milliseconds a connection on the main port has for its first frame.
pub const TCP_READ_TIMEOUT_MILLIS: u32 = 3000;

/// Milliseconds each side of a relay has to send the frame that names it.
pub const RELAY_IDENTIFY_TIMEOUT_MILLIS: u32 = 3000;

/// The two ends of a relay session.
#[derive(Debug, Clone, Copy, PartialEq, Eq, Structural)]
pub enum Side {
    Initiator,
    Target,
}

impl Side {
    /// The other end.
    pub open spec fn opposite(self) -> Side {
        match self {
            Side::Initiator => Side::Target,
            Side::Target => Side::Initiator,
        }
    }

    /// The other end.
    pub fn other(&self) -> (s: Side)
        ensures
            s == self.opposite(),
    {
        match self {
            Side::Initiator => Side::Target,
            Side::Target => Side::Initiator,
        }
    }
}

/// What the pump is told of.
#[derive(Debug)]
pub enum PumpEvent {
    /// One read from `from` yielded these bytes.
    Data { from: Side, bytes: Vec<u8> },
    /// `from` reached its end, or reading from it failed.
    Closed { from: Side },
    /// Writing to `to` failed.
    WriteFailed { to: Side },
    /// A datagram came in on the socket that the pump shares with the main loop.
    Datagram,
}

/// What the pump wants done.
#[derive(Debug)]
pub enum PumpAction {
    /// Write these bytes to `to`, as they are.
    Forward { to: Side, bytes: Vec<u8> },
    /// Hand the datagram to the rendezvous handler.
    ServeDatagram,
    /// Release both streams: the session is over.
    Shutdown,
    /// Nothing: the session was over already.
    Idle,
}

/// An event by its contents.
pub enum EventView {
    Data { from: Side, bytes: Seq<u8> },
    Closed { from: Side },
    WriteFailed { to: Side },
    Datagram,
}

/// An action by its contents.
pub enum ActionView {
    Forward { to: Side, bytes: Seq<u8> },
    ServeDatagram,
    Shutdown,
    Idle,
}

impl View for PumpEvent {
    type V = EventView;

    open spec fn view(&self) -> EventView {
        match self {
            PumpEvent::Data { from, bytes } => EventView::Data { from: *from, bytes: bytes@ },
            PumpEvent::Closed { from } => EventView::Closed { from: *from },
            PumpEvent::WriteFailed { to } => EventView::WriteFailed { to: *to },
            PumpEvent::Datagram => EventView::Datagram,
        }
    }
}

impl View for PumpAction {
    type V = ActionView;

    open spec fn view(&self) -> ActionView {
        match self {
            PumpAction::Forward { to, bytes } => ActionView::Forward { to: *to, bytes: bytes@ },
            PumpAction::ServeDatagram => ActionView::ServeDatagram,
            PumpAction::Shutdown => ActionView::Shutdown,
            PumpAction::Idle => ActionView::Idle,
        }
    }
}

/// One step of the pump: whether it runs afterwards, and what it wants
/// done. While it runs, what one side yields goes to the other untouched, a
/// datagram is served, and the end or failure of either side ends the
/// session. Once the session is over nothing is done any more.
pub open spec fn pump_step(running: bool, event: EventView) -> (bool, ActionView) {
    if !running {
        (false, ActionView::Idle)
    } else {
        match event {
            EventView::Data { from, bytes } => (true, ActionView::Forward { to: from.opposite(), bytes }),
            EventView::Closed { from } => (false, ActionView::Shutdown),
            EventView::WriteFailed { to } => (false, ActionView::Shutdown),
            EventView::Datagram => (true, ActionView::ServeDatagram),
        }
    }
}

/// The pump between the two streams of one relay session.
#[derive(Debug)]
pub struct RelayPump {
    initiator: StreamId,
    target: StreamId,
    running: bool,
}

/// A pump as plain values: its two streams, and whether the session is on.
pub struct PumpView {
    pub initiator: StreamId,
    pub target: StreamId,
    pub running: bool,
}

impl View for RelayPump {
    type V = PumpView;

    closed spec fn view(&self) -> PumpView {
        PumpView { initiator: self.initiator, target: self.target, running: self.running }
    }
}

impl RelayPump {
    /// Whether the session is still on.
    pub open spec fn running(&self) -> bool {
        self@.running
    }

    /// The stream of `side`.
    pub open spec fn stream(&self, side: Side) -> StreamId {
        match side {
            Side::Initiator => self@.initiator,
            Side::Target => self@.target,
        }
    }

    /// A running pump between the streams `initiator` and `target`.
    pub fn new(initiator: StreamId, target: StreamId) -> (r: RelayPump)
        ensures
            r@ == (PumpView { initiator, target, running: true }),
    {
        RelayPump { initiator, target, running: true }
    }

    /// Whether the session is still on.
    pub fn is_running(&self) -> (b: bool)
        ensures
            b == self.running(),
    {
        self.running
    }

    /// The stream of `side`.
    pub fn stream_of(&self, side: Side) -> (s: StreamId)
        ensures
            s == self.stream(side),
    {
        match side {
            Side::Initiator => self.initiator,
            Side::Target => self.target,
        }
    }

    /// Takes one event and says what is to be done.
    pub fn on_event(&mut self, event: PumpEvent) -> (action: PumpAction)
        ensures
            (final(self)@.running, action@) == pump_step(old(self)@.running, event@),
            final(self)@.initiator == old(self)@.initiator,
            final(self)@.target == old(self)@.target,
    {
        if !self.running {
            return PumpAction::Idle;
        }
        match event {
            PumpEvent::Data { from, bytes } => PumpAction::Forward { to: from.other(), bytes },
            PumpEvent::Closed { from: _ } => {
                self.running = false;
                PumpAction::Shutdown
            },
            PumpEvent::WriteFailed { to: _ } => {
                self.running = false;
                PumpAction::Shutdown
            },
            PumpEvent::Datagram => PumpAction::ServeDatagram,
        }
    }
}

/// The bytes that a pump, running or not as `running` says, wants written
/// to `to` while it is told of `events`, in order.
pub open spec fn forwarded(running: bool, events: Seq<EventView>, to: Side) -> Seq<u8>
    decreases events.len(),
{
    if events.len() == 0 {
        Seq::<u8>::empty()
    } else {
        let step = pump_step(running, events[0]);
        let rest = forwarded(step.0, events.drop_first(), to);
        match step.1 {
            ActionView::Forward { to: t, bytes } => if t == to {
                bytes + rest
            } else {
                rest
            },
            _ => rest,
        }
    }
}

/// The bytes that `from` yielded before the first event that ends the
/// session, in order.
pub open spec fn yielded(events: Seq<EventView>, from: Side) -> Seq<u8>
    decreases events.len(),
{
    if events.len() == 0 {
        Seq::<u8>::empty()
    } else {
        match events[0] {
            EventView::Data { from: f, bytes } => if f == from {
                bytes + yielded(events.drop_first(), from)
            } else {
                yielded(events.drop_first(), from)
            },
            EventView::Datagram => yielded(events.drop_first(), from),
            _ => Seq::<u8>::empty(),
        }
    }
}

proof fn lemma_stopped_forwards_nothing(events: Seq<EventView>, to: Side)
    ensures
        forwarded(false, events, to) == Seq::<u8>::empty(),
    decreases events.len(),
{
    if events.len() > 0 {
        lemma_stopped_forwards_nothing(events.drop_first(), to);
    }
}

/// What the pump passes on to one side is, byte for byte and in order,
/// what the other side yielded until the session ended: nothing is added,
/// dropped, changed or reordered.
pub proof fn law_pump_is_transparent(events: Seq<EventView>, to: Side)
    ensures
        forwarded(true, events, to) == yielded(events, to.opposite()),
    decreases events.len(),
{
    if events.len() > 0 {
        let rest = events.drop_first();
        match events[0] {
            EventView::Data { from, bytes } => {
                law_pump_is_transparent(rest, to);
            },
            EventView::Datagram => {
                law_pump_is_transparent(rest, to);
            },
            _ => {
                lemma_stopped_forwards_nothing(rest, to);
            },
        }
    }
}

/// What the pairing of relay connections wants done with a connection.
#[derive(Debug)]
pub enum PairingStep {
    /// No session expects the connection, or it did not name itself in
    /// time: close it.
    Reject { stream: StreamId },
    /// It is the initiator's side: keep it until the target's side comes.
    Hold,
    /// It is the target's side: both are there, run this pump.
    Pair { pump: RelayPump },
}

/// A step of the pairing by its contents.
pub enum PairingStepView {
    Reject { stream: StreamId },
    Hold,
    Pair { pump: PumpView },
}

impl View for PairingStep {
    type V = PairingStepView;

    open spec fn view(&self) -> PairingStepView {
        match self {
            PairingStep::Reject { stream } => PairingStepView::Reject { stream: *stream },
            PairingStep::Hold => PairingStepView::Hold,
            PairingStep::Pair { pump } => PairingStepView::Pair { pump: pump@ },
        }
    }
}

/// Which connections on the relay port are expected. Of each session the
/// first connection is the initiator's side and the second the target's.
#[derive(Debug)]
pub struct RelayPairing {
    expected: usize,
    held: Option<StreamId>,
}

/// The pairing as plain values: how many sessions still expect both or
/// one of their connections, and the initiator's side that is held.
pub struct PairingView {
    pub expected: nat,
    pub held: Option<StreamId>,
}

impl View for RelayPairing {
    type V = PairingView;

    closed spec fn view(&self) -> PairingView {
        PairingView { expected: self.expected as nat, held: self.held }
    }
}

/// The pairing `p` with one more session expected. Beyond what a `usize`
/// counts, nothing more is expected.
pub open spec fn expect_model(p: PairingView) -> PairingView {
    PairingView {
        expected: if p.expected < usize::MAX {
            p.expected + 1
        } else {
            p.expected
        },
        ..p
    }
}

/// What a connection accepted on the relay port does to the pairing `p`
/// and leads to; `identified` says whether it sent the frame that names it
/// in time. The first connection of a session that is expected is held as
/// the initiator's side; the second is the target's side, and with it the
/// session has its pump. A connection that no session expects, or that did
/// not name itself in time, is rejected and leaves the pairing as it was.
pub open spec fn accept_model(p: PairingView, stream: StreamId, identified: bool) -> (PairingView, PairingStepView) {
    if p.expected == 0 || !identified {
        (p, PairingStepView::Reject { stream })
    } else {
        match p.held {
            None => (PairingView { held: Some(stream), ..p }, PairingStepView::Hold),
            Some(first) => (
                PairingView { expected: (p.expected - 1) as nat, held: None },
                PairingStepView::Pair { pump: PumpView { initiator: first, target: stream, running: true } },
            ),
        }
    }
}

/// What a failed accept on the relay port does to the pairing `p` and
/// leads to: the session whose turn it was is given up, and the
/// initiator's side that was held for it is handed back.
pub open spec fn accept_failed_model(p: PairingView) -> (PairingView, Option<StreamId>) {
    (
        PairingView {
            expected: if p.expected > 0 {
                (p.expected - 1) as nat
            } else {
                0nat
            },
            held: None,
        },
        p.held,
    )
}

impl RelayPairing {
    /// A connection is held only for a session that is expected.
    pub open spec fn wf(&self) -> bool {
        self@.held is Some ==> self@.expected > 0
    }

    /// A pairing that expects nothing.
    pub fn new() -> (r: RelayPairing)
        ensures
            r.wf(),
            r@ == (PairingView { expected: 0, held: None }),
    {
        RelayPairing { expected: 0, held: None }
    }

    /// One more session expects its two connections.
    pub fn expect_pair(&mut self)
        requires
            old(self).wf(),
        ensures
            final(self).wf(),
            final(self)@ == expect_model(old(self)@),
    {
        if self.expected < usize::MAX {
            self.expected = self.expected + 1;
        }
    }

    /// A connection was accepted on the relay port; `identified` says
    /// whether it sent the frame that names it within
    /// `RELAY_IDENTIFY_TIMEOUT_MILLIS`.
    pub fn accepted(&mut self, stream: StreamId, identified: bool) -> (step: PairingStep)
        requires
            old(self).wf(),
        ensures
            final(self).wf(),
            (final(self)@, step@) == accept_model(old(self)@, stream, identified),
    {
        if self.expected == 0 || !identified {
            return PairingStep::Reject { stream };
        }
        match self.held {
            None => {
                self.held = Some(stream);
                PairingStep::Hold
            },
            Some(first) => {
                self.held = None;
                self.expected = self.expected - 1;
                PairingStep::Pair { pump: RelayPump::new(first, stream) }
            },
        }
    }

    /// Accepting on the relay port failed: the session whose turn it was is
    /// given up, and the initiator's side that was held for it, if any, is
    /// handed back to be closed.
    pub fn accept_failed(&mut self) -> (dropped: Option<StreamId>)
        requires
            old(self).wf(),
        ensures
            final(self).wf(),
            (final(self)@, dropped) == accept_failed_model(old(self)@),
    {
        let dropped = self.held;
        self.held = None;
        if self.expected > 0 {
            self.expected = self.expected - 1;
        }
        dropped
    }
}

} // verus!

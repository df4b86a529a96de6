//! The main loop's decisions: which events end the server and which it
//! lives through. The loop itself, with its sockets, is the caller's.

use crate::error::{IOError, TangoError};
use crate::relay::{RELAY_IDENTIFY_TIMEOUT_MILLIS, TCP_READ_TIMEOUT_MILLIS};
use vstd::prelude::*;

verus! {

/// The three sources that the loop races.
#[derive(Debug, Clone, Copy, PartialEq, Eq, Structural)]
pub enum Listener {
    Udp,
    TcpMain,
    TcpRelay,
}

/// What the loop is told of.
#[derive(Debug, Clone, Copy, PartialEq, Eq, Structural)]
pub enum LoopEvent {
    /// A connection was accepted on this listener.
    Accepted(Listener),
    /// Accepting on this listener failed.
    AcceptFailed(Listener),
    /// A connection accepted on this listener sent no first frame in time.
    TimedOut(Listener),
    /// A datagram could not be decoded.
    DecodeFailed,
    /// Handling a message ended in this error.
    HandlerFailed(TangoError),
    /// This source has reached its end and will yield nothing more.
    ListenerClosed(Listener),
    /// The process was asked to shut down.
    Shutdown,
}

/// What the loop does next.
#[derive(Debug, Clone, Copy, PartialEq, Eq, Structural)]
pub enum LoopStep {
    /// Go on.
    Continue,
    /// Serve the connection: switch `nodelay` on and give its first frame
    /// `read_timeout_millis` milliseconds.
    Serve { nodelay: bool, read_timeout_millis: u32 },
    /// Leave the loop: the shutdown is a clean one.
    Finished,
    /// Leave the loop with this error.
    Failed(TangoError),
}

/// The loop's state as plain values: which sources are still open, and how
/// many datagrams were dropped because they could not be decoded.
pub struct LoopView {
    pub udp_open: bool,
    pub main_open: bool,
    pub relay_open: bool,
    pub dropped_datagrams: u64,
}

/// `s` with the source `l` closed.
pub open spec fn closed_one(s: LoopView, l: Listener) -> LoopView {
    match l {
        Listener::Udp => LoopView { udp_open: false, ..s },
        Listener::TcpMain => LoopView { main_open: false, ..s },
        Listener::TcpRelay => LoopView { relay_open: false, ..s },
    }
}

/// No source of `s` is open any more.
pub open spec fn all_closed(s: LoopView) -> bool {
    !s.udp_open && !s.main_open && !s.relay_open
}

/// The error that names the source `l`.
pub open spec fn failure_of(l: Listener) -> TangoError {
    match l {
        Listener::Udp => TangoError::IOError(IOError::UdpSocket),
        Listener::TcpMain => TangoError::IOError(IOError::MainListener),
        Listener::TcpRelay => TangoError::IOError(IOError::RelayListener),
    }
}

/// The time that the first frame of a connection on `l` is given.
pub open spec fn first_frame_millis(l: Listener) -> u32 {
    match l {
        Listener::TcpRelay => RELAY_IDENTIFY_TIMEOUT_MILLIS,
        _ => TCP_READ_TIMEOUT_MILLIS,
    }
}

/// One step of the loop. No error of a single message or connection ends
/// it: a failed accept, a read that timed out and a failed handler are
/// lived through, and a datagram that cannot be decoded is dropped and
/// counted. The loop ends when it is asked to, and when its last source
/// has closed; it then fails with the error that names that source.
pub open spec fn loop_step(s: LoopView, event: LoopEvent) -> (LoopView, LoopStep) {
    match event {
        LoopEvent::Accepted(l) => (s, LoopStep::Serve { nodelay: true, read_timeout_millis: first_frame_millis(l) }),
        LoopEvent::AcceptFailed(l) => (s, LoopStep::Continue),
        LoopEvent::TimedOut(l) => (s, LoopStep::Continue),
        LoopEvent::DecodeFailed => (
            LoopView {
                dropped_datagrams: if s.dropped_datagrams < u64::MAX {
                    (s.dropped_datagrams + 1) as u64
                } else {
                    s.dropped_datagrams
                },
                ..s
            },
            LoopStep::Continue,
        ),
        LoopEvent::HandlerFailed(e) => (s, LoopStep::Continue),
        LoopEvent::ListenerClosed(l) => (
            closed_one(s, l),
            if all_closed(closed_one(s, l)) {
                LoopStep::Failed(failure_of(l))
            } else {
                LoopStep::Continue
            },
        ),
        LoopEvent::Shutdown => (s, LoopStep::Finished),
    }
}

/// The main loop's own state.
#[derive(Debug)]
pub struct ServerLoop {
    udp_open: bool,
    main_open: bool,
    relay_open: bool,
    dropped_datagrams: u64,
}

impl View for ServerLoop {
    type V = LoopView;

    closed spec fn view(&self) -> LoopView {
        LoopView {
            udp_open: self.udp_open,
            main_open: self.main_open,
            relay_open: self.relay_open,
            dropped_datagrams: self.dropped_datagrams,
        }
    }
}

impl ServerLoop {
    /// The loop's state once the three sockets are bound. A socket that
    /// could not be bound keeps the server from starting.
    pub fn start(udp_bound: bool, main_bound: bool, relay_bound: bool) -> (r: Result<ServerLoop, TangoError>)
        ensures
            !(udp_bound && main_bound && relay_bound) ==> r == Err::<ServerLoop, TangoError>(TangoError::Bind),
            udp_bound && main_bound && relay_bound ==> r is Ok && r->Ok_0@ == (LoopView {
                udp_open: true,
                main_open: true,
                relay_open: true,
                dropped_datagrams: 0,
            }),
    {
        if udp_bound && main_bound && relay_bound {
            Ok(ServerLoop { udp_open: true, main_open: true, relay_open: true, dropped_datagrams: 0 })
        } else {
            Err(TangoError::Bind)
        }
    }

    /// How many datagrams were dropped because they could not be decoded.
    pub fn dropped_datagrams(&self) -> (n: u64)
        ensures
            n == self@.dropped_datagrams,
    {
        self.dropped_datagrams
    }

    /// Takes one event and says what the loop does next.
    pub fn on_event(&mut self, event: LoopEvent) -> (step: LoopStep)
        ensures
            (final(self)@, step) == loop_step(old(self)@, event),
    {
        match event {
            LoopEvent::Accepted(l) => {
                let read_timeout_millis = match l {
                    Listener::TcpRelay => RELAY_IDENTIFY_TIMEOUT_MILLIS,
                    _ => TCP_READ_TIMEOUT_MILLIS,
                };
                LoopStep::Serve { nodelay: true, read_timeout_millis }
            },
            LoopEvent::AcceptFailed(_) => LoopStep::Continue,
            LoopEvent::TimedOut(_) => LoopStep::Continue,
            LoopEvent::DecodeFailed => {
                if self.dropped_datagrams < u64::MAX {
                    self.dropped_datagrams = self.dropped_datagrams + 1;
                }
                LoopStep::Continue
            },
            LoopEvent::HandlerFailed(_) => LoopStep::Continue,
            LoopEvent::ListenerClosed(l) => {
                match l {
                    Listener::Udp => {
                        self.udp_open = false;
                    },
                    Listener::TcpMain => {
                        self.main_open = false;
                    },
                    Listener::TcpRelay => {
                        self.relay_open = false;
                    },
                }
                if !self.udp_open && !self.main_open && !self.relay_open {
                    LoopStep::Failed(
                        match l {
                            Listener::Udp => TangoError::IOError(IOError::UdpSocket),
                            Listener::TcpMain => TangoError::IOError(IOError::MainListener),
                            Listener::TcpRelay => TangoError::IOError(IOError::RelayListener),
                        },
                    )
                } else {
                    LoopStep::Continue
                }
            },
            LoopEvent::Shutdown => LoopStep::Finished,
        }
    }
}

/// The loop leaves only when it is asked to shut down or when a source
/// closes; whatever else happens, it goes on.
pub proof fn law_loop_survives_errors(s: LoopView, event: LoopEvent)
    ensures
        loop_step(s, event).1 is Finished <==> event is Shutdown,
        loop_step(s, event).1 is Failed ==> event is ListenerClosed && all_closed(loop_step(s, event).0),
{
}

} // verus!

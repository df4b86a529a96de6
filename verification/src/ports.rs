//! The ports of the server, all derived from the main one.

use vstd::prelude::*;

verus! {

/// The main port used when the configuration names none.
pub const DEFAULT_MAIN_PORT: i32 = 21116;

/// The ports that the server listens on. `main_port` carries registration
/// and signalling over UDP and hole-punch orchestration over TCP.
#[derive(Debug, Clone, Copy, PartialEq, Eq, Structural)]
pub struct RendezvousServerPorts {
    pub main_port: i32,
    /// The relay's data plane, over TCP: one above the main port.
    pub relay_port: i32,
    /// The WebSocket listener: two above the main port.
    pub ws_port: i32,
    /// The NAT test: one below the main port.
    pub nat_port: i32,
}

/// The ports that go with the main port `main_port`.
pub open spec fn ports_for(main_port: i32) -> RendezvousServerPorts
    recommends
        i32::MIN < main_port <= i32::MAX - 2,
{
    RendezvousServerPorts {
        main_port,
        relay_port: (main_port + 1) as i32,
        ws_port: (main_port + 2) as i32,
        nat_port: (main_port - 1) as i32,
    }
}

impl RendezvousServerPorts {
    /// The ports that go with `main_port`. The main port must leave room
    /// for one port below it and two above.
    pub fn new(main_port: i32) -> (r: Self)
        requires
            i32::MIN < main_port <= i32::MAX - 2,
        ensures
            r == ports_for(main_port),
            r.main_port == main_port,
            r.relay_port == main_port + 1,
            r.ws_port == main_port + 2,
            r.nat_port == main_port - 1,
    {
        Self { main_port, relay_port: main_port + 1, ws_port: main_port + 2, nat_port: main_port - 1 }
    }
}

impl Default for RendezvousServerPorts {
    /// The ports that go with the default main port: 21116, 21117, 21118 and 21115.
    fn default() -> (r: Self)
        ensures
            r == ports_for(DEFAULT_MAIN_PORT),
    {
        Self::new(DEFAULT_MAIN_PORT)
    }
}

} // verus!

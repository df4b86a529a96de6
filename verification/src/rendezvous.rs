//! The rendezvous handler: what each message does to the server's state and
//! what the server sends in answer. Sockets, the durable store and the clock
//! are the caller's: it hands in what they yielded and carries out what
//! comes back.

use crate::addr::SocketAddress;
use crate::error::TangoError;
use crate::message::{MessageView, PkResult, RendezvousMessage};
use crate::peer::{
    add_model, adopts, delete_model, entered, get_model, register_pk_model, request_view,
    touch_model, AddressChanged, Peer, PeerMap,
    PeersCollection,
};
use crate::peer_id::{well_formed_id, PeerId};
use crate::ports::RendezvousServerPorts;
use crate::punch::{
    expired_at, pending_at, taken_first, waiting, without_first, ContextView,
    HolePunchContext, HolePunchCoordinator, Probe, PunchState, StreamId,
};
use crate::relay::{
    accept_failed_model, accept_model, expect_model, PairingStep, PairingView, RelayPairing,
};
use crate::store::{StoreLookup, StoreRequest, StoreRequestView, StoreWrite};
use crate::time::{later_by, Instant};
use vstd::prelude::*;

verus! {

/// A message to send by UDP.
#[derive(Debug)]
pub struct Datagram {
    pub to: SocketAddress,
    pub msg: RendezvousMessage,
}

/// A datagram by its contents.
pub struct DatagramView {
    pub to: SocketAddress,
    pub msg: MessageView,
}

impl View for Datagram {
    type V = DatagramView;

    open spec fn view(&self) -> DatagramView {
        DatagramView { to: self.to, msg: self.msg@ }
    }
}

/// What handling a datagram led to.
#[derive(Debug)]
pub struct UdpOutcome {
    /// The answer to send, if there is one.
    pub reply: Option<Datagram>,
    /// The change of address that the registration showed, if it showed one.
    pub observation: Option<AddressChanged>,
}

/// An outcome by its contents.
pub struct UdpOutcomeView {
    pub reply: Option<DatagramView>,
    pub observation: Option<AddressChanged>,
}

impl View for UdpOutcome {
    type V = UdpOutcomeView;

    open spec fn view(&self) -> UdpOutcomeView {
        UdpOutcomeView {
            reply: match self.reply {
                Some(d) => Some(d@),
                None => None,
            },
            observation: self.observation,
        }
    }
}

/// What handling the first frame of a TCP connection led to.
#[derive(Debug)]
pub enum TcpOutcome {
    /// The target is known: keep the connection open, parked; send
    /// `request` by UDP; close `superseded`, the parked connection of an
    /// older request for the same target, if there was one.
    Parked { request: Datagram, superseded: Option<StreamId> },
    /// A target answered: send `response` on the parked connection
    /// `initiator` and release it; two connections on the relay port are
    /// now expected. The connection that the answer came on is closed.
    Matched { initiator: StreamId, response: RendezvousMessage },
    /// Close the connection; nothing is sent.
    Dropped,
}

/// An outcome by its contents.
pub enum TcpOutcomeView {
    Parked { request: DatagramView, superseded: Option<StreamId> },
    Matched { initiator: StreamId, response: MessageView },
    Dropped,
}

impl View for TcpOutcome {
    type V = TcpOutcomeView;

    open spec fn view(&self) -> TcpOutcomeView {
        match self {
            TcpOutcome::Parked { request, superseded } => TcpOutcomeView::Parked {
                request: request@,
                superseded: *superseded,
            },
            TcpOutcome::Matched { initiator, response } => TcpOutcomeView::Matched {
                initiator: *initiator,
                response: response@,
            },
            TcpOutcome::Dropped => TcpOutcomeView::Dropped,
        }
    }
}

/// The server's state as plain values.
pub struct ServerView {
    pub peers: PeerMap,
    pub punches: Seq<ContextView>,
    pub pairing: PairingView,
    pub ports: RendezvousServerPorts,
    pub relay_server: Seq<char>,
    pub deadline_millis: u32,
}

/// No answer and nothing noted.
pub open spec fn silent() -> UdpOutcomeView {
    UdpOutcomeView { reply: None, observation: None }
}

/// The answer `msg` to `to`, with `observation` noted.
pub open spec fn answer(to: SocketAddress, msg: MessageView, observation: Option<AddressChanged>) -> UdpOutcomeView {
    UdpOutcomeView { reply: Some(DatagramView { to, msg }), observation }
}

/// The identifier that `msg` names a peer by, if it names one.
pub open spec fn named_peer(msg: MessageView) -> Option<Seq<char>> {
    match msg {
        MessageView::RegisterPeer { id } => Some(id),
        MessageView::RegisterPk { id, uuid, pk } => Some(id),
        MessageView::PunchHoleRequest { id } => Some(id),
        _ => None,
    }
}

/// A registration of `id` from `from`. An identifier that is not valid is
/// passed over in silence. A known peer, in the table or in the durable
/// store, is noted at `from`; the answer asks for its key if none is on
/// record or its address changed. An unknown one is entered, with no
/// device named yet and so no durable row to write, and asked for its key;
/// if a write was made all the same and failed, the table stays as it was
/// and the error is the result.
pub open spec fn register_peer_model(
    peers: PeerMap,
    id: Seq<char>,
    from: SocketAddress,
    now: nat,
    row: Option<(Seq<u8>, SocketAddress)>,
    written: StoreWrite,
) -> (PeerMap, Result<UdpOutcomeView, TangoError>) {
    if !well_formed_id(id) {
        (peers, Ok(silent()))
    } else {
        let looked = get_model(peers, id, row, now);
        match looked.1 {
            Some(known) => {
                let noted = touch_model(looked.0, id, from, now);
                let change = match noted.1 {
                    Ok(c) => c,
                    Err(_) => None,
                };
                (
                    noted.0,
                    Ok(
                        answer(
                            from,
                            MessageView::RegisterPeerResponse { request_pk: known.pk.len() == 0 || change is Some },
                            change,
                        ),
                    ),
                )
            },
            None => {
                let added = add_model(looked.0, entered(id, from, Seq::<u8>::empty(), now), written);
                match added.1 {
                    Ok(_) => (added.0, Ok(answer(from, MessageView::RegisterPeerResponse { request_pk: true }, None))),
                    Err(e) => (added.0, Err(e)),
                }
            },
        }
    }
}

/// A registration of the key `pk` for `id`, from the device `uuid`. A
/// peer that is not known, in the table or in the durable store, gets no
/// answer. A known one gets `Accepted` if its throttle lets the request
/// through, and the key is then on record; else `TooFrequent`. A peer that
/// had named no device is known by `uuid` from now on, after its durable
/// row is written; if that write did not succeed the peer stays as it was
/// and the error is the result.
pub open spec fn register_key_model(
    peers: PeerMap,
    id: Seq<char>,
    uuid: Seq<u8>,
    pk: Seq<u8>,
    from: SocketAddress,
    now: nat,
    row: Option<(Seq<u8>, SocketAddress)>,
    written: StoreWrite,
) -> (PeerMap, Result<UdpOutcomeView, TangoError>) {
    let looked = get_model(peers, id, row, now);
    if looked.1 is Some {
        let keyed = register_pk_model(looked.0, id, uuid, pk, now, written);
        match keyed.1 {
            Ok(admitted) => (
                keyed.0,
                Ok(
                    answer(
                        from,
                        MessageView::RegisterPkResponse {
                            result: if admitted {
                                PkResult::Accepted
                            } else {
                                PkResult::TooFrequent
                            },
                        },
                        None,
                    ),
                ),
            ),
            Err(e) => (keyed.0, Err(e)),
        }
    } else {
        (looked.0, Ok(silent()))
    }
}

/// What a datagram does to the peer table and leads to. Only
/// registrations, key registrations and NAT tests are acted on; every
/// other message, one with nothing in it too, is passed over: no answer,
/// and the table as it was.
pub open spec fn udp_model(
    peers: PeerMap,
    msg: MessageView,
    from: SocketAddress,
    now: nat,
    row: Option<(Seq<u8>, SocketAddress)>,
    written: StoreWrite,
) -> (PeerMap, Result<UdpOutcomeView, TangoError>) {
    match msg {
        MessageView::RegisterPeer { id } => register_peer_model(peers, id, from, now, row, written),
        MessageView::RegisterPk { id, uuid, pk } => register_key_model(peers, id, uuid, pk, from, now, row, written),
        MessageView::TestNatRequest => (peers, Ok(answer(from, MessageView::TestNatResponse { addr: from }, None))),
        _ => (peers, Ok(silent())),
    }
}

/// What the first frame of a TCP connection does to the server and leads
/// to. A request to punch a hole to a known target parks the connection and
/// asks the target, at its last known address, to come to the relay; one to
/// an unknown target is dropped. An answer from a target is matched with
/// the oldest context that waits for a target at its IP address. Every
/// other message is dropped.
pub open spec fn tcp_model(
    s: ServerView,
    msg: MessageView,
    from: SocketAddress,
    stream: StreamId,
    now: nat,
    row: Option<(Seq<u8>, SocketAddress)>,
) -> (ServerView, TcpOutcomeView) {
    match msg {
        MessageView::PunchHoleRequest { id } => {
            let looked = get_model(s.peers, id, row, now);
            match looked.1 {
                Some(target) => {
                    let probe = Probe::Target(id);
                    (
                        ServerView {
                            peers: looked.0,
                            punches: without_first(s.punches, probe).push(
                                waiting(id, target.addr, from, stream, later_by(now, s.deadline_millis as nat)),
                            ),
                            ..s
                        },
                        TcpOutcomeView::Parked {
                            request: DatagramView {
                                to: target.addr,
                                msg: MessageView::RequestRelay { relay_server: s.relay_server },
                            },
                            superseded: match taken_first(s.punches, probe, PunchState::Expired) {
                                Some(c) => Some(c.saved_stream),
                                None => None,
                            },
                        },
                    )
                },
                None => (ServerView { peers: looked.0, ..s }, TcpOutcomeView::Dropped),
            }
        },
        MessageView::RelayResponse { relay_server } => {
            let probe = Probe::Responder(from.ip, now);
            match taken_first(s.punches, probe, PunchState::Matched) {
                Some(c) => (
                    ServerView {
                        punches: without_first(s.punches, probe),
                        pairing: expect_model(s.pairing),
                        ..s
                    },
                    TcpOutcomeView::Matched {
                        initiator: c.saved_stream,
                        response: MessageView::RelayResponse { relay_server: s.relay_server },
                    },
                ),
                None => (s, TcpOutcomeView::Dropped),
            }
        },
        _ => (s, TcpOutcomeView::Dropped),
    }
}

/// The streams that the contexts `cs` have parked, in order.
pub open spec fn parked_streams(cs: Seq<ContextView>) -> Seq<StreamId> {
    cs.map_values(|c: ContextView| c.saved_stream)
}

/// The rendezvous server: the peer table, the pending hole-punches and the
/// relay connections that are expected.
pub struct RendezvousServer {
    peers: PeersCollection,
    punches: HolePunchCoordinator,
    pairing: RelayPairing,
    ports: RendezvousServerPorts,
    relay_server: String,
}

impl View for RendezvousServer {
    type V = ServerView;

    closed spec fn view(&self) -> ServerView {
        ServerView {
            peers: self.peers@,
            punches: self.punches@,
            pairing: self.pairing@,
            ports: self.ports,
            relay_server: self.relay_server@,
            deadline_millis: self.punches.limit(),
        }
    }
}

impl RendezvousServer {
    /// What holds of every server: each part is well formed.
    pub closed spec fn wf(&self) -> bool {
        &&& self.peers.wf()
        &&& self.punches.wf()
        &&& self.pairing.wf()
    }

    /// A server with no peer and nothing pending. `relay_server` is the
    /// host that clients are sent to for a relay; a server that was given
    /// none does not start.
    pub fn start(ports: RendezvousServerPorts, relay_server: Option<String>, deadline_millis: u32) -> (r: Result<
        RendezvousServer,
        TangoError,
    >)
        ensures
            relay_server is None ==> r == Err::<RendezvousServer, TangoError>(TangoError::Config),
            relay_server matches Some(host) ==> r matches Ok(server) && server.wf() && server@ == (ServerView {
                peers: Map::<Seq<char>, crate::peer::PeerState>::empty(),
                punches: Seq::<ContextView>::empty(),
                pairing: PairingView { expected: 0, held: None },
                ports,
                relay_server: host@,
                deadline_millis,
            }),
    {
        match relay_server {
            None => Err(TangoError::Config),
            Some(host) => Ok(
                RendezvousServer {
                    peers: PeersCollection::new(),
                    punches: HolePunchCoordinator::new(deadline_millis),
                    pairing: RelayPairing::new(),
                    ports,
                    relay_server: host,
                },
            ),
        }
    }
}

impl RendezvousServer {
    /// The ports that the server was started with.
    pub fn ports(&self) -> (p: RendezvousServerPorts)
        ensures
            p == self@.ports,
    {
        self.ports
    }

    /// The host that clients are sent to for a relay.
    pub fn relay_server(&self) -> (s: &str)
        ensures
            s@ == self@.relay_server,
    {
        self.relay_server.as_str()
    }

    /// The peer table, to read.
    pub fn peers(&self) -> (p: &PeersCollection)
        requires
            self.wf(),
        ensures
            p.wf(),
            p@ == self@.peers,
    {
        &self.peers
    }

    /// Takes the peer under `id` out of the table, at an administrator's
    /// word: see `PeersCollection::delete_id`.
    pub fn evict(&mut self, id: &PeerId) -> (r: Result<Option<StoreRequest>, TangoError>)
        requires
            old(self).wf(),
        ensures
            final(self).wf(),
            final(self)@ == (ServerView { peers: delete_model(old(self)@.peers, id@).0, ..old(self)@ }),
            r is Ok <==> delete_model(old(self)@.peers, id@).1 is Ok,
            r matches Ok(q) ==> delete_model(old(self)@.peers, id@).1 == Ok::<Option<StoreRequestView>, TangoError>(
                request_view(q),
            ),
            r matches Err(e) ==> delete_model(old(self)@.peers, id@).1 == Err::<Option<StoreRequestView>, TangoError>(
                e,
            ),
    {
        self.peers.delete_id(id)
    }

    /// How many hole-punches are pending.
    pub fn pending_punches(&self) -> (n: usize)
        ensures
            n == self@.punches.len(),
    {
        self.punches.len()
    }

    /// The lookup in the durable store that the handling of `msg` needs
    /// first: one for the peer that `msg` names, if that is a valid
    /// identifier which the table does not hold.
    pub fn lookup_for(&self, msg: &RendezvousMessage) -> (r: Option<StoreRequest>)
        requires
            self.wf(),
        ensures
            r is Some <==> named_peer(msg@) is Some && well_formed_id(named_peer(msg@)->0)
                && !self@.peers.dom().contains(named_peer(msg@)->0),
            r matches Some(q) ==> q@ == (StoreRequestView::GetById { id: named_peer(msg@)->0 }),
    {
        let id = match msg {
            RendezvousMessage::RegisterPeer { id } => id,
            RendezvousMessage::RegisterPk { id, uuid: _, pk: _ } => id,
            RendezvousMessage::PunchHoleRequest { id } => id,
            _ => {
                return None;
            },
        };
        match PeerId::new(id.as_str()) {
            Ok(pid) => self.peers.lookup_request(&pid),
            Err(_) => None,
        }
    }

    /// The write to the durable store that the handling of `msg` needs
    /// first: the row of a peer of the table that, with this key
    /// registration, names its device for the first time.
    pub fn write_for(&self, msg: &RendezvousMessage) -> (r: Option<StoreRequest>)
        requires
            self.wf(),
        ensures
            r is Some <==> msg@ is RegisterPk && self@.peers.dom().contains(msg@->RegisterPk_id) && adopts(
                self@.peers[msg@->RegisterPk_id].data,
                msg@->RegisterPk_uuid,
            ),
            r matches Some(q) ==> q@ == (StoreRequestView::Put {
                uuid: msg@->RegisterPk_uuid,
                id: msg@->RegisterPk_id,
                addr: self@.peers[msg@->RegisterPk_id].data.addr,
            }),
    {
        proof {
            self.peers.lemma_keys();
        }
        match msg {
            RendezvousMessage::RegisterPk { id, uuid, pk: _ } => {
                match PeerId::new(id.as_str()) {
                    Ok(pid) => self.peers.key_request(&pid, uuid),
                    Err(_) => None,
                }
            },
            _ => None,
        }
    }

    fn register_peer(
        &mut self,
        id: &String,
        from: SocketAddress,
        now: Instant,
        durable: StoreLookup,
        written: StoreWrite,
    ) -> (r: Result<UdpOutcome, TangoError>)
        requires
            old(self).wf(),
        ensures
            final(self).wf(),
            final(self)@ == (ServerView {
                peers: register_peer_model(old(self)@.peers, id@, from, now@, durable.row(), written).0,
                ..old(self)@
            }),
            r is Ok <==> register_peer_model(old(self)@.peers, id@, from, now@, durable.row(), written).1 is Ok,
            r matches Ok(o) ==> register_peer_model(old(self)@.peers, id@, from, now@, durable.row(), written).1
                == Ok::<UdpOutcomeView, TangoError>(o@),
            r matches Err(e) ==> register_peer_model(old(self)@.peers, id@, from, now@, durable.row(), written).1
                == Err::<UdpOutcomeView, TangoError>(e),
    {
        match PeerId::new(id.as_str()) {
            Err(_) => Ok(UdpOutcome { reply: None, observation: None }),
            Ok(pid) => {
                match self.peers.get(&pid, durable, now) {
                    Some(known) => {
                        let change = match self.peers.touch(&pid, from, now) {
                            Ok(c) => c,
                            Err(_) => None,
                        };
                        let request_pk = known.pk.len() == 0 || change.is_some();
                        Ok(
                            UdpOutcome {
                                reply: Some(
                                    Datagram { to: from, msg: RendezvousMessage::RegisterPeerResponse { request_pk } },
                                ),
                                observation: change,
                            },
                        )
                    },
                    None => {
                        let peer = Peer::new(pid, from, Vec::new(), now);
                        match self.peers.add(peer, written) {
                            Ok(_) => Ok(
                                UdpOutcome {
                                    reply: Some(
                                        Datagram {
                                            to: from,
                                            msg: RendezvousMessage::RegisterPeerResponse { request_pk: true },
                                        },
                                    ),
                                    observation: None,
                                },
                            ),
                            Err(e) => Err(e),
                        }
                    },
                }
            },
        }
    }

    fn register_key(
        &mut self,
        id: &String,
        uuid: Vec<u8>,
        pk: Vec<u8>,
        from: SocketAddress,
        now: Instant,
        durable: StoreLookup,
        written: StoreWrite,
    ) -> (r: Result<UdpOutcome, TangoError>)
        requires
            old(self).wf(),
        ensures
            final(self).wf(),
            final(self)@ == (ServerView {
                peers: register_key_model(old(self)@.peers, id@, uuid@, pk@, from, now@, durable.row(), written).0,
                ..old(self)@
            }),
            r is Ok <==> register_key_model(old(self)@.peers, id@, uuid@, pk@, from, now@, durable.row(), written).1
                is Ok,
            r matches Ok(o) ==> register_key_model(
                old(self)@.peers,
                id@,
                uuid@,
                pk@,
                from,
                now@,
                durable.row(),
                written,
            ).1 == Ok::<UdpOutcomeView, TangoError>(o@),
            r matches Err(e) ==> register_key_model(
                old(self)@.peers,
                id@,
                uuid@,
                pk@,
                from,
                now@,
                durable.row(),
                written,
            ).1 == Err::<UdpOutcomeView, TangoError>(e),
    {
        proof {
            self.peers.lemma_keys();
        }
        match PeerId::new(id.as_str()) {
            Err(_) => Ok(UdpOutcome { reply: None, observation: None }),
            Ok(pid) => {
                match self.peers.get(&pid, durable, now) {
                    Some(_) => {
                        match self.peers.register_pk(&pid, uuid, pk, now, written) {
                            Ok(admitted) => {
                                let result = if admitted {
                                    PkResult::Accepted
                                } else {
                                    PkResult::TooFrequent
                                };
                                Ok(
                                    UdpOutcome {
                                        reply: Some(
                                            Datagram { to: from, msg: RendezvousMessage::RegisterPkResponse { result } },
                                        ),
                                        observation: None,
                                    },
                                )
                            },
                            Err(e) => Err(e),
                        }
                    },
                    None => Ok(UdpOutcome { reply: None, observation: None }),
                }
            },
        }
    }

    /// Handles one datagram that came from `from` at `now`. `durable` and
    /// `written` say how the requests of `lookup_for` and `write_for`
    /// ended. An answer goes to `from` and nowhere else. The one error is
    /// that of a durable write that did not succeed.
    pub fn handle_udp(
        &mut self,
        msg: RendezvousMessage,
        from: SocketAddress,
        now: Instant,
        durable: StoreLookup,
        written: StoreWrite,
    ) -> (r: Result<UdpOutcome, TangoError>)
        requires
            old(self).wf(),
        ensures
            final(self).wf(),
            final(self)@ == (ServerView {
                peers: udp_model(old(self)@.peers, msg@, from, now@, durable.row(), written).0,
                ..old(self)@
            }),
            r is Ok <==> udp_model(old(self)@.peers, msg@, from, now@, durable.row(), written).1 is Ok,
            r matches Ok(o) ==> udp_model(old(self)@.peers, msg@, from, now@, durable.row(), written).1 == Ok::<
                UdpOutcomeView,
                TangoError,
            >(o@),
            r matches Err(e) ==> udp_model(old(self)@.peers, msg@, from, now@, durable.row(), written).1 == Err::<
                UdpOutcomeView,
                TangoError,
            >(e),
            r matches Ok(o) ==> (o.reply matches Some(d) ==> d.to == from),
    {
        match msg {
            RendezvousMessage::RegisterPeer { id } => self.register_peer(&id, from, now, durable, written),
            RendezvousMessage::RegisterPk { id, uuid, pk } => self.register_key(
                &id,
                uuid,
                pk,
                from,
                now,
                durable,
                written,
            ),
            RendezvousMessage::TestNatRequest => Ok(
                UdpOutcome {
                    reply: Some(Datagram { to: from, msg: RendezvousMessage::TestNatResponse { addr: from } }),
                    observation: None,
                },
            ),
            _ => Ok(UdpOutcome { reply: None, observation: None }),
        }
    }

    /// Handles the first frame of a TCP connection on the main port, which
    /// came from `from` at `now` and which the caller keeps under the name
    /// `stream`. `durable` says how the request of `lookup_for` ended.
    pub fn handle_tcp(
        &mut self,
        msg: RendezvousMessage,
        from: SocketAddress,
        stream: StreamId,
        now: Instant,
        durable: StoreLookup,
    ) -> (r: TcpOutcome)
        requires
            old(self).wf(),
        ensures
            final(self).wf(),
            final(self)@ == tcp_model(old(self)@, msg@, from, stream, now@, durable.row()).0,
            r@ == tcp_model(old(self)@, msg@, from, stream, now@, durable.row()).1,
    {
        match msg {
            RendezvousMessage::PunchHoleRequest { id } => {
                proof {
                    self.peers.lemma_keys();
                }
                match PeerId::new(id.as_str()) {
                    Err(_) => TcpOutcome::Dropped,
                    Ok(pid) => {
                        match self.peers.get(&pid, durable, now) {
                            Some(target) => {
                                let superseded = match self.punches.request(
                                    pid,
                                    target.socket_address,
                                    from,
                                    stream,
                                    now,
                                ) {
                                    Some(c) => Some(c.saved_stream),
                                    None => None,
                                };
                                TcpOutcome::Parked {
                                    request: Datagram {
                                        to: target.socket_address,
                                        msg: RendezvousMessage::RequestRelay { relay_server: self.relay_server.clone() },
                                    },
                                    superseded,
                                }
                            },
                            None => TcpOutcome::Dropped,
                        }
                    },
                }
            },
            RendezvousMessage::RelayResponse { relay_server: _ } => {
                match self.punches.relay_response(from.ip, now) {
                    Some(c) => {
                        self.pairing.expect_pair();
                        TcpOutcome::Matched {
                            initiator: c.saved_stream,
                            response: RendezvousMessage::RelayResponse { relay_server: self.relay_server.clone() },
                        }
                    },
                    None => TcpOutcome::Dropped,
                }
            },
            _ => TcpOutcome::Dropped,
        }
    }

    /// Gives up on every hole-punch whose deadline lies at or before
    /// `now`. The parked connections of those that are given up come back,
    /// oldest first, to be closed.
    pub fn on_tick(&mut self, now: Instant) -> (closed: Vec<StreamId>)
        requires
            old(self).wf(),
        ensures
            final(self).wf(),
            final(self)@ == (ServerView { punches: pending_at(old(self)@.punches, now@), ..old(self)@ }),
            closed@ == parked_streams(expired_at(old(self)@.punches, now@)),
    {
        let gone = self.punches.expire(now);
        let mut closed: Vec<StreamId> = Vec::new();
        let mut i: usize = 0;
        while i < gone.len()
            invariant
                i <= gone@.len(),
                closed@ == parked_streams(gone@.map_values(|c: HolePunchContext| c@)).take(i as int),
            decreases gone@.len() - i,
        {
            closed.push(gone[i].saved_stream);
            i += 1;
        }
        closed
    }

    /// A connection was accepted on the relay port: see `accept_model`.
    pub fn relay_accepted(&mut self, stream: StreamId, identified: bool) -> (step: PairingStep)
        requires
            old(self).wf(),
        ensures
            final(self).wf(),
            final(self)@ == (ServerView {
                pairing: accept_model(old(self)@.pairing, stream, identified).0,
                ..old(self)@
            }),
            step@ == accept_model(old(self)@.pairing, stream, identified).1,
    {
        self.pairing.accepted(stream, identified)
    }

    /// Accepting on the relay port failed: see `accept_failed_model`.
    pub fn relay_accept_failed(&mut self) -> (dropped: Option<StreamId>)
        requires
            old(self).wf(),
        ensures
            final(self).wf(),
            final(self)@ == (ServerView { pairing: accept_failed_model(old(self)@.pairing).0, ..old(self)@ }),
            dropped == accept_failed_model(old(self)@.pairing).1,
    {
        self.pairing.accept_failed()
    }
}

/// An answer to a datagram goes to the address that the datagram came
/// from, whatever the table or the durable store has on record.
pub proof fn law_answer_goes_to_source(
    peers: PeerMap,
    msg: MessageView,
    from: SocketAddress,
    now: nat,
    row: Option<(Seq<u8>, SocketAddress)>,
    written: StoreWrite,
)
    ensures
        udp_model(peers, msg, from, now, row, written).1 matches Ok(o) ==> (o.reply matches Some(d) ==> d.to == from),
{
}

/// A registration that is answered leaves the peer in the table at the
/// address that the registration came from, seen at that moment.
pub proof fn law_registration_records_source(
    peers: PeerMap,
    id: Seq<char>,
    from: SocketAddress,
    now: nat,
    row: Option<(Seq<u8>, SocketAddress)>,
    written: StoreWrite,
)
    requires
        register_peer_model(peers, id, from, now, row, written).1 matches Ok(o) && o.reply is Some,
    ensures
        register_peer_model(peers, id, from, now, row, written).0.dom().contains(id),
        register_peer_model(peers, id, from, now, row, written).0[id].data.addr == from,
        register_peer_model(peers, id, from, now, row, written).0[id].data.last_seen == now,
{
}

/// A request to punch a hole to a peer of the table is answered by a
/// request for a relay to that peer's address on record, naming the
/// server's relay host; and the initiator's connection is parked.
pub proof fn law_relay_request_goes_to_target(
    s: ServerView,
    id: Seq<char>,
    from: SocketAddress,
    stream: StreamId,
    now: nat,
    row: Option<(Seq<u8>, SocketAddress)>,
)
    requires
        s.peers.dom().contains(id),
    ensures
        tcp_model(
            s,
            MessageView::PunchHoleRequest { id },
            from,
            stream,
            now,
            row,
        ).1 matches TcpOutcomeView::Parked { request, superseded } && request.to == s.peers[id].data.addr
            && request.msg == (MessageView::RequestRelay { relay_server: s.relay_server }),
        tcp_model(s, MessageView::PunchHoleRequest { id }, from, stream, now, row).0.punches.last().saved_stream
            == stream,
        tcp_model(s, MessageView::PunchHoleRequest { id }, from, stream, now, row).0.peers == s.peers,
{
}

/// A request to punch a hole to a peer that neither the table nor the
/// durable store knows is dropped: nothing is sent and nothing is parked.
pub proof fn law_unknown_target_is_dropped(
    s: ServerView,
    id: Seq<char>,
    from: SocketAddress,
    stream: StreamId,
    now: nat,
)
    requires
        !s.peers.dom().contains(id),
    ensures
        tcp_model(s, MessageView::PunchHoleRequest { id }, from, stream, now, None) == (s, TcpOutcomeView::Dropped),
{
}

} // verus!

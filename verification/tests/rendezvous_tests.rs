use tango::addr::{IpAddress, SocketAddress};
use tango::error::TangoError;
use tango::message::{PkResult, RendezvousMessage};
use tango::peer::AddressChanged;
use tango::peer_id::PeerId;
use tango::ports::RendezvousServerPorts;
use tango::relay::{PairingStep, PumpAction, PumpEvent, Side};
use tango::rendezvous::{RendezvousServer, TcpOutcome, UdpOutcome};
use tango::store::{StoreLookup, StoreRequest, StoreWrite};
use tango::time::Instant;

const RELAY: &str = "198.51.100.7";

fn server() -> RendezvousServer {
    RendezvousServer::start(RendezvousServerPorts::new(21116), Some(String::from(RELAY)), 3000).unwrap()
}

fn addr(last: u8, port: u16) -> SocketAddress {
    SocketAddress::new(IpAddress::v4(10, 0, 0, last), port)
}

fn at(ms: u64) -> Instant {
    Instant::from_millis(ms).unwrap()
}

fn register_peer(name: &str) -> RendezvousMessage {
    RendezvousMessage::RegisterPeer { id: String::from(name) }
}

fn register_pk(name: &str, pk: Vec<u8>) -> RendezvousMessage {
    RendezvousMessage::RegisterPk { id: String::from(name), uuid: vec![], pk }
}

fn punch(name: &str) -> RendezvousMessage {
    RendezvousMessage::PunchHoleRequest { id: String::from(name) }
}

fn relay_response() -> RendezvousMessage {
    RendezvousMessage::RelayResponse { relay_server: String::new() }
}

fn register_pk_from(name: &str, uuid: Vec<u8>, pk: Vec<u8>) -> RendezvousMessage {
    RendezvousMessage::RegisterPk { id: String::from(name), uuid, pk }
}

fn registered(s: &mut RendezvousServer, name: &str, from: SocketAddress, now: Instant) -> UdpOutcome {
    s.handle_udp(register_peer(name), from, now, StoreLookup::Missing, StoreWrite::NotAsked).unwrap()
}

fn request_pk_of(o: &UdpOutcome) -> Option<bool> {
    match &o.reply {
        Some(d) => match d.msg {
            RendezvousMessage::RegisterPeerResponse { request_pk } => Some(request_pk),
            _ => None,
        },
        None => None,
    }
}

fn pk_result_of(o: &UdpOutcome) -> Option<PkResult> {
    match &o.reply {
        Some(d) => match d.msg {
            RendezvousMessage::RegisterPkResponse { result } => Some(result),
            _ => None,
        },
        None => None,
    }
}

#[test]
fn a_server_without_a_relay_host_does_not_start() {
    let r = RendezvousServer::start(RendezvousServerPorts::new(21116), None, 3000);
    assert!(matches!(r, Err(TangoError::Config)));
}

#[test]
fn a_started_server_knows_its_ports_and_relay_host() {
    let s = server();
    assert_eq!(s.ports(), RendezvousServerPorts::new(21116));
    assert_eq!(s.relay_server(), RELAY);
    assert_eq!(s.peers().len(), 0);
    assert_eq!(s.pending_punches(), 0);
}

#[test]
fn happy_registration() {
    let mut s = server();
    let from = addr(5, 4000);
    let msg = register_peer("alice-1");
    match s.lookup_for(&msg) {
        Some(StoreRequest::GetById { id }) => assert_eq!(id, "alice-1"),
        other => panic!("unexpected {:?}", other),
    }
    // the peer has named no device yet, so there is no row to write
    assert!(s.write_for(&msg).is_none());
    let o = s.handle_udp(msg, from, at(0), StoreLookup::Missing, StoreWrite::NotAsked).unwrap();
    assert_eq!(request_pk_of(&o), Some(true));
    assert_eq!(o.reply.as_ref().unwrap().to, from);
    assert_eq!(o.observation, None);
    assert_eq!(s.peers().len(), 1);
    assert!(s.peers().contains(&PeerId::new("alice-1").unwrap()));
    let rec = s.peers().record_of(&PeerId::new("alice-1").unwrap()).unwrap();
    assert_eq!(rec.socket_address, addr(5, 4000));
    assert_eq!(rec.last_seen.nanos(), 0);
}

#[test]
fn a_name_of_five_letters_is_no_identifier_and_gets_no_answer() {
    let mut s = server();
    let msg = register_peer("alice");
    assert!(s.lookup_for(&msg).is_none());
    assert!(s.write_for(&msg).is_none());
    let o = s.handle_udp(msg, addr(5, 4000), at(0), StoreLookup::NotAsked, StoreWrite::NotAsked).unwrap();
    assert!(o.reply.is_none());
    assert_eq!(s.peers().len(), 0);
    let o = s.handle_udp(register_peer(""), addr(5, 4000), at(0), StoreLookup::NotAsked, StoreWrite::Done).unwrap();
    assert!(o.reply.is_none());
    assert_eq!(s.peers().len(), 0);
}

#[test]
fn ip_change() {
    let mut s = server();
    registered(&mut s, "alice-1", addr(5, 4000), at(0));
    // the same IP from another port: noted, no change of address, nothing new allocated
    let msg = register_peer("alice-1");
    assert!(s.lookup_for(&msg).is_none());
    assert!(s.write_for(&msg).is_none());
    let o = s.handle_udp(msg, addr(5, 4100), at(1000), StoreLookup::NotAsked, StoreWrite::NotAsked).unwrap();
    assert_eq!(o.observation, None);
    assert_eq!(o.reply.as_ref().unwrap().to, addr(5, 4100));
    assert_eq!(request_pk_of(&o), Some(true));
    assert_eq!(s.peers().len(), 1);
    let rec = s.peers().record_of(&PeerId::new("alice-1").unwrap()).unwrap();
    assert_eq!(rec.socket_address, addr(5, 4100));
    assert_eq!(rec.last_seen.nanos(), 1_000_000_000);
    // a punch-hole request goes to where the table has the peer now
    match s.handle_tcp(punch("alice-1"), addr(9, 5000), 1, at(1100), StoreLookup::NotAsked) {
        TcpOutcome::Parked { request, .. } => assert_eq!(request.to, addr(5, 4100)),
        other => panic!("unexpected {:?}", other),
    }
    // another IP: the change is noted
    let o = s
        .handle_udp(register_peer("alice-1"), addr(6, 4100), at(2000), StoreLookup::NotAsked, StoreWrite::NotAsked)
        .unwrap();
    assert_eq!(o.observation, Some(AddressChanged { old: addr(5, 4100), new: addr(6, 4100) }));
    assert_eq!(request_pk_of(&o), Some(true));
    assert_eq!(s.peers().len(), 1);
}

#[test]
fn the_key_is_asked_for_until_one_is_on_record() {
    let mut s = server();
    let from = addr(5, 4000);
    assert_eq!(request_pk_of(&registered(&mut s, "alice-1", from, at(0))), Some(true));
    assert_eq!(request_pk_of(&registered(&mut s, "alice-1", from, at(10))), Some(true));
    let o = s.handle_udp(register_pk("alice-1", vec![42]), from, at(20), StoreLookup::NotAsked, StoreWrite::NotAsked).unwrap();
    assert_eq!(pk_result_of(&o), Some(PkResult::Accepted));
    assert_eq!(request_pk_of(&registered(&mut s, "alice-1", from, at(30))), Some(false));
    // from a new IP the key is asked for again
    assert_eq!(request_pk_of(&registered(&mut s, "alice-1", addr(6, 4000), at(40))), Some(true));
    assert_eq!(request_pk_of(&registered(&mut s, "alice-1", addr(6, 4000), at(50))), Some(false));
}

#[test]
fn pk_throttling() {
    let mut s = server();
    let from = addr(5, 4000);
    registered(&mut s, "alice-1", from, at(0));
    let mut replies = Vec::new();
    for ms in [0u64, 500, 1000, 2000] {
        let o = s
            .handle_udp(register_pk("alice-1", vec![1]), from, at(ms), StoreLookup::NotAsked, StoreWrite::NotAsked)
            .unwrap();
        assert_eq!(o.reply.as_ref().unwrap().to, from);
        replies.push(pk_result_of(&o).unwrap());
    }
    assert_eq!(
        replies,
        vec![PkResult::Accepted, PkResult::Accepted, PkResult::Accepted, PkResult::TooFrequent]
    );
    let o = s
        .handle_udp(register_pk("alice-1", vec![1]), from, at(6000), StoreLookup::NotAsked, StoreWrite::NotAsked)
        .unwrap();
    assert_eq!(pk_result_of(&o), Some(PkResult::Accepted));
}

#[test]
fn a_key_for_an_unknown_peer_gets_no_answer() {
    let mut s = server();
    let o = s
        .handle_udp(register_pk("nobody-1", vec![1]), addr(5, 4000), at(0), StoreLookup::Missing, StoreWrite::NotAsked)
        .unwrap();
    assert!(o.reply.is_none());
    let o = s
        .handle_udp(register_pk("x", vec![1]), addr(5, 4000), at(0), StoreLookup::NotAsked, StoreWrite::NotAsked)
        .unwrap();
    assert!(o.reply.is_none());
    assert_eq!(s.peers().len(), 0);
}

#[test]
fn a_failed_durable_write_keeps_the_peer_out_and_is_the_result() {
    // no write is asked for at a first registration; one that was made all
    // the same and failed still stops it
    let mut s = server();
    let r = s.handle_udp(register_peer("alice-1"), addr(5, 4000), at(0), StoreLookup::Missing, StoreWrite::Failed);
    assert!(matches!(r, Err(TangoError::Db)));
    assert_eq!(s.peers().len(), 0);
    let r = s.handle_udp(register_peer("alice-1"), addr(5, 4000), at(0), StoreLookup::Failed, StoreWrite::Failed);
    assert!(matches!(r, Err(TangoError::Db)));
    assert_eq!(s.peers().len(), 0);
}

#[test]
fn the_first_key_registration_names_the_device_and_writes_its_row() {
    let mut s = server();
    let from = addr(5, 4000);
    registered(&mut s, "alice-1", from, at(0));
    registered(&mut s, "bobby-1", addr(6, 4000), at(0));
    let alice = PeerId::new("alice-1").unwrap();
    let msg = register_pk_from("alice-1", vec![7, 7], vec![42]);
    assert!(s.lookup_for(&msg).is_none());
    match s.write_for(&msg) {
        Some(StoreRequest::Put { uuid, id, addr: a }) => {
            assert_eq!(uuid, vec![7, 7]);
            assert_eq!(id, "alice-1");
            assert_eq!(a, from);
        }
        other => panic!("unexpected {:?}", other),
    }
    // the write fails: the peer stays as it was, and the error is the result
    let r = s.handle_udp(msg, from, at(10), StoreLookup::NotAsked, StoreWrite::Failed);
    assert!(matches!(r, Err(TangoError::Db)));
    let rec = s.peers().record_of(&alice).unwrap();
    assert!(rec.device_uuid.is_empty());
    assert!(rec.pk.is_empty());
    // the write succeeds
    let msg = register_pk_from("alice-1", vec![7, 7], vec![42]);
    let o = s.handle_udp(msg, from, at(20), StoreLookup::NotAsked, StoreWrite::Done).unwrap();
    assert_eq!(pk_result_of(&o), Some(PkResult::Accepted));
    let rec = s.peers().record_of(&alice).unwrap();
    assert_eq!(rec.device_uuid, vec![7, 7]);
    assert_eq!(rec.pk, vec![42]);
    // later registrations of a key write no row
    let msg = register_pk_from("alice-1", vec![7, 7], vec![43]);
    assert!(s.write_for(&msg).is_none());
    let o = s.handle_udp(msg, from, at(30), StoreLookup::NotAsked, StoreWrite::NotAsked).unwrap();
    assert_eq!(pk_result_of(&o), Some(PkResult::Accepted));
    assert_eq!(s.peers().record_of(&alice).unwrap().pk, vec![43]);
    // the other peer names another device: its row has its own key
    let msg = register_pk_from("bobby-1", vec![8], vec![1]);
    match s.write_for(&msg) {
        Some(StoreRequest::Put { uuid, id, .. }) => {
            assert_eq!(uuid, vec![8]);
            assert_eq!(id, "bobby-1");
        }
        other => panic!("unexpected {:?}", other),
    }
    // eviction names the row by the device
    match s.evict(&alice) {
        Ok(Some(StoreRequest::DeleteByUuid { uuid })) => assert_eq!(uuid, vec![7, 7]),
        other => panic!("unexpected {:?}", other),
    }
}

#[test]
fn a_key_registration_for_a_peer_that_is_not_in_the_table_writes_no_row() {
    let s = server();
    assert!(s.write_for(&register_pk_from("nobody-1", vec![7], vec![1])).is_none());
    assert!(s.write_for(&register_pk_from("x", vec![7], vec![1])).is_none());
    assert!(s.write_for(&register_peer("alice-1")).is_none());
    assert!(s.write_for(&RendezvousMessage::Empty).is_none());
}

#[test]
fn a_peer_of_the_durable_store_is_rehydrated_on_registration() {
    let mut s = server();
    let msg = register_peer("alice-1");
    let row = StoreLookup::Found { uuid: vec![9], addr: addr(5, 4000) };
    assert!(s.write_for(&msg).is_none());
    let o = s.handle_udp(msg, addr(6, 4000), at(0), row, StoreWrite::NotAsked).unwrap();
    assert_eq!(request_pk_of(&o), Some(true));
    assert_eq!(o.observation, Some(AddressChanged { old: addr(5, 4000), new: addr(6, 4000) }));
    assert_eq!(s.peers().len(), 1);
}

#[test]
fn a_nat_test_echoes_the_source_address() {
    let mut s = server();
    let from = addr(5, 4000);
    let o = s
        .handle_udp(RendezvousMessage::TestNatRequest, from, at(0), StoreLookup::NotAsked, StoreWrite::NotAsked)
        .unwrap();
    let d = o.reply.unwrap();
    assert_eq!(d.to, from);
    assert!(matches!(d.msg, RendezvousMessage::TestNatResponse { addr: a } if a == from));
    assert_eq!(s.peers().len(), 0);
}

#[test]
fn every_other_message_is_passed_over() {
    let mut s = server();
    let from = addr(5, 4000);
    for msg in [
        RendezvousMessage::Other,
        RendezvousMessage::Empty,
        RendezvousMessage::RegisterPeerResponse { request_pk: true },
        RendezvousMessage::RegisterPkResponse { result: PkResult::Accepted },
        RendezvousMessage::RequestRelay { relay_server: String::from("x") },
        RendezvousMessage::TestNatResponse { addr: from },
        punch("alice-1"),
        relay_response(),
    ] {
        let o = s.handle_udp(msg, from, at(0), StoreLookup::NotAsked, StoreWrite::NotAsked).unwrap();
        assert!(o.reply.is_none());
        assert!(o.observation.is_none());
    }
    for msg in [
        RendezvousMessage::Other,
        RendezvousMessage::Empty,
        register_peer("alice-1"),
        RendezvousMessage::TestNatRequest,
    ] {
        let o = s.handle_tcp(msg, from, 1, at(0), StoreLookup::NotAsked);
        assert!(matches!(o, TcpOutcome::Dropped));
    }
    assert_eq!(s.peers().len(), 0);
    assert_eq!(s.pending_punches(), 0);
}

#[test]
fn punch_hole_target_present() {
    let mut s = server();
    registered(&mut s, "alice-1", addr(5, 4000), at(0));
    registered(&mut s, "alice-1", addr(5, 4100), at(100));
    let msg = punch("alice-1");
    assert!(s.lookup_for(&msg).is_none());
    match s.handle_tcp(msg, addr(9, 5000), 77, at(200), StoreLookup::NotAsked) {
        TcpOutcome::Parked { request, superseded } => {
            assert_eq!(request.to, addr(5, 4100));
            assert!(matches!(request.msg, RendezvousMessage::RequestRelay { ref relay_server } if relay_server == RELAY));
            assert_eq!(superseded, None);
        }
        other => panic!("unexpected {:?}", other),
    }
    assert_eq!(s.pending_punches(), 1);
    // a second request for the same target takes the place of the first
    match s.handle_tcp(punch("alice-1"), addr(8, 5000), 78, at(300), StoreLookup::NotAsked) {
        TcpOutcome::Parked { superseded, .. } => assert_eq!(superseded, Some(77)),
        other => panic!("unexpected {:?}", other),
    }
    assert_eq!(s.pending_punches(), 1);
}

#[test]
fn punch_hole_target_absent() {
    let mut s = server();
    registered(&mut s, "alice-1", addr(5, 4000), at(0));
    let msg = punch("bobby-1");
    match s.lookup_for(&msg) {
        Some(StoreRequest::GetById { id }) => assert_eq!(id, "bobby-1"),
        other => panic!("unexpected {:?}", other),
    }
    let o = s.handle_tcp(msg, addr(9, 5000), 77, at(200), StoreLookup::Missing);
    assert!(matches!(o, TcpOutcome::Dropped));
    assert_eq!(s.pending_punches(), 0);
    let o = s.handle_tcp(punch("bob"), addr(9, 5000), 78, at(200), StoreLookup::NotAsked);
    assert!(matches!(o, TcpOutcome::Dropped));
    assert_eq!(s.pending_punches(), 0);
    assert_eq!(s.peers().len(), 1);
}

#[test]
fn relay_bridge() {
    let mut s = server();
    registered(&mut s, "alice-1", addr(5, 4100), at(0));
    s.handle_tcp(punch("alice-1"), addr(9, 5000), 77, at(200), StoreLookup::NotAsked);
    // the target answers over TCP, from its IP and some other port
    match s.handle_tcp(relay_response(), addr(5, 61000), 80, at(900), StoreLookup::NotAsked) {
        TcpOutcome::Matched { initiator, response } => {
            assert_eq!(initiator, 77);
            assert!(matches!(response, RendezvousMessage::RelayResponse { ref relay_server } if relay_server == RELAY));
        }
        other => panic!("unexpected {:?}", other),
    }
    assert_eq!(s.pending_punches(), 0);
    assert!(matches!(s.relay_accepted(100, true), PairingStep::Hold));
    let mut pump = match s.relay_accepted(101, true) {
        PairingStep::Pair { pump } => pump,
        other => panic!("unexpected {:?}", other),
    };
    assert_eq!(pump.stream_of(Side::Initiator), 100);
    assert_eq!(pump.stream_of(Side::Target), 101);
    let payload: Vec<u8> = vec![0, 1, 2, 253, 254, 255, 0, 0];
    match pump.on_event(PumpEvent::Data { from: Side::Initiator, bytes: payload.clone() }) {
        PumpAction::Forward { to, bytes } => {
            assert_eq!(to, Side::Target);
            assert_eq!(bytes, payload);
        }
        other => panic!("unexpected {:?}", other),
    }
    match pump.on_event(PumpEvent::Data { from: Side::Target, bytes: payload.clone() }) {
        PumpAction::Forward { to, bytes } => {
            assert_eq!(to, Side::Initiator);
            assert_eq!(bytes, payload);
        }
        other => panic!("unexpected {:?}", other),
    }
    assert!(matches!(s.relay_accepted(102, true), PairingStep::Reject { stream: 102 }));
}

#[test]
fn an_answer_that_nobody_waits_for_is_dropped() {
    let mut s = server();
    registered(&mut s, "alice-1", addr(5, 4100), at(0));
    let o = s.handle_tcp(relay_response(), addr(5, 61000), 80, at(900), StoreLookup::NotAsked);
    assert!(matches!(o, TcpOutcome::Dropped));
    assert!(matches!(s.relay_accepted(100, true), PairingStep::Reject { stream: 100 }));
}

#[test]
fn a_target_that_never_answers_has_its_context_destroyed_at_the_deadline() {
    let mut s = server();
    registered(&mut s, "alice-1", addr(5, 4100), at(0));
    s.handle_tcp(punch("alice-1"), addr(9, 5000), 77, at(200), StoreLookup::NotAsked);
    assert!(s.on_tick(at(1200)).is_empty());
    assert!(s.on_tick(at(3199)).is_empty());
    assert_eq!(s.pending_punches(), 1);
    // the first tick at or after the deadline, within a second of it
    assert_eq!(s.on_tick(at(4199)), vec![77]);
    assert_eq!(s.pending_punches(), 0);
    assert!(s.on_tick(at(5199)).is_empty());
    // too late
    let o = s.handle_tcp(relay_response(), addr(5, 61000), 80, at(5200), StoreLookup::NotAsked);
    assert!(matches!(o, TcpOutcome::Dropped));
}

#[test]
fn an_answer_after_the_deadline_but_before_the_tick_is_dropped() {
    let mut s = server();
    registered(&mut s, "alice-1", addr(5, 4100), at(0));
    s.handle_tcp(punch("alice-1"), addr(9, 5000), 77, at(0), StoreLookup::NotAsked);
    let o = s.handle_tcp(relay_response(), addr(5, 61000), 80, at(3000), StoreLookup::NotAsked);
    assert!(matches!(o, TcpOutcome::Dropped));
    assert_eq!(s.on_tick(at(3500)), vec![77]);
}

#[test]
fn a_failed_accept_on_the_relay_port_gives_the_session_up() {
    let mut s = server();
    registered(&mut s, "alice-1", addr(5, 4100), at(0));
    s.handle_tcp(punch("alice-1"), addr(9, 5000), 77, at(200), StoreLookup::NotAsked);
    s.handle_tcp(relay_response(), addr(5, 61000), 80, at(900), StoreLookup::NotAsked);
    assert!(matches!(s.relay_accepted(100, true), PairingStep::Hold));
    assert_eq!(s.relay_accept_failed(), Some(100));
    assert!(matches!(s.relay_accepted(101, true), PairingStep::Reject { stream: 101 }));
}

#[test]
fn an_administrator_can_evict_a_peer() {
    let mut s = server();
    registered(&mut s, "alice-1", addr(5, 4000), at(0));
    let alice = PeerId::new("alice-1").unwrap();
    // the peer has named no device, so there is no row to drop
    assert!(matches!(s.evict(&alice), Ok(None)));
    assert_eq!(s.peers().len(), 0);
    assert!(matches!(
        s.evict(&alice),
        Err(TangoError::PeerError(tango::error::PeerError::DoesntExist))
    ));
    // the evicted peer registers anew and is asked for its key
    assert_eq!(request_pk_of(&registered(&mut s, "alice-1", addr(5, 4000), at(10))), Some(true));
}

//! The peer record and the table of registered peers.

use crate::addr::{address_changed, is_address_change, SocketAddress};
use crate::error::{PeerError, TangoError};
use crate::limiter::{admits, after_request, fresh, LimiterState, PkLimiter};
use crate::peer_id::{well_formed_id, PeerId};
use crate::store::{StoreLookup, StoreRequest, StoreRequestView, StoreWrite};
use crate::time::Instant;
use vstd::prelude::*;

verus! {

/// What is on record about a peer, as plain values.
pub struct PeerData {
    pub id: Seq<char>,
    pub addr: SocketAddress,
    pub uuid: Seq<u8>,
    pub pk: Seq<u8>,
    pub last_seen: nat,
}

/// A peer as the table holds it: the record and the state of its throttle.
pub struct PeerState {
    pub data: PeerData,
    pub limiter: LimiterState,
}

/// A registered peer. The throttle belongs to this one value: a `Peer` has
/// no copies, and `record` hands out what can be copied.
pub struct Peer {
    /// Where the peer's last accepted registration came from.
    pub socket_address: SocketAddress,
    pub peer_id: PeerId,
    /// The peer's own name for its device; the durable store keys rows by it.
    pub device_uuid: Vec<u8>,
    /// The throttle on this peer's public-key registrations.
    pub reg_pk_rate_limiter: PkLimiter,
    /// The public key registered in this run of the server; empty if none was.
    pub pk: Vec<u8>,
    /// The reading of the clock at the last accepted registration.
    pub last_seen: Instant,
}

impl View for Peer {
    type V = PeerState;

    open spec fn view(&self) -> PeerState {
        PeerState {
            data: PeerData {
                id: self.peer_id@,
                addr: self.socket_address,
                uuid: self.device_uuid@,
                pk: self.pk@,
                last_seen: self.last_seen@,
            },
            limiter: self.reg_pk_rate_limiter@,
        }
    }
}

/// A copy of what is on record about a peer.
#[derive(Debug)]
pub struct PeerRecord {
    pub peer_id: PeerId,
    pub socket_address: SocketAddress,
    pub device_uuid: Vec<u8>,
    pub pk: Vec<u8>,
    pub last_seen: Instant,
}

impl View for PeerRecord {
    type V = PeerData;

    open spec fn view(&self) -> PeerData {
        PeerData {
            id: self.peer_id@,
            addr: self.socket_address,
            uuid: self.device_uuid@,
            pk: self.pk@,
            last_seen: self.last_seen@,
        }
    }
}

/// The state of a peer that has just been entered with these values: no key
/// yet, and a throttle that has not been asked.
pub open spec fn entered(id: Seq<char>, addr: SocketAddress, uuid: Seq<u8>, now: nat) -> PeerState {
    PeerState {
        data: PeerData { id, addr, uuid, pk: Seq::<u8>::empty(), last_seen: now },
        limiter: fresh(),
    }
}

impl Peer {
    /// A peer entered at the reading `now`, seen at `socket_address`.
    pub fn new(peer_id: PeerId, socket_address: SocketAddress, device_uuid: Vec<u8>, now: Instant) -> (p: Peer)
        ensures
            p@ == entered(peer_id@, socket_address, device_uuid@, now@),
    {
        Peer {
            socket_address,
            peer_id,
            device_uuid,
            reg_pk_rate_limiter: PkLimiter::new(),
            pk: Vec::new(),
            last_seen: now,
        }
    }

    /// A copy of what is on record about the peer.
    pub fn record(&self) -> (r: PeerRecord)
        ensures
            r@ == self@.data,
    {
        PeerRecord {
            peer_id: self.peer_id.clone(),
            socket_address: self.socket_address,
            device_uuid: self.device_uuid.clone(),
            pk: self.pk.clone(),
            last_seen: self.last_seen,
        }
    }
}

impl Default for Peer {
    /// A peer of no name at `0.0.0.0:0`: a blank to fill in, not one that the
    /// table takes.
    fn default() -> (p: Peer)
        ensures
            p@ == entered(Seq::<char>::empty(), SocketAddress::unspecified_spec(), Seq::<u8>::empty(), 0),
    {
        Peer::new(PeerId::default(), SocketAddress::unspecified(), Vec::new(), Instant::zero())
    }
}

/// The table as a map from identifier to peer.
pub type PeerMap = Map<Seq<char>, PeerState>;

/// A peer was seen at a new IP address that is not a loopback one.
#[derive(Debug, Clone, Copy, PartialEq, Eq, Structural)]
pub struct AddressChanged {
    pub old: SocketAddress,
    pub new: SocketAddress,
}

/// Whether a change may go ahead after its durable write ended as
/// `written`, where `needed` says whether the change has a row to write: a
/// write that failed stops it, and so does a needed write that was not made.
pub open spec fn write_allows(needed: bool, written: StoreWrite) -> bool {
    written == StoreWrite::Done || (!needed && written == StoreWrite::NotAsked)
}

/// The peer has a row in the durable store, which keys rows by the device
/// identifier: one that has named its device.
pub open spec fn has_row(p: PeerData) -> bool {
    p.uuid.len() > 0
}

/// What `add` does to the table `m` and answers, given the peer and how the
/// durable write ended: an identifier that is not valid or is taken is
/// turned down, a write that did not succeed leaves the table as it was, and
/// otherwise the peer is in. A peer that has not named its device has no
/// row to write.
pub open spec fn add_model(m: PeerMap, p: PeerState, written: StoreWrite) -> (PeerMap, Result<PeerData, TangoError>) {
    if !well_formed_id(p.data.id) {
        (m, Err(TangoError::PeerError(PeerError::InvalidId)))
    } else if m.dom().contains(p.data.id) {
        (m, Err(TangoError::PeerError(PeerError::AlreadyExists)))
    } else if !write_allows(has_row(p.data), written) {
        (m, Err(TangoError::Db))
    } else {
        (m.insert(p.data.id, p), Ok(p.data))
    }
}

/// What `delete_id` does to the table and answers: the peer leaves, and
/// the request that drops its durable row comes back, if it has a row.
pub open spec fn delete_model(m: PeerMap, id: Seq<char>) -> (PeerMap, Result<Option<StoreRequestView>, TangoError>) {
    if m.dom().contains(id) {
        (
            m.remove(id),
            Ok(
                if has_row(m[id].data) {
                    Some(StoreRequestView::DeleteByUuid { uuid: m[id].data.uuid })
                } else {
                    None
                },
            ),
        )
    } else {
        (m, Err(TangoError::PeerError(PeerError::DoesntExist)))
    }
}

/// A request that may be there, by its contents.
pub open spec fn request_view(q: Option<StoreRequest>) -> Option<StoreRequestView> {
    match q {
        Some(r) => Some(r@),
        None => None,
    }
}

/// What `get` does to the table and answers, given the row that the durable
/// store handed back: a peer in the table is answered as it is; one that is
/// not, but has a row and a valid identifier, is entered from the row.
pub open spec fn get_model(m: PeerMap, id: Seq<char>, row: Option<(Seq<u8>, SocketAddress)>, now: nat) -> (PeerMap, Option<PeerData>) {
    if m.dom().contains(id) {
        (m, Some(m[id].data))
    } else {
        match row {
            Some((uuid, addr)) if well_formed_id(id) => {
                let p = entered(id, addr, uuid, now);
                (m.insert(id, p), Some(p.data))
            },
            _ => (m, None),
        }
    }
}

/// The peer `p` after a registration from `addr` at `now`.
pub open spec fn touched(p: PeerState, addr: SocketAddress, now: nat) -> PeerState {
    PeerState { data: PeerData { addr, last_seen: now, ..p.data }, ..p }
}

/// What `touch` does to the table and answers.
pub open spec fn touch_model(m: PeerMap, id: Seq<char>, addr: SocketAddress, now: nat) -> (PeerMap, Result<Option<AddressChanged>, TangoError>) {
    if m.dom().contains(id) {
        (
            m.insert(id, touched(m[id], addr, now)),
            Ok(
                if address_changed(m[id].data.addr, addr) {
                    Some(AddressChanged { old: m[id].data.addr, new: addr })
                } else {
                    None
                },
            ),
        )
    } else {
        (m, Err(TangoError::PeerError(PeerError::DoesntExist)))
    }
}

/// A key registration that names the device `uuid` makes the peer `p`
/// known by it: `p` has named none so far, and `uuid` is one.
pub open spec fn adopts(p: PeerData, uuid: Seq<u8>) -> bool {
    !has_row(p) && uuid.len() > 0
}

/// The peer `p` after it asked at `now` to register the key `pk` for the
/// device `uuid`: a peer that had named no device is known by `uuid` from
/// now on; the throttle has counted the request if it let it through, and
/// only then is the key on record.
pub open spec fn keyed(p: PeerState, uuid: Seq<u8>, pk: Seq<u8>, now: nat) -> PeerState {
    PeerState {
        data: PeerData {
            uuid: if adopts(p.data, uuid) {
                uuid
            } else {
                p.data.uuid
            },
            pk: if admits(p.limiter, now) {
                pk
            } else {
                p.data.pk
            },
            ..p.data
        },
        limiter: after_request(p.limiter, now),
    }
}

/// What `register_pk` does to the table and answers: whether the throttle
/// let the request through. Where the registration names the peer's device
/// for the first time, the peer's durable row is written first, and a write
/// that did not succeed leaves the peer, throttle included, as it was.
pub open spec fn register_pk_model(
    m: PeerMap,
    id: Seq<char>,
    uuid: Seq<u8>,
    pk: Seq<u8>,
    now: nat,
    written: StoreWrite,
) -> (PeerMap, Result<bool, TangoError>) {
    if !m.dom().contains(id) {
        (m, Err(TangoError::PeerError(PeerError::DoesntExist)))
    } else if !write_allows(adopts(m[id].data, uuid), written) {
        (m, Err(TangoError::Db))
    } else {
        (m.insert(id, keyed(m[id], uuid, pk, now)), Ok(admits(m[id].limiter, now)))
    }
}

spec fn states(peers: Seq<Peer>) -> Seq<PeerState> {
    peers.map_values(|p: Peer| p@)
}

spec fn listed(s: Seq<PeerState>, id: Seq<char>) -> bool {
    exists|i: int| 0 <= i < s.len() && (#[trigger] s[i]).data.id == id
}

spec fn pos(s: Seq<PeerState>, id: Seq<char>) -> int {
    choose|i: int| 0 <= i < s.len() && (#[trigger] s[i]).data.id == id
}

spec fn distinct(s: Seq<PeerState>) -> bool {
    forall|i: int, j: int| 0 <= i < j < s.len() ==> (#[trigger] s[i]).data.id != (#[trigger] s[j]).data.id
}

spec fn all_valid(s: Seq<PeerState>) -> bool {
    forall|i: int| 0 <= i < s.len() ==> well_formed_id((#[trigger] s[i]).data.id)
}

spec fn to_map(s: Seq<PeerState>) -> PeerMap {
    Map::new(|id: Seq<char>| listed(s, id), |id: Seq<char>| s[pos(s, id)])
}

proof fn lemma_pos(s: Seq<PeerState>, i: int)
    requires
        distinct(s),
        0 <= i < s.len(),
    ensures
        listed(s, s[i].data.id),
        pos(s, s[i].data.id) == i,
        to_map(s).dom().contains(s[i].data.id),
        to_map(s)[s[i].data.id] == s[i],
{
}

proof fn lemma_push(s: Seq<PeerState>, p: PeerState)
    requires
        distinct(s),
        !listed(s, p.data.id),
    ensures
        distinct(s.push(p)),
        to_map(s.push(p)) == to_map(s).insert(p.data.id, p),
{
    let t = s.push(p);
    assert forall|id: Seq<char>| #[trigger] to_map(t).dom().contains(id) <==> to_map(s).insert(p.data.id, p).dom().contains(id) by {
        if listed(s, id) {
            let i = pos(s, id);
            assert(t[i].data.id == id);
        }
        if id == p.data.id {
            assert(t[s.len() as int].data.id == id);
        }
    }
}

proof fn lemma_update(s: Seq<PeerState>, k: int, p: PeerState)
    requires
        distinct(s),
        0 <= k < s.len(),
        p.data.id == s[k].data.id,
    ensures
        distinct(s.update(k, p)),
        to_map(s.update(k, p)) == to_map(s).insert(p.data.id, p),
{
    let t = s.update(k, p);
    assert forall|id: Seq<char>| #[trigger] to_map(t).dom().contains(id) <==> to_map(s).insert(p.data.id, p).dom().contains(id) by {
        if listed(s, id) {
            let i = pos(s, id);
            assert(t[i].data.id == id);
        }
    }
}

proof fn lemma_remove(s: Seq<PeerState>, k: int)
    requires
        distinct(s),
        0 <= k < s.len(),
    ensures
        distinct(s.remove(k)),
        to_map(s.remove(k)) == to_map(s).remove(s[k].data.id),
{
    let t = s.remove(k);
    let gone = s[k].data.id;
    assert forall|id: Seq<char>| #[trigger] to_map(t).dom().contains(id) <==> to_map(s).remove(gone).dom().contains(id) by {
        if listed(s, id) && id != gone {
            let a = pos(s, id);
            let i = if a < k { a } else { a - 1 };
            assert(t[i] == s[a]);
        }
    }
}

spec fn ids(s: Seq<PeerState>) -> Seq<Seq<char>> {
    s.map_values(|p: PeerState| p.data.id)
}

proof fn lemma_domain(s: Seq<PeerState>)
    ensures
        to_map(s).dom() == ids(s).to_set(),
        distinct(s) ==> ids(s).no_duplicates(),
{
    assert forall|id: Seq<char>| to_map(s).dom().contains(id) <==> ids(s).to_set().contains(id) by {
        if listed(s, id) {
            let i = pos(s, id);
            assert(ids(s)[i] == id);
        }
    }
}

/// The table of registered peers, one per identifier.
pub struct PeersCollection {
    peers: Vec<Peer>,
}

impl View for PeersCollection {
    type V = PeerMap;

    closed spec fn view(&self) -> PeerMap {
        to_map(states(self.peers@))
    }
}

impl PeersCollection {
    /// What holds of every table: each peer in it has a validated identifier,
    /// and no identifier occurs twice.
    pub closed spec fn wf(&self) -> bool {
        &&& distinct(states(self.peers@))
        &&& all_valid(states(self.peers@))
    }

    /// Every key of the table is a validated identifier, and each peer is
    /// filed under its own.
    pub proof fn lemma_keys(&self)
        requires
            self.wf(),
        ensures
            self@.dom().finite(),
            forall|id: Seq<char>| #[trigger] self@.dom().contains(id) ==> well_formed_id(id) && self@[id].data.id == id,
    {
        let s = states(self.peers@);
        lemma_domain(s);
    }

    /// An empty table.
    pub fn new() -> (r: PeersCollection)
        ensures
            r.wf(),
            r@ == Map::<Seq<char>, PeerState>::empty(),
    {
        let r = PeersCollection { peers: Vec::new() };
        r
    }

    /// How many peers are registered.
    pub fn len(&self) -> (n: usize)
        requires
            self.wf(),
        ensures
            n == self@.dom().len(),
    {
        proof {
            let s = states(self.peers@);
            lemma_domain(s);
            ids(s).unique_seq_to_set();
        }
        self.peers.len()
    }

    fn position(&self, id: &PeerId) -> (r: Option<usize>)
        requires
            self.wf(),
        ensures
            r is Some <==> self@.dom().contains(id@),
            r matches Some(i) ==> i < self.peers@.len() && self.peers@[i as int]@.data.id == id@ && self@[id@] == self.peers@[i as int]@,
    {
        let mut i: usize = 0;
        while i < self.peers.len()
            invariant
                self.wf(),
                i <= self.peers@.len(),
                forall|j: int| 0 <= j < i ==> (#[trigger] states(self.peers@)[j]).data.id != id@,
            decreases self.peers@.len() - i,
        {
            if self.peers[i].peer_id == *id {
                proof {
                    lemma_pos(states(self.peers@), i as int);
                }
                return Some(i);
            }
            i += 1;
        }
        None
    }

    /// A copy of what the table has on record under `id`. The durable store
    /// is not consulted.
    pub fn record_of(&self, id: &PeerId) -> (r: Option<PeerRecord>)
        requires
            self.wf(),
        ensures
            r is Some <==> self@.dom().contains(id@),
            r matches Some(rec) ==> rec@ == self@[id@].data,
    {
        match self.position(id) {
            Some(i) => Some(self.peers[i].record()),
            None => None,
        }
    }

    /// Whether a peer is registered under `id`.
    pub fn contains(&self, id: &PeerId) -> (b: bool)
        requires
            self.wf(),
        ensures
            b == self@.dom().contains(id@),
    {
        self.position(id).is_some()
    }
}

impl PeersCollection {
    /// The write that `add` needs before it takes `peer`: none if it would
    /// turn the peer down anyway, or if the peer has named no device and so
    /// has no row.
    pub fn put_request(&self, peer: &Peer) -> (r: Option<StoreRequest>)
        requires
            self.wf(),
        ensures
            r is Some <==> well_formed_id(peer@.data.id) && !self@.dom().contains(peer@.data.id) && has_row(
                peer@.data,
            ),
            r matches Some(q) ==> q@ == (StoreRequestView::Put {
                uuid: peer@.data.uuid,
                id: peer@.data.id,
                addr: peer@.data.addr,
            }),
    {
        if peer.peer_id.check_valid() && !self.contains(&peer.peer_id) && peer.device_uuid.len() > 0 {
            Some(
                StoreRequest::Put {
                    uuid: peer.device_uuid.clone(),
                    id: peer.peer_id.to_text(),
                    addr: peer.socket_address,
                },
            )
        } else {
            None
        }
    }

    /// Enters `peer`, whose durable write ended as `written` says. The write
    /// comes first: a peer whose write did not succeed does not get in. A
    /// peer that has named no device has no row, and needs no write.
    pub fn add(&mut self, peer: Peer, written: StoreWrite) -> (r: Result<PeerRecord, TangoError>)
        requires
            old(self).wf(),
        ensures
            final(self).wf(),
            final(self)@ == add_model(old(self)@, peer@, written).0,
            r is Ok <==> add_model(old(self)@, peer@, written).1 is Ok,
            r matches Ok(rec) ==> add_model(old(self)@, peer@, written).1 == Ok::<PeerData, TangoError>(rec@),
            r matches Err(e) ==> add_model(old(self)@, peer@, written).1 == Err::<PeerData, TangoError>(e),
    {
        if !peer.peer_id.check_valid() {
            return Err(TangoError::PeerError(PeerError::InvalidId));
        }
        if self.contains(&peer.peer_id) {
            return Err(TangoError::PeerError(PeerError::AlreadyExists));
        }
        if !write_ok(peer.device_uuid.len() > 0, written) {
            return Err(TangoError::Db);
        }
        let rec = peer.record();
        proof {
            let s = states(self.peers@);
            lemma_push(s, peer@);
            assert(states(self.peers@.push(peer)) =~= s.push(peer@));
        }
        self.peers.push(peer);
        Ok(rec)
    }

    /// Takes the peer under `id` out of the table, and hands back the
    /// request that drops its durable row, if it has one. Whether that
    /// request then succeeds does not matter to the table.
    pub fn delete_id(&mut self, id: &PeerId) -> (r: Result<Option<StoreRequest>, TangoError>)
        requires
            old(self).wf(),
        ensures
            final(self).wf(),
            final(self)@ == delete_model(old(self)@, id@).0,
            r is Ok <==> delete_model(old(self)@, id@).1 is Ok,
            r matches Ok(q) ==> delete_model(old(self)@, id@).1 == Ok::<Option<StoreRequestView>, TangoError>(
                request_view(q),
            ),
            r matches Err(e) ==> delete_model(old(self)@, id@).1 == Err::<Option<StoreRequestView>, TangoError>(e),
    {
        match self.position(id) {
            Some(i) => {
                proof {
                    let s = states(self.peers@);
                    lemma_remove(s, i as int);
                    assert(states(self.peers@.remove(i as int)) =~= s.remove(i as int));
                }
                let gone = self.peers.remove(i);
                if gone.device_uuid.len() > 0 {
                    Ok(Some(StoreRequest::DeleteByUuid { uuid: gone.device_uuid }))
                } else {
                    Ok(None)
                }
            },
            None => Err(TangoError::PeerError(PeerError::DoesntExist)),
        }
    }

    /// The lookup that `get` needs before it can answer for `id`: none if
    /// the table holds the peer, or if `id` is no valid identifier.
    pub fn lookup_request(&self, id: &PeerId) -> (r: Option<StoreRequest>)
        requires
            self.wf(),
        ensures
            r is Some <==> well_formed_id(id@) && !self@.dom().contains(id@),
            r matches Some(q) ==> q@ == (StoreRequestView::GetById { id: id@ }),
    {
        if id.check_valid() && !self.contains(id) {
            Some(StoreRequest::GetById { id: id.to_text() })
        } else {
            None
        }
    }

    /// The peer under `id`. One that the table does not hold is entered
    /// from the row that the durable store handed back, if it handed one
    /// back; a lookup that failed counts as a miss.
    pub fn get(&mut self, id: &PeerId, durable: StoreLookup, now: Instant) -> (r: Option<PeerRecord>)
        requires
            old(self).wf(),
        ensures
            final(self).wf(),
            final(self)@ == get_model(old(self)@, id@, durable.row(), now@).0,
            r is Some <==> get_model(old(self)@, id@, durable.row(), now@).1 is Some,
            r matches Some(rec) ==> get_model(old(self)@, id@, durable.row(), now@).1 == Some(rec@),
    {
        match self.position(id) {
            Some(i) => Some(self.peers[i].record()),
            None => {
                match durable {
                    StoreLookup::Found { uuid, addr } => {
                        if id.check_valid() {
                            let peer = Peer::new(id.clone(), addr, uuid, now);
                            let rec = peer.record();
                            proof {
                                let s = states(self.peers@);
                                lemma_push(s, peer@);
                                assert(states(self.peers@.push(peer)) =~= s.push(peer@));
                            }
                            self.peers.push(peer);
                            Some(rec)
                        } else {
                            None
                        }
                    },
                    _ => None,
                }
            },
        }
    }

    /// Notes a registration of the peer under `id` from `new_addr` at
    /// `now`, and says whether its address changed in the sense of
    /// `address_changed`.
    pub fn touch(&mut self, id: &PeerId, new_addr: SocketAddress, now: Instant) -> (r: Result<Option<AddressChanged>, TangoError>)
        requires
            old(self).wf(),
        ensures
            final(self).wf(),
            final(self)@ == touch_model(old(self)@, id@, new_addr, now@).0,
            r == touch_model(old(self)@, id@, new_addr, now@).1,
    {
        match self.position(id) {
            Some(i) => {
                let old_addr = self.peers[i].socket_address;
                let ghost before = self.peers@;
                self.peers[i].socket_address = new_addr;
                self.peers[i].last_seen = now;
                proof {
                    let s = states(before);
                    let p = touched(s[i as int], new_addr, now@);
                    lemma_update(s, i as int, p);
                    assert(states(self.peers@) =~= s.update(i as int, p));
                }
                if is_address_change(&old_addr, &new_addr) {
                    Ok(Some(AddressChanged { old: old_addr, new: new_addr }))
                } else {
                    Ok(None)
                }
            },
            None => Err(TangoError::PeerError(PeerError::DoesntExist)),
        }
    }

    /// The write that `register_pk` needs before it makes the peer under
    /// `id` known by the device `uuid`: the peer's row, if the peer is in
    /// the table and this names its device for the first time.
    pub fn key_request(&self, id: &PeerId, uuid: &Vec<u8>) -> (r: Option<StoreRequest>)
        requires
            self.wf(),
        ensures
            r is Some <==> self@.dom().contains(id@) && adopts(self@[id@].data, uuid@),
            r matches Some(q) ==> q@ == (StoreRequestView::Put {
                uuid: uuid@,
                id: id@,
                addr: self@[id@].data.addr,
            }),
    {
        match self.position(id) {
            Some(i) => {
                if self.peers[i].device_uuid.len() == 0 && uuid.len() > 0 {
                    Some(
                        StoreRequest::Put {
                            uuid: uuid.clone(),
                            id: id.to_text(),
                            addr: self.peers[i].socket_address,
                        },
                    )
                } else {
                    None
                }
            },
            None => None,
        }
    }

    /// Asks the throttle of the peer under `id` for one registration of a
    /// public key at `now`, and puts `pk` on record if the throttle lets it
    /// through. The answer says whether it did. A peer that has named no
    /// device is known by `uuid` from now on, once its durable row is
    /// written: `written` says how that write ended.
    pub fn register_pk(
        &mut self,
        id: &PeerId,
        uuid: Vec<u8>,
        pk: Vec<u8>,
        now: Instant,
        written: StoreWrite,
    ) -> (r: Result<bool, TangoError>)
        requires
            old(self).wf(),
        ensures
            final(self).wf(),
            final(self)@ == register_pk_model(old(self)@, id@, uuid@, pk@, now@, written).0,
            r == register_pk_model(old(self)@, id@, uuid@, pk@, now@, written).1,
    {
        match self.position(id) {
            Some(i) => {
                let adopting = self.peers[i].device_uuid.len() == 0 && uuid.len() > 0;
                if !write_ok(adopting, written) {
                    return Err(TangoError::Db);
                }
                let ghost before = self.peers@;
                let ok = self.peers[i].reg_pk_rate_limiter.check_at(now);
                if adopting {
                    self.peers[i].device_uuid = uuid;
                }
                if ok {
                    self.peers[i].pk = pk;
                }
                proof {
                    let s = states(before);
                    let p = keyed(s[i as int], uuid@, pk@, now@);
                    lemma_update(s, i as int, p);
                    assert(states(self.peers@) =~= s.update(i as int, p));
                }
                Ok(ok)
            },
            None => Err(TangoError::PeerError(PeerError::DoesntExist)),
        }
    }
}

/// Whether a change may go ahead after its durable write ended as `written`.
pub fn write_ok(needed: bool, written: StoreWrite) -> (b: bool)
    ensures
        b == write_allows(needed, written),
{
    written == StoreWrite::Done || (!needed && written == StoreWrite::NotAsked)
}

/// A peer that `add` has taken is found by `get` under its identifier, at
/// the address it was entered with and with all else that was entered,
/// whatever the durable store says by then.
pub proof fn law_get_after_add(
    m: PeerMap,
    p: PeerState,
    written: StoreWrite,
    row: Option<(Seq<u8>, SocketAddress)>,
    now: nat,
)
    requires
        add_model(m, p, written).1 is Ok,
    ensures
        get_model(add_model(m, p, written).0, p.data.id, row, now).1 == Some(p.data),
        get_model(add_model(m, p, written).0, p.data.id, row, now).1->0.addr == p.data.addr,
        get_model(add_model(m, p, written).0, p.data.id, row, now).0 == add_model(m, p, written).0,
{
}

/// Once `add` has taken a peer, a second `add` under the same identifier is
/// turned down with `AlreadyExists` and leaves the table as it was.
pub proof fn law_second_add_rejected(m: PeerMap, p: PeerState, q: PeerState, first: StoreWrite, second: StoreWrite)
    requires
        add_model(m, p, first).1 is Ok,
        q.data.id == p.data.id,
    ensures
        add_model(add_model(m, p, first).0, q, second) == (
            add_model(m, p, first).0,
            Err::<PeerData, TangoError>(TangoError::PeerError(PeerError::AlreadyExists)),
        ),
{
}

/// After `touch` has noted a registered peer at `addr`, `get` answers with
/// that address.
pub proof fn law_get_after_touch(
    m: PeerMap,
    id: Seq<char>,
    addr: SocketAddress,
    at: nat,
    row: Option<(Seq<u8>, SocketAddress)>,
    now: nat,
)
    requires
        m.dom().contains(id),
    ensures
        touch_model(m, id, addr, at).1 is Ok,
        get_model(touch_model(m, id, addr, at).0, id, row, now).1 is Some,
        get_model(touch_model(m, id, addr, at).0, id, row, now).1->0.addr == addr,
        get_model(touch_model(m, id, addr, at).0, id, row, now).1->0.last_seen == at,
{
}

/// No operation of the table changes how many peers there are under one
/// identifier: `touch` and `register_pk` keep the set of identifiers as it
/// is.
pub proof fn law_touch_keeps_keys(
    m: PeerMap,
    id: Seq<char>,
    addr: SocketAddress,
    uuid: Seq<u8>,
    pk: Seq<u8>,
    now: nat,
    written: StoreWrite,
)
    ensures
        touch_model(m, id, addr, now).0.dom() == m.dom(),
        register_pk_model(m, id, uuid, pk, now, written).0.dom() == m.dom(),
{
    assert(touch_model(m, id, addr, now).0.dom() =~= m.dom());
    assert(register_pk_model(m, id, uuid, pk, now, written).0.dom() =~= m.dom());
}

/// Each peer has a throttle of its own: a key registration counts against
/// the peer that asked and no other, and a registration of address leaves
/// every throttle as it is.
pub proof fn law_throttle_is_per_peer(
    m: PeerMap,
    id: Seq<char>,
    other: Seq<char>,
    uuid: Seq<u8>,
    pk: Seq<u8>,
    addr: SocketAddress,
    now: nat,
    written: StoreWrite,
)
    requires
        m.dom().contains(other),
    ensures
        other != id ==> register_pk_model(m, id, uuid, pk, now, written).0[other] == m[other],
        touch_model(m, id, addr, now).0[other].limiter == m[other].limiter,
        register_pk_model(m, id, uuid, pk, now, written).1 is Ok ==> register_pk_model(
            m,
            id,
            uuid,
            pk,
            now,
            written,
        ).0[id].limiter == after_request(m[id].limiter, now) && register_pk_model(m, id, uuid, pk, now, written).1
            == Ok::<bool, TangoError>(admits(m[id].limiter, now)),
{
}

/// A key registration that names a peer's device for the first time goes
/// ahead only after the peer's durable row is written: if that write did
/// not succeed, the table, throttles included, is as it was.
pub proof fn law_row_is_written_first(
    m: PeerMap,
    id: Seq<char>,
    uuid: Seq<u8>,
    pk: Seq<u8>,
    now: nat,
    written: StoreWrite,
)
    requires
        m.dom().contains(id),
        adopts(m[id].data, uuid),
        written != StoreWrite::Done,
    ensures
        register_pk_model(m, id, uuid, pk, now, written) == (m, Err::<bool, TangoError>(TangoError::Db)),
{
}

} // verus!

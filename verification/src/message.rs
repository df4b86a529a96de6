//! The rendezvous messages that the server acts on, as plain values. The
//! wire format is the caller's part: it decodes a datagram or a frame into
//! one of these and encodes the replies.

use crate::addr::SocketAddress;
use vstd::prelude::*;

verus! {

/// How a registration of a public key ended.
#[derive(Debug, Clone, Copy, PartialEq, Eq, Structural)]
pub enum PkResult {
    Accepted,
    TooFrequent,
}

/// One message of the protocol. Every member of the protocol's union that
/// the server neither acts on nor sends is `Other`; a message whose union is
/// not set at all is `Empty`.
#[derive(Debug)]
pub enum RendezvousMessage {
    RegisterPeer { id: String },
    RegisterPeerResponse { request_pk: bool },
    RegisterPk { id: String, uuid: Vec<u8>, pk: Vec<u8> },
    RegisterPkResponse { result: PkResult },
    PunchHoleRequest { id: String },
    RequestRelay { relay_server: String },
    RelayResponse { relay_server: String },
    TestNatRequest,
    TestNatResponse { addr: SocketAddress },
    Other,
    Empty,
}

/// A message by its contents.
pub enum MessageView {
    RegisterPeer { id: Seq<char> },
    RegisterPeerResponse { request_pk: bool },
    RegisterPk { id: Seq<char>, uuid: Seq<u8>, pk: Seq<u8> },
    RegisterPkResponse { result: PkResult },
    PunchHoleRequest { id: Seq<char> },
    RequestRelay { relay_server: Seq<char> },
    RelayResponse { relay_server: Seq<char> },
    TestNatRequest,
    TestNatResponse { addr: SocketAddress },
    Other,
    Empty,
}

impl View for RendezvousMessage {
    type V = MessageView;

    open spec fn view(&self) -> MessageView {
        match self {
            RendezvousMessage::RegisterPeer { id } => MessageView::RegisterPeer { id: id@ },
            RendezvousMessage::RegisterPeerResponse { request_pk } => MessageView::RegisterPeerResponse {
                request_pk: *request_pk,
            },
            RendezvousMessage::RegisterPk { id, uuid, pk } => MessageView::RegisterPk { id: id@, uuid: uuid@, pk: pk@ },
            RendezvousMessage::RegisterPkResponse { result } => MessageView::RegisterPkResponse { result: *result },
            RendezvousMessage::PunchHoleRequest { id } => MessageView::PunchHoleRequest { id: id@ },
            RendezvousMessage::RequestRelay { relay_server } => MessageView::RequestRelay {
                relay_server: relay_server@,
            },
            RendezvousMessage::RelayResponse { relay_server } => MessageView::RelayResponse {
                relay_server: relay_server@,
            },
            RendezvousMessage::TestNatRequest => MessageView::TestNatRequest,
            RendezvousMessage::TestNatResponse { addr } => MessageView::TestNatResponse { addr: *addr },
            RendezvousMessage::Other => MessageView::Other,
            RendezvousMessage::Empty => MessageView::Empty,
        }
    }
}

} // verus!

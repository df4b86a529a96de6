//! The durable store, seen from the peer table: what the table asks of it and
//! what it may answer. The caller carries the requests out.

use crate::addr::SocketAddress;
use vstd::prelude::*;

verus! {

/// One request to the durable store.
#[derive(Debug)]
pub enum StoreRequest {
    /// Keep the row `(uuid, id, addr)`.
    Put { uuid: Vec<u8>, id: String, addr: SocketAddress },
    /// Look the row of `id` up.
    GetById { id: String },
    /// Drop the row of `uuid`.
    DeleteByUuid { uuid: Vec<u8> },
}

/// A request by its contents.
pub enum StoreRequestView {
    Put { uuid: Seq<u8>, id: Seq<char>, addr: SocketAddress },
    GetById { id: Seq<char> },
    DeleteByUuid { uuid: Seq<u8> },
}

impl View for StoreRequest {
    type V = StoreRequestView;

    open spec fn view(&self) -> StoreRequestView {
        match self {
            StoreRequest::Put { uuid, id, addr } => StoreRequestView::Put { uuid: uuid@, id: id@, addr: *addr },
            StoreRequest::GetById { id } => StoreRequestView::GetById { id: id@ },
            StoreRequest::DeleteByUuid { uuid } => StoreRequestView::DeleteByUuid { uuid: uuid@ },
        }
    }
}

/// How a `Put` ended. `NotAsked` stands for a write that was not needed.
#[derive(Debug, Clone, Copy, PartialEq, Eq, Structural)]
pub enum StoreWrite {
    NotAsked,
    Done,
    Failed,
}

/// How a `GetById` ended. `NotAsked` stands for a lookup that was not needed.
#[derive(Debug)]
pub enum StoreLookup {
    NotAsked,
    Missing,
    Failed,
    Found { uuid: Vec<u8>, addr: SocketAddress },
}

impl StoreLookup {
    /// The row that the store handed back, if it handed one back.
    pub open spec fn row(&self) -> Option<(Seq<u8>, SocketAddress)> {
        match self {
            StoreLookup::Found { uuid, addr } => Some((uuid@, *addr)),
            _ => None,
        }
    }
}

} // verus!

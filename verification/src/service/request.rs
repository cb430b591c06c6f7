//! What a client asks of the daemon.

use vstd::prelude::*;

verus! {

/// A command from a client of the control channel.
#[derive(Debug, PartialEq, Eq)]
pub enum WsRequest {
    /// Bring the connection up. The parameters are for the tunnel and are
    /// handed to it as they stand.
    Connect(Vec<u8>),
    /// Bring the connection down.
    Disconnect,
}

/// [`WsRequest`] as plain values.
pub enum WsRequestView {
    Connect(Seq<u8>),
    Disconnect,
}

impl View for WsRequest {
    type V = WsRequestView;

    open spec fn view(&self) -> WsRequestView {
        match self {
            WsRequest::Connect(params) => WsRequestView::Connect(params@),
            WsRequest::Disconnect => WsRequestView::Disconnect,
        }
    }
}

} // verus!

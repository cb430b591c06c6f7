//! What the daemon tells its clients.

use vstd::prelude::*;

use crate::service::vpn_state::{VpnState, VpnStateView};

verus! {

/// A notification to the clients of the control channel.
#[derive(Debug, PartialEq, Eq)]
pub enum WsEvent {
    /// The connection is now in this state.
    VpnState(VpnState),
    /// The client is asked to bring the connection back up.
    ResumeConnection,
}

/// [`WsEvent`] as plain values.
pub enum WsEventView {
    VpnState(VpnStateView),
    ResumeConnection,
}

impl View for WsEvent {
    type V = WsEventView;

    open spec fn view(&self) -> WsEventView {
        match self {
            WsEvent::VpnState(state) => WsEventView::VpnState(state@),
            WsEvent::ResumeConnection => WsEventView::ResumeConnection,
        }
    }
}

} // verus!

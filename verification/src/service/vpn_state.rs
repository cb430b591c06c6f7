//! The state of the VPN connection.

use vstd::prelude::*;

verus! {

/// The state of the VPN connection. Exactly one state is current at any
/// moment; the daemon starts out disconnected.
#[derive(Debug, PartialEq, Eq)]
pub enum VpnState {
    Disconnected,
    Connecting,
    Connected,
    Disconnecting,
    /// The last attempt failed for the reason given. The next request to
    /// connect leaves this state.
    Error(String),
}

/// [`VpnState`] as plain values.
pub enum VpnStateView {
    Disconnected,
    Connecting,
    Connected,
    Disconnecting,
    Error(Seq<char>),
}

impl View for VpnState {
    type V = VpnStateView;

    open spec fn view(&self) -> VpnStateView {
        match self {
            VpnState::Disconnected => VpnStateView::Disconnected,
            VpnState::Connecting => VpnStateView::Connecting,
            VpnState::Connected => VpnStateView::Connected,
            VpnState::Disconnecting => VpnStateView::Disconnecting,
            VpnState::Error(reason) => VpnStateView::Error(reason@),
        }
    }
}

impl Clone for VpnState {
    fn clone(&self) -> (state: Self)
        ensures
            state@ == self@,
    {
        match self {
            VpnState::Disconnected => VpnState::Disconnected,
            VpnState::Connecting => VpnState::Connecting,
            VpnState::Connected => VpnState::Connected,
            VpnState::Disconnecting => VpnState::Disconnecting,
            VpnState::Error(reason) => VpnState::Error(reason.clone()),
        }
    }
}

impl VpnState {
    /// Whether the connection is down and at rest.
    pub fn is_disconnected(&self) -> (r: bool)
        ensures
            r == (self@ == VpnStateView::Disconnected),
    {
        match self {
            VpnState::Disconnected => true,
            _ => false,
        }
    }
}

} // verus!

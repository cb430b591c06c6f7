//! The channel on which the state of the connection is distributed.

use vstd::prelude::*;

use crate::service::vpn_state::{VpnState, VpnStateView};

verus! {

/// What the slot holds after `state` was published: `state`, whatever the
/// slot held before.
pub open spec fn after_publish(slot: VpnStateView, state: VpnStateView) -> VpnStateView {
    state
}

/// A channel with a single slot. Publishing overwrites what the slot
/// holds, so the last value wins: a reader finds the state published most
/// recently, and learns nothing of the states that came between two of its
/// reads. Whoever needs every transition cannot get it from this channel.
#[derive(Debug, PartialEq, Eq)]
pub struct StateChannel {
    slot: VpnState,
}

impl View for StateChannel {
    type V = VpnStateView;

    closed spec fn view(&self) -> VpnStateView {
        self.slot@
    }
}

impl StateChannel {
    /// A channel that holds the state in which the daemon starts:
    /// disconnected.
    pub fn new() -> (channel: Self)
        ensures
            channel@ == VpnStateView::Disconnected,
    {
        StateChannel { slot: VpnState::Disconnected }
    }

    /// Puts `state` in the slot, in place of what was there.
    pub fn publish(&mut self, state: VpnState)
        ensures
            final(self)@ == after_publish(old(self)@, state@),
    {
        self.slot = state;
    }

    /// The state in the slot.
    pub fn read(&self) -> (state: VpnState)
        ensures
            state@ == self@,
    {
        self.slot.clone()
    }
}

/// What the slot holds after a sequence of publishes.
pub open spec fn slot_after(initial: VpnStateView, published: Seq<VpnStateView>) -> VpnStateView
    decreases published.len(),
{
    if published.len() == 0 {
        initial
    } else {
        after_publish(slot_after(initial, published.drop_last()), published.last())
    }
}

/// After any number of publishes, one read finds the state published last
/// and no earlier one; after none, it finds the state the channel began
/// with.
pub proof fn lemma_last_value_wins(initial: VpnStateView, published: Seq<VpnStateView>)
    ensures
        published.len() > 0 ==> slot_after(initial, published) == published[published.len() - 1],
        published.len() == 0 ==> slot_after(initial, published) == initial,
{
}

} // verus!

//! The server of the local control channel.
//!
//! The channel has two endpoints. The liveness probe answers anyone. A
//! session is opened only for a caller that presents the secret of this
//! run of the daemon; through a session a client sends commands, which go
//! into the command queue, and receives every state and event that the
//! server relays. The server itself moves no bytes: the host owns the
//! connections, numbers them, and tells the server what arrived on which.

use vstd::prelude::*;

use crate::command_queue::{after_send, has_room, CommandQueue};
use crate::service::event::{WsEvent, WsEventView};
use crate::service::request::{WsRequest, WsRequestView};
use crate::service::vpn_state::VpnState;
use crate::utils::crypto::ApiSecret;

verus! {

/// The path of the liveness probe.
pub const HEALTH_PATH: &'static str = "/health";

/// The path of the session endpoint.
pub const SESSION_PATH: &'static str = "/ws";

/// The endpoints of the control channel.
#[derive(Clone, Copy, Debug, PartialEq, Eq, Structural)]
pub enum Endpoint {
    /// The liveness probe.
    Health,
    /// The streaming session.
    Session,
}

/// Whether a caller of `endpoint` has to present the secret.
pub open spec fn needs_secret(endpoint: Endpoint) -> bool {
    endpoint == Endpoint::Session
}

/// Why no session was opened.
#[derive(Clone, Copy, Debug, PartialEq, Eq, Structural)]
pub enum SessionError {
    /// The caller presented no secret, or a wrong one.
    Unauthorized,
    /// The server has stopped taking new sessions.
    Closed,
}

/// What arrives from a client on its session.
#[derive(Debug, PartialEq, Eq)]
pub enum Inbound {
    /// A command for the connection.
    Request(WsRequest),
    /// The wish that the whole daemon shut down.
    Shutdown,
}

/// [`Inbound`] as plain values.
pub enum InboundView {
    Request(WsRequestView),
    Shutdown,
}

impl View for Inbound {
    type V = InboundView;

    open spec fn view(&self) -> InboundView {
        match self {
            Inbound::Request(request) => InboundView::Request(request@),
            Inbound::Shutdown => InboundView::Shutdown,
        }
    }
}

/// What the server made of something that arrived.
#[derive(Debug, PartialEq, Eq)]
pub enum Handled {
    /// The command is in the queue.
    Enqueued,
    /// The queue is full. The command comes back, and the host holds the
    /// client until it can be offered again.
    Backpressure(WsRequest),
    /// The host is to raise a shutdown request. The server does not shut
    /// the daemon down itself.
    ShutdownRequested,
    /// The connection has no session: what arrived is dropped.
    NoSession,
}

/// [`Handled`] as plain values.
pub enum HandledView {
    Enqueued,
    Backpressure(WsRequestView),
    ShutdownRequested,
    NoSession,
}

impl View for Handled {
    type V = HandledView;

    open spec fn view(&self) -> HandledView {
        match self {
            Handled::Enqueued => HandledView::Enqueued,
            Handled::Backpressure(request) => HandledView::Backpressure(request@),
            Handled::ShutdownRequested => HandledView::ShutdownRequested,
            Handled::NoSession => HandledView::NoSession,
        }
    }
}

/// An event on its way to the sessions.
#[derive(Debug, PartialEq, Eq)]
pub struct Delivery {
    pub event: WsEvent,
    /// The connections to send the event on, each once.
    pub recipients: Vec<u64>,
}

/// The server as plain values.
pub struct WsServerView {
    pub secret: Seq<u8>,
    /// Whether new sessions are taken.
    pub accepting: bool,
    /// The connections that have a session.
    pub sessions: Set<u64>,
}

impl WsServerView {
    /// Whether the server is up: it takes sessions or still has some.
    pub open spec fn is_up(self) -> bool {
        self.accepting || self.sessions != Set::<u64>::empty()
    }

    /// Whether a caller that presents `presented` is let in.
    pub open spec fn admits(self, presented: Option<Seq<u8>>) -> Result<(), SessionError> {
        if !self.accepting {
            Err(SessionError::Closed)
        } else if presented != Some(self.secret) {
            Err(SessionError::Unauthorized)
        } else {
            Ok(())
        }
    }

    /// What the server makes of `frame` on connection `id`, facing a queue
    /// that holds `pending`.
    pub open spec fn handled(
        self,
        id: u64,
        frame: InboundView,
        pending: Seq<WsRequestView>,
    ) -> HandledView {
        if !self.sessions.contains(id) {
            HandledView::NoSession
        } else {
            match frame {
                InboundView::Request(request) => if has_room(pending) {
                    HandledView::Enqueued
                } else {
                    HandledView::Backpressure(request)
                },
                InboundView::Shutdown => HandledView::ShutdownRequested,
            }
        }
    }

    /// The queue after the server handled `frame` on connection `id`.
    pub open spec fn queue_after(
        self,
        id: u64,
        frame: InboundView,
        pending: Seq<WsRequestView>,
    ) -> Seq<WsRequestView> {
        match frame {
            InboundView::Request(request) if self.sessions.contains(id) => after_send(
                pending,
                request,
            ),
            _ => pending,
        }
    }
}

/// The server of the control channel.
pub struct WsServer {
    secret: ApiSecret,
    accepting: bool,
    sessions: Vec<u64>,
}

impl View for WsServer {
    type V = WsServerView;

    closed spec fn view(&self) -> WsServerView {
        WsServerView {
            secret: self.secret@,
            accepting: self.accepting,
            sessions: self.sessions@.to_set(),
        }
    }
}

/// The place of `id` in `ids`, if it is there.
fn position(ids: &Vec<u64>, id: u64) -> (at: Option<usize>)
    ensures
        match at {
            Some(i) => i < ids@.len() && ids@[i as int] == id,
            None => !ids@.contains(id),
        },
{
    let mut i: usize = 0;
    while i < ids.len()
        invariant
            0 <= i <= ids@.len(),
            forall|k: int| 0 <= k < i ==> ids@[k] != id,
        decreases ids@.len() - i,
    {
        if ids[i] == id {
            return Some(i);
        }
        i = i + 1;
    }
    None
}

/// A copy of `ids`, without the one at `skip` where a place is given.
fn copy_without(ids: &Vec<u64>, skip: Option<usize>) -> (copy: Vec<u64>)
    requires
        skip is Some ==> skip.unwrap() < ids@.len(),
    ensures
        copy@ == match skip {
            Some(i) => ids@.remove(i as int),
            None => ids@,
        },
{
    let mut copy: Vec<u64> = Vec::new();
    let mut i: usize = 0;
    while i < ids.len()
        invariant
            0 <= i <= ids@.len(),
            skip is Some ==> skip.unwrap() < ids@.len(),
            copy@ == match skip {
                Some(s) => if i <= s {
                    ids@.subrange(0, i as int)
                } else {
                    ids@.subrange(0, i as int).remove(s as int)
                },
                None => ids@.subrange(0, i as int),
            },
        decreases ids@.len() - i,
    {
        let keep = match skip {
            Some(s) => s != i,
            None => true,
        };
        if keep {
            copy.push(ids[i]);
        }
        proof {
            let before = ids@.subrange(0, i as int);
            let after = ids@.subrange(0, i as int + 1);
            assert(after =~= before.push(ids@[i as int]));
            match skip {
                Some(s) => {
                    if i < s {
                    } else if i == s {
                        assert(after.remove(s as int) =~= before);
                    } else {
                        assert(after.remove(s as int) =~= before.remove(s as int).push(
                            ids@[i as int],
                        ));
                    }
                },
                None => {},
            }
        }
        i = i + 1;
    }
    assert(ids@.subrange(0, ids@.len() as int) =~= ids@);
    copy
}

/// Taking one of the ids of a list without repetitions away takes that id
/// out of the set, and leaves a list without repetitions.
proof fn lemma_remove_id(ids: Seq<u64>, at: int)
    requires
        ids.no_duplicates(),
        0 <= at < ids.len(),
    ensures
        ids.remove(at).no_duplicates(),
        ids.remove(at).to_set() == ids.to_set().remove(ids[at]),
{
    let rest = ids.remove(at);
    assert forall|i: int, j: int|
        0 <= i < rest.len() && 0 <= j < rest.len() && i != j implies rest[i] != rest[j] by {
        let a = if i < at { i } else { i + 1 };
        let b = if j < at { j } else { j + 1 };
        assert(rest[i] == ids[a] && rest[j] == ids[b]);
    }
    assert forall|x: u64| rest.to_set().contains(x) <==> ids.to_set().remove(ids[at]).contains(
        x,
    ) by {
        if rest.contains(x) {
            let i = choose|i: int| 0 <= i < rest.len() && rest[i] == x;
            let a = if i < at { i } else { i + 1 };
            assert(ids[a] == x);
        }
        if ids.contains(x) && x != ids[at] {
            let a = choose|a: int| 0 <= a < ids.len() && ids[a] == x;
            let i = if a < at { a } else { a - 1 };
            assert(rest[i] == x);
        }
    }
    assert(rest.to_set() =~= ids.to_set().remove(ids[at]));
}

/// Adding a new id to a list without repetitions adds it to the set, and
/// leaves a list without repetitions.
proof fn lemma_push_id(ids: Seq<u64>, id: u64)
    requires
        ids.no_duplicates(),
        !ids.contains(id),
    ensures
        ids.push(id).no_duplicates(),
        ids.push(id).to_set() == ids.to_set().insert(id),
{
    let more = ids.push(id);
    assert forall|x: u64| more.to_set().contains(x) <==> ids.to_set().insert(id).contains(x) by {
        if more.contains(x) {
            let i = choose|i: int| 0 <= i < more.len() && more[i] == x;
            if i < ids.len() {
                assert(ids[i] == x);
            }
        }
        if ids.contains(x) {
            let i = choose|i: int| 0 <= i < ids.len() && ids[i] == x;
            assert(more[i] == x);
        }
        if x == id {
            assert(more[ids.len() as int] == x);
        }
    }
    assert(more.to_set() =~= ids.to_set().insert(id));
}

impl WsServer {
    #[verifier::type_invariant]
    spec fn sessions_are_distinct(self) -> bool {
        self.sessions@.no_duplicates()
    }

    /// A server that takes sessions and has none yet.
    pub fn new(secret: ApiSecret) -> (server: Self)
        ensures
            server@ == (WsServerView {
                secret: secret@,
                accepting: true,
                sessions: Set::<u64>::empty(),
            }),
    {
        let server = WsServer { secret, accepting: true, sessions: Vec::new() };
        assert(server.sessions@.to_set() =~= Set::<u64>::empty());
        server
    }

    /// Whether a caller of `endpoint` has to present the secret: the
    /// liveness probe is open to all, a session is not.
    pub fn requires_secret(endpoint: Endpoint) -> (needed: bool)
        ensures
            needed == needs_secret(endpoint),
    {
        match endpoint {
            Endpoint::Health => false,
            Endpoint::Session => true,
        }
    }

    /// Answers the liveness probe: `true` as long as the server is up.
    pub fn health(&self) -> (up: bool)
        ensures
            up == self@.is_up(),
    {
        let up = self.accepting || self.sessions.len() > 0;
        proof {
            if self.sessions@.len() > 0 {
                assert(self.sessions@.to_set().contains(self.sessions@[0]));
            } else {
                assert(self.sessions@.to_set() =~= Set::<u64>::empty());
            }
        }
        up
    }

    /// Whether connection `id` has a session.
    pub fn has_session(&self, id: u64) -> (open: bool)
        ensures
            open == self@.sessions.contains(id),
    {
        position(&self.sessions, id).is_some()
    }

    /// Opens a session on connection `id` for a caller that presented
    /// `presented`. A caller without the secret, or with a wrong one, is
    /// refused and nothing changes; so is every caller once the server has
    /// stopped taking sessions.
    pub fn open_session(&mut self, id: u64, presented: Option<&[u8]>) -> (result: Result<
        (),
        SessionError,
    >)
        ensures
            result == old(self)@.admits(
                match presented {
                    Some(bytes) => Some(bytes@),
                    None => None,
                },
            ),
            result is Ok ==> final(self)@ == (WsServerView {
                sessions: old(self)@.sessions.insert(id),
                ..old(self)@
            }),
            result is Err ==> final(self)@ == old(self)@,
    {
        if !self.accepting {
            return Err(SessionError::Closed);
        }
        let authorized = match presented {
            Some(bytes) => self.secret.matches(bytes),
            None => false,
        };
        if !authorized {
            return Err(SessionError::Unauthorized);
        }
        proof {
            use_type_invariant(&*self);
        }
        if position(&self.sessions, id).is_none() {
            let mut sessions = copy_without(&self.sessions, None);
            sessions.push(id);
            proof {
                lemma_push_id(self.sessions@, id);
            }
            self.sessions = sessions;
        } else {
            assert(self.sessions@.to_set().insert(id) =~= self.sessions@.to_set());
        }
        Ok(())
    }

    /// Ends the session on connection `id`, if it has one.
    pub fn close_session(&mut self, id: u64)
        ensures
            final(self)@ == (WsServerView {
                sessions: old(self)@.sessions.remove(id),
                ..old(self)@
            }),
    {
        proof {
            use_type_invariant(&*self);
        }
        match position(&self.sessions, id) {
            Some(at) => {
                let sessions = copy_without(&self.sessions, Some(at));
                proof {
                    lemma_remove_id(self.sessions@, at as int);
                }
                self.sessions = sessions;
            },
            None => {
                assert(self.sessions@.to_set().remove(id) =~= self.sessions@.to_set());
            },
        }
    }

    /// Handles what arrived on connection `id`. A command goes to the back
    /// of the queue, or comes back where the queue is full; the wish to
    /// shut down is passed on to the host. On a connection without a
    /// session nothing is accepted and the queue stays as it is.
    pub fn handle_inbound(&self, id: u64, frame: Inbound, queue: &mut CommandQueue) -> (handled:
        Handled)
        ensures
            handled@ == self@.handled(id, frame@, old(queue)@),
            final(queue)@ == self@.queue_after(id, frame@, old(queue)@),
    {
        if !self.has_session(id) {
            return Handled::NoSession;
        }
        match frame {
            Inbound::Request(request) => match queue.try_send(request) {
                Some(refused) => Handled::Backpressure(refused),
                None => Handled::Enqueued,
            },
            Inbound::Shutdown => Handled::ShutdownRequested,
        }
    }

    /// Addresses `event` to every session.
    pub fn send_event(&self, event: WsEvent) -> (delivery: Delivery)
        ensures
            delivery.event == event,
            delivery.recipients@.to_set() == self@.sessions,
            delivery.recipients@.no_duplicates(),
    {
        proof {
            use_type_invariant(self);
        }
        Delivery { event, recipients: copy_without(&self.sessions, None) }
    }

    /// Addresses a state of the connection to every session.
    pub fn relay_state(&self, state: VpnState) -> (delivery: Delivery)
        ensures
            delivery.event@ == WsEventView::VpnState(state@),
            delivery.recipients@.to_set() == self@.sessions,
            delivery.recipients@.no_duplicates(),
    {
        self.send_event(WsEvent::VpnState(state))
    }

    /// Stops the server from taking new sessions. Those that are open go
    /// on until they are closed.
    pub fn cancel(&mut self)
        ensures
            final(self)@ == (WsServerView { accepting: false, ..old(self)@ }),
    {
        proof {
            use_type_invariant(&*self);
        }
        self.accepting = false;
    }

    /// Whether the server has ended: it takes no sessions and has none.
    pub fn is_finished(&self) -> (finished: bool)
        ensures
            finished == !self@.is_up(),
    {
        !self.health()
    }
}

} // verus!

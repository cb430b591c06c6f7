//! The task that owns the VPN connection.
//!
//! The task alone changes the state of the connection. It is driven by
//! what happens to it: a command taken from the queue, news from the
//! tunnel, a request to disconnect from outside, a cancellation. To each it
//! answers with its next state and with a list of effects, which the host
//! carries out in the order given before it brings the next happening.

use vstd::prelude::*;

use crate::command_queue::{after_recv, after_send, has_room, CommandQueue, COMMAND_QUEUE_CAPACITY};
use crate::service::request::{WsRequest, WsRequestView};
use crate::service::vpn_state::{VpnState, VpnStateView};

verus! {

/// News from the tunnel.
#[derive(Debug, PartialEq, Eq)]
pub enum TunnelEvent {
    /// The tunnel that was being opened is up.
    Up,
    /// The tunnel broke down and has to be taken down.
    Down,
    /// The tunnel cannot be had, for the reason given.
    Failed(String),
}

/// [`TunnelEvent`] as plain values.
pub enum TunnelEventView {
    Up,
    Down,
    Failed(Seq<char>),
}

impl View for TunnelEvent {
    type V = TunnelEventView;

    open spec fn view(&self) -> TunnelEventView {
        match self {
            TunnelEvent::Up => TunnelEventView::Up,
            TunnelEvent::Down => TunnelEventView::Down,
            TunnelEvent::Failed(reason) => TunnelEventView::Failed(reason@),
        }
    }
}

/// What the host does for the task.
#[derive(Debug, PartialEq, Eq)]
pub enum TaskEffect {
    /// Publish this state on the state channel.
    Publish(VpnState),
    /// Start opening a tunnel with these parameters.
    OpenTunnel(Vec<u8>),
    /// Take the tunnel down, and wait until it is down.
    CloseTunnel,
    /// Tell the control server to stop: the task has ended.
    StopServer,
}

/// [`TaskEffect`] as plain values.
pub enum TaskEffectView {
    Publish(VpnStateView),
    OpenTunnel(Seq<u8>),
    CloseTunnel,
    StopServer,
}

impl View for TaskEffect {
    type V = TaskEffectView;

    open spec fn view(&self) -> TaskEffectView {
        match self {
            TaskEffect::Publish(state) => TaskEffectView::Publish(state@),
            TaskEffect::OpenTunnel(params) => TaskEffectView::OpenTunnel(params@),
            TaskEffect::CloseTunnel => TaskEffectView::CloseTunnel,
            TaskEffect::StopServer => TaskEffectView::StopServer,
        }
    }
}

impl DeepView for TaskEffect {
    type V = TaskEffectView;

    open spec fn deep_view(&self) -> TaskEffectView {
        self@
    }
}

/// The effects that bring a connection in `state` down to rest. A tunnel
/// that is open or being opened is taken down between the two states that
/// say so; after a failure there is no tunnel left, and the state alone
/// changes.
pub open spec fn teardown(state: VpnStateView) -> Seq<TaskEffectView> {
    match state {
        VpnStateView::Disconnected => Seq::empty(),
        VpnStateView::Error(_) => seq![TaskEffectView::Publish(VpnStateView::Disconnected)],
        _ => seq![
            TaskEffectView::Publish(VpnStateView::Disconnecting),
            TaskEffectView::CloseTunnel,
            TaskEffectView::Publish(VpnStateView::Disconnected),
        ],
    }
}

/// The task as plain values.
pub struct VpnTaskView {
    pub state: VpnStateView,
    pub cancelled: bool,
}

/// A task after something happened to it, with the effects it asks for.
pub struct Advance {
    pub task: VpnTaskView,
    pub effects: Seq<TaskEffectView>,
}

impl VpnTaskView {
    /// The task at the start of the daemon.
    pub open spec fn initial() -> VpnTaskView {
        VpnTaskView { state: VpnStateView::Disconnected, cancelled: false }
    }

    /// The task as it is, asking for nothing.
    pub open spec fn stay(self) -> Advance {
        Advance { task: self, effects: Seq::empty() }
    }

    /// Whether the task takes the next command from the queue: not once
    /// it is cancelled, and not while a tunnel is being opened, for a
    /// command is seen through before the next is taken.
    pub open spec fn ready(self) -> bool {
        !self.cancelled && self.state != VpnStateView::Connecting
    }

    /// The task brought to rest.
    pub open spec fn disconnected(self) -> Advance {
        Advance {
            task: VpnTaskView { state: VpnStateView::Disconnected, ..self },
            effects: teardown(self.state),
        }
    }

    /// The task after a command. A request to connect counts where the
    /// connection is at rest or failed; a request to disconnect brings it
    /// to rest. A cancelled task takes no command.
    pub open spec fn handle_request(self, request: WsRequestView) -> Advance {
        if self.cancelled {
            self.stay()
        } else {
            match request {
                WsRequestView::Connect(params) => match self.state {
                    VpnStateView::Disconnected | VpnStateView::Error(_) => Advance {
                        task: VpnTaskView { state: VpnStateView::Connecting, ..self },
                        effects: seq![
                            TaskEffectView::Publish(VpnStateView::Connecting),
                            TaskEffectView::OpenTunnel(params),
                        ],
                    },
                    _ => self.stay(),
                },
                WsRequestView::Disconnect => self.disconnected(),
            }
        }
    }

    /// The task after news from the tunnel. News that does not fit the
    /// state belongs to a tunnel that is gone and changes nothing.
    pub open spec fn handle_tunnel_event(self, event: TunnelEventView) -> Advance {
        match (event, self.state) {
            (TunnelEventView::Up, VpnStateView::Connecting) => Advance {
                task: VpnTaskView { state: VpnStateView::Connected, ..self },
                effects: seq![TaskEffectView::Publish(VpnStateView::Connected)],
            },
            (TunnelEventView::Down, VpnStateView::Connecting)
            | (TunnelEventView::Down, VpnStateView::Connected) => self.disconnected(),
            (TunnelEventView::Failed(reason), VpnStateView::Connecting)
            | (TunnelEventView::Failed(reason), VpnStateView::Connected) => Advance {
                task: VpnTaskView { state: VpnStateView::Error(reason), ..self },
                effects: seq![TaskEffectView::Publish(VpnStateView::Error(reason))],
            },
            _ => self.stay(),
        }
    }

    /// The task after it was cancelled: at rest, the server told to stop.
    /// Cancelling a second time changes nothing.
    pub open spec fn cancel(self) -> Advance {
        if self.cancelled {
            self.stay()
        } else {
            Advance {
                task: VpnTaskView { state: VpnStateView::Disconnected, cancelled: true },
                effects: teardown(self.state).push(TaskEffectView::StopServer),
            }
        }
    }
}

/// The task that owns the connection.
#[derive(Debug, PartialEq, Eq)]
pub struct VpnTask {
    state: VpnState,
    cancelled: bool,
}

impl View for VpnTask {
    type V = VpnTaskView;

    closed spec fn view(&self) -> VpnTaskView {
        VpnTaskView { state: self.state@, cancelled: self.cancelled }
    }
}

impl VpnTask {
    #[verifier::type_invariant]
    spec fn at_rest_once_cancelled(self) -> bool {
        self.cancelled ==> self.state@ == VpnStateView::Disconnected
    }

    /// The task at the start of the daemon: disconnected, not cancelled.
    pub fn new() -> (task: Self)
        ensures
            task@ == VpnTaskView::initial(),
    {
        VpnTask { state: VpnState::Disconnected, cancelled: false }
    }

    /// The state of the connection.
    pub fn state(&self) -> (state: &VpnState)
        ensures
            state@ == self@.state,
    {
        &self.state
    }

    /// Whether the task was cancelled, and so has ended. A task that was
    /// cancelled is at rest.
    pub fn is_cancelled(&self) -> (cancelled: bool)
        ensures
            cancelled == self@.cancelled,
            cancelled ==> self@.state == VpnStateView::Disconnected,
    {
        proof {
            use_type_invariant(self);
        }
        self.cancelled
    }

    /// Whether the task takes the next command from the queue.
    pub fn is_ready(&self) -> (ready: bool)
        ensures
            ready == self@.ready(),
    {
        !self.cancelled && !matches!(self.state, VpnState::Connecting)
    }

    /// Brings the connection to rest and says what that takes.
    fn teardown_effects(&mut self) -> (effects: Vec<TaskEffect>)
        ensures
            final(self)@ == old(self)@.disconnected().task,
            effects.deep_view() == old(self)@.disconnected().effects,
    {
        let mut effects: Vec<TaskEffect> = Vec::new();
        match &self.state {
            VpnState::Disconnected => {},
            VpnState::Error(_) => {
                effects.push(TaskEffect::Publish(VpnState::Disconnected));
            },
            _ => {
                effects.push(TaskEffect::Publish(VpnState::Disconnecting));
                effects.push(TaskEffect::CloseTunnel);
                effects.push(TaskEffect::Publish(VpnState::Disconnected));
            },
        }
        self.state = VpnState::Disconnected;
        assert(effects.deep_view() =~= teardown(old(self)@.state));
        effects
    }

    /// Brings the connection to rest on a request from outside the queue.
    /// The first part of the result says whether there was anything to
    /// bring down: it is `false` exactly where the connection was at rest
    /// already, and then nothing changes and there are no effects.
    pub fn disconnect(&mut self) -> (outcome: (bool, Vec<TaskEffect>))
        ensures
            final(self)@ == old(self)@.disconnected().task,
            final(self)@.state == VpnStateView::Disconnected,
            outcome.0 == (old(self)@.state != VpnStateView::Disconnected),
            outcome.1.deep_view() == old(self)@.disconnected().effects,
    {
        let performed = !self.state.is_disconnected();
        let effects = self.teardown_effects();
        (performed, effects)
    }

    /// Handles one command.
    pub fn handle_request(&mut self, request: WsRequest) -> (effects: Vec<TaskEffect>)
        ensures
            final(self)@ == old(self)@.handle_request(request@).task,
            effects.deep_view() == old(self)@.handle_request(request@).effects,
    {
        if self.cancelled {
            let effects: Vec<TaskEffect> = Vec::new();
            assert(effects.deep_view() =~= Seq::<TaskEffectView>::empty());
            return effects;
        }
        match request {
            WsRequest::Connect(params) => {
                let mut effects: Vec<TaskEffect> = Vec::new();
                let at_rest = match &self.state {
                    VpnState::Disconnected => true,
                    VpnState::Error(_) => true,
                    _ => false,
                };
                if at_rest {
                    self.state = VpnState::Connecting;
                    effects.push(TaskEffect::Publish(VpnState::Connecting));
                    effects.push(TaskEffect::OpenTunnel(params));
                }
                assert(effects.deep_view() =~= old(self)@.handle_request(request@).effects);
                effects
            },
            WsRequest::Disconnect => self.teardown_effects(),
        }
    }

    /// Handles news from the tunnel.
    pub fn handle_tunnel_event(&mut self, event: TunnelEvent) -> (effects: Vec<TaskEffect>)
        ensures
            final(self)@ == old(self)@.handle_tunnel_event(event@).task,
            effects.deep_view() == old(self)@.handle_tunnel_event(event@).effects,
    {
        proof {
            use_type_invariant(&*self);
        }
        let opening = matches!(self.state, VpnState::Connecting);
        let open = matches!(self.state, VpnState::Connected);
        if !(opening || open) {
            let effects: Vec<TaskEffect> = Vec::new();
            assert(effects.deep_view() =~= Seq::<TaskEffectView>::empty());
            return effects;
        }
        match event {
            TunnelEvent::Up => {
                let mut effects: Vec<TaskEffect> = Vec::new();
                if opening {
                    self.state = VpnState::Connected;
                    effects.push(TaskEffect::Publish(VpnState::Connected));
                }
                assert(effects.deep_view() =~= old(self)@.handle_tunnel_event(event@).effects);
                effects
            },
            TunnelEvent::Down => self.teardown_effects(),
            TunnelEvent::Failed(reason) => {
                let mut effects: Vec<TaskEffect> = Vec::new();
                effects.push(TaskEffect::Publish(VpnState::Error(reason.clone())));
                self.state = VpnState::Error(reason);
                assert(effects.deep_view() =~= old(self)@.handle_tunnel_event(event@).effects);
                effects
            },
        }
    }

    /// Cancels the task: the connection is brought to rest, the server is
    /// told to stop, and from then on the task takes nothing.
    pub fn cancel(&mut self) -> (effects: Vec<TaskEffect>)
        ensures
            final(self)@ == old(self)@.cancel().task,
            effects.deep_view() == old(self)@.cancel().effects,
            final(self)@.cancelled,
            final(self)@.state == VpnStateView::Disconnected,
    {
        proof {
            use_type_invariant(&*self);
        }
        if self.cancelled {
            let effects: Vec<TaskEffect> = Vec::new();
            assert(effects.deep_view() =~= Seq::<TaskEffectView>::empty());
            return effects;
        }
        let mut effects = self.teardown_effects();
        effects.push(TaskEffect::StopServer);
        self.cancelled = true;
        assert(effects.deep_view() =~= old(self)@.cancel().effects);
        effects
    }

    /// Takes the next command from the queue and handles it, where the
    /// task is ready and a command waits; else nothing happens. The
    /// command taken is the oldest in the queue.
    pub fn poll(&mut self, queue: &mut CommandQueue) -> (effects: Vec<TaskEffect>)
        ensures
            final(self)@ == poll_step(old(self)@, old(queue)@).task,
            effects.deep_view() == poll_step(old(self)@, old(queue)@).effects,
            final(queue)@ == pending_after_poll(old(self)@, old(queue)@),
    {
        if !self.is_ready() {
            let effects: Vec<TaskEffect> = Vec::new();
            assert(effects.deep_view() =~= Seq::<TaskEffectView>::empty());
            return effects;
        }
        match queue.recv() {
            Some(request) => self.handle_request(request),
            None => {
                let effects: Vec<TaskEffect> = Vec::new();
                assert(effects.deep_view() =~= Seq::<TaskEffectView>::empty());
                effects
            },
        }
    }
}

/// Whether a poll of `task` takes a command from a queue that holds
/// `pending`.
pub open spec fn takes_command(task: VpnTaskView, pending: Seq<WsRequestView>) -> bool {
    task.ready() && pending.len() > 0
}

/// The task after a poll of a queue that holds `pending`.
pub open spec fn poll_step(task: VpnTaskView, pending: Seq<WsRequestView>) -> Advance {
    if takes_command(task, pending) {
        task.handle_request(pending[0])
    } else {
        task.stay()
    }
}

/// The queue after a poll by `task`.
pub open spec fn pending_after_poll(task: VpnTaskView, pending: Seq<WsRequestView>) -> Seq<
    WsRequestView,
> {
    if takes_command(task, pending) {
        after_recv(pending)
    } else {
        pending
    }
}

/// What the state channel holds once the host has carried out `effects`,
/// if it held `slot` before: the state published last, or `slot` where
/// none was published.
pub open spec fn slot_after_effects(
    slot: VpnStateView,
    effects: Seq<TaskEffectView>,
) -> VpnStateView
    decreases effects.len(),
{
    if effects.len() == 0 {
        slot
    } else {
        match effects.last() {
            TaskEffectView::Publish(state) => state,
            _ => slot_after_effects(slot, effects.drop_last()),
        }
    }
}

/// What can happen to the queue and the task while the daemon runs.
pub enum Happening {
    /// The control server offers a command to the queue.
    Send(WsRequestView),
    /// The task looks for the next command.
    Poll,
    /// The tunnel reports.
    Tunnel(TunnelEventView),
    /// A disconnect is requested from outside the queue.
    Disconnect,
    /// The task is cancelled.
    Cancel,
}

/// The queue and the task at one moment, with a record of what went
/// through them.
pub struct Run {
    pub task: VpnTaskView,
    /// The commands that wait in the queue.
    pub pending: Seq<WsRequestView>,
    /// The commands that the queue took, in the order of sending.
    pub accepted: Seq<WsRequestView>,
    /// The commands that the task took from the queue, in the order of
    /// taking.
    pub handled: Seq<WsRequestView>,
    /// What the state channel holds.
    pub slot: VpnStateView,
}

impl Run {
    /// The start of the daemon: an empty queue, the task at rest.
    pub open spec fn start() -> Run {
        Run {
            task: VpnTaskView::initial(),
            pending: Seq::empty(),
            accepted: Seq::empty(),
            handled: Seq::empty(),
            slot: VpnStateView::Disconnected,
        }
    }

    /// The run after the task advanced.
    pub open spec fn advanced(self, advance: Advance) -> Run {
        Run {
            task: advance.task,
            slot: slot_after_effects(self.slot, advance.effects),
            ..self
        }
    }

    /// The run after one thing happened.
    pub open spec fn after(self, happening: Happening) -> Run {
        match happening {
            Happening::Send(request) => Run {
                pending: after_send(self.pending, request),
                accepted: if has_room(self.pending) {
                    self.accepted.push(request)
                } else {
                    self.accepted
                },
                ..self
            },
            Happening::Poll => Run {
                pending: pending_after_poll(self.task, self.pending),
                handled: if takes_command(self.task, self.pending) {
                    self.handled.push(self.pending[0])
                } else {
                    self.handled
                },
                ..self.advanced(poll_step(self.task, self.pending))
            },
            Happening::Tunnel(event) => self.advanced(self.task.handle_tunnel_event(event)),
            Happening::Disconnect => self.advanced(self.task.disconnected()),
            Happening::Cancel => self.advanced(self.task.cancel()),
        }
    }

    /// The run after a sequence of happenings.
    pub open spec fn after_all(self, happenings: Seq<Happening>) -> Run
        decreases happenings.len(),
    {
        if happenings.len() == 0 {
            self
        } else {
            self.after_all(happenings.drop_last()).after(happenings.last())
        }
    }

    /// What holds of every run: the commands that the queue took are those
    /// that the task handled followed by those that still wait, so the task
    /// handles commands in the order of sending, each once and none left
    /// out; the queue is within its capacity; the state channel holds the
    /// state of the task; and a task that was cancelled is at rest.
    pub open spec fn in_order(self) -> bool {
        &&& self.accepted == self.handled + self.pending
        &&& self.pending.len() <= COMMAND_QUEUE_CAPACITY
        &&& self.slot == self.task.state
        &&& self.task.cancelled ==> self.task.state == VpnStateView::Disconnected
    }
}

/// Once the effects of an advance are carried out, the state channel holds
/// the state of the task.
pub proof fn lemma_channel_follows_task(
    task: VpnTaskView,
    happening: Happening,
    pending: Seq<WsRequestView>,
)
    ensures
        ({
            let advance = match happening {
                Happening::Send(_) => task.stay(),
                Happening::Poll => poll_step(task, pending),
                Happening::Tunnel(event) => task.handle_tunnel_event(event),
                Happening::Disconnect => task.disconnected(),
                Happening::Cancel => task.cancel(),
            };
            slot_after_effects(task.state, advance.effects) == advance.task.state
        }),
{
    let down = teardown(task.state);
    assert(slot_after_effects(task.state, down) == VpnStateView::Disconnected);
    assert(down.push(TaskEffectView::StopServer).drop_last() =~= down);
    match happening {
        Happening::Poll => {
            if takes_command(task, pending) {
                match pending[0] {
                    WsRequestView::Connect(params) => {
                        let effects = seq![
                            TaskEffectView::Publish(VpnStateView::Connecting),
                            TaskEffectView::OpenTunnel(params),
                        ];
                        let first = seq![TaskEffectView::Publish(VpnStateView::Connecting)];
                        assert(effects.drop_last() =~= first);
                        assert(slot_after_effects(task.state, first) == VpnStateView::Connecting);
                        assert(slot_after_effects(task.state, effects) == VpnStateView::Connecting);
                    },
                    WsRequestView::Disconnect => {},
                }
            }
        },
        _ => {},
    }
}

/// One happening keeps a run in order.
pub proof fn lemma_happening_keeps_order(run: Run, happening: Happening)
    requires
        run.in_order(),
    ensures
        run.after(happening).in_order(),
{
    lemma_channel_follows_task(run.task, happening, run.pending);
    let next = run.after(happening);
    match happening {
        Happening::Send(request) => {
            assert(next.accepted =~= next.handled + next.pending);
        },
        Happening::Poll => {
            assert(next.accepted =~= next.handled + next.pending);
        },
        _ => {},
    }
}

/// Whatever happens, in whatever order: the task handles the commands in
/// the order in which they were sent, none skipped and none twice; the
/// queue never holds more than its capacity; a read of the state channel
/// finds the state of the task; and once the task is cancelled the
/// connection is at rest.
pub proof fn lemma_commands_handled_in_order(happenings: Seq<Happening>)
    ensures
        Run::start().after_all(happenings).in_order(),
    decreases happenings.len(),
{
    if happenings.len() == 0 {
        assert(Run::start().accepted =~= Run::start().handled + Run::start().pending);
    } else {
        lemma_commands_handled_in_order(happenings.drop_last());
        lemma_happening_keeps_order(
            Run::start().after_all(happenings.drop_last()),
            happenings.last(),
        );
    }
}

} // verus!

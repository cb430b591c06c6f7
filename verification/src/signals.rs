//! The bridge from control signals to the daemon.
//!
//! Two signals steer a running daemon from outside, for tools that have no
//! session. The first asks for a disconnect; when there was something to
//! disconnect, the daemon leaves its process id in a file so that the tool
//! can tell when the disconnect is done. The second asks the clients to
//! bring the connection back up. Where the platform offers no such
//! signals the bridge is simply absent: the rest of the daemon runs as
//! before.

use vstd::prelude::*;

use crate::service::event::{WsEvent, WsEventView};
use crate::service::vpn_state::VpnStateView;
use crate::utils::pid_text::{decimal_digits, pid_text};
use crate::vpn_task::{
    slot_after_effects,
    teardown,
    TaskEffect,
    TaskEffectView,
    VpnTask,
    VpnTaskView,
};
use crate::ws_server::{Delivery, WsServer};

verus! {

/// The file that says that a disconnect asked for by signal is done. It
/// holds the process id of the daemon.
pub const DISCONNECTED_PID_FILE: &'static str = "/tmp/gpservice_disconnected.pid";

/// The signals that the bridge listens for.
#[derive(Clone, Copy, Debug, PartialEq, Eq, Structural)]
pub enum ControlSignal {
    /// The first user-defined signal: disconnect.
    User1,
    /// The second user-defined signal: resume.
    User2,
}

/// What the host does for the bridge.
#[derive(Debug, PartialEq, Eq)]
pub enum BridgeEffect {
    /// Carry out these effects of the task, in order.
    Task(Vec<TaskEffect>),
    /// Write this text to [`DISCONNECTED_PID_FILE`].
    WriteDisconnectedPid(Vec<u8>),
    /// Send this event to its recipients.
    Deliver(Delivery),
}

/// [`BridgeEffect`] as plain values.
pub enum BridgeEffectView {
    Task(Seq<TaskEffectView>),
    WriteDisconnectedPid(Seq<u8>),
    Deliver(WsEventView, Seq<u64>),
}

impl View for BridgeEffect {
    type V = BridgeEffectView;

    open spec fn view(&self) -> BridgeEffectView {
        match self {
            BridgeEffect::Task(effects) => BridgeEffectView::Task(effects.deep_view()),
            BridgeEffect::WriteDisconnectedPid(text) => BridgeEffectView::WriteDisconnectedPid(
                text@,
            ),
            BridgeEffect::Deliver(delivery) => BridgeEffectView::Deliver(
                delivery.event@,
                delivery.recipients@,
            ),
        }
    }
}

impl DeepView for BridgeEffect {
    type V = BridgeEffectView;

    open spec fn deep_view(&self) -> BridgeEffectView {
        self@
    }
}

/// What the first signal leads to for a daemon with process id `pid`
/// whose connection is in `state`. At rest there is nothing to do and
/// nothing is written. Otherwise the connection is brought to rest first,
/// and the process id is written after that.
pub open spec fn disconnect_script(pid: u32, state: VpnStateView) -> Seq<BridgeEffectView> {
    if state == VpnStateView::Disconnected {
        Seq::empty()
    } else {
        seq![
            BridgeEffectView::Task(teardown(state)),
            BridgeEffectView::WriteDisconnectedPid(decimal_digits(pid as nat)),
        ]
    }
}

/// The bridge of one daemon.
#[derive(Clone, Copy, Debug, PartialEq, Eq, Structural)]
pub struct SignalBridge {
    pid: u32,
}

impl SignalBridge {
    /// The process id that the bridge writes.
    pub closed spec fn spec_pid(&self) -> u32 {
        self.pid
    }

    /// The bridge of the daemon with process id `pid`, or none where the
    /// host could not register for the signals. Without a bridge there is
    /// nobody to bring signals to, and nothing else is affected.
    pub fn new(registered: bool, pid: u32) -> (bridge: Option<SignalBridge>)
        ensures
            registered ==> bridge is Some && bridge.unwrap().spec_pid() == pid,
            !registered ==> bridge is None,
    {
        if registered {
            Some(SignalBridge { pid })
        } else {
            None
        }
    }

    /// The process id that the bridge writes.
    #[verifier::when_used_as_spec(spec_pid)]
    pub fn pid(&self) -> (pid: u32)
        ensures
            pid == self.spec_pid(),
    {
        self.pid
    }

    /// Handles one signal.
    ///
    /// The first signal brings the connection to rest through the task.
    /// Where the task had something to bring down, the result is that work
    /// followed by the writing of the process id; where the connection was
    /// at rest, the result is empty. The second signal leaves the task
    /// alone and addresses a request to resume to every session.
    pub fn on_signal(
        &self,
        signal: ControlSignal,
        task: &mut VpnTask,
        server: &WsServer,
    ) -> (effects: Vec<BridgeEffect>)
        ensures
            signal == ControlSignal::User1 ==> {
                &&& final(task)@ == old(task)@.disconnected().task
                &&& final(task)@.state == VpnStateView::Disconnected
                &&& effects.deep_view() == disconnect_script(self.pid(), old(task)@.state)
            },
            signal == ControlSignal::User2 ==> {
                &&& final(task)@ == old(task)@
                &&& effects.deep_view().len() == 1
                &&& effects.deep_view()[0] matches BridgeEffectView::Deliver(event, recipients)
                &&& event == WsEventView::ResumeConnection
                &&& recipients.to_set() == server@.sessions
                &&& recipients.no_duplicates()
            },
    {
        let mut effects: Vec<BridgeEffect> = Vec::new();
        match signal {
            ControlSignal::User1 => {
                let (performed, work) = task.disconnect();
                if performed {
                    effects.push(BridgeEffect::Task(work));
                    effects.push(BridgeEffect::WriteDisconnectedPid(pid_text(self.pid)));
                }
                assert(effects.deep_view() =~= disconnect_script(self.pid(), old(task)@.state));
            },
            ControlSignal::User2 => {
                let delivery = server.send_event(WsEvent::ResumeConnection);
                effects.push(BridgeEffect::Deliver(delivery));
            },
        }
        effects
    }
}

/// The first signal and the file that reports on it.
///
/// Whatever state the connection is in: the process id is written exactly
/// if the connection was not at rest; where it is written, the task's work
/// stands before it, and once that work is carried out the state channel
/// holds `Disconnected`. So the file never appears before the connection
/// is down, and a signal that finds the connection at rest leaves no file.
pub proof fn lemma_disconnected_before_pid_is_written(
    pid: u32,
    task: VpnTaskView,
    slot: VpnStateView,
)
    ensures
        ({
            let script = disconnect_script(pid, task.state);
            &&& task.disconnected().task.state == VpnStateView::Disconnected
            &&& task.state == VpnStateView::Disconnected ==> script.len() == 0
            &&& task.state != VpnStateView::Disconnected ==> {
                &&& script.len() == 2
                &&& script[0] == BridgeEffectView::Task(teardown(task.state))
                &&& slot_after_effects(slot, teardown(task.state)) == VpnStateView::Disconnected
                &&& script[1] == BridgeEffectView::WriteDisconnectedPid(decimal_digits(pid as nat))
            }
            &&& task.state == VpnStateView::Connected ==> script == seq![
                BridgeEffectView::Task(
                    seq![
                        TaskEffectView::Publish(VpnStateView::Disconnecting),
                        TaskEffectView::CloseTunnel,
                        TaskEffectView::Publish(VpnStateView::Disconnected),
                    ],
                ),
                BridgeEffectView::WriteDisconnectedPid(decimal_digits(pid as nat)),
            ]
        }),
{
}

} // verus!

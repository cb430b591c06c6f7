use gpapi::command_queue::CommandQueue;
use gpapi::service::request::WsRequest;
use gpapi::service::vpn_state::VpnState;
use gpapi::state_channel::StateChannel;
use gpapi::vpn_task::{TaskEffect, TunnelEvent, VpnTask};

fn teardown() -> Vec<TaskEffect> {
    vec![
        TaskEffect::Publish(VpnState::Disconnecting),
        TaskEffect::CloseTunnel,
        TaskEffect::Publish(VpnState::Disconnected),
    ]
}

fn connected() -> VpnTask {
    let mut task = VpnTask::new();
    task.handle_request(WsRequest::Connect(vec![1, 2, 3]));
    task.handle_tunnel_event(TunnelEvent::Up);
    assert_eq!(*task.state(), VpnState::Connected);
    task
}

fn failed(reason: &str) -> VpnTask {
    let mut task = VpnTask::new();
    task.handle_request(WsRequest::Connect(vec![]));
    task.handle_tunnel_event(TunnelEvent::Failed(reason.to_string()));
    task
}

fn carry_out(channel: &mut StateChannel, effects: &[TaskEffect]) {
    for effect in effects {
        if let TaskEffect::Publish(state) = effect {
            channel.publish(state.clone());
        }
    }
}

#[test]
fn the_task_starts_out_disconnected() {
    let task = VpnTask::new();
    assert_eq!(*task.state(), VpnState::Disconnected);
    assert!(!task.is_cancelled());
    assert!(task.is_ready());
}

#[test]
fn connect_opens_a_tunnel_with_the_parameters() {
    let mut task = VpnTask::new();
    let effects = task.handle_request(WsRequest::Connect(vec![9, 8, 7]));
    assert_eq!(
        effects,
        vec![TaskEffect::Publish(VpnState::Connecting), TaskEffect::OpenTunnel(vec![9, 8, 7])]
    );
    assert_eq!(*task.state(), VpnState::Connecting);
    assert!(!task.is_ready());
}

#[test]
fn a_tunnel_that_comes_up_connects() {
    let mut task = VpnTask::new();
    task.handle_request(WsRequest::Connect(vec![]));
    let effects = task.handle_tunnel_event(TunnelEvent::Up);
    assert_eq!(effects, vec![TaskEffect::Publish(VpnState::Connected)]);
    assert_eq!(*task.state(), VpnState::Connected);
    assert!(task.is_ready());
}

#[test]
fn connect_while_connected_changes_nothing() {
    let mut task = connected();
    assert_eq!(task.handle_request(WsRequest::Connect(vec![4])), vec![]);
    assert_eq!(*task.state(), VpnState::Connected);
}

#[test]
fn the_disconnect_command_brings_the_tunnel_down() {
    let mut task = connected();
    assert_eq!(task.handle_request(WsRequest::Disconnect), teardown());
    assert_eq!(*task.state(), VpnState::Disconnected);
}

#[test]
fn the_disconnect_command_at_rest_does_nothing() {
    let mut task = VpnTask::new();
    assert_eq!(task.handle_request(WsRequest::Disconnect), vec![]);
    assert_eq!(*task.state(), VpnState::Disconnected);
}

#[test]
fn a_disconnect_from_outside_reports_whether_it_did_anything() {
    let mut task = connected();
    let (performed, effects) = task.disconnect();
    assert!(performed);
    assert_eq!(effects, teardown());
    assert_eq!(*task.state(), VpnState::Disconnected);

    let (again, effects) = task.disconnect();
    assert!(!again);
    assert_eq!(effects, vec![]);
    assert_eq!(*task.state(), VpnState::Disconnected);
}

#[test]
fn a_disconnect_from_outside_stops_an_attempt() {
    let mut task = VpnTask::new();
    task.handle_request(WsRequest::Connect(vec![]));
    let (performed, effects) = task.disconnect();
    assert!(performed);
    assert_eq!(effects, teardown());
    assert_eq!(*task.state(), VpnState::Disconnected);
    assert_eq!(task.handle_tunnel_event(TunnelEvent::Up), vec![]);
    assert_eq!(*task.state(), VpnState::Disconnected);
}

#[test]
fn a_failure_is_kept_with_its_reason() {
    let mut task = VpnTask::new();
    task.handle_request(WsRequest::Connect(vec![]));
    let effects = task.handle_tunnel_event(TunnelEvent::Failed("bad gateway".to_string()));
    assert_eq!(effects, vec![TaskEffect::Publish(VpnState::Error("bad gateway".to_string()))]);
    assert_eq!(*task.state(), VpnState::Error("bad gateway".to_string()));

    let mut task = connected();
    task.handle_tunnel_event(TunnelEvent::Failed("link lost".to_string()));
    assert_eq!(*task.state(), VpnState::Error("link lost".to_string()));
}

#[test]
fn connect_leaves_the_error_state() {
    let mut task = failed("bad gateway");
    let effects = task.handle_request(WsRequest::Connect(vec![5]));
    assert_eq!(
        effects,
        vec![TaskEffect::Publish(VpnState::Connecting), TaskEffect::OpenTunnel(vec![5])]
    );
    assert_eq!(*task.state(), VpnState::Connecting);
}

#[test]
fn disconnect_after_a_failure_has_no_tunnel_to_close() {
    let mut task = failed("bad gateway");
    let (performed, effects) = task.disconnect();
    assert!(performed);
    assert_eq!(effects, vec![TaskEffect::Publish(VpnState::Disconnected)]);
    assert_eq!(*task.state(), VpnState::Disconnected);
}

#[test]
fn a_broken_tunnel_is_taken_down() {
    let mut task = connected();
    assert_eq!(task.handle_tunnel_event(TunnelEvent::Down), teardown());
    assert_eq!(*task.state(), VpnState::Disconnected);
}

#[test]
fn news_of_a_tunnel_that_is_gone_is_ignored() {
    let mut task = VpnTask::new();
    assert_eq!(task.handle_tunnel_event(TunnelEvent::Up), vec![]);
    assert_eq!(task.handle_tunnel_event(TunnelEvent::Down), vec![]);
    assert_eq!(task.handle_tunnel_event(TunnelEvent::Failed("late".to_string())), vec![]);
    assert_eq!(*task.state(), VpnState::Disconnected);

    let mut task = connected();
    assert_eq!(task.handle_tunnel_event(TunnelEvent::Up), vec![]);
    assert_eq!(*task.state(), VpnState::Connected);

    let mut task = failed("first");
    assert_eq!(task.handle_tunnel_event(TunnelEvent::Failed("second".to_string())), vec![]);
    assert_eq!(*task.state(), VpnState::Error("first".to_string()));
}

#[test]
fn cancelling_brings_the_connection_down_and_stops_the_server() {
    let mut task = connected();
    let mut expected = teardown();
    expected.push(TaskEffect::StopServer);
    assert_eq!(task.cancel(), expected);
    assert_eq!(*task.state(), VpnState::Disconnected);
    assert!(task.is_cancelled());
    assert!(!task.is_ready());
}

#[test]
fn cancelling_at_rest_only_stops_the_server() {
    let mut task = VpnTask::new();
    assert_eq!(task.cancel(), vec![TaskEffect::StopServer]);
    assert!(task.is_cancelled());
    assert_eq!(task.cancel(), vec![]);
    assert!(task.is_cancelled());
}

#[test]
fn a_cancelled_task_takes_no_commands() {
    let mut task = VpnTask::new();
    task.cancel();
    assert_eq!(task.handle_request(WsRequest::Connect(vec![1])), vec![]);
    assert_eq!(*task.state(), VpnState::Disconnected);

    let mut queue = CommandQueue::new();
    queue.try_send(WsRequest::Connect(vec![1]));
    assert_eq!(task.poll(&mut queue), vec![]);
    assert_eq!(queue.len(), 1);
}

#[test]
fn poll_takes_the_oldest_command() {
    let mut task = VpnTask::new();
    let mut queue = CommandQueue::new();
    assert_eq!(task.poll(&mut queue), vec![]);

    queue.try_send(WsRequest::Connect(vec![1]));
    queue.try_send(WsRequest::Disconnect);
    queue.try_send(WsRequest::Connect(vec![2]));

    assert_eq!(
        task.poll(&mut queue),
        vec![TaskEffect::Publish(VpnState::Connecting), TaskEffect::OpenTunnel(vec![1])]
    );
    assert_eq!(queue.len(), 2);
}

#[test]
fn the_next_command_waits_until_the_last_is_seen_through() {
    let mut task = VpnTask::new();
    let mut queue = CommandQueue::new();
    queue.try_send(WsRequest::Connect(vec![1]));
    queue.try_send(WsRequest::Disconnect);
    task.poll(&mut queue);

    assert_eq!(task.poll(&mut queue), vec![]);
    assert_eq!(queue.len(), 1);
    assert_eq!(*task.state(), VpnState::Connecting);

    task.handle_tunnel_event(TunnelEvent::Up);
    assert_eq!(task.poll(&mut queue), teardown());
    assert_eq!(queue.len(), 0);
    assert_eq!(*task.state(), VpnState::Disconnected);
}

#[test]
fn commands_are_handled_in_the_order_sent_each_once() {
    let mut task = VpnTask::new();
    let mut queue = CommandQueue::new();
    let mut opened: Vec<Vec<u8>> = Vec::new();
    for n in 0..10u8 {
        assert_eq!(queue.try_send(WsRequest::Connect(vec![n])), None);
        assert_eq!(queue.try_send(WsRequest::Disconnect), None);
    }
    let mut polls = 0;
    while !queue.is_empty() {
        for effect in task.poll(&mut queue) {
            if let TaskEffect::OpenTunnel(params) = effect {
                opened.push(params);
                task.handle_tunnel_event(TunnelEvent::Up);
            }
        }
        polls += 1;
    }
    assert_eq!(polls, 20);
    let expected: Vec<Vec<u8>> = (0..10u8).map(|n| vec![n]).collect();
    assert_eq!(opened, expected);
    assert_eq!(*task.state(), VpnState::Disconnected);
}

#[test]
fn the_channel_follows_the_task() {
    let mut task = VpnTask::new();
    let mut channel = StateChannel::new();

    let effects = task.handle_request(WsRequest::Connect(vec![]));
    carry_out(&mut channel, &effects);
    assert_eq!(channel.read(), *task.state());
    assert_eq!(channel.read(), VpnState::Connecting);

    let effects = task.handle_tunnel_event(TunnelEvent::Up);
    carry_out(&mut channel, &effects);
    assert_eq!(channel.read(), VpnState::Connected);

    let effects = task.handle_tunnel_event(TunnelEvent::Failed("gone".to_string()));
    carry_out(&mut channel, &effects);
    assert_eq!(channel.read(), VpnState::Error("gone".to_string()));

    let effects = task.cancel();
    carry_out(&mut channel, &effects);
    assert_eq!(channel.read(), VpnState::Disconnected);
    assert_eq!(channel.read(), *task.state());
}

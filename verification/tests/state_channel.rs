use gpapi::service::vpn_state::VpnState;
use gpapi::state_channel::StateChannel;

#[test]
fn the_channel_starts_out_disconnected() {
    assert_eq!(StateChannel::new().read(), VpnState::Disconnected);
}

#[test]
fn a_reader_finds_the_last_state_published() {
    let mut channel = StateChannel::new();
    channel.publish(VpnState::Connecting);
    channel.publish(VpnState::Connected);
    channel.publish(VpnState::Disconnecting);
    assert_eq!(channel.read(), VpnState::Disconnecting);
}

#[test]
fn reading_does_not_use_the_state_up() {
    let mut channel = StateChannel::new();
    channel.publish(VpnState::Error("no route".to_string()));
    assert_eq!(channel.read(), VpnState::Error("no route".to_string()));
    assert_eq!(channel.read(), VpnState::Error("no route".to_string()));
}

#[test]
fn after_each_of_many_publishes_the_newest_is_read() {
    let mut channel = StateChannel::new();
    for n in 0..50 {
        let state = match n % 5 {
            0 => VpnState::Connecting,
            1 => VpnState::Connected,
            2 => VpnState::Disconnecting,
            3 => VpnState::Disconnected,
            _ => VpnState::Error(format!("failure {}", n)),
        };
        channel.publish(state.clone());
        assert_eq!(channel.read(), state);
    }
}

#[test]
fn states_can_be_copied_and_told_apart() {
    let failed = VpnState::Error("timeout".to_string());
    assert_eq!(failed.clone(), failed);
    assert_ne!(failed, VpnState::Error("refused".to_string()));
    assert!(VpnState::Disconnected.is_disconnected());
    assert!(!VpnState::Disconnecting.is_disconnected());
    assert!(!failed.is_disconnected());
}

use termcall::connection::{ChannelHandle, ChannelState, ConnectionState};

const ALL: [ConnectionState; 6] = [
    ConnectionState::New,
    ConnectionState::Connecting,
    ConnectionState::Connected,
    ConnectionState::Disconnected,
    ConnectionState::Failed,
    ConnectionState::Closed,
];

fn rank(state: ConnectionState) -> u8 {
    match state {
        ConnectionState::New => 0,
        ConnectionState::Connecting => 1,
        ConnectionState::Connected => 2,
        _ => 3,
    }
}

#[test]
fn connection_walks_forward() {
    let state = ConnectionState::New;
    let state = state.advance(ConnectionState::Connecting);
    assert_eq!(state, ConnectionState::Connecting);
    let state = state.advance(ConnectionState::Connected);
    assert_eq!(state, ConnectionState::Connected);
    let state = state.advance(ConnectionState::Disconnected);
    assert_eq!(state, ConnectionState::Disconnected);
}

#[test]
fn connection_may_skip_ahead() {
    assert_eq!(ConnectionState::New.advance(ConnectionState::Connected), ConnectionState::Connected);
    assert_eq!(ConnectionState::New.advance(ConnectionState::Failed), ConnectionState::Failed);
    assert_eq!(ConnectionState::Connecting.advance(ConnectionState::Closed), ConnectionState::Closed);
}

#[test]
fn connection_never_moves_backward() {
    for from in ALL {
        for reported in ALL {
            let next = from.advance(reported);
            assert!(rank(next) >= rank(from));
            if rank(reported) > rank(from) {
                assert_eq!(next, reported);
            } else {
                assert_eq!(next, from);
            }
        }
    }
}

#[test]
fn disconnected_is_terminal() {
    for reported in ALL {
        assert_eq!(ConnectionState::Disconnected.advance(reported), ConnectionState::Disconnected);
        assert_eq!(ConnectionState::Failed.advance(reported), ConnectionState::Failed);
        assert_eq!(ConnectionState::Closed.advance(reported), ConnectionState::Closed);
    }
}

#[test]
fn ended_tells_the_three_ends() {
    assert!(!ConnectionState::New.ended());
    assert!(!ConnectionState::Connecting.ended());
    assert!(!ConnectionState::Connected.ended());
    assert!(ConnectionState::Disconnected.ended());
    assert!(ConnectionState::Failed.ended());
    assert!(ConnectionState::Closed.ended());
}

#[test]
fn history_of_reports_is_monotonic() {
    let reports = [
        ConnectionState::Connecting,
        ConnectionState::New,
        ConnectionState::Connected,
        ConnectionState::Connecting,
        ConnectionState::Failed,
        ConnectionState::Connected,
        ConnectionState::Closed,
    ];
    let mut state = ConnectionState::New;
    let mut seen = Vec::new();
    for report in reports {
        let next = state.advance(report);
        assert!(rank(next) >= rank(state));
        state = next;
        seen.push(state);
    }
    assert_eq!(
        seen,
        vec![
            ConnectionState::Connecting,
            ConnectionState::Connecting,
            ConnectionState::Connected,
            ConnectionState::Connected,
            ConnectionState::Failed,
            ConnectionState::Failed,
            ConnectionState::Failed,
        ]
    );
}

#[test]
fn channel_starts_connecting_and_ordered() {
    let channel = ChannelHandle::new("video".to_string());
    assert_eq!(channel.label(), "video");
    assert_eq!(channel.ready_state(), ChannelState::Connecting);
    assert!(channel.ordered());
    assert!(!channel.is_open());
}

#[test]
fn channel_opens_once() {
    let mut channel = ChannelHandle::new("video".to_string());
    channel.mark_open();
    assert_eq!(channel.ready_state(), ChannelState::Open);
    assert!(channel.is_open());
    channel.mark_open();
    assert_eq!(channel.ready_state(), ChannelState::Open);
    assert!(channel.ordered());
}

#[test]
fn closed_channel_does_not_reopen() {
    let mut channel = ChannelHandle::new("video".to_string());
    channel.mark_open();
    channel.mark_closed();
    assert_eq!(channel.ready_state(), ChannelState::Closed);
    channel.mark_open();
    assert_eq!(channel.ready_state(), ChannelState::Closed);
    assert_eq!(channel.label(), "video");
}

use termcall::connection::{ChannelState, ConnectionState};
use termcall::error::{NegotiationError, TransportError};
use termcall::handshake::{CallAction, CallEvent, CallState, Orchestrator, Phase};
use termcall::negotiator::{Negotiator, NegotiatorEvent, SessionDescriptor};
use termcall::user::User;

/// A directory that lives in memory: one record per name.
struct FakeDirectory {
    records: Vec<User>,
    reachable: bool,
}

impl FakeDirectory {
    fn new() -> FakeDirectory {
        FakeDirectory { records: Vec::new(), reachable: true }
    }

    fn write(&mut self, record: User) -> CallEvent {
        if !self.reachable {
            return CallEvent::WriteFailed;
        }
        self.records.retain(|r| r.name != record.name);
        self.records.push(record);
        CallEvent::RecordWritten
    }

    fn fetch(&self) -> CallEvent {
        if self.reachable {
            CallEvent::DirectoryFetched(self.records.clone())
        } else {
            CallEvent::DirectoryUnavailable
        }
    }

    fn delete(&mut self, name: &str) {
        self.records.retain(|r| r.name != name);
    }

    fn get(&self, name: &str) -> Option<&User> {
        self.records.iter().find(|r| r.name == name)
    }
}

fn record(name: &str, offer: &str, answer: &str, in_call: &str, sending: &str, receiving: &str) -> User {
    User {
        name: name.to_string(),
        offer: offer.to_string(),
        answer: answer.to_string(),
        in_call: in_call.to_string(),
        sending_call: sending.to_string(),
        receiving_call: receiving.to_string(),
    }
}

fn online(name: &str, directory: &mut FakeDirectory) -> Orchestrator {
    let mut orchestrator = Orchestrator::new(name.to_string(), 30);
    assert_eq!(orchestrator.state(), CallState::Idle);
    let action = orchestrator.step(CallEvent::Start);
    assert_eq!(action, CallAction::WriteRecord(User::new(name.to_string())));
    assert_eq!(orchestrator.state(), CallState::Idle);
    let written = match action {
        CallAction::WriteRecord(user) => directory.write(user),
        other => panic!("unexpected action {:?}", other),
    };
    assert_eq!(orchestrator.step(written), CallAction::FetchDirectory);
    assert_eq!(orchestrator.state(), CallState::AwaitingIncoming);
    orchestrator
}

fn write(orchestrator: &mut Orchestrator, action: CallAction, directory: &mut FakeDirectory) -> CallAction {
    match action {
        CallAction::WriteRecord(user) => {
            let event = directory.write(user);
            orchestrator.step(event)
        }
        other => panic!("unexpected action {:?}", other),
    }
}

fn in_call_pair(directory: &mut FakeDirectory, period: u64) -> (Orchestrator, Orchestrator) {
    let mut alice = Orchestrator::new("Alice".to_string(), period);
    let mut bob = Orchestrator::new("Bob".to_string(), period);
    for side in [&mut alice, &mut bob] {
        let action = side.step(CallEvent::Start);
        assert_eq!(write(side, action, directory), CallAction::FetchDirectory);
    }
    assert_eq!(alice.step(CallEvent::CalleeSelected("Bob".to_string())), CallAction::CreateOffer);
    let action = alice.step(CallEvent::DescriptionReady("<sdp1>".to_string()));
    assert_eq!(write(&mut alice, action, directory), CallAction::FetchDirectory);
    assert_eq!(bob.step(directory.fetch()), CallAction::ApplyRemote("<sdp1>".to_string()));
    assert_eq!(bob.step(CallEvent::RemoteApplied), CallAction::CreateAnswer);
    let action = bob.step(CallEvent::DescriptionReady("<sdp2>".to_string()));
    assert_eq!(write(&mut bob, action, directory), CallAction::AwaitChannel);
    assert_eq!(alice.step(directory.fetch()), CallAction::ApplyRemote("<sdp2>".to_string()));
    assert_eq!(alice.step(CallEvent::RemoteApplied), CallAction::AwaitChannel);
    for side in [&mut alice, &mut bob] {
        let action = side.step(CallEvent::ChannelReady);
        assert_eq!(write(side, action, directory), CallAction::StartStreaming);
        assert_eq!(side.state(), CallState::InCall);
    }
    (alice, bob)
}

#[test]
fn new_orchestrator_is_idle() {
    let orchestrator = Orchestrator::new("Alice".to_string(), 30);
    assert_eq!(orchestrator.state(), CallState::Idle);
    assert_eq!(orchestrator.phase(), Phase::Idle);
    assert_eq!(orchestrator.self_name(), "Alice");
    assert_eq!(orchestrator.peer(), "");
}

#[test]
fn start_registers_then_polls() {
    let mut directory = FakeDirectory::new();
    let orchestrator = online("Alice", &mut directory);
    assert_eq!(orchestrator.phase(), Phase::AwaitingIncoming);
    assert_eq!(directory.get("Alice"), Some(&record("Alice", "", "", "", "", "")));
}

#[test]
fn events_before_start_change_nothing() {
    let mut orchestrator = Orchestrator::new("Alice".to_string(), 30);
    assert_eq!(orchestrator.step(CallEvent::DirectoryFetched(vec![])), CallAction::Nothing);
    assert_eq!(orchestrator.step(CallEvent::CalleeSelected("Bob".to_string())), CallAction::Nothing);
    assert_eq!(orchestrator.step(CallEvent::Tick), CallAction::Nothing);
    assert_eq!(orchestrator.step(CallEvent::RecordWritten), CallAction::Nothing);
    assert_eq!(orchestrator.state(), CallState::Idle);
}

#[test]
fn fetch_failure_while_awaiting_is_zero_peers() {
    let mut directory = FakeDirectory::new();
    let mut orchestrator = online("Alice", &mut directory);
    directory.reachable = false;
    for _ in 0..5 {
        assert_eq!(orchestrator.step(directory.fetch()), CallAction::FetchDirectory);
        assert_eq!(orchestrator.state(), CallState::AwaitingIncoming);
        assert_eq!(orchestrator.peer(), "");
    }
    assert_eq!(orchestrator.step(CallEvent::DirectoryFetched(vec![])), CallAction::FetchDirectory);
    assert_eq!(orchestrator.state(), CallState::AwaitingIncoming);

    directory.reachable = true;
    directory.write(record("Bob", "<sdp1>", "", "", "Alice", ""));
    assert_eq!(orchestrator.step(directory.fetch()), CallAction::ApplyRemote("<sdp1>".to_string()));
    assert_eq!(orchestrator.state(), CallState::Answering);
}

#[test]
fn fetch_failure_equals_empty_fetch_at_every_step() {
    fn at_each_step() -> Vec<Orchestrator> {
        let mut steps = Vec::new();
        let script: Vec<CallEvent> = vec![
            CallEvent::Start,
            CallEvent::RecordWritten,
            CallEvent::CalleeSelected("Bob".to_string()),
            CallEvent::DescriptionReady("<sdp1>".to_string()),
            CallEvent::RecordWritten,
            CallEvent::DirectoryFetched(vec![record("Bob", "", "<sdp2>", "", "", "Alice")]),
            CallEvent::RemoteApplied,
            CallEvent::ChannelReady,
            CallEvent::RecordWritten,
        ];
        for upto in 0..=script.len() {
            let mut orchestrator = Orchestrator::new("Alice".to_string(), 30);
            let script: Vec<CallEvent> = vec![
                CallEvent::Start,
                CallEvent::RecordWritten,
                CallEvent::CalleeSelected("Bob".to_string()),
                CallEvent::DescriptionReady("<sdp1>".to_string()),
                CallEvent::RecordWritten,
                CallEvent::DirectoryFetched(vec![record("Bob", "", "<sdp2>", "", "", "Alice")]),
                CallEvent::RemoteApplied,
                CallEvent::ChannelReady,
                CallEvent::RecordWritten,
            ];
            for event in script.into_iter().take(upto) {
                orchestrator.step(event);
            }
            steps.push(orchestrator);
        }
        assert_eq!(steps.len(), script.len() + 1);
        steps
    }
    let failed = at_each_step();
    let empty = at_each_step();
    for (mut a, mut b) in failed.into_iter().zip(empty) {
        let before = a.phase();
        let left = a.step(CallEvent::DirectoryUnavailable);
        let right = b.step(CallEvent::DirectoryFetched(vec![]));
        assert_eq!(left, right, "at {:?}", before);
        assert_eq!(a.phase(), b.phase());
        assert_eq!(a.peer(), b.peer());
    }
}

#[test]
fn record_with_empty_sending_call_calls_nobody() {
    let mut orchestrator = Orchestrator::new(String::new(), 30);
    orchestrator.step(CallEvent::Start);
    orchestrator.step(CallEvent::RecordWritten);
    let fetched = vec![record("Bob", "<sdp1>", "", "", "", "")];
    assert_eq!(orchestrator.step(CallEvent::DirectoryFetched(fetched)), CallAction::FetchDirectory);
    assert_eq!(orchestrator.state(), CallState::AwaitingIncoming);
}

#[test]
fn first_caller_in_the_fetch_is_answered() {
    let mut directory = FakeDirectory::new();
    let mut orchestrator = online("Alice", &mut directory);
    let fetched = vec![
        record("Alice", "", "", "", "", ""),
        record("Carol", "<c>", "", "", "Dave", ""),
        record("Bob", "<b>", "", "", "Alice", ""),
        record("Eve", "<e>", "", "", "Alice", ""),
    ];
    assert_eq!(orchestrator.step(CallEvent::DirectoryFetched(fetched)), CallAction::ApplyRemote("<b>".to_string()));
    assert_eq!(orchestrator.peer(), "Bob");
    assert_eq!(orchestrator.phase(), Phase::ApplyingOffer);
}

#[test]
fn successful_call() {
    let mut directory = FakeDirectory::new();
    let mut alice = online("Alice", &mut directory);
    let mut bob = online("Bob", &mut directory);
    let mut alice_connection = Negotiator::new("aaaaa".to_string());
    let mut bob_connection = Negotiator::new("bbbbb".to_string());
    let alice_send = alice_connection.create_data_channel(alice_connection.send_label()).unwrap();
    let bob_send = bob_connection.create_data_channel(bob_connection.send_label()).unwrap();
    assert_eq!(directory.get("Alice"), Some(&record("Alice", "", "", "", "", "")));
    assert_eq!(directory.get("Bob"), Some(&record("Bob", "", "", "", "", "")));

    // Alice selects Bob.
    assert_eq!(alice.step(CallEvent::CalleeSelected("Bob".to_string())), CallAction::CreateOffer);
    assert_eq!(alice.state(), CallState::Offering);
    assert_eq!(alice_connection.check_create_offer(), Ok(()));
    let local = SessionDescriptor { sdp_body: "<sdp1>".to_string(), ice_candidates: vec![] };
    assert_eq!(alice_connection.set_local_description(&local), Ok(()));
    alice_connection.handle(NegotiatorEvent::CandidateDiscovered("alice-host".to_string()));
    alice_connection.handle(NegotiatorEvent::GatheringComplete);
    assert!(alice_connection.candidates_gathered());
    let offer = alice_connection.describe("<sdp1>".to_string());
    let action = alice.step(CallEvent::DescriptionReady(offer.sdp_body.clone()));
    assert_eq!(action, CallAction::WriteRecord(record("Alice", "<sdp1>", "", "", "Bob", "")));
    assert_eq!(write(&mut alice, action, &mut directory), CallAction::FetchDirectory);
    assert_eq!(directory.get("Alice"), Some(&record("Alice", "<sdp1>", "", "", "Bob", "")));

    // Bob's poll finds a record that calls him.
    assert_eq!(bob.step(directory.fetch()), CallAction::ApplyRemote("<sdp1>".to_string()));
    assert_eq!(bob.state(), CallState::Answering);
    assert_eq!(bob.peer(), "Alice");
    assert_eq!(bob_connection.check_create_answer(), Err(NegotiationError::NoRemoteDescription));
    assert_eq!(bob_connection.set_remote_description(&offer), Ok(()));
    assert_eq!(bob_connection.add_remote_ice_candidates(&offer.ice_candidates), Ok(()));
    assert_eq!(bob.step(CallEvent::RemoteApplied), CallAction::CreateAnswer);
    assert_eq!(bob_connection.check_create_answer(), Ok(()));
    let local = SessionDescriptor { sdp_body: "<sdp2>".to_string(), ice_candidates: vec![] };
    assert_eq!(bob_connection.set_local_description(&local), Ok(()));
    bob_connection.handle(NegotiatorEvent::CandidateDiscovered("bob-host".to_string()));
    bob_connection.handle(NegotiatorEvent::GatheringComplete);
    let answer = bob_connection.describe("<sdp2>".to_string());
    let action = bob.step(CallEvent::DescriptionReady(answer.sdp_body.clone()));
    assert_eq!(action, CallAction::WriteRecord(record("Bob", "", "<sdp2>", "", "", "Alice")));
    assert_eq!(write(&mut bob, action, &mut directory), CallAction::AwaitChannel);
    assert_eq!(bob.state(), CallState::EstablishingChannels);
    assert_eq!(directory.get("Bob"), Some(&record("Bob", "", "<sdp2>", "", "", "Alice")));

    // Alice's poll of Bob's record sees the answer.
    assert_eq!(alice.step(directory.fetch()), CallAction::ApplyRemote("<sdp2>".to_string()));
    assert_eq!(alice_connection.set_remote_description(&answer), Ok(()));
    assert_eq!(alice_connection.add_remote_ice_candidates(&answer.ice_candidates), Ok(()));
    assert_eq!(alice.step(CallEvent::RemoteApplied), CallAction::AwaitChannel);
    assert_eq!(alice.state(), CallState::EstablishingChannels);

    // The network connects both sides and opens their channels.
    alice_connection.handle(NegotiatorEvent::ChannelArrived("bbbbb-send".to_string()));
    bob_connection.handle(NegotiatorEvent::ChannelArrived("aaaaa-send".to_string()));
    for connection in [&mut alice_connection, &mut bob_connection] {
        connection.handle(NegotiatorEvent::StateChanged(ConnectionState::Connecting));
        assert!(!connection.is_connected());
        connection.handle(NegotiatorEvent::StateChanged(ConnectionState::Connected));
        connection.handle(NegotiatorEvent::ChannelOpened(0));
        assert!(!connection.data_channels_open());
        connection.handle(NegotiatorEvent::ChannelOpened(1));
        assert!(connection.is_connected());
        assert!(connection.data_channels_open());
    }
    assert_eq!(alice_connection.channel_state(alice_send), Some(ChannelState::Open));
    assert_eq!(bob_connection.channel_state(bob_send), Some(ChannelState::Open));

    // Both set `in_call` to each other's name.
    let action = alice.step(CallEvent::ChannelReady);
    assert_eq!(action, CallAction::WriteRecord(record("Alice", "", "", "Bob", "", "")));
    assert_eq!(write(&mut alice, action, &mut directory), CallAction::StartStreaming);
    let action = bob.step(CallEvent::ChannelReady);
    assert_eq!(action, CallAction::WriteRecord(record("Bob", "", "", "Alice", "", "")));
    assert_eq!(write(&mut bob, action, &mut directory), CallAction::StartStreaming);
    assert_eq!(alice.state(), CallState::InCall);
    assert_eq!(bob.state(), CallState::InCall);
    assert_eq!(directory.get("Alice").unwrap().in_call, "Bob");
    assert_eq!(directory.get("Bob").unwrap().in_call, "Alice");
}

#[test]
fn hang_up_detection() {
    let mut directory = FakeDirectory::new();
    let period = 30;
    let (mut alice, _bob) = in_call_pair(&mut directory, period);
    let mut connection = Negotiator::new("aaaaa".to_string());
    connection.create_data_channel("aaaaa-send".to_string()).unwrap();
    connection.handle(NegotiatorEvent::StateChanged(ConnectionState::Connected));
    connection.handle(NegotiatorEvent::ChannelOpened(0));

    // Bob crashes: his record is deleted from outside.
    directory.delete("Bob");

    let mut rounds = 0;
    let mut torn_down = false;
    while rounds < period {
        rounds += 1;
        match alice.step(CallEvent::Tick) {
            CallAction::Nothing => assert_eq!(alice.state(), CallState::InCall),
            CallAction::FetchDirectory => {
                let action = alice.step(directory.fetch());
                assert_eq!(action, CallAction::Teardown);
                directory.delete("Alice");
                connection.close();
                torn_down = true;
                break;
            }
            other => panic!("unexpected action {:?}", other),
        }
    }
    assert!(torn_down);
    assert_eq!(rounds, period);
    assert_eq!(alice.state(), CallState::Terminated);
    assert_eq!(directory.get("Alice"), None);
    assert!(connection.is_closed());
    assert_eq!(connection.channel_state(0), Some(ChannelState::Closed));
    assert_eq!(alice.step(CallEvent::Tick), CallAction::Nothing);
}

#[test]
fn presence_is_checked_every_period_rounds() {
    let mut directory = FakeDirectory::new();
    let (mut alice, _bob) = in_call_pair(&mut directory, 4);
    let mut checks = Vec::new();
    for round in 1..=12 {
        match alice.step(CallEvent::Tick) {
            CallAction::Nothing => {}
            CallAction::FetchDirectory => {
                checks.push(round);
                assert_eq!(alice.step(directory.fetch()), CallAction::Nothing);
                assert_eq!(alice.state(), CallState::InCall);
            }
            other => panic!("unexpected action {:?}", other),
        }
    }
    assert_eq!(checks, vec![4, 8, 12]);
}

#[test]
fn period_of_zero_counts_as_one() {
    let mut directory = FakeDirectory::new();
    let (mut alice, _bob) = in_call_pair(&mut directory, 0);
    assert_eq!(alice.step(CallEvent::Tick), CallAction::FetchDirectory);
    assert_eq!(alice.step(directory.fetch()), CallAction::Nothing);
    assert_eq!(alice.step(CallEvent::Tick), CallAction::FetchDirectory);
}

#[test]
fn unreachable_directory_during_call_counts_as_peer_gone() {
    let mut directory = FakeDirectory::new();
    let (mut alice, _bob) = in_call_pair(&mut directory, 1);
    assert_eq!(alice.step(CallEvent::Tick), CallAction::FetchDirectory);
    directory.reachable = false;
    assert_eq!(alice.step(directory.fetch()), CallAction::Teardown);
    assert_eq!(alice.state(), CallState::Terminated);
}

#[test]
fn quit_tears_down_from_every_step() {
    let script = || -> Vec<CallEvent> {
        vec![
            CallEvent::Start,
            CallEvent::RecordWritten,
            CallEvent::DirectoryFetched(vec![record("Bob", "<sdp1>", "", "", "Alice", "")]),
            CallEvent::RemoteApplied,
            CallEvent::DescriptionReady("<sdp2>".to_string()),
            CallEvent::RecordWritten,
            CallEvent::ChannelReady,
            CallEvent::RecordWritten,
        ]
    };
    let expected = [
        CallState::Idle,
        CallState::Idle,
        CallState::AwaitingIncoming,
        CallState::Answering,
        CallState::Answering,
        CallState::Answering,
        CallState::EstablishingChannels,
        CallState::EstablishingChannels,
        CallState::InCall,
    ];
    for upto in 0..=script().len() {
        let mut orchestrator = Orchestrator::new("Alice".to_string(), 30);
        for event in script().into_iter().take(upto) {
            orchestrator.step(event);
        }
        assert_eq!(orchestrator.state(), expected[upto]);
        assert_eq!(orchestrator.step(CallEvent::Quit), CallAction::Teardown);
        assert_eq!(orchestrator.state(), CallState::Terminated);
        assert_eq!(orchestrator.step(CallEvent::Quit), CallAction::Nothing);
        assert_eq!(orchestrator.step(CallEvent::Start), CallAction::Nothing);
        assert_eq!(orchestrator.state(), CallState::Terminated);
    }
}

#[test]
fn end_of_stream_and_transport_failure_tear_down() {
    let mut directory = FakeDirectory::new();
    let (mut alice, mut bob) = in_call_pair(&mut directory, 30);
    assert_eq!(alice.step(CallEvent::StreamEnded), CallAction::Teardown);
    assert_eq!(alice.state(), CallState::Terminated);
    assert_eq!(bob.step(CallEvent::TransportFailed(TransportError::SendFailed)), CallAction::Teardown);
    assert_eq!(bob.state(), CallState::Terminated);
}

#[test]
fn transport_events_outside_a_call_change_nothing() {
    let mut directory = FakeDirectory::new();
    let mut alice = online("Alice", &mut directory);
    assert_eq!(alice.step(CallEvent::StreamEnded), CallAction::Nothing);
    assert_eq!(alice.step(CallEvent::TransportFailed(TransportError::ReceiveFailed)), CallAction::Nothing);
    assert_eq!(alice.state(), CallState::AwaitingIncoming);
}

#[test]
fn negotiation_error_returns_to_idle() {
    let errors = [
        NegotiationError::Malformed,
        NegotiationError::ConnectionClosed,
        NegotiationError::NoRemoteDescription,
        NegotiationError::Timeout,
    ];
    let caller = || -> Vec<CallEvent> {
        vec![
            CallEvent::Start,
            CallEvent::RecordWritten,
            CallEvent::CalleeSelected("Bob".to_string()),
            CallEvent::DescriptionReady("<sdp1>".to_string()),
            CallEvent::RecordWritten,
            CallEvent::DirectoryFetched(vec![record("Bob", "", "<sdp2>", "", "", "Alice")]),
            CallEvent::RemoteApplied,
            CallEvent::ChannelReady,
        ]
    };
    for error in errors {
        for upto in 3..=caller().len() {
            let mut orchestrator = Orchestrator::new("Alice".to_string(), 30);
            for event in caller().into_iter().take(upto) {
                orchestrator.step(event);
            }
            assert_ne!(orchestrator.state(), CallState::Idle);
            assert_eq!(orchestrator.step(CallEvent::NegotiationFailed(error)), CallAction::AbortAttempt);
            assert_eq!(orchestrator.state(), CallState::Idle);
            assert_eq!(orchestrator.peer(), "");
            assert_eq!(
                orchestrator.step(CallEvent::Start),
                CallAction::WriteRecord(User::new("Alice".to_string()))
            );
        }
    }
}

#[test]
fn negotiation_error_outside_a_negotiation_changes_nothing() {
    let mut directory = FakeDirectory::new();
    let mut alice = online("Alice", &mut directory);
    assert_eq!(alice.step(CallEvent::NegotiationFailed(NegotiationError::Timeout)), CallAction::Nothing);
    assert_eq!(alice.state(), CallState::AwaitingIncoming);
    let (mut alice, _bob) = in_call_pair(&mut directory, 30);
    assert_eq!(alice.step(CallEvent::NegotiationFailed(NegotiationError::Timeout)), CallAction::Nothing);
    assert_eq!(alice.state(), CallState::InCall);
}

#[test]
fn empty_bundle_is_malformed() {
    let mut directory = FakeDirectory::new();
    let mut alice = online("Alice", &mut directory);
    alice.step(CallEvent::CalleeSelected("Bob".to_string()));
    assert_eq!(alice.step(CallEvent::DescriptionReady(String::new())), CallAction::AbortAttempt);
    assert_eq!(alice.state(), CallState::Idle);
}

#[test]
fn empty_callee_is_not_called() {
    let mut directory = FakeDirectory::new();
    let mut alice = online("Alice", &mut directory);
    assert_eq!(alice.step(CallEvent::CalleeSelected(String::new())), CallAction::Nothing);
    assert_eq!(alice.state(), CallState::AwaitingIncoming);
}

#[test]
fn failed_write_is_tried_again() {
    let mut directory = FakeDirectory::new();
    directory.reachable = false;
    let mut alice = Orchestrator::new("Alice".to_string(), 30);
    let action = alice.step(CallEvent::Start);
    let action = write(&mut alice, action, &mut directory);
    assert_eq!(action, CallAction::WriteRecord(User::new("Alice".to_string())));
    assert_eq!(alice.phase(), Phase::Registering);
    directory.reachable = true;
    assert_eq!(write(&mut alice, action, &mut directory), CallAction::FetchDirectory);

    alice.step(CallEvent::CalleeSelected("Bob".to_string()));
    let action = alice.step(CallEvent::DescriptionReady("<sdp1>".to_string()));
    directory.reachable = false;
    let again = write(&mut alice, action, &mut directory);
    assert_eq!(again, CallAction::WriteRecord(record("Alice", "<sdp1>", "", "", "Bob", "")));
    assert_eq!(alice.phase(), Phase::PublishingOffer);
    directory.reachable = true;
    assert_eq!(write(&mut alice, again, &mut directory), CallAction::FetchDirectory);
    assert_eq!(alice.phase(), Phase::AwaitingAnswer);
}

#[test]
fn caller_polls_until_the_answer_is_there() {
    let mut directory = FakeDirectory::new();
    let mut alice = online("Alice", &mut directory);
    alice.step(CallEvent::CalleeSelected("Bob".to_string()));
    let action = alice.step(CallEvent::DescriptionReady("<sdp1>".to_string()));
    write(&mut alice, action, &mut directory);
    // Bob is not online yet.
    assert_eq!(alice.step(directory.fetch()), CallAction::FetchDirectory);
    // Bob is online, but has not answered.
    directory.write(record("Bob", "", "", "", "", ""));
    assert_eq!(alice.step(directory.fetch()), CallAction::FetchDirectory);
    assert_eq!(alice.phase(), Phase::AwaitingAnswer);
    // Somebody else has an answer for somebody.
    directory.write(record("Carol", "", "<other>", "", "", "Dave"));
    assert_eq!(alice.step(directory.fetch()), CallAction::FetchDirectory);
    directory.write(record("Bob", "", "<sdp2>", "", "", "Alice"));
    assert_eq!(alice.step(directory.fetch()), CallAction::ApplyRemote("<sdp2>".to_string()));
    assert_eq!(alice.phase(), Phase::ApplyingAnswer);
}

#[test]
fn glare_leaves_both_sides_offering() {
    let mut directory = FakeDirectory::new();
    let mut alice = online("Alice", &mut directory);
    let mut bob = online("Bob", &mut directory);
    alice.step(CallEvent::CalleeSelected("Bob".to_string()));
    bob.step(CallEvent::CalleeSelected("Alice".to_string()));
    let action = alice.step(CallEvent::DescriptionReady("<a>".to_string()));
    write(&mut alice, action, &mut directory);
    let action = bob.step(CallEvent::DescriptionReady("<b>".to_string()));
    write(&mut bob, action, &mut directory);
    assert_eq!(alice.step(directory.fetch()), CallAction::FetchDirectory);
    assert_eq!(bob.step(directory.fetch()), CallAction::FetchDirectory);
    assert_eq!(alice.state(), CallState::Offering);
    assert_eq!(bob.state(), CallState::Offering);
}

#[test]
fn phases_map_to_stages() {
    assert_eq!(Phase::Idle.call_state(), CallState::Idle);
    assert_eq!(Phase::Registering.call_state(), CallState::Idle);
    assert_eq!(Phase::AwaitingIncoming.call_state(), CallState::AwaitingIncoming);
    assert_eq!(Phase::ApplyingOffer.call_state(), CallState::Answering);
    assert_eq!(Phase::CreatingAnswer.call_state(), CallState::Answering);
    assert_eq!(Phase::PublishingAnswer.call_state(), CallState::Answering);
    assert_eq!(Phase::CreatingOffer.call_state(), CallState::Offering);
    assert_eq!(Phase::PublishingOffer.call_state(), CallState::Offering);
    assert_eq!(Phase::AwaitingAnswer.call_state(), CallState::Offering);
    assert_eq!(Phase::ApplyingAnswer.call_state(), CallState::Offering);
    assert_eq!(Phase::AwaitingChannel.call_state(), CallState::EstablishingChannels);
    assert_eq!(Phase::PublishingInCall.call_state(), CallState::EstablishingChannels);
    assert_eq!(Phase::InCall.call_state(), CallState::InCall);
    assert_eq!(Phase::Terminated.call_state(), CallState::Terminated);
}

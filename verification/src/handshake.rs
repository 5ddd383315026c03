//! The call handshake: who does what, and when, from the moment a client
//! comes online to the moment a call ends.
//!
//! The orchestrator performs nothing itself. It is told what happened (an
//! event) and says what is to be done next (an action); whoever drives it
//! performs the action and comes back with the next event.

use crate::directory::{find_caller, find_user, first_caller, first_named, records};
use crate::error::{NegotiationError, TransportError};
use crate::user::{User, UserView};
use vstd::prelude::*;

verus! {

/// During a call the peer's record is looked for once in this many rounds
/// of the call loop, which keeps the reads of the directory few.
pub const PRESENCE_CHECK_ROUNDS: u64 = 30;

/// The stage of a call, as the user sees it.
#[derive(Clone, Copy, Debug, PartialEq, Eq, Structural)]
pub enum CallState {
    Idle,
    AwaitingIncoming,
    Answering,
    Offering,
    EstablishingChannels,
    InCall,
    Terminated,
}

/// The step of the handshake, which is finer than the stage: each step
/// waits for the outcome of one action.
#[derive(Clone, Copy, Debug, PartialEq, Eq, Structural)]
pub enum Phase {
    /// Nothing has been asked for yet.
    Idle,
    /// The bare record is being written.
    Registering,
    /// The directory is polled for a caller.
    AwaitingIncoming,
    /// The caller's offer is being applied.
    ApplyingOffer,
    /// The answer is being made.
    CreatingAnswer,
    /// The answer is being written to the directory.
    PublishingAnswer,
    /// The offer is being made.
    CreatingOffer,
    /// The offer is being written to the directory.
    PublishingOffer,
    /// The directory is polled for the callee's answer.
    AwaitingAnswer,
    /// The callee's answer is being applied.
    ApplyingAnswer,
    /// The connection and its channel are being waited for.
    AwaitingChannel,
    /// The record that says "in a call" is being written.
    PublishingInCall,
    /// The call is on.
    InCall,
    /// The call is over.
    Terminated,
}

impl Phase {
    /// The stage that a step belongs to.
    pub open spec fn stage(self) -> CallState {
        match self {
            Phase::Idle => CallState::Idle,
            Phase::Registering => CallState::Idle,
            Phase::AwaitingIncoming => CallState::AwaitingIncoming,
            Phase::ApplyingOffer => CallState::Answering,
            Phase::CreatingAnswer => CallState::Answering,
            Phase::PublishingAnswer => CallState::Answering,
            Phase::CreatingOffer => CallState::Offering,
            Phase::PublishingOffer => CallState::Offering,
            Phase::AwaitingAnswer => CallState::Offering,
            Phase::ApplyingAnswer => CallState::Offering,
            Phase::AwaitingChannel => CallState::EstablishingChannels,
            Phase::PublishingInCall => CallState::EstablishingChannels,
            Phase::InCall => CallState::InCall,
            Phase::Terminated => CallState::Terminated,
        }
    }

    /// The step is part of a negotiation, which an error can abort.
    pub open spec fn negotiating(self) -> bool {
        self.stage() == CallState::Answering || self.stage() == CallState::Offering
            || self.stage() == CallState::EstablishingChannels
    }

    /// The stage that a step belongs to.
    pub fn call_state(self) -> (state: CallState)
        ensures
            state == self.stage(),
    {
        match self {
            Phase::Idle => CallState::Idle,
            Phase::Registering => CallState::Idle,
            Phase::AwaitingIncoming => CallState::AwaitingIncoming,
            Phase::ApplyingOffer => CallState::Answering,
            Phase::CreatingAnswer => CallState::Answering,
            Phase::PublishingAnswer => CallState::Answering,
            Phase::CreatingOffer => CallState::Offering,
            Phase::PublishingOffer => CallState::Offering,
            Phase::AwaitingAnswer => CallState::Offering,
            Phase::ApplyingAnswer => CallState::Offering,
            Phase::AwaitingChannel => CallState::EstablishingChannels,
            Phase::PublishingInCall => CallState::EstablishingChannels,
            Phase::InCall => CallState::InCall,
            Phase::Terminated => CallState::Terminated,
        }
    }

    fn is_negotiating(self) -> (yes: bool)
        ensures
            yes == self.negotiating(),
    {
        match self.call_state() {
            CallState::Answering => true,
            CallState::Offering => true,
            CallState::EstablishingChannels => true,
            _ => false,
        }
    }
}

/// What the driver reports back.
#[derive(Debug, PartialEq, Eq)]
pub enum CallEvent {
    /// The client has come online.
    Start,
    /// The directory was fetched; these are its records.
    DirectoryFetched(Vec<User>),
    /// The directory could not be fetched.
    DirectoryUnavailable,
    /// The record was written to the directory.
    RecordWritten,
    /// The record could not be written to the directory.
    WriteFailed,
    /// The user picked someone to call.
    CalleeSelected(String),
    /// The local description has been made and applied, every candidate has
    /// been gathered, and this is the bundle that encodes them.
    DescriptionReady(String),
    /// The remote bundle has been applied.
    RemoteApplied,
    /// The peers are connected and the channel is open.
    ChannelReady,
    /// A negotiation step failed.
    NegotiationFailed(NegotiationError),
    /// One round of the call loop has passed.
    Tick,
    /// The transport has reached the end of the stream.
    StreamEnded,
    /// The transport failed.
    TransportFailed(TransportError),
    /// The user asked to quit.
    Quit,
}

/// A `CallEvent` as plain values.
pub enum CallEventView {
    Start,
    DirectoryFetched(Seq<UserView>),
    DirectoryUnavailable,
    RecordWritten,
    WriteFailed,
    CalleeSelected(Seq<char>),
    DescriptionReady(Seq<char>),
    RemoteApplied,
    ChannelReady,
    NegotiationFailed(NegotiationError),
    Tick,
    StreamEnded,
    TransportFailed(TransportError),
    Quit,
}

impl View for CallEvent {
    type V = CallEventView;

    open spec fn view(&self) -> CallEventView {
        match self {
            CallEvent::Start => CallEventView::Start,
            CallEvent::DirectoryFetched(users) => CallEventView::DirectoryFetched(records(users@)),
            CallEvent::DirectoryUnavailable => CallEventView::DirectoryUnavailable,
            CallEvent::RecordWritten => CallEventView::RecordWritten,
            CallEvent::WriteFailed => CallEventView::WriteFailed,
            CallEvent::CalleeSelected(name) => CallEventView::CalleeSelected(name@),
            CallEvent::DescriptionReady(bundle) => CallEventView::DescriptionReady(bundle@),
            CallEvent::RemoteApplied => CallEventView::RemoteApplied,
            CallEvent::ChannelReady => CallEventView::ChannelReady,
            CallEvent::NegotiationFailed(e) => CallEventView::NegotiationFailed(*e),
            CallEvent::Tick => CallEventView::Tick,
            CallEvent::StreamEnded => CallEventView::StreamEnded,
            CallEvent::TransportFailed(e) => CallEventView::TransportFailed(*e),
            CallEvent::Quit => CallEventView::Quit,
        }
    }
}

/// What the driver is to do next.
#[derive(Debug, PartialEq, Eq)]
pub enum CallAction {
    /// Nothing: the event changed nothing that calls for work.
    Nothing,
    /// Write this record under our name, then report `RecordWritten` or
    /// `WriteFailed`.
    WriteRecord(User),
    /// Wait one polling interval, fetch the directory, then report
    /// `DirectoryFetched` or `DirectoryUnavailable`.
    FetchDirectory,
    /// Apply this bundle as the remote description and candidates, then
    /// report `RemoteApplied` or `NegotiationFailed`.
    ApplyRemote(String),
    /// Make an offer, apply it, wait for the candidates, then report
    /// `DescriptionReady` or `NegotiationFailed`.
    CreateOffer,
    /// Make an answer, apply it, wait for the candidates, then report
    /// `DescriptionReady` or `NegotiationFailed`.
    CreateAnswer,
    /// Wait until the peers are connected and the channel is open, then
    /// report `ChannelReady` or `NegotiationFailed`.
    AwaitChannel,
    /// Start the two media loops, and report `Tick` once per round.
    StartStreaming,
    /// Drop the connection of this attempt. A new attempt begins with
    /// `Start`.
    AbortAttempt,
    /// Delete our record, close the connection and stop both media loops.
    Teardown,
}

/// A `CallAction` as plain values.
pub enum CallActionView {
    Nothing,
    WriteRecord(UserView),
    FetchDirectory,
    ApplyRemote(Seq<char>),
    CreateOffer,
    CreateAnswer,
    AwaitChannel,
    StartStreaming,
    AbortAttempt,
    Teardown,
}

impl View for CallAction {
    type V = CallActionView;

    open spec fn view(&self) -> CallActionView {
        match self {
            CallAction::Nothing => CallActionView::Nothing,
            CallAction::WriteRecord(user) => CallActionView::WriteRecord(user@),
            CallAction::FetchDirectory => CallActionView::FetchDirectory,
            CallAction::ApplyRemote(bundle) => CallActionView::ApplyRemote(bundle@),
            CallAction::CreateOffer => CallActionView::CreateOffer,
            CallAction::CreateAnswer => CallActionView::CreateAnswer,
            CallAction::AwaitChannel => CallActionView::AwaitChannel,
            CallAction::StartStreaming => CallActionView::StartStreaming,
            CallAction::AbortAttempt => CallActionView::AbortAttempt,
            CallAction::Teardown => CallActionView::Teardown,
        }
    }
}

/// An orchestrator as plain values.
pub struct OrchestratorView {
    /// Our own name in the directory.
    pub self_name: Seq<char>,
    pub phase: Phase,
    /// The name of the other side; empty while there is none.
    pub peer: Seq<char>,
    /// Our own offer or answer while it is being published.
    pub bundle: Seq<char>,
    /// Rounds of the call loop since the peer's record was last looked for.
    pub ticks: nat,
    /// The peer's record is looked for once in this many rounds.
    pub period: nat,
}

impl OrchestratorView {
    /// An orchestrator that has not started.
    pub open spec fn initial(self_name: Seq<char>, period: nat) -> OrchestratorView {
        OrchestratorView {
            self_name,
            phase: Phase::Idle,
            peer: Seq::empty(),
            bundle: Seq::empty(),
            ticks: 0,
            period: if period == 0 { 1 } else { period },
        }
    }

    /// The same orchestrator at another step.
    pub open spec fn at(self, phase: Phase) -> OrchestratorView {
        OrchestratorView { phase, ..self }
    }

    /// The orchestrator after it has given an attempt up.
    pub open spec fn given_up(self) -> OrchestratorView {
        OrchestratorView {
            phase: Phase::Idle,
            peer: Seq::empty(),
            bundle: Seq::empty(),
            ticks: 0,
            ..self
        }
    }

    /// What follows a fetch while waiting for a caller.
    pub open spec fn on_fetch_awaiting_incoming(self, all: Seq<UserView>) -> (
        OrchestratorView,
        CallActionView,
    ) {
        match first_caller(all, self.self_name) {
            Some(i) => (
                OrchestratorView { phase: Phase::ApplyingOffer, peer: all[i].name, ..self },
                CallActionView::ApplyRemote(all[i].offer),
            ),
            None => (self, CallActionView::FetchDirectory),
        }
    }

    /// What follows a fetch while waiting for the callee's answer.
    pub open spec fn on_fetch_awaiting_answer(self, all: Seq<UserView>) -> (
        OrchestratorView,
        CallActionView,
    ) {
        match first_named(all, self.peer) {
            Some(i) => if all[i].answer.len() > 0 {
                (self.at(Phase::ApplyingAnswer), CallActionView::ApplyRemote(all[i].answer))
            } else {
                (self, CallActionView::FetchDirectory)
            },
            None => (self, CallActionView::FetchDirectory),
        }
    }

    /// What follows a fetch during the call.
    pub open spec fn on_fetch_in_call(self, all: Seq<UserView>) -> (
        OrchestratorView,
        CallActionView,
    ) {
        if first_named(all, self.peer) is Some {
            (self, CallActionView::Nothing)
        } else {
            (self.at(Phase::Terminated), CallActionView::Teardown)
        }
    }

    /// What follows a fetch, at any step.
    pub open spec fn on_fetch(self, all: Seq<UserView>) -> (OrchestratorView, CallActionView) {
        match self.phase {
            Phase::AwaitingIncoming => self.on_fetch_awaiting_incoming(all),
            Phase::AwaitingAnswer => self.on_fetch_awaiting_answer(all),
            Phase::InCall => self.on_fetch_in_call(all),
            _ => (self, CallActionView::Nothing),
        }
    }

    /// The record that a publishing step writes.
    pub open spec fn record_to_publish(self) -> UserView {
        match self.phase {
            Phase::PublishingAnswer => UserView::answering(self.self_name, self.bundle, self.peer),
            Phase::PublishingOffer => UserView::calling(self.self_name, self.bundle, self.peer),
            Phase::PublishingInCall => UserView::talking(self.self_name, self.peer),
            _ => UserView::bare(self.self_name),
        }
    }

    /// What follows a successful write.
    pub open spec fn on_written(self) -> (OrchestratorView, CallActionView) {
        match self.phase {
            Phase::Registering => (
                self.at(Phase::AwaitingIncoming),
                CallActionView::FetchDirectory,
            ),
            Phase::PublishingAnswer => (
                self.at(Phase::AwaitingChannel),
                CallActionView::AwaitChannel,
            ),
            Phase::PublishingOffer => (
                self.at(Phase::AwaitingAnswer),
                CallActionView::FetchDirectory,
            ),
            Phase::PublishingInCall => (
                OrchestratorView { phase: Phase::InCall, ticks: 0, ..self },
                CallActionView::StartStreaming,
            ),
            _ => (self, CallActionView::Nothing),
        }
    }

    /// What follows a failed write: the same write again.
    pub open spec fn on_write_failed(self) -> (OrchestratorView, CallActionView) {
        match self.phase {
            Phase::Registering => (self, CallActionView::WriteRecord(self.record_to_publish())),
            Phase::PublishingAnswer => (
                self,
                CallActionView::WriteRecord(self.record_to_publish()),
            ),
            Phase::PublishingOffer => (self, CallActionView::WriteRecord(self.record_to_publish())),
            Phase::PublishingInCall => (
                self,
                CallActionView::WriteRecord(self.record_to_publish()),
            ),
            _ => (self, CallActionView::Nothing),
        }
    }

    /// What follows the making of our own description. An empty bundle says
    /// nothing and counts as malformed.
    pub open spec fn on_description(self, bundle: Seq<char>) -> (
        OrchestratorView,
        CallActionView,
    ) {
        match self.phase {
            Phase::CreatingAnswer => if bundle.len() == 0 {
                (self.given_up(), CallActionView::AbortAttempt)
            } else {
                let next = OrchestratorView { phase: Phase::PublishingAnswer, bundle, ..self };
                (next, CallActionView::WriteRecord(next.record_to_publish()))
            },
            Phase::CreatingOffer => if bundle.len() == 0 {
                (self.given_up(), CallActionView::AbortAttempt)
            } else {
                let next = OrchestratorView { phase: Phase::PublishingOffer, bundle, ..self };
                (next, CallActionView::WriteRecord(next.record_to_publish()))
            },
            _ => (self, CallActionView::Nothing),
        }
    }

    /// What follows one round of the call loop: every `period` rounds the
    /// directory is fetched to see whether the peer is still there.
    pub open spec fn on_tick(self) -> (OrchestratorView, CallActionView) {
        if self.phase == Phase::InCall {
            if self.ticks + 1 >= self.period {
                (OrchestratorView { ticks: 0, ..self }, CallActionView::FetchDirectory)
            } else {
                (OrchestratorView { ticks: self.ticks + 1, ..self }, CallActionView::Nothing)
            }
        } else {
            (self, CallActionView::Nothing)
        }
    }

    /// The orchestrator after an event, and the action that it asks for.
    pub open spec fn step(self, event: CallEventView) -> (OrchestratorView, CallActionView) {
        if self.phase == Phase::Terminated {
            (self, CallActionView::Nothing)
        } else {
            match event {
                CallEventView::Quit => (self.at(Phase::Terminated), CallActionView::Teardown),
                CallEventView::Start => if self.phase == Phase::Idle {
                    let next = self.at(Phase::Registering);
                    (next, CallActionView::WriteRecord(next.record_to_publish()))
                } else {
                    (self, CallActionView::Nothing)
                },
                CallEventView::DirectoryFetched(all) => self.on_fetch(all),
                CallEventView::DirectoryUnavailable => self.on_fetch(Seq::empty()),
                CallEventView::RecordWritten => self.on_written(),
                CallEventView::WriteFailed => self.on_write_failed(),
                CallEventView::CalleeSelected(name) => if self.phase == Phase::AwaitingIncoming
                    && name.len() > 0 {
                    (
                        OrchestratorView { phase: Phase::CreatingOffer, peer: name, ..self },
                        CallActionView::CreateOffer,
                    )
                } else {
                    (self, CallActionView::Nothing)
                },
                CallEventView::DescriptionReady(bundle) => self.on_description(bundle),
                CallEventView::RemoteApplied => match self.phase {
                    Phase::ApplyingOffer => (
                        self.at(Phase::CreatingAnswer),
                        CallActionView::CreateAnswer,
                    ),
                    Phase::ApplyingAnswer => (
                        self.at(Phase::AwaitingChannel),
                        CallActionView::AwaitChannel,
                    ),
                    _ => (self, CallActionView::Nothing),
                },
                CallEventView::ChannelReady => if self.phase == Phase::AwaitingChannel {
                    let next = self.at(Phase::PublishingInCall);
                    (next, CallActionView::WriteRecord(next.record_to_publish()))
                } else {
                    (self, CallActionView::Nothing)
                },
                CallEventView::NegotiationFailed(_) => if self.phase.negotiating() {
                    (self.given_up(), CallActionView::AbortAttempt)
                } else {
                    (self, CallActionView::Nothing)
                },
                CallEventView::Tick => self.on_tick(),
                CallEventView::StreamEnded => if self.phase == Phase::InCall {
                    (self.at(Phase::Terminated), CallActionView::Teardown)
                } else {
                    (self, CallActionView::Nothing)
                },
                CallEventView::TransportFailed(_) => if self.phase == Phase::InCall {
                    (self.at(Phase::Terminated), CallActionView::Teardown)
                } else {
                    (self, CallActionView::Nothing)
                },
            }
        }
    }
}

impl OrchestratorView {
    /// The counter of rounds is in step with the period.
    pub open spec fn in_step(self) -> bool {
        self.ticks < self.period
    }

    /// The orchestrator after `n` rounds of the call loop with nothing else
    /// in between.
    pub open spec fn after_ticks(self, n: nat) -> OrchestratorView
        decreases n,
    {
        if n == 0 {
            self
        } else {
            self.step(CallEventView::Tick).0.after_ticks((n - 1) as nat)
        }
    }
}

/// The stages follow one another only along these lines: forward through
/// the handshake, back to `Idle` when an attempt is given up, and to
/// `Terminated` from anywhere.
pub open spec fn stage_follows(from: CallState, to: CallState) -> bool {
    ||| from == to
    ||| to == CallState::Terminated
    ||| from == CallState::Idle && to == CallState::AwaitingIncoming
    ||| from == CallState::AwaitingIncoming && to == CallState::Answering
    ||| from == CallState::AwaitingIncoming && to == CallState::Offering
    ||| from == CallState::Answering && to == CallState::EstablishingChannels
    ||| from == CallState::Offering && to == CallState::EstablishingChannels
    ||| from == CallState::EstablishingChannels && to == CallState::InCall
    ||| from == CallState::Answering && to == CallState::Idle
    ||| from == CallState::Offering && to == CallState::Idle
    ||| from == CallState::EstablishingChannels && to == CallState::Idle
}

/// No event moves the call from one stage to another except along the lines
/// of `stage_follows`, and none leaves `Terminated`.
pub proof fn lemma_stages_in_order(s: OrchestratorView, event: CallEventView)
    ensures
        stage_follows(s.phase.stage(), s.step(event).0.phase.stage()),
        s.phase.stage() == CallState::Terminated ==> s.step(event) == (s, CallActionView::Nothing),
{
}

/// Fail-soft directory: at every step, a fetch that failed is taken exactly
/// as a fetch that found nobody. While a caller is waited for, that means
/// that nothing changes and the directory is fetched again.
pub proof fn lemma_fail_soft(s: OrchestratorView)
    ensures
        s.step(CallEventView::DirectoryUnavailable) == s.step(
            CallEventView::DirectoryFetched(Seq::empty()),
        ),
        s.phase == Phase::AwaitingIncoming ==> s.step(CallEventView::DirectoryUnavailable) == (
            s,
            CallActionView::FetchDirectory,
        ),
{
}

/// A failed write never ends anything: the step stays, and where a write
/// was under way the same record is written again.
pub proof fn lemma_write_retried(s: OrchestratorView)
    ensures
        s.step(CallEventView::WriteFailed).0 == s,
        s.phase == Phase::Registering || s.phase == Phase::PublishingAnswer || s.phase
            == Phase::PublishingOffer || s.phase == Phase::PublishingInCall ==> s.step(
            CallEventView::WriteFailed,
        ).1 == CallActionView::WriteRecord(s.record_to_publish()),
{
}

/// A negotiation error gives the attempt up and leads back to `Idle`, from
/// every step of a negotiation; anywhere else it changes nothing.
pub proof fn lemma_negotiation_error_gives_up(s: OrchestratorView, error: NegotiationError)
    ensures
        s.phase.negotiating() ==> s.step(CallEventView::NegotiationFailed(error)) == (
            s.given_up(),
            CallActionView::AbortAttempt,
        ),
        s.phase.negotiating() ==> s.step(CallEventView::NegotiationFailed(error)).0.phase.stage()
            == CallState::Idle,
        !s.phase.negotiating() ==> s.step(CallEventView::NegotiationFailed(error)) == (
            s,
            CallActionView::Nothing,
        ),
{
}

/// Every way to the end tears everything down, and nothing else does: an
/// event asks for `Teardown` exactly when it takes the call to
/// `Terminated`.
pub proof fn lemma_teardown_on_termination(s: OrchestratorView, event: CallEventView)
    ensures
        s.step(event).1 == CallActionView::Teardown <==> s.phase != Phase::Terminated && s.step(
            event,
        ).0.phase == Phase::Terminated,
{
}

/// The three ways to the end: the user quits, at any step; the transport
/// ends or fails during the call.
pub proof fn lemma_ways_to_the_end(s: OrchestratorView, error: TransportError)
    ensures
        s.phase != Phase::Terminated ==> s.step(CallEventView::Quit) == (
            s.at(Phase::Terminated),
            CallActionView::Teardown,
        ),
        s.phase == Phase::InCall ==> s.step(CallEventView::StreamEnded) == (
            s.at(Phase::Terminated),
            CallActionView::Teardown,
        ),
        s.phase == Phase::InCall ==> s.step(CallEventView::TransportFailed(error)) == (
            s.at(Phase::Terminated),
            CallActionView::Teardown,
        ),
{
}

/// The counter of rounds stays in step with the period, whatever happens.
pub proof fn lemma_stays_in_step(s: OrchestratorView, event: CallEventView)
    requires
        s.in_step(),
    ensures
        s.step(event).0.in_step(),
        s.step(event).0.period == s.period,
        OrchestratorView::initial(s.self_name, s.period).in_step(),
{
}

/// Rounds of the call loop that ask for no fetch only count up.
proof fn lemma_quiet_ticks(s: OrchestratorView, n: nat)
    requires
        s.phase == Phase::InCall,
        s.ticks + n < s.period,
    ensures
        s.after_ticks(n) == (OrchestratorView { ticks: s.ticks + n, ..s }),
    decreases n,
{
    if n > 0 {
        let next = s.step(CallEventView::Tick).0;
        assert(next == (OrchestratorView { ticks: s.ticks + 1, ..s }));
        lemma_quiet_ticks(next, (n - 1) as nat);
    }
}

/// Hang-up detection within a bound: during a call the directory is
/// fetched after at most `period` rounds, and a fetch that does not hold
/// the peer's record ends the call and tears everything down.
pub proof fn lemma_hang_up_detected(s: OrchestratorView, all: Seq<UserView>)
    requires
        s.phase == Phase::InCall,
        s.in_step(),
        first_named(all, s.peer) is None,
    ensures
        ({
            let rounds = (s.period - s.ticks - 1) as nat;
            let checking = s.after_ticks(rounds).step(CallEventView::Tick);
            &&& rounds < s.period
            &&& checking.1 == CallActionView::FetchDirectory
            &&& checking.0.step(CallEventView::DirectoryFetched(all)) == (
                checking.0.at(Phase::Terminated),
                CallActionView::Teardown,
            )
        }),
{
    let rounds = (s.period - s.ticks - 1) as nat;
    lemma_quiet_ticks(s, rounds);
}

/// While the peer's record is there, the periodic look changes nothing.
pub proof fn lemma_peer_present(s: OrchestratorView, all: Seq<UserView>)
    requires
        s.phase == Phase::InCall,
        first_named(all, s.peer) is Some,
    ensures
        s.step(CallEventView::DirectoryFetched(all)) == (s, CallActionView::Nothing),
{
}

/// The way of the one who is called, step by step: a fetch that shows a
/// caller, the caller's offer applied, an answer made and published, the
/// channel awaited, the call published. It ends in `InCall` with the caller
/// as peer, and on the way exactly two records are written: the answer with
/// the caller's name, then the call with the caller's name.
pub proof fn lemma_way_of_the_callee(s: OrchestratorView, all: Seq<UserView>, answer: Seq<char>)
    requires
        s.phase == Phase::AwaitingIncoming,
        first_caller(all, s.self_name) is Some,
        answer.len() > 0,
    ensures
        ({
            let caller = all[first_caller(all, s.self_name)->0];
            let (s1, a1) = s.step(CallEventView::DirectoryFetched(all));
            let (s2, a2) = s1.step(CallEventView::RemoteApplied);
            let (s3, a3) = s2.step(CallEventView::DescriptionReady(answer));
            let (s4, a4) = s3.step(CallEventView::RecordWritten);
            let (s5, a5) = s4.step(CallEventView::ChannelReady);
            let (s6, a6) = s5.step(CallEventView::RecordWritten);
            &&& a1 == CallActionView::ApplyRemote(caller.offer)
            &&& s1.phase.stage() == CallState::Answering
            &&& a2 == CallActionView::CreateAnswer
            &&& a3 == CallActionView::WriteRecord(
                UserView::answering(s.self_name, answer, caller.name),
            )
            &&& a4 == CallActionView::AwaitChannel
            &&& s4.phase.stage() == CallState::EstablishingChannels
            &&& a5 == CallActionView::WriteRecord(UserView::talking(s.self_name, caller.name))
            &&& a6 == CallActionView::StartStreaming
            &&& s6.phase == Phase::InCall
            &&& s6.peer == caller.name
            &&& s6.ticks == 0
        }),
{
}

/// The way of the one who calls, step by step: a callee picked, an offer
/// made and published, the directory fetched until the callee's record
/// holds an answer, the answer applied, the channel awaited, the call
/// published. It ends in `InCall` with the callee as peer, and on the way
/// exactly two records are written: the offer with the callee's name, then
/// the call with the callee's name.
pub proof fn lemma_way_of_the_caller(
    s: OrchestratorView,
    callee: Seq<char>,
    offer: Seq<char>,
    all: Seq<UserView>,
)
    requires
        s.phase == Phase::AwaitingIncoming,
        callee.len() > 0,
        offer.len() > 0,
        first_named(all, callee) is Some,
        all[first_named(all, callee)->0].answer.len() > 0,
    ensures
        ({
            let answer = all[first_named(all, callee)->0].answer;
            let (s1, a1) = s.step(CallEventView::CalleeSelected(callee));
            let (s2, a2) = s1.step(CallEventView::DescriptionReady(offer));
            let (s3, a3) = s2.step(CallEventView::RecordWritten);
            let (s4, a4) = s3.step(CallEventView::DirectoryFetched(all));
            let (s5, a5) = s4.step(CallEventView::RemoteApplied);
            let (s6, a6) = s5.step(CallEventView::ChannelReady);
            let (s7, a7) = s6.step(CallEventView::RecordWritten);
            &&& a1 == CallActionView::CreateOffer
            &&& s1.phase.stage() == CallState::Offering
            &&& a2 == CallActionView::WriteRecord(UserView::calling(s.self_name, offer, callee))
            &&& a3 == CallActionView::FetchDirectory
            &&& a4 == CallActionView::ApplyRemote(answer)
            &&& a5 == CallActionView::AwaitChannel
            &&& s5.phase.stage() == CallState::EstablishingChannels
            &&& a6 == CallActionView::WriteRecord(UserView::talking(s.self_name, callee))
            &&& a7 == CallActionView::StartStreaming
            &&& s7.phase == Phase::InCall
            &&& s7.peer == callee
            &&& s7.ticks == 0
        }),
{
}

/// While the callee has not answered, the caller goes on fetching: a fetch
/// without the callee's record, or with a record that holds no answer,
/// changes nothing.
pub proof fn lemma_caller_keeps_polling(s: OrchestratorView, all: Seq<UserView>)
    requires
        s.phase == Phase::AwaitingAnswer,
        first_named(all, s.peer) is None || all[first_named(all, s.peer)->0].answer.len() == 0,
    ensures
        s.step(CallEventView::DirectoryFetched(all)) == (s, CallActionView::FetchDirectory),
{
}

impl OrchestratorView {
    /// The orchestrator after a series of events, and the actions it asked
    /// for on the way, in order.
    pub open spec fn run(self, events: Seq<CallEventView>) -> (
        OrchestratorView,
        Seq<CallActionView>,
    )
        decreases events.len(),
    {
        if events.len() == 0 {
            (self, Seq::empty())
        } else {
            let (next, action) = self.step(events[0]);
            let (last, actions) = next.run(events.drop_first());
            (last, seq![action] + actions)
        }
    }
}

/// How often a series of actions asks for a teardown.
pub open spec fn teardowns(actions: Seq<CallActionView>) -> nat
    decreases actions.len(),
{
    if actions.len() == 0 {
        0
    } else if actions[0] == CallActionView::Teardown {
        1 + teardowns(actions.drop_first())
    } else {
        teardowns(actions.drop_first())
    }
}

/// Over any history a call is torn down once if it has ended and not at
/// all if it has not: never twice, never by halves, and never after the
/// end, where nothing is asked for any more.
pub proof fn lemma_torn_down_once(s: OrchestratorView, events: Seq<CallEventView>)
    ensures
        s.run(events).1.len() == events.len(),
        s.phase == Phase::Terminated ==> s.run(events).0 == s && teardowns(s.run(events).1) == 0,
        s.phase != Phase::Terminated ==> teardowns(s.run(events).1) == if s.run(events).0.phase
            == Phase::Terminated {
            1nat
        } else {
            0nat
        },
    decreases events.len(),
{
    if events.len() > 0 {
        let (next, action) = s.step(events[0]);
        let (last, actions) = next.run(events.drop_first());
        lemma_torn_down_once(next, events.drop_first());
        lemma_teardown_on_termination(s, events[0]);
        let all = seq![action] + actions;
        assert(all[0] == action);
        assert(all.drop_first() =~= actions);
    }
}

/// The call handshake of one client.
pub struct Orchestrator {
    self_name: String,
    phase: Phase,
    peer: String,
    bundle: String,
    ticks: u64,
    period: u64,
}

impl View for Orchestrator {
    type V = OrchestratorView;

    closed spec fn view(&self) -> OrchestratorView {
        OrchestratorView {
            self_name: self.self_name@,
            phase: self.phase,
            peer: self.peer@,
            bundle: self.bundle@,
            ticks: self.ticks as nat,
            period: self.period as nat,
        }
    }
}

impl Orchestrator {
    /// An orchestrator that has not started. During a call it looks for the
    /// peer's record once in `period` rounds; a period of zero counts as
    /// one.
    pub fn new(self_name: String, period: u64) -> (orchestrator: Orchestrator)
        ensures
            orchestrator@ == OrchestratorView::initial(self_name@, period as nat),
    {
        Orchestrator {
            self_name,
            phase: Phase::Idle,
            peer: String::new(),
            bundle: String::new(),
            ticks: 0,
            period: if period == 0 { 1 } else { period },
        }
    }

    /// The stage of the call.
    pub fn state(&self) -> (state: CallState)
        ensures
            state == self@.phase.stage(),
    {
        self.phase.call_state()
    }

    /// The step of the handshake.
    pub fn phase(&self) -> (phase: Phase)
        ensures
            phase == self@.phase,
    {
        self.phase
    }

    /// Our own name in the directory.
    pub fn self_name(&self) -> (name: &String)
        ensures
            name@ == self@.self_name,
    {
        &self.self_name
    }

    /// The name of the other side; empty while there is none.
    pub fn peer(&self) -> (name: &String)
        ensures
            name@ == self@.peer,
    {
        &self.peer
    }

    fn record_to_publish(&self) -> (record: User)
        ensures
            record@ == self@.record_to_publish(),
    {
        match self.phase {
            Phase::PublishingAnswer => User::answering(
                self.self_name.clone(),
                self.bundle.clone(),
                self.peer.clone(),
            ),
            Phase::PublishingOffer => User::calling(
                self.self_name.clone(),
                self.bundle.clone(),
                self.peer.clone(),
            ),
            Phase::PublishingInCall => User::talking(self.self_name.clone(), self.peer.clone()),
            _ => User::new(self.self_name.clone()),
        }
    }

    fn give_up(&mut self)
        ensures
            final(self)@ == old(self)@.given_up(),
    {
        self.phase = Phase::Idle;
        self.peer = String::new();
        self.bundle = String::new();
        self.ticks = 0;
    }

    fn fetched(&mut self, users: &Vec<User>) -> (action: CallAction)
        ensures
            (final(self)@, action@) == old(self)@.on_fetch(records(users@)),
    {
        match self.phase {
            Phase::AwaitingIncoming => {
                match find_caller(users, &self.self_name) {
                    Some(i) => {
                        self.phase = Phase::ApplyingOffer;
                        self.peer = users[i].name.clone();
                        CallAction::ApplyRemote(users[i].offer.clone())
                    },
                    None => CallAction::FetchDirectory,
                }
            },
            Phase::AwaitingAnswer => {
                match find_user(users, &self.peer) {
                    Some(i) => {
                        if users[i].answer.as_str().is_empty() {
                            CallAction::FetchDirectory
                        } else {
                            self.phase = Phase::ApplyingAnswer;
                            CallAction::ApplyRemote(users[i].answer.clone())
                        }
                    },
                    None => CallAction::FetchDirectory,
                }
            },
            Phase::InCall => {
                match find_user(users, &self.peer) {
                    Some(_) => CallAction::Nothing,
                    None => {
                        self.phase = Phase::Terminated;
                        CallAction::Teardown
                    },
                }
            },
            _ => CallAction::Nothing,
        }
    }

    fn written(&mut self) -> (action: CallAction)
        ensures
            (final(self)@, action@) == old(self)@.on_written(),
    {
        match self.phase {
            Phase::Registering => {
                self.phase = Phase::AwaitingIncoming;
                CallAction::FetchDirectory
            },
            Phase::PublishingAnswer => {
                self.phase = Phase::AwaitingChannel;
                CallAction::AwaitChannel
            },
            Phase::PublishingOffer => {
                self.phase = Phase::AwaitingAnswer;
                CallAction::FetchDirectory
            },
            Phase::PublishingInCall => {
                self.phase = Phase::InCall;
                self.ticks = 0;
                CallAction::StartStreaming
            },
            _ => CallAction::Nothing,
        }
    }

    fn write_failed(&self) -> (action: CallAction)
        ensures
            (self@, action@) == self@.on_write_failed(),
    {
        match self.phase {
            Phase::Registering => CallAction::WriteRecord(self.record_to_publish()),
            Phase::PublishingAnswer => CallAction::WriteRecord(self.record_to_publish()),
            Phase::PublishingOffer => CallAction::WriteRecord(self.record_to_publish()),
            Phase::PublishingInCall => CallAction::WriteRecord(self.record_to_publish()),
            _ => CallAction::Nothing,
        }
    }

    fn described(&mut self, bundle: String) -> (action: CallAction)
        ensures
            (final(self)@, action@) == old(self)@.on_description(bundle@),
    {
        match self.phase {
            Phase::CreatingAnswer => {
                if bundle.as_str().is_empty() {
                    self.give_up();
                    CallAction::AbortAttempt
                } else {
                    self.phase = Phase::PublishingAnswer;
                    self.bundle = bundle;
                    CallAction::WriteRecord(self.record_to_publish())
                }
            },
            Phase::CreatingOffer => {
                if bundle.as_str().is_empty() {
                    self.give_up();
                    CallAction::AbortAttempt
                } else {
                    self.phase = Phase::PublishingOffer;
                    self.bundle = bundle;
                    CallAction::WriteRecord(self.record_to_publish())
                }
            },
            _ => CallAction::Nothing,
        }
    }

    fn ticked(&mut self) -> (action: CallAction)
        ensures
            (final(self)@, action@) == old(self)@.on_tick(),
    {
        if self.phase == Phase::InCall {
            if self.period == 0 || self.ticks >= self.period - 1 {
                self.ticks = 0;
                CallAction::FetchDirectory
            } else {
                self.ticks = self.ticks + 1;
                CallAction::Nothing
            }
        } else {
            CallAction::Nothing
        }
    }

    /// Takes in an event and says what is to be done next.
    pub fn step(&mut self, event: CallEvent) -> (action: CallAction)
        ensures
            (final(self)@, action@) == old(self)@.step(event@),
    {
        if self.phase == Phase::Terminated {
            return CallAction::Nothing;
        }
        match event {
            CallEvent::Quit => {
                self.phase = Phase::Terminated;
                CallAction::Teardown
            },
            CallEvent::Start => {
                if self.phase == Phase::Idle {
                    self.phase = Phase::Registering;
                    CallAction::WriteRecord(self.record_to_publish())
                } else {
                    CallAction::Nothing
                }
            },
            CallEvent::DirectoryFetched(users) => self.fetched(&users),
            CallEvent::DirectoryUnavailable => {
                let nobody: Vec<User> = Vec::new();
                assert(records(nobody@) =~= Seq::empty());
                self.fetched(&nobody)
            },
            CallEvent::RecordWritten => self.written(),
            CallEvent::WriteFailed => self.write_failed(),
            CallEvent::CalleeSelected(name) => {
                if self.phase == Phase::AwaitingIncoming && !name.as_str().is_empty() {
                    self.phase = Phase::CreatingOffer;
                    self.peer = name;
                    CallAction::CreateOffer
                } else {
                    CallAction::Nothing
                }
            },
            CallEvent::DescriptionReady(bundle) => self.described(bundle),
            CallEvent::RemoteApplied => {
                match self.phase {
                    Phase::ApplyingOffer => {
                        self.phase = Phase::CreatingAnswer;
                        CallAction::CreateAnswer
                    },
                    Phase::ApplyingAnswer => {
                        self.phase = Phase::AwaitingChannel;
                        CallAction::AwaitChannel
                    },
                    _ => CallAction::Nothing,
                }
            },
            CallEvent::ChannelReady => {
                if self.phase == Phase::AwaitingChannel {
                    self.phase = Phase::PublishingInCall;
                    CallAction::WriteRecord(self.record_to_publish())
                } else {
                    CallAction::Nothing
                }
            },
            CallEvent::NegotiationFailed(_) => {
                if self.phase.is_negotiating() {
                    self.give_up();
                    CallAction::AbortAttempt
                } else {
                    CallAction::Nothing
                }
            },
            CallEvent::Tick => self.ticked(),
            CallEvent::StreamEnded => {
                if self.phase == Phase::InCall {
                    self.phase = Phase::Terminated;
                    CallAction::Teardown
                } else {
                    CallAction::Nothing
                }
            },
            CallEvent::TransportFailed(_) => {
                if self.phase == Phase::InCall {
                    self.phase = Phase::Terminated;
                    CallAction::Teardown
                } else {
                    CallAction::Nothing
                }
            },
        }
    }
}

} // verus!

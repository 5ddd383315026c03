//! The connection negotiator: what is known of one peer connection, and how
//! each event from the network changes it.
//!
//! The negotiator owns no socket. Whoever drives the real connection reports
//! each event here and asks here before each operation, so that every change
//! of the shared state happens in one place, one event at a time.

use crate::connection::{ChannelHandle, ChannelState, ChannelView, ConnectionState};
use crate::error::NegotiationError;
use crate::queue::InboundQueue;
use crate::text::{copy_strings, texts};
use crate::wait::{BoundedWait, WaitStep};
use bytes::Bytes;
use vstd::prelude::*;
use vstd::string::StringExecFns;

verus! {

/// What the network can report about a connection.
#[derive(Debug, PartialEq, Eq)]
pub enum NegotiatorEvent {
    /// A local candidate was found.
    CandidateDiscovered(String),
    /// No more local candidates will be found.
    GatheringComplete,
    /// The connection state changed.
    StateChanged(ConnectionState),
    /// The remote side created a channel, with this label.
    ChannelArrived(String),
    /// The channel with this number opened.
    ChannelOpened(usize),
    /// A message arrived on the channel with this number.
    MessageReceived(usize, Bytes),
}

/// A `NegotiatorEvent` as plain values.
pub enum EventView {
    CandidateDiscovered(Seq<char>),
    GatheringComplete,
    StateChanged(ConnectionState),
    ChannelArrived(Seq<char>),
    ChannelOpened(int),
    MessageReceived(int, Bytes),
}

impl View for NegotiatorEvent {
    type V = EventView;

    open spec fn view(&self) -> EventView {
        match self {
            NegotiatorEvent::CandidateDiscovered(c) => EventView::CandidateDiscovered(c@),
            NegotiatorEvent::GatheringComplete => EventView::GatheringComplete,
            NegotiatorEvent::StateChanged(s) => EventView::StateChanged(*s),
            NegotiatorEvent::ChannelArrived(l) => EventView::ChannelArrived(l@),
            NegotiatorEvent::ChannelOpened(n) => EventView::ChannelOpened(*n as int),
            NegotiatorEvent::MessageReceived(n, m) => EventView::MessageReceived(*n as int, *m),
        }
    }
}

/// A session description as plain values.
pub struct DescriptorView {
    pub sdp_body: Seq<char>,
    pub ice_candidates: Seq<Seq<char>>,
}

/// One side's description of the session: the text that describes its
/// transport, and the candidates it can be reached at. It lives from the
/// making of an offer or answer to its application on the other side.
#[derive(Clone, Debug, PartialEq, Eq)]
pub struct SessionDescriptor {
    pub sdp_body: String,
    pub ice_candidates: Vec<String>,
}

impl View for SessionDescriptor {
    type V = DescriptorView;

    open spec fn view(&self) -> DescriptorView {
        DescriptorView { sdp_body: self.sdp_body@, ice_candidates: texts(self.ice_candidates@) }
    }
}

/// Everything a negotiator knows, as plain values.
pub struct NegotiatorView {
    /// The name this connection goes by.
    pub id: Seq<char>,
    pub state: ConnectionState,
    /// The connection has been closed; nothing changes any more.
    pub closed: bool,
    /// The local candidates found so far, in the order found.
    pub candidates: Seq<Seq<char>>,
    pub gathering_done: bool,
    /// The channels, each known by its place in this list.
    pub channels: Seq<ChannelView>,
    /// The one message waiting for the consumer, if any.
    pub pending: Option<Bytes>,
    pub has_local_description: bool,
    pub has_remote_description: bool,
}

impl NegotiatorView {
    /// A negotiator that has seen nothing yet.
    pub open spec fn initial(id: Seq<char>) -> NegotiatorView {
        NegotiatorView {
            id,
            state: ConnectionState::New,
            closed: false,
            candidates: Seq::empty(),
            gathering_done: false,
            channels: Seq::empty(),
            pending: None,
            has_local_description: false,
            has_remote_description: false,
        }
    }

    /// The negotiator after its connection has been closed: the state has
    /// reached an end and every channel is closed.
    pub open spec fn shut(self) -> NegotiatorView {
        NegotiatorView {
            state: self.state.after(ConnectionState::Closed),
            closed: true,
            channels: Seq::new(self.channels.len(), |i: int| self.channels[i].shut()),
            ..self
        }
    }

    /// The negotiator after one event. A closed negotiator takes in nothing.
    pub open spec fn react(self, event: EventView) -> NegotiatorView {
        if self.closed {
            self
        } else {
            match event {
                EventView::CandidateDiscovered(c) => NegotiatorView {
                    candidates: self.candidates.push(c),
                    ..self
                },
                EventView::GatheringComplete => NegotiatorView { gathering_done: true, ..self },
                EventView::StateChanged(s) => if self.state.after(s) == ConnectionState::Closed {
                    self.shut()
                } else {
                    NegotiatorView { state: self.state.after(s), ..self }
                },
                EventView::ChannelArrived(l) => NegotiatorView {
                    channels: self.channels.push(ChannelView::fresh(l)),
                    ..self
                },
                EventView::ChannelOpened(n) => if 0 <= n < self.channels.len() {
                    NegotiatorView {
                        channels: self.channels.update(n, self.channels[n].opened()),
                        ..self
                    }
                } else {
                    self
                },
                EventView::MessageReceived(_, m) => NegotiatorView { pending: Some(m), ..self },
            }
        }
    }

    /// The negotiator after a series of events, taken in order.
    pub open spec fn react_all(self, events: Seq<EventView>) -> NegotiatorView
        decreases events.len(),
    {
        if events.len() == 0 {
            self
        } else {
            self.react(events[0]).react_all(events.drop_first())
        }
    }

    /// Every channel is open. True of a connection without channels.
    pub open spec fn all_channels_open(self) -> bool {
        forall|i: int|
            0 <= i < self.channels.len() ==> (#[trigger] self.channels[i]).ready_state
                == ChannelState::Open
    }

    /// Channel `n` is the first channel with this label.
    pub open spec fn is_first_labelled(self, label: Seq<char>, n: int) -> bool {
        &&& 0 <= n < self.channels.len()
        &&& self.channels[n].label == label
        &&& forall|j: int| 0 <= j < n ==> (#[trigger] self.channels[j]).label != label
    }

    /// No channel has this label.
    pub open spec fn none_labelled(self, label: Seq<char>) -> bool {
        forall|j: int| 0 <= j < self.channels.len() ==> (#[trigger] self.channels[j]).label != label
    }

    /// The negotiator after a channel with this label has been created
    /// locally. On a closed connection nothing is created.
    pub open spec fn with_channel(self, label: Seq<char>) -> NegotiatorView {
        if self.closed {
            self
        } else {
            NegotiatorView { channels: self.channels.push(ChannelView::fresh(label)), ..self }
        }
    }

    /// Whether a description may be applied, and if not, why not: never on
    /// a closed connection, and never a description without a body.
    pub open spec fn may_apply(self, description: DescriptorView) -> Result<(), NegotiationError> {
        if self.closed {
            Err(NegotiationError::ConnectionClosed)
        } else if description.sdp_body.len() == 0 {
            Err(NegotiationError::Malformed)
        } else {
            Ok(())
        }
    }

    /// Whether remote candidates may be added, and if not, why not: never
    /// on a closed connection, and never a candidate that says nothing.
    pub open spec fn may_add(self, candidates: Seq<Seq<char>>) -> Result<(), NegotiationError> {
        if self.closed {
            Err(NegotiationError::ConnectionClosed)
        } else if exists|i: int| 0 <= i < candidates.len() && (#[trigger] candidates[i]).len() == 0 {
            Err(NegotiationError::Malformed)
        } else {
            Ok(())
        }
    }

    /// The negotiator after a local description has been offered to it.
    pub open spec fn with_local_description(self, description: DescriptorView) -> NegotiatorView {
        if self.may_apply(description) is Ok {
            NegotiatorView { has_local_description: true, ..self }
        } else {
            self
        }
    }

    /// The negotiator after a remote description has been offered to it.
    pub open spec fn with_remote_description(self, description: DescriptorView) -> NegotiatorView {
        if self.may_apply(description) is Ok {
            NegotiatorView { has_remote_description: true, ..self }
        } else {
            self
        }
    }
}

/// The connection state never moves backward under an event, and a state
/// that is an end never moves at all.
pub proof fn lemma_react_monotonic(v: NegotiatorView, event: EventView)
    ensures
        v.state.rank() <= v.react(event).state.rank(),
        v.state.is_terminal() ==> v.react(event).state == v.state,
{
}

/// The same over any series of events.
pub proof fn lemma_react_all_monotonic(v: NegotiatorView, events: Seq<EventView>)
    ensures
        v.state.rank() <= v.react_all(events).state.rank(),
        v.state.is_terminal() ==> v.react_all(events).state == v.state,
    decreases events.len(),
{
    if events.len() > 0 {
        lemma_react_monotonic(v, events[0]);
        lemma_react_all_monotonic(v.react(events[0]), events.drop_first());
    }
}

/// Closing leaves nothing half open: the negotiator is closed, its state
/// is an end, every channel is closed, and no event changes it any more.
pub proof fn lemma_shut_is_whole(v: NegotiatorView, event: EventView)
    ensures
        v.shut().closed,
        v.shut().state.is_terminal(),
        v.shut().channels.len() == v.channels.len(),
        forall|i: int|
            0 <= i < v.channels.len() ==> (#[trigger] v.shut().channels[i]).ready_state
                == ChannelState::Closed,
        v.shut().react(event) == v.shut(),
{
}

/// A report that the connection is closed closes the negotiator, as a
/// local close does.
pub proof fn lemma_reported_close(v: NegotiatorView)
    requires
        !v.closed,
        !v.state.is_terminal(),
    ensures
        v.react(EventView::StateChanged(ConnectionState::Closed)) == v.shut(),
{
}

/// Candidates are only ever added, at the end and in the order found.
pub proof fn lemma_candidates_grow(v: NegotiatorView, event: EventView)
    ensures
        v.candidates.is_prefix_of(v.react(event).candidates),
{
    assert(v.candidates.is_prefix_of(v.candidates));
    assert(forall|c: Seq<char>| v.candidates.is_prefix_of(#[trigger] v.candidates.push(c)));
}

/// Of two messages that arrive before the consumer takes one, only the
/// second is left for it, whatever channels they came on.
pub proof fn lemma_newest_message_kept(
    v: NegotiatorView,
    first_channel: int,
    first: Bytes,
    second_channel: int,
    second: Bytes,
)
    requires
        !v.closed,
    ensures
        v.react(EventView::MessageReceived(first_channel, first)).react(
            EventView::MessageReceived(second_channel, second),
        ).pending == Some(second),
{
}

/// Once the network reports the peers connected and a connecting channel
/// open, both waits of a call are over: the state is `Connected` and the
/// channel is `Open`.
pub proof fn lemma_reports_end_the_waits(v: NegotiatorView, n: int)
    requires
        !v.closed,
        v.state.rank() < ConnectionState::Connected.rank(),
        0 <= n < v.channels.len(),
        v.channels[n].ready_state == ChannelState::Connecting,
    ensures
        ({
            let after = v.react(EventView::StateChanged(ConnectionState::Connected)).react(
                EventView::ChannelOpened(n),
            );
            &&& after.state == ConnectionState::Connected
            &&& after.channels[n].ready_state == ChannelState::Open
            &&& after.channels.len() == v.channels.len()
            &&& (forall|i: int|
                0 <= i < v.channels.len() && i != n ==> (#[trigger] v.channels[i]).ready_state
                    == ChannelState::Open) ==> after.all_channels_open()
        }),
{
}

/// The views of a list of channel handles.
pub open spec fn channel_views(handles: Seq<ChannelHandle>) -> Seq<ChannelView> {
    Seq::new(handles.len(), |i: int| handles[i]@)
}

/// What is known of one peer connection.
pub struct Negotiator {
    id: String,
    state: ConnectionState,
    closed: bool,
    candidates: Vec<String>,
    gathering_done: bool,
    channels: Vec<ChannelHandle>,
    inbound: InboundQueue,
    has_local_description: bool,
    has_remote_description: bool,
}

impl View for Negotiator {
    type V = NegotiatorView;

    closed spec fn view(&self) -> NegotiatorView {
        NegotiatorView {
            id: self.id@,
            state: self.state,
            closed: self.closed,
            candidates: texts(self.candidates@),
            gathering_done: self.gathering_done,
            channels: channel_views(self.channels@),
            pending: self.inbound@,
            has_local_description: self.has_local_description,
            has_remote_description: self.has_remote_description,
        }
    }
}

impl Negotiator {
    /// A negotiator for a connection that has just been made.
    pub fn new(id: String) -> (negotiator: Negotiator)
        ensures
            negotiator@ == NegotiatorView::initial(id@),
    {
        let negotiator = Negotiator {
            id,
            state: ConnectionState::New,
            closed: false,
            candidates: Vec::new(),
            gathering_done: false,
            channels: Vec::new(),
            inbound: InboundQueue::new(),
            has_local_description: false,
            has_remote_description: false,
        };
        assert(negotiator@.candidates =~= Seq::empty());
        assert(negotiator@.channels =~= Seq::empty());
        negotiator
    }

    fn shut_channels(&mut self)
        ensures
            final(self)@ == (NegotiatorView {
                channels: Seq::new(old(self)@.channels.len(), |i: int| old(self)@.channels[i].shut()),
                ..old(self)@
            }),
    {
        let mut i: usize = 0;
        while i < self.channels.len()
            invariant
                i <= self.channels.len(),
                self.channels@.len() == old(self).channels@.len(),
                forall|k: int| 0 <= k < i ==> self.channels@[k]@ == old(self).channels@[k]@.shut(),
                forall|k: int|
                    i <= k < self.channels@.len() ==> self.channels@[k] == old(self).channels@[k],
                self.id == old(self).id,
                self.state == old(self).state,
                self.closed == old(self).closed,
                self.candidates == old(self).candidates,
                self.gathering_done == old(self).gathering_done,
                self.inbound == old(self).inbound,
                self.has_local_description == old(self).has_local_description,
                self.has_remote_description == old(self).has_remote_description,
            decreases self.channels.len() - i,
        {
            self.channels[i].mark_closed();
            i += 1;
        }
        assert(self@.channels =~= Seq::new(
            old(self)@.channels.len(),
            |i: int| old(self)@.channels[i].shut(),
        ));
    }

    /// Closes the connection: its state reaches an end, every channel is
    /// closed, and from now on no event changes anything.
    pub fn close(&mut self)
        ensures
            final(self)@ == old(self)@.shut(),
    {
        self.state = self.state.advance(ConnectionState::Closed);
        self.closed = true;
        self.shut_channels();
    }

    /// Takes in one event from the network.
    pub fn handle(&mut self, event: NegotiatorEvent)
        ensures
            final(self)@ == old(self)@.react(event@),
    {
        if self.closed {
            return ;
        }
        match event {
            NegotiatorEvent::CandidateDiscovered(c) => {
                self.candidates.push(c);
                assert(self@.candidates =~= old(self)@.candidates.push(c@));
            },
            NegotiatorEvent::GatheringComplete => {
                self.gathering_done = true;
            },
            NegotiatorEvent::StateChanged(s) => {
                let next = self.state.advance(s);
                if next == ConnectionState::Closed {
                    self.close();
                } else {
                    self.state = next;
                }
            },
            NegotiatorEvent::ChannelArrived(l) => {
                let handle = ChannelHandle::new(l);
                self.channels.push(handle);
                assert(self@.channels =~= old(self)@.channels.push(ChannelView::fresh(l@)));
            },
            NegotiatorEvent::ChannelOpened(n) => {
                if n < self.channels.len() {
                    self.channels[n].mark_open();
                    assert(self@.channels =~= old(self)@.channels.update(
                        n as int,
                        old(self)@.channels[n as int].opened(),
                    ));
                }
            },
            NegotiatorEvent::MessageReceived(_, m) => {
                let _ = self.inbound.offer(m);
            },
        }
    }

    /// The name this connection goes by.
    pub fn id(&self) -> (id: &String)
        ensures
            id@ == self@.id,
    {
        &self.id
    }

    /// The label of the channel this side sends on: the connection's name
    /// followed by `-send`.
    pub fn send_label(&self) -> (label: String)
        ensures
            label@ == self@.id + "-send"@,
    {
        self.id.clone().concat("-send")
    }

    pub fn state(&self) -> (state: ConnectionState)
        ensures
            state == self@.state,
    {
        self.state
    }

    pub fn is_closed(&self) -> (closed: bool)
        ensures
            closed == self@.closed,
    {
        self.closed
    }

    /// A copy of the local candidates found so far.
    pub fn get_ice_candidates(&self) -> (list: Vec<String>)
        ensures
            texts(list@) == self@.candidates,
    {
        copy_strings(&self.candidates)
    }

    /// What the publishing of a description waits for: every local
    /// candidate has been found.
    pub fn candidates_gathered(&self) -> (done: bool)
        ensures
            done == self@.gathering_done,
    {
        self.gathering_done
    }

    /// What a call waits for first: the peers are connected.
    pub fn is_connected(&self) -> (connected: bool)
        ensures
            connected == (self@.state == ConnectionState::Connected),
    {
        self.state == ConnectionState::Connected
    }

    /// The number of channels, created here or arrived from the peer.
    pub fn channel_count(&self) -> (n: usize)
        ensures
            n == self@.channels.len(),
    {
        self.channels.len()
    }

    /// The state of one channel, or nothing where there is no such channel.
    pub fn channel_state(&self, n: usize) -> (state: Option<ChannelState>)
        ensures
            state == if n < self@.channels.len() {
                Some(self@.channels[n as int].ready_state)
            } else {
                None
            },
    {
        if n < self.channels.len() {
            Some(self.channels[n].ready_state())
        } else {
            None
        }
    }

    /// What a call waits for last, for one channel: it is open.
    pub fn channel_is_open(&self, n: usize) -> (open: bool)
        ensures
            open == (n < self@.channels.len() && self@.channels[n as int].ready_state
                == ChannelState::Open),
    {
        n < self.channels.len() && self.channels[n].is_open()
    }

    /// What a call waits for last: every channel is open.
    pub fn data_channels_open(&self) -> (open: bool)
        ensures
            open == self@.all_channels_open(),
    {
        let mut i: usize = 0;
        while i < self.channels.len()
            invariant
                i <= self.channels.len(),
                forall|k: int|
                    0 <= k < i ==> (#[trigger] self@.channels[k]).ready_state == ChannelState::Open,
            decreases self.channels.len() - i,
        {
            if !self.channels[i].is_open() {
                assert(self@.channels[i as int].ready_state != ChannelState::Open);
                return false;
            }
            i += 1;
        }
        true
    }

    /// Looks a channel up by its label. Of several with one label, the
    /// first is found.
    pub fn get_data_channel(&self, label: &String) -> (found: Option<usize>)
        ensures
            match found {
                Some(n) => self@.is_first_labelled(label@, n as int),
                None => self@.none_labelled(label@),
            },
    {
        let mut i: usize = 0;
        while i < self.channels.len()
            invariant
                i <= self.channels.len(),
                forall|k: int| 0 <= k < i ==> (#[trigger] self@.channels[k]).label != label@,
            decreases self.channels.len() - i,
        {
            if *self.channels[i].label() == *label {
                return Some(i);
            }
            i += 1;
        }
        None
    }

    /// Records a channel created on this side. It is refused on a closed
    /// connection and on no other; its number is handed back.
    pub fn create_data_channel(&mut self, label: String) -> (opened: Result<usize, NegotiationError>)
        ensures
            final(self)@ == old(self)@.with_channel(label@),
            match opened {
                Ok(n) => !old(self)@.closed && n == old(self)@.channels.len(),
                Err(e) => old(self)@.closed && e == NegotiationError::ConnectionClosed,
            },
    {
        if self.closed {
            return Err(NegotiationError::ConnectionClosed);
        }
        let n = self.channels.len();
        let handle = ChannelHandle::new(label);
        self.channels.push(handle);
        assert(self@.channels =~= old(self)@.channels.push(ChannelView::fresh(label@)));
        Ok(n)
    }

    /// Whether an offer may be created: on any connection that is not
    /// closed.
    pub fn check_create_offer(&self) -> (allowed: Result<(), NegotiationError>)
        ensures
            allowed == if self@.closed {
                Err::<(), NegotiationError>(NegotiationError::ConnectionClosed)
            } else {
                Ok::<(), NegotiationError>(())
            },
    {
        if self.closed {
            Err(NegotiationError::ConnectionClosed)
        } else {
            Ok(())
        }
    }

    /// Whether an answer may be created: only once a remote description has
    /// been applied, and never on a closed connection.
    pub fn check_create_answer(&self) -> (allowed: Result<(), NegotiationError>)
        ensures
            allowed == if self@.closed {
                Err::<(), NegotiationError>(NegotiationError::ConnectionClosed)
            } else if !self@.has_remote_description {
                Err::<(), NegotiationError>(NegotiationError::NoRemoteDescription)
            } else {
                Ok::<(), NegotiationError>(())
            },
    {
        if self.closed {
            Err(NegotiationError::ConnectionClosed)
        } else if !self.has_remote_description {
            Err(NegotiationError::NoRemoteDescription)
        } else {
            Ok(())
        }
    }

    /// Whether remote candidates may be added: on a connection that is not
    /// closed, and only candidates that say something.
    pub fn add_remote_ice_candidates(&self, candidates: &Vec<String>) -> (allowed: Result<
        (),
        NegotiationError,
    >)
        ensures
            allowed == self@.may_add(texts(candidates@)),
    {
        if self.closed {
            return Err(NegotiationError::ConnectionClosed);
        }
        let mut i: usize = 0;
        while i < candidates.len()
            invariant
                !self@.closed,
                i <= candidates.len(),
                forall|k: int| 0 <= k < i ==> (#[trigger] texts(candidates@)[k]).len() != 0,
            decreases candidates.len() - i,
        {
            if candidates[i].as_str().is_empty() {
                proof {
                    let all = texts(candidates@);
                    let k = i as int;
                    assert(0 <= k < all.len() && all[k].len() == 0);
                }
                return Err(NegotiationError::Malformed);
            }
            i += 1;
        }
        Ok(())
    }

    /// Takes note of the local description that is being applied. A
    /// description without a body is refused, and so is any description on
    /// a closed connection.
    pub fn set_local_description(&mut self, description: &SessionDescriptor) -> (applied: Result<
        (),
        NegotiationError,
    >)
        ensures
            applied == old(self)@.may_apply(description@),
            final(self)@ == old(self)@.with_local_description(description@),
    {
        if self.closed {
            Err(NegotiationError::ConnectionClosed)
        } else if description.sdp_body.as_str().is_empty() {
            Err(NegotiationError::Malformed)
        } else {
            self.has_local_description = true;
            Ok(())
        }
    }

    /// Takes note of the remote description that is being applied. A
    /// description without a body is refused, and so is any description on
    /// a closed connection.
    pub fn set_remote_description(&mut self, description: &SessionDescriptor) -> (applied: Result<
        (),
        NegotiationError,
    >)
        ensures
            applied == old(self)@.may_apply(description@),
            final(self)@ == old(self)@.with_remote_description(description@),
    {
        if self.closed {
            Err(NegotiationError::ConnectionClosed)
        } else if description.sdp_body.as_str().is_empty() {
            Err(NegotiationError::Malformed)
        } else {
            self.has_remote_description = true;
            Ok(())
        }
    }

    /// The local description as it is published: the given body, with the
    /// candidates found so far.
    pub fn describe(&self, sdp_body: String) -> (description: SessionDescriptor)
        ensures
            description@ == (DescriptorView {
                sdp_body: sdp_body@,
                ice_candidates: self@.candidates,
            }),
    {
        SessionDescriptor { sdp_body, ice_candidates: copy_strings(&self.candidates) }
    }

    /// One look of the wait for the candidates: it is over once every
    /// local candidate has been found.
    pub fn wait_ice_candidates_gathered(&self, wait: &mut BoundedWait) -> (step: WaitStep)
        ensures
            (final(wait)@, step) == old(wait)@.poll(self@.gathering_done, u64::MAX as nat),
    {
        wait.poll(self.candidates_gathered())
    }

    /// One look of the wait for the connection: it is over once the peers
    /// are connected.
    pub fn wait_peer_connected(&self, wait: &mut BoundedWait) -> (step: WaitStep)
        ensures
            (final(wait)@, step) == old(wait)@.poll(
                self@.state == ConnectionState::Connected,
                u64::MAX as nat,
            ),
    {
        wait.poll(self.is_connected())
    }

    /// One look of the wait for the channels: it is over once every channel
    /// is open.
    pub fn wait_data_channels_open(&self, wait: &mut BoundedWait) -> (step: WaitStep)
        ensures
            (final(wait)@, step) == old(wait)@.poll(self@.all_channels_open(), u64::MAX as nat),
    {
        wait.poll(self.data_channels_open())
    }

    /// Whether a message is waiting for the consumer.
    pub fn has_message(&self) -> (waiting: bool)
        ensures
            waiting == (self@.pending is Some),
    {
        !self.inbound.is_empty()
    }

    /// Hands the waiting message to the consumer.
    pub fn take_message(&mut self) -> (message: Option<Bytes>)
        ensures
            message == old(self)@.pending,
            final(self)@ == (NegotiatorView { pending: None, ..old(self)@ }),
    {
        self.inbound.take()
    }
}

} // verus!

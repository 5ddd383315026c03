//! The life cycle of a peer connection and of the channels opened on it.

use vstd::prelude::*;

verus! {

/// Where a peer connection stands. A connection only ever moves forward:
/// `New`, then `Connecting`, then `Connected`, then one of the three ends.
/// There is no way back from `Disconnected`, `Failed` or `Closed`.
#[derive(Clone, Copy, Debug, PartialEq, Eq, Structural)]
pub enum ConnectionState {
    New,
    Connecting,
    Connected,
    Disconnected,
    Failed,
    Closed,
}

impl ConnectionState {
    /// How far along its life the connection is. The three ends share the
    /// last rank.
    pub open spec fn rank(self) -> nat {
        match self {
            ConnectionState::New => 0,
            ConnectionState::Connecting => 1,
            ConnectionState::Connected => 2,
            ConnectionState::Disconnected => 3,
            ConnectionState::Failed => 3,
            ConnectionState::Closed => 3,
        }
    }

    /// The connection has ended, one way or another.
    pub open spec fn is_terminal(self) -> bool {
        self.rank() == 3
    }

    /// A report of `next` moves a connection in this state forward.
    pub open spec fn can_become(self, next: ConnectionState) -> bool {
        self.rank() < next.rank()
    }

    /// The state after a report of `reported`: the reported state where that
    /// is a step forward, the present state where it is not.
    pub open spec fn after(self, reported: ConnectionState) -> ConnectionState {
        if self.can_become(reported) {
            reported
        } else {
            self
        }
    }

    fn rank_of(self) -> (r: u8)
        ensures
            r == self.rank(),
    {
        match self {
            ConnectionState::New => 0,
            ConnectionState::Connecting => 1,
            ConnectionState::Connected => 2,
            ConnectionState::Disconnected => 3,
            ConnectionState::Failed => 3,
            ConnectionState::Closed => 3,
        }
    }

    /// Whether the connection has ended.
    pub fn ended(self) -> (r: bool)
        ensures
            r == self.is_terminal(),
    {
        self.rank_of() == 3
    }

    /// Takes in a reported state, refusing any step that is not forward.
    pub fn advance(self, reported: ConnectionState) -> (next: ConnectionState)
        ensures
            next == self.after(reported),
    {
        if self.rank_of() < reported.rank_of() {
            reported
        } else {
            self
        }
    }
}

/// The state never moves backward, whatever is reported.
pub proof fn lemma_state_monotonic(state: ConnectionState, reported: ConnectionState)
    ensures
        state.rank() <= state.after(reported).rank(),
{
}

/// An ended connection stays exactly as it ended, whatever is reported.
pub proof fn lemma_terminal_is_final(state: ConnectionState, reported: ConnectionState)
    requires
        state.is_terminal(),
    ensures
        state.after(reported) == state,
{
}

/// The state after a whole series of reports, taken in order.
pub open spec fn after_all(state: ConnectionState, reports: Seq<ConnectionState>) -> ConnectionState
    decreases reports.len(),
{
    if reports.len() == 0 {
        state
    } else {
        after_all(state.after(reports[0]), reports.drop_first())
    }
}

/// Monotonic over any history: no series of reports moves a connection
/// backward, and none moves an ended connection at all.
pub proof fn lemma_history_monotonic(state: ConnectionState, reports: Seq<ConnectionState>)
    ensures
        state.rank() <= after_all(state, reports).rank(),
        state.is_terminal() ==> after_all(state, reports) == state,
    decreases reports.len(),
{
    if reports.len() > 0 {
        lemma_history_monotonic(state.after(reports[0]), reports.drop_first());
    }
}

/// Where a data channel stands.
#[derive(Clone, Copy, Debug, PartialEq, Eq, Structural)]
pub enum ChannelState {
    Connecting,
    Open,
    Closing,
    Closed,
}

/// What a `ChannelHandle` is, as plain values.
pub struct ChannelView {
    pub label: Seq<char>,
    pub ready_state: ChannelState,
    pub ordered: bool,
}

impl ChannelView {
    /// The channel after it has opened. Only a connecting channel opens; a
    /// channel that is closing or closed stays as it is.
    pub open spec fn opened(self) -> ChannelView {
        ChannelView {
            ready_state: if self.ready_state == ChannelState::Connecting {
                ChannelState::Open
            } else {
                self.ready_state
            },
            ..self
        }
    }

    /// The channel after its connection has been closed.
    pub open spec fn shut(self) -> ChannelView {
        ChannelView { ready_state: ChannelState::Closed, ..self }
    }

    /// A channel as it is created or as it arrives: connecting, ordered.
    pub open spec fn fresh(label: Seq<char>) -> ChannelView {
        ChannelView { label, ready_state: ChannelState::Connecting, ordered: true }
    }
}

/// One data channel of a connection. Channels deliver in order, always.
#[derive(Clone, Debug, PartialEq, Eq)]
pub struct ChannelHandle {
    label: String,
    ready_state: ChannelState,
}

impl View for ChannelHandle {
    type V = ChannelView;

    closed spec fn view(&self) -> ChannelView {
        ChannelView { label: self.label@, ready_state: self.ready_state, ordered: true }
    }
}

impl ChannelHandle {
    /// A channel that has just been created or has just arrived: it is
    /// still connecting.
    pub fn new(label: String) -> (handle: ChannelHandle)
        ensures
            handle@ == ChannelView::fresh(label@),
    {
        ChannelHandle { label, ready_state: ChannelState::Connecting }
    }

    /// Every handle is an ordered channel.
    pub proof fn lemma_ordered(&self)
        ensures
            self@.ordered,
    {
    }

    pub fn label(&self) -> (label: &String)
        ensures
            label@ == self@.label,
    {
        &self.label
    }

    pub fn ready_state(&self) -> (state: ChannelState)
        ensures
            state == self@.ready_state,
    {
        self.ready_state
    }

    pub fn ordered(&self) -> (ordered: bool)
        ensures
            ordered,
            ordered == self@.ordered,
    {
        true
    }

    pub fn is_open(&self) -> (open: bool)
        ensures
            open == (self@.ready_state == ChannelState::Open),
    {
        self.ready_state == ChannelState::Open
    }

    /// The channel has opened.
    pub fn mark_open(&mut self)
        ensures
            final(self)@ == old(self)@.opened(),
    {
        if self.ready_state == ChannelState::Connecting {
            self.ready_state = ChannelState::Open;
        }
    }

    /// The channel is closed for good.
    pub fn mark_closed(&mut self)
        ensures
            final(self)@ == old(self)@.shut(),
    {
        self.ready_state = ChannelState::Closed;
    }
}

} // verus!

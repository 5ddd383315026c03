//! The two media loops of a call: the producer, which captures and sends,
//! and the consumer, which receives and draws.
//!
//! Each loop is a small machine of its own. It is told what happened and
//! says what to do next; it shares nothing with the other loop, so neither
//! can hold the other up.

use crate::buffer::bytes_contents;
use crate::display::FrameWriter;
use crate::error::{DeviceError, TransportError};
use crate::fps::{trimmed, FpsWindow};
use crate::handshake::CallEvent;
use crate::pacing::{remaining_interval, rest_of_interval};
use crate::wire::{latency, parse_wire, wire_layout, FramePacket};
use bytes::Bytes;
use vstd::prelude::*;

verus! {

/// The width of the picture that the camera is asked for, in pixels.
pub const CAMERA_WIDTH: u32 = 640;

/// The height of the picture that the camera is asked for, in pixels.
pub const CAMERA_HEIGHT: u32 = 480;

/// The rate that the camera is asked for, in frames per second.
pub const CAMERA_FPS: u32 = 30;

/// The size that a captured picture is brought down to before it is sent:
/// half as wide and half as high, which bounds what a frame takes on the
/// wire.
pub fn compressed_size(width: u32, height: u32) -> (size: (u32, u32))
    ensures
        size == ((width / 2) as u32, (height / 2) as u32),
{
    (width / 2, height / 2)
}

/// Why a loop stopped.
#[derive(Clone, Copy, Debug, PartialEq, Eq, Structural)]
pub enum StopReason {
    /// The user asked to quit.
    Quit,
    /// The capture device failed.
    Device(DeviceError),
    /// The channel failed.
    Transport(TransportError),
    /// The channel was closed by the other side.
    EndOfStream,
}

impl StopReason {
    /// The reason ends the call. A device failure does not: it stops the
    /// producer and nothing else.
    pub open spec fn ends_call(self) -> bool {
        !(self is Device)
    }

    /// What the orchestrator is to be told when a loop stops for this
    /// reason; nothing where the call goes on.
    pub fn call_event(self) -> (event: Option<CallEvent>)
        ensures
            event is Some == self.ends_call(),
            match self {
                StopReason::Quit => event matches Some(CallEvent::Quit),
                StopReason::Device(_) => event is None,
                StopReason::Transport(e) => event matches Some(CallEvent::TransportFailed(f))
                    && f == e,
                StopReason::EndOfStream => event matches Some(CallEvent::StreamEnded),
            },
    {
        match self {
            StopReason::Quit => Some(CallEvent::Quit),
            StopReason::Device(_) => None,
            StopReason::Transport(e) => Some(CallEvent::TransportFailed(e)),
            StopReason::EndOfStream => Some(CallEvent::StreamEnded),
        }
    }
}

/// Where the producer stands in its round.
#[derive(Clone, Copy, Debug, PartialEq, Eq, Structural)]
pub enum ProducerPhase {
    Idle,
    Capturing,
    Sending,
    Sleeping,
    Stopped,
}

/// What happened to the producer.
#[derive(Debug, PartialEq, Eq)]
pub enum ProducerEvent {
    /// The loop is to begin.
    Start,
    /// A frame was captured and compressed, at this wall-clock time.
    Captured { payload: Vec<u8>, now: u64 },
    /// The capture failed.
    CaptureFailed,
    /// The frame was sent; the round has taken this long so far.
    Sent { elapsed: u64 },
    /// The frame could not be sent.
    SendFailed,
    /// The sleep is over.
    Slept,
    /// The user asked to quit.
    Quit,
}

/// A `ProducerEvent` as plain values.
pub enum ProducerEventView {
    Start,
    Captured { payload: Seq<u8>, now: u64 },
    CaptureFailed,
    Sent { elapsed: u64 },
    SendFailed,
    Slept,
    Quit,
}

impl View for ProducerEvent {
    type V = ProducerEventView;

    open spec fn view(&self) -> ProducerEventView {
        match self {
            ProducerEvent::Start => ProducerEventView::Start,
            ProducerEvent::Captured { payload, now } => ProducerEventView::Captured {
                payload: payload@,
                now: *now,
            },
            ProducerEvent::CaptureFailed => ProducerEventView::CaptureFailed,
            ProducerEvent::Sent { elapsed } => ProducerEventView::Sent { elapsed: *elapsed },
            ProducerEvent::SendFailed => ProducerEventView::SendFailed,
            ProducerEvent::Slept => ProducerEventView::Slept,
            ProducerEvent::Quit => ProducerEventView::Quit,
        }
    }
}

/// What the producer is to do next.
#[derive(Debug, PartialEq, Eq)]
pub enum ProducerAction {
    Nothing,
    /// Capture a frame and compress it.
    Capture,
    /// Send these bytes on the channel.
    Send(Bytes),
    /// Sleep this long.
    Sleep(u64),
    /// Leave the loop.
    Stop(StopReason),
}

/// A `ProducerAction` as plain values.
pub enum ProducerActionView {
    Nothing,
    Capture,
    Send(Seq<u8>),
    Sleep(u64),
    Stop(StopReason),
}

impl View for ProducerAction {
    type V = ProducerActionView;

    open spec fn view(&self) -> ProducerActionView {
        match self {
            ProducerAction::Nothing => ProducerActionView::Nothing,
            ProducerAction::Capture => ProducerActionView::Capture,
            ProducerAction::Send(bytes) => ProducerActionView::Send(bytes_contents(*bytes)),
            ProducerAction::Sleep(rest) => ProducerActionView::Sleep(*rest),
            ProducerAction::Stop(reason) => ProducerActionView::Stop(*reason),
        }
    }
}

/// The sending loop. Each round captures one frame, stamps it, sends it and
/// sleeps what is left of the target interval.
#[derive(Clone, Copy, Debug, PartialEq, Eq, Structural)]
pub struct Producer {
    pub phase: ProducerPhase,
    pub interval: u64,
}

impl Producer {
    /// The producer after an event, and what it does next. A frame too long
    /// to be framed counts as a failed capture.
    pub open spec fn next(self, event: ProducerEventView) -> (Producer, ProducerActionView) {
        if self.phase == ProducerPhase::Stopped {
            (self, ProducerActionView::Nothing)
        } else {
            match event {
                ProducerEventView::Quit => (
                    Producer { phase: ProducerPhase::Stopped, ..self },
                    ProducerActionView::Stop(StopReason::Quit),
                ),
                ProducerEventView::Start => if self.phase == ProducerPhase::Idle {
                    (
                        Producer { phase: ProducerPhase::Capturing, ..self },
                        ProducerActionView::Capture,
                    )
                } else {
                    (self, ProducerActionView::Nothing)
                },
                ProducerEventView::Captured { payload, now } => if self.phase
                    != ProducerPhase::Capturing {
                    (self, ProducerActionView::Nothing)
                } else if payload.len() + 8 <= isize::MAX {
                    (
                        Producer { phase: ProducerPhase::Sending, ..self },
                        ProducerActionView::Send(wire_layout(payload, now)),
                    )
                } else {
                    (
                        Producer { phase: ProducerPhase::Stopped, ..self },
                        ProducerActionView::Stop(StopReason::Device(DeviceError::CaptureFailed)),
                    )
                },
                ProducerEventView::CaptureFailed => if self.phase == ProducerPhase::Capturing {
                    (
                        Producer { phase: ProducerPhase::Stopped, ..self },
                        ProducerActionView::Stop(StopReason::Device(DeviceError::CaptureFailed)),
                    )
                } else {
                    (self, ProducerActionView::Nothing)
                },
                ProducerEventView::Sent { elapsed } => if self.phase == ProducerPhase::Sending {
                    (
                        Producer { phase: ProducerPhase::Sleeping, ..self },
                        ProducerActionView::Sleep(
                            rest_of_interval(elapsed as nat, self.interval as nat) as u64,
                        ),
                    )
                } else {
                    (self, ProducerActionView::Nothing)
                },
                ProducerEventView::SendFailed => if self.phase == ProducerPhase::Sending {
                    (
                        Producer { phase: ProducerPhase::Stopped, ..self },
                        ProducerActionView::Stop(
                            StopReason::Transport(TransportError::SendFailed),
                        ),
                    )
                } else {
                    (self, ProducerActionView::Nothing)
                },
                ProducerEventView::Slept => if self.phase == ProducerPhase::Sleeping {
                    (
                        Producer { phase: ProducerPhase::Capturing, ..self },
                        ProducerActionView::Capture,
                    )
                } else {
                    (self, ProducerActionView::Nothing)
                },
            }
        }
    }

    /// A producer that has not begun, for the given target interval.
    pub fn new(interval: u64) -> (producer: Producer)
        ensures
            producer == (Producer { phase: ProducerPhase::Idle, interval }),
    {
        Producer { phase: ProducerPhase::Idle, interval }
    }

    /// Takes in an event and says what to do next.
    pub fn step(&mut self, event: ProducerEvent) -> (action: ProducerAction)
        ensures
            (*final(self), action@) == old(self).next(event@),
    {
        if self.phase == ProducerPhase::Stopped {
            return ProducerAction::Nothing;
        }
        match event {
            ProducerEvent::Quit => {
                self.phase = ProducerPhase::Stopped;
                ProducerAction::Stop(StopReason::Quit)
            },
            ProducerEvent::Start => {
                if self.phase == ProducerPhase::Idle {
                    self.phase = ProducerPhase::Capturing;
                    ProducerAction::Capture
                } else {
                    ProducerAction::Nothing
                }
            },
            ProducerEvent::Captured { payload, now } => {
                if self.phase != ProducerPhase::Capturing {
                    ProducerAction::Nothing
                } else if payload.len() <= isize::MAX as usize - 8 {
                    self.phase = ProducerPhase::Sending;
                    let frame = FramePacket { payload, capture_timestamp: now };
                    ProducerAction::Send(frame.encode())
                } else {
                    self.phase = ProducerPhase::Stopped;
                    ProducerAction::Stop(StopReason::Device(DeviceError::CaptureFailed))
                }
            },
            ProducerEvent::CaptureFailed => {
                if self.phase == ProducerPhase::Capturing {
                    self.phase = ProducerPhase::Stopped;
                    ProducerAction::Stop(StopReason::Device(DeviceError::CaptureFailed))
                } else {
                    ProducerAction::Nothing
                }
            },
            ProducerEvent::Sent { elapsed } => {
                if self.phase == ProducerPhase::Sending {
                    self.phase = ProducerPhase::Sleeping;
                    ProducerAction::Sleep(remaining_interval(elapsed, self.interval))
                } else {
                    ProducerAction::Nothing
                }
            },
            ProducerEvent::SendFailed => {
                if self.phase == ProducerPhase::Sending {
                    self.phase = ProducerPhase::Stopped;
                    ProducerAction::Stop(StopReason::Transport(TransportError::SendFailed))
                } else {
                    ProducerAction::Nothing
                }
            },
            ProducerEvent::Slept => {
                if self.phase == ProducerPhase::Sleeping {
                    self.phase = ProducerPhase::Capturing;
                    ProducerAction::Capture
                } else {
                    ProducerAction::Nothing
                }
            },
        }
    }
}

/// A failed capture stops the producer without ending the call; a failed
/// send stops it and ends the call.
pub proof fn lemma_producer_failures(p: Producer)
    ensures
        p.phase == ProducerPhase::Capturing ==> p.next(ProducerEventView::CaptureFailed).1
            == ProducerActionView::Stop(StopReason::Device(DeviceError::CaptureFailed)),
        !StopReason::Device(DeviceError::CaptureFailed).ends_call(),
        p.phase == ProducerPhase::Sending ==> p.next(ProducerEventView::SendFailed).1
            == ProducerActionView::Stop(StopReason::Transport(TransportError::SendFailed)),
        StopReason::Transport(TransportError::SendFailed).ends_call(),
{
}

/// A stopped producer stays stopped and asks for nothing.
pub proof fn lemma_producer_stopped(p: Producer, event: ProducerEventView)
    requires
        p.phase == ProducerPhase::Stopped,
    ensures
        p.next(event) == (p, ProducerActionView::Nothing),
{
}

/// From the send to the next capture the producer sleeps what the round
/// has left of the interval, so that the round lasts the interval at least.
pub proof fn lemma_producer_round(p: Producer, elapsed: u64)
    requires
        p.phase == ProducerPhase::Sending,
    ensures
        ({
            let (asleep, action) = p.next(ProducerEventView::Sent { elapsed });
            &&& action matches ProducerActionView::Sleep(rest)
            &&& elapsed + rest >= p.interval
            &&& rest == rest_of_interval(elapsed as nat, p.interval as nat)
            &&& asleep.next(ProducerEventView::Slept) == (
                Producer { phase: ProducerPhase::Capturing, ..p },
                ProducerActionView::Capture,
            )
        }),
{
}

/// Where the consumer stands in its round.
#[derive(Clone, Copy, Debug, PartialEq, Eq, Structural)]
pub enum ConsumerPhase {
    Idle,
    Waiting,
    Drawing,
    Sleeping,
    Stopped,
}

/// What happened to the consumer.
#[derive(Debug, PartialEq, Eq)]
pub enum ConsumerEvent {
    /// The loop is to begin.
    Start,
    /// A message was taken from the queue, at this wall-clock time, with
    /// the terminal at this size.
    Received { message: Bytes, now: u64, width: u16, height: u16 },
    /// The queue was closed: no message will come any more.
    StreamClosed,
    /// The connection failed while a message was waited for.
    ReceiveFailed,
    /// The picture was drawn, or the screen cleared; the round has taken
    /// this long so far.
    Drawn { elapsed: u64 },
    /// The sleep is over; the whole round took this long.
    Slept { round: u64 },
    /// The user asked to quit.
    Quit,
}

/// A `ConsumerEvent` as plain values.
pub enum ConsumerEventView {
    Start,
    Received { message: Seq<u8>, now: u64, width: u16, height: u16 },
    StreamClosed,
    ReceiveFailed,
    Drawn { elapsed: u64 },
    Slept { round: u64 },
    Quit,
}

impl View for ConsumerEvent {
    type V = ConsumerEventView;

    open spec fn view(&self) -> ConsumerEventView {
        match self {
            ConsumerEvent::Start => ConsumerEventView::Start,
            ConsumerEvent::Received { message, now, width, height } => ConsumerEventView::Received {
                message: bytes_contents(*message),
                now: *now,
                width: *width,
                height: *height,
            },
            ConsumerEvent::StreamClosed => ConsumerEventView::StreamClosed,
            ConsumerEvent::ReceiveFailed => ConsumerEventView::ReceiveFailed,
            ConsumerEvent::Drawn { elapsed } => ConsumerEventView::Drawn { elapsed: *elapsed },
            ConsumerEvent::Slept { round } => ConsumerEventView::Slept { round: *round },
            ConsumerEvent::Quit => ConsumerEventView::Quit,
        }
    }
}

/// What the consumer is to do next.
#[derive(Debug, PartialEq, Eq)]
pub enum ConsumerAction {
    Nothing,
    /// Take the next message from the queue, waiting while there is none.
    Dequeue,
    /// Clear the screen and draw nothing this round: the terminal has
    /// changed its size.
    Clear,
    /// Decode the payload, fit it to this many columns and rows and draw
    /// it, with the latency in the status line.
    Draw { payload: Vec<u8>, latency: i128, columns: u16, rows: u16 },
    /// Sleep this long.
    Sleep(u64),
    /// Leave the loop.
    Stop(StopReason),
}

/// A `ConsumerAction` as plain values.
pub enum ConsumerActionView {
    Nothing,
    Dequeue,
    Clear,
    Draw { payload: Seq<u8>, latency: int, columns: u16, rows: u16 },
    Sleep(u64),
    Stop(StopReason),
}

impl View for ConsumerAction {
    type V = ConsumerActionView;

    open spec fn view(&self) -> ConsumerActionView {
        match self {
            ConsumerAction::Nothing => ConsumerActionView::Nothing,
            ConsumerAction::Dequeue => ConsumerActionView::Dequeue,
            ConsumerAction::Clear => ConsumerActionView::Clear,
            ConsumerAction::Draw { payload, latency, columns, rows } => ConsumerActionView::Draw {
                payload: payload@,
                latency: *latency as int,
                columns: *columns,
                rows: *rows,
            },
            ConsumerAction::Sleep(rest) => ConsumerActionView::Sleep(*rest),
            ConsumerAction::Stop(reason) => ConsumerActionView::Stop(*reason),
        }
    }
}

/// A consumer as plain values.
pub struct ConsumerView {
    pub phase: ConsumerPhase,
    /// The target interval of the loop.
    pub interval: u64,
    /// The size of the terminal as last seen.
    pub width: u16,
    pub height: u16,
    /// The times of the latest rounds, for the frame rate.
    pub times: Seq<u64>,
    /// The length of the window that the frame rate is taken over.
    pub window: nat,
}

impl ConsumerView {
    /// The same consumer at another point of its round.
    pub open spec fn at(self, phase: ConsumerPhase) -> ConsumerView {
        ConsumerView { phase, ..self }
    }

    /// What follows a message. Where the terminal has changed its size the
    /// screen is cleared and nothing is drawn. A message too short to be a
    /// frame is passed over. Otherwise the frame is drawn on all rows but
    /// the last.
    pub open spec fn on_message(self, message: Seq<u8>, now: u64, width: u16, height: u16) -> (
        ConsumerView,
        ConsumerActionView,
    ) {
        let seen = ConsumerView { width, height, ..self };
        if width != self.width || height != self.height {
            (seen.at(ConsumerPhase::Drawing), ConsumerActionView::Clear)
        } else {
            match parse_wire(message) {
                None => (seen, ConsumerActionView::Dequeue),
                Some((payload, captured)) => (
                    seen.at(ConsumerPhase::Drawing),
                    ConsumerActionView::Draw {
                        payload,
                        latency: now - captured,
                        columns: width,
                        rows: if height > 0 { (height - 1) as u16 } else { 0 },
                    },
                ),
            }
        }
    }

    /// The consumer after an event, and what it does next.
    pub open spec fn next(self, event: ConsumerEventView) -> (ConsumerView, ConsumerActionView) {
        if self.phase == ConsumerPhase::Stopped {
            (self, ConsumerActionView::Nothing)
        } else {
            match event {
                ConsumerEventView::Quit => (
                    self.at(ConsumerPhase::Stopped),
                    ConsumerActionView::Stop(StopReason::Quit),
                ),
                ConsumerEventView::Start => if self.phase == ConsumerPhase::Idle {
                    (self.at(ConsumerPhase::Waiting), ConsumerActionView::Dequeue)
                } else {
                    (self, ConsumerActionView::Nothing)
                },
                ConsumerEventView::Received { message, now, width, height } => if self.phase
                    == ConsumerPhase::Waiting {
                    self.on_message(message, now, width, height)
                } else {
                    (self, ConsumerActionView::Nothing)
                },
                ConsumerEventView::StreamClosed => if self.phase == ConsumerPhase::Waiting {
                    (
                        self.at(ConsumerPhase::Stopped),
                        ConsumerActionView::Stop(StopReason::EndOfStream),
                    )
                } else {
                    (self, ConsumerActionView::Nothing)
                },
                ConsumerEventView::ReceiveFailed => if self.phase == ConsumerPhase::Waiting {
                    (
                        self.at(ConsumerPhase::Stopped),
                        ConsumerActionView::Stop(
                            StopReason::Transport(TransportError::ReceiveFailed),
                        ),
                    )
                } else {
                    (self, ConsumerActionView::Nothing)
                },
                ConsumerEventView::Drawn { elapsed } => if self.phase == ConsumerPhase::Drawing {
                    (
                        self.at(ConsumerPhase::Sleeping),
                        ConsumerActionView::Sleep(
                            rest_of_interval(elapsed as nat, self.interval as nat) as u64,
                        ),
                    )
                } else {
                    (self, ConsumerActionView::Nothing)
                },
                ConsumerEventView::Slept { round } => if self.phase == ConsumerPhase::Sleeping {
                    (
                        ConsumerView {
                            phase: ConsumerPhase::Waiting,
                            times: trimmed(self.times.push(round), self.window),
                            ..self
                        },
                        ConsumerActionView::Dequeue,
                    )
                } else {
                    (self, ConsumerActionView::Nothing)
                },
            }
        }
    }
}

/// The receiving loop. Each round takes one message, draws its frame and
/// sleeps what is left of the target interval.
pub struct Consumer {
    phase: ConsumerPhase,
    interval: u64,
    writer: FrameWriter,
    fps: FpsWindow,
}

impl View for Consumer {
    type V = ConsumerView;

    closed spec fn view(&self) -> ConsumerView {
        ConsumerView {
            phase: self.phase,
            interval: self.interval,
            width: self.writer.width,
            height: self.writer.height,
            times: self.fps@,
            window: self.fps.window(),
        }
    }
}

impl Consumer {
    /// A consumer that has not begun, for the given target interval, a
    /// frame rate taken over the given window, and a terminal of the given
    /// size.
    pub fn new(interval: u64, window: u64, width: u16, height: u16) -> (consumer: Consumer)
        ensures
            consumer@ == (ConsumerView {
                phase: ConsumerPhase::Idle,
                interval,
                width,
                height,
                times: Seq::empty(),
                window: window as nat,
            }),
    {
        Consumer {
            phase: ConsumerPhase::Idle,
            interval,
            writer: FrameWriter::new(width, height),
            fps: FpsWindow::new(window),
        }
    }

    pub fn phase(&self) -> (phase: ConsumerPhase)
        ensures
            phase == self@.phase,
    {
        self.phase
    }

    /// The frames drawn within the window: the frame rate, for a window of
    /// one second.
    pub fn frames(&self) -> (n: usize)
        ensures
            n == self@.times.len(),
    {
        self.fps.frames()
    }

    /// The size of the terminal as last seen.
    pub fn size(&self) -> (size: (u16, u16))
        ensures
            size == (self@.width, self@.height),
    {
        (self.writer.width, self.writer.height)
    }

    fn received(&mut self, message: Bytes, now: u64, width: u16, height: u16) -> (action:
        ConsumerAction)
        requires
            old(self).phase == ConsumerPhase::Waiting,
        ensures
            (final(self)@, action@) == old(self)@.on_message(
                bytes_contents(message),
                now,
                width,
                height,
            ),
    {
        let (_, _, changed) = self.writer.get_size(width, height);
        if changed {
            self.phase = ConsumerPhase::Drawing;
            return ConsumerAction::Clear;
        }
        match FramePacket::decode(&message) {
            None => ConsumerAction::Dequeue,
            Some(frame) => {
                self.phase = ConsumerPhase::Drawing;
                let elapsed = latency(now, frame.capture_timestamp);
                ConsumerAction::Draw {
                    payload: frame.payload,
                    latency: elapsed,
                    columns: width,
                    rows: self.writer.picture_rows(),
                }
            },
        }
    }

    /// Takes in an event and says what to do next.
    pub fn step(&mut self, event: ConsumerEvent) -> (action: ConsumerAction)
        ensures
            (final(self)@, action@) == old(self)@.next(event@),
    {
        if self.phase == ConsumerPhase::Stopped {
            return ConsumerAction::Nothing;
        }
        match event {
            ConsumerEvent::Quit => {
                self.phase = ConsumerPhase::Stopped;
                ConsumerAction::Stop(StopReason::Quit)
            },
            ConsumerEvent::Start => {
                if self.phase == ConsumerPhase::Idle {
                    self.phase = ConsumerPhase::Waiting;
                    ConsumerAction::Dequeue
                } else {
                    ConsumerAction::Nothing
                }
            },
            ConsumerEvent::Received { message, now, width, height } => {
                if self.phase == ConsumerPhase::Waiting {
                    self.received(message, now, width, height)
                } else {
                    ConsumerAction::Nothing
                }
            },
            ConsumerEvent::StreamClosed => {
                if self.phase == ConsumerPhase::Waiting {
                    self.phase = ConsumerPhase::Stopped;
                    ConsumerAction::Stop(StopReason::EndOfStream)
                } else {
                    ConsumerAction::Nothing
                }
            },
            ConsumerEvent::ReceiveFailed => {
                if self.phase == ConsumerPhase::Waiting {
                    self.phase = ConsumerPhase::Stopped;
                    ConsumerAction::Stop(StopReason::Transport(TransportError::ReceiveFailed))
                } else {
                    ConsumerAction::Nothing
                }
            },
            ConsumerEvent::Drawn { elapsed } => {
                if self.phase == ConsumerPhase::Drawing {
                    self.phase = ConsumerPhase::Sleeping;
                    ConsumerAction::Sleep(remaining_interval(elapsed, self.interval))
                } else {
                    ConsumerAction::Nothing
                }
            },
            ConsumerEvent::Slept { round } => {
                if self.phase == ConsumerPhase::Sleeping {
                    self.phase = ConsumerPhase::Waiting;
                    self.fps.record(round);
                    ConsumerAction::Dequeue
                } else {
                    ConsumerAction::Nothing
                }
            },
        }
    }
}

/// A frame that the producer sends is the frame that the consumer draws:
/// the same payload, with the latency counted from the stamp it was sent
/// with, provided the terminal has kept its size.
pub proof fn lemma_sent_frame_is_drawn(
    consumer: ConsumerView,
    payload: Seq<u8>,
    captured: u64,
    now: u64,
)
    requires
        consumer.phase == ConsumerPhase::Waiting,
    ensures
        consumer.next(
            ConsumerEventView::Received {
                message: wire_layout(payload, captured),
                now,
                width: consumer.width,
                height: consumer.height,
            },
        ).1 == (ConsumerActionView::Draw {
            payload,
            latency: now - captured,
            columns: consumer.width,
            rows: if consumer.height > 0 { (consumer.height - 1) as u16 } else { 0 },
        }),
{
    crate::wire::lemma_wire_round_trip(payload, captured);
}

/// A change of the terminal's size clears the screen and draws nothing,
/// whatever the message holds; the new size is the one remembered.
pub proof fn lemma_resize_clears(
    consumer: ConsumerView,
    message: Seq<u8>,
    now: u64,
    width: u16,
    height: u16,
)
    requires
        consumer.phase == ConsumerPhase::Waiting,
        width != consumer.width || height != consumer.height,
    ensures
        consumer.next(ConsumerEventView::Received { message, now, width, height }) == (
            ConsumerView { phase: ConsumerPhase::Drawing, width, height, ..consumer },
            ConsumerActionView::Clear,
        ),
{
}

/// The end of the stream stops the consumer and ends the call, and so
/// does a failure of the connection.
pub proof fn lemma_stream_end_stops(consumer: ConsumerView)
    requires
        consumer.phase == ConsumerPhase::Waiting,
    ensures
        consumer.next(ConsumerEventView::StreamClosed) == (
            consumer.at(ConsumerPhase::Stopped),
            ConsumerActionView::Stop(StopReason::EndOfStream),
        ),
        StopReason::EndOfStream.ends_call(),
        consumer.next(ConsumerEventView::ReceiveFailed) == (
            consumer.at(ConsumerPhase::Stopped),
            ConsumerActionView::Stop(StopReason::Transport(TransportError::ReceiveFailed)),
        ),
        StopReason::Transport(TransportError::ReceiveFailed).ends_call(),
{
}

/// A stopped consumer stays stopped and asks for nothing.
pub proof fn lemma_consumer_stopped(consumer: ConsumerView, event: ConsumerEventView)
    requires
        consumer.phase == ConsumerPhase::Stopped,
    ensures
        consumer.next(event) == (consumer, ConsumerActionView::Nothing),
{
}

/// From the draw to the next message the consumer sleeps what the round
/// has left of the interval, and counts the round for the frame rate.
pub proof fn lemma_consumer_round(consumer: ConsumerView, elapsed: u64, round: u64)
    requires
        consumer.phase == ConsumerPhase::Drawing,
    ensures
        ({
            let (asleep, action) = consumer.next(ConsumerEventView::Drawn { elapsed });
            &&& action matches ConsumerActionView::Sleep(rest)
            &&& elapsed + rest >= consumer.interval
            &&& rest == rest_of_interval(elapsed as nat, consumer.interval as nat)
            &&& asleep.next(ConsumerEventView::Slept { round }) == (
                ConsumerView {
                    phase: ConsumerPhase::Waiting,
                    times: trimmed(consumer.times.push(round), consumer.window),
                    ..consumer
                },
                ConsumerActionView::Dequeue,
            )
        }),
{
}

/// The user's wish to quit stops either loop at once, wherever it stands,
/// and ends the call.
pub proof fn lemma_quit_stops_both(producer: Producer, consumer: ConsumerView)
    requires
        producer.phase != ProducerPhase::Stopped,
        consumer.phase != ConsumerPhase::Stopped,
    ensures
        producer.next(ProducerEventView::Quit) == (
            Producer { phase: ProducerPhase::Stopped, ..producer },
            ProducerActionView::Stop(StopReason::Quit),
        ),
        consumer.next(ConsumerEventView::Quit) == (
            consumer.at(ConsumerPhase::Stopped),
            ConsumerActionView::Stop(StopReason::Quit),
        ),
        StopReason::Quit.ends_call(),
{
}

} // verus!

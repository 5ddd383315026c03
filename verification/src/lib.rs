//! The verified core of a terminal client for calls between two people.
//!
//! Two clients find each other through a shared directory of presence
//! records, negotiate a direct connection, and then stream frames to each
//! other over a data channel. This crate holds the decisions of such a
//! client, each with a contract that Verus proves:
//!
//! * [`user`] and [`directory`]: the presence record, and what is read from
//!   a fetch of the directory;
//! * [`connection`], [`negotiator`] and [`wait`]: the state of one peer
//!   connection, how each event of the network changes it, and the bounded
//!   waits of a negotiation;
//! * [`handshake`]: the call from coming online to hanging up, as a machine
//!   that is told events and answers with actions;
//! * [`wire`], [`queue`], [`stream`], [`pacing`] and [`fps`]: the frame on
//!   the wire, the one-place queue between network and consumer, and the
//!   two media loops with their rate limit and their frame counter;
//! * [`display`], [`contacts`] and [`names`]: what is drawn where, the list
//!   of contacts, and which names are accepted;
//! * [`buffer`]: what is assumed of the byte buffers of the `bytes` crate.
//!
//! Nothing here touches a socket, a camera, a clock or a terminal: whoever
//! uses the crate does that and hands plain values in.
//!
//! Two things are taken on trust and not proved: the contracts of the
//! `bytes` buffers in [`buffer`], and that `char::is_numeric` depends on
//! the character alone, in [`names`].

pub mod buffer;
pub mod connection;
pub mod contacts;
pub mod directory;
pub mod display;
pub mod error;
pub mod fps;
pub mod handshake;
pub mod names;
pub mod negotiator;
pub mod pacing;
pub mod queue;
pub mod stream;
pub mod text;
pub mod user;
pub mod wait;
pub mod wire;

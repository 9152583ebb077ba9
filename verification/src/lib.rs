//! Turn a push-style asynchronous producer into a pull-style stream.
//!
//! A producer is an asynchronous routine that emits values one at a time by
//! calling `send` on a [`handshake::Sender`] and awaiting the returned
//! two-phase [`handshake::SenderFuture`]. The [`stream::AsyncStream`] driver
//! interprets each resumption of the producer and surfaces items, a single
//! terminal error, or end-of-sequence to a consumer that pulls repeatedly.
//!
//! The driver and the handshake are verified here as a state machine over
//! plain values; the asynchronous glue (pinning, task contexts, the stream
//! trait of an executor) lives outside the library and routes every decision
//! through [`stream::AsyncStream::resolve`].

pub mod handshake;
pub mod stream;

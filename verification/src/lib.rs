//! A multi-endpoint publish/subscribe relay pool, with proofs.
//!
//! The pool keeps one worker for each configured relay, fans every command
//! out to the workers that are still live, and merges what the workers
//! receive into one stream in which every message identity occurs once.
//!
//! - [`pool`] is the supervisor: the pool's state, what each action makes of
//!   it, and what is reported on the way.
//! - [`router`] sends one command to the queues of the live workers.
//! - [`aggregator`] merges the arrivals and drops the duplicates.
//! - [`worker`] is the life of one relay connection as a state machine, and
//!   what a worker does about each command.
//! - [`wire`] says what the frames on the wire mean.
//! - [`channel`] holds the queues between the pool and its workers.
//! - [`event`], [`config`] and [`notify`] hold the values that pass through.
//! - [`toast`] makes the notices that the application shows.
//! - [`nominatim`] and [`text`] serve the application's place search and its
//!   key store.
//!
//! The library decides; it neither connects nor waits. The application opens
//! the sockets, moves frames between the sockets and the pool, and shows what
//! the pool reports.

pub mod aggregator;
pub mod channel;
pub mod config;
pub mod event;
pub mod nominatim;
pub mod notify;
pub mod pool;
pub mod router;
pub mod text;
pub mod toast;
pub mod wire;
pub mod worker;

//! A topic-based publish/subscribe message broker and its client sessions,
//! with the delivery state machine stated and proved in Verus.
//!
//! Publishers send payloads to topics. Subscribers register on a topic and
//! pull its posts one at a time, acknowledging each before the next. The
//! broker numbers the posts of a topic, keeps a cursor per subscriber, refuses
//! a publish it has accepted before, and drops a post once every subscriber of
//! its topic has acknowledged it.
//!
//! - [`model`] is the broker as a mathematical state machine, and
//!   [`guarantees`] is what is proved of it: ordering, redelivery, acknowledge
//!   gating, duplicate suppression, the retention floor, the isolation of late
//!   subscribers.
//! - [`broker`] is the executable broker, specified against the model, with
//!   its handlers for the messages of [`messages`] and its snapshots.
//! - [`context`] and [`session`] are the client's side: what a publisher or a
//!   subscriber keeps between calls, and what it does with a reply.
//! - [`keyed`] and [`ident`] are the containers and the identifiers that the
//!   rest is built on.
//!
//! Sending and receiving, and reading and writing files, are left to the
//! caller: the library takes and returns values.

pub mod broker;
pub mod context;
pub mod guarantees;
pub mod ident;
pub mod keyed;
pub mod messages;
pub mod model;
pub mod session;

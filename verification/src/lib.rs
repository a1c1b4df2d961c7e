//! A single-process message-queue engine.
//!
//! Producers create messages in named queues; consumers peek at them, take
//! them, lease them for a while, acknowledge them or release them.  The
//! engine keeps everything in memory and does its housekeeping as it goes:
//! a lease lapses by itself, and expired messages are dropped whenever a
//! message is created.
//!
//! The store is described twice.  `model` says what it is as a mathematical
//! value and what each operation makes of it; `memory` is the store that
//! runs, proved to do exactly that.  `laws` states what follows for every
//! store and every request.
//!
//! * `message`, `options`, `params`, `errors`: the values that go in and out.
//! * `model`, `memory`: the store.
//! * `ports`, `service`, `shared`: the store behind a service, for one
//!   caller or for many.
//! * `inbound`: how a decoded request is answered.
//! * `text`, `time`, `ident`: text, clock readings and identifiers.
//!
//! Time is a number here.  Every operation that depends on the time comes
//! in a form that takes the clock's reading as an argument, and in a form
//! that reads the clock itself.

pub mod errors;
pub mod ident;
pub mod inbound;
pub mod laws;
pub mod memory;
pub mod message;
pub mod model;
pub mod options;
pub mod params;
pub mod ports;
pub mod service;
pub mod shared;
pub mod text;
pub mod time;

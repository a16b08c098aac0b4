//! Client-side contract of a capability-based runtime.
//!
//! Every entity of the network (a thread, an interface, a piece of variable
//! state) is named by a [`Uid`] and a [`path::Path`], held through a handle,
//! and talked to through a mailbox. The environment (scheduler, transport,
//! permission authority) is not part of this crate: a function that depends
//! on it takes what the environment reported as an argument and decides what
//! follows from it.
use vstd::prelude::*;

pub mod path;
pub mod wait;
pub mod rsc;
pub mod harc;
pub mod thread;
pub mod msg;

pub use path::Uid;

//! A presence relay: each connection registers an identity and reports the file it has in
//! focus; a shared registry records who is connected, and every change is turned into a
//! message for all sessions. The transport, the broadcast channel and the wire encoding
//! live outside this library; here are the registry, the messages and the per-connection
//! state machine, with the laws that tie them together.
use vstd::prelude::*;

pub mod user;
pub mod registry;
pub mod message;
pub mod session;
pub mod system;

verus! {

} // verus!

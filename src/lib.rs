//! Single-instance coordination and the local control channel of a desktop
//! shell: the decisions of the instance detector, the control listener, the
//! liveness client and the startup sequence, and how the window dispatches the
//! messages that those background channels hand it.
use vstd::prelude::*;

pub mod detector;
pub mod geometry;
pub mod listener;
pub mod liveness;
pub mod message;
pub mod startup;

verus! {

/// The application's identity, from which the rendezvous address is named.
pub const APP_NAME: &'static str = "pipeweaver-app";

} // verus!

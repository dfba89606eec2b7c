//! The event bridge of a browser-hosted pet simulation: the mailboxes
//! between the host page and the tick loop, the table of requests in flight,
//! the user-gesture lock on sound, the failure and backoff policy, the
//! simulated Bluetooth devices, and the wire form of the messages.

use vstd::prelude::*;

pub mod audio;
pub mod backoff;
pub mod bluetooth;
pub mod bridge;
pub mod camera;
pub mod codec;
pub mod correlation;
pub mod device;
pub mod events;
pub mod gate;
pub mod keyed;
pub mod queue;
pub mod text;

verus! {

} // verus!

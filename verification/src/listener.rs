//! The contract a listener endpoint task implements.
//!
//! A listener task is a loop that receives commands from a channel,
//! dispatches each to its handler, and responds. The channel plumbing and
//! the task itself do asynchronous I/O that stays outside this crate; what
//! stands here is the handler contract each listener type supplies.

use vstd::prelude::*;

verus! {

/// Implement this to provide a type of listener task.
///
/// Shutdown is terminal: after `handle_shutdown` the surrounding task
/// invokes no other handler.
pub trait ListenerHandler {
    /// Payload of listener-specific custom commands.
    type Custom;

    /// What a successfully established outgoing connection yields.
    type Connection;

    /// Why a listener operation could not be carried out.
    type Failure;

    /// Handles a custom command. See the documentation for the specific
    /// listener type being messaged.
    fn handle_custom(&mut self, message: Self::Custom) -> Result<Self::Custom, Self::Failure>;

    /// Shuts down the bound endpoint. Expect the next command to find a
    /// disconnected channel.
    fn handle_shutdown(&mut self) -> Result<(), Self::Failure>;

    /// The post-binding url this listener endpoint is attached to.
    fn handle_get_bound_url(&mut self) -> Result<String, Self::Failure>;

    /// Attempts to establish an outgoing connection to a remote peer.
    fn handle_connect(&mut self, url: String) -> Result<Self::Connection, Self::Failure>;
}

} // verus!

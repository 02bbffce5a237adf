//! What a node implementation provides to the runtime.
use crate::error::ActorError;
use crate::message::{Request, Response};
use crate::runtime::Event;
use vstd::prelude::*;

verus! {

/// `std::sync::mpsc::Sender`: the producer side of the event queue.
#[verifier::external_type_specification]
#[verifier::external_body]
#[verifier::reject_recursive_types(T)]
pub struct ExSender<T>(std::sync::mpsc::Sender<T>);

/// A node implementation. The runtime calls it from one place only, one call
/// at a time.
pub trait Actor {
    /// Starts the node under its own name, with the names of all nodes of the
    /// cluster, itself included. Called before any other method but
    /// `inject_sender`.
    fn init(&mut self, node_id: &str, node_ids: Vec<String>) -> Result<(), ActorError>;

    /// Handles a request that is not the handshake, and returns the
    /// responses to send, in the order in which they are to be written.
    fn receive(&mut self, request: &Request) -> Result<Vec<Response>, ActorError>;

    /// Returns messages to send unasked; each names its own source and
    /// destination.
    fn gossip(&mut self) -> Result<Vec<Response>, ActorError>;

    /// Hands over the handle by which the actor, or a timer that it owns, can
    /// put `Trigger` events on the runtime's queue.
    fn inject_sender(&mut self, sender: std::sync::mpsc::Sender<Event>);
}

} // verus!

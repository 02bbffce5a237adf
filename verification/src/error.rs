//! The two ways in which a call can fail: an actor's own error, and the
//! runtime's reasons for producing no output.
use vstd::prelude::*;

verus! {

/// What an actor reports when it cannot serve a call.
#[derive(Debug, Clone)]
pub struct ActorError {
    /// A description for the operator.
    pub message: String,
}

/// Why the runtime produced no output line.
#[derive(Debug, Clone)]
pub enum Failure {
    /// The line is not the text of a JSON object.
    Syntax,
    /// `src` or `dest` is not a string, or `body` is not an object.
    Envelope,
    /// In the body, `type` is not a string, or `msg_id` or `in_reply_to` is
    /// there and is not an unsigned 64-bit integer.
    Header,
    /// In an init request, `node_id` is not a string or `node_ids` is not an
    /// array of strings.
    InitFields,
    /// The actor returned this error.
    Actor(ActorError),
    /// A response could not be written as JSON.
    Render,
}

impl Failure {
    /// Whether the input is dropped and the loop goes on; the other failures
    /// end the process.
    pub open spec fn recoverable_spec(self) -> bool {
        self is Syntax || self is Envelope || self is Header || self is InitFields
    }

    /// Whether the input is dropped and the loop goes on.
    pub fn recoverable(&self) -> (r: bool)
        ensures
            r == self.recoverable_spec(),
    {
        match self {
            Failure::Syntax | Failure::Envelope | Failure::Header | Failure::InitFields => true,
            Failure::Actor(_) | Failure::Render => false,
        }
    }
}

} // verus!

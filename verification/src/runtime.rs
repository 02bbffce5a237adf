//! The actor runtime: what is done with one input line and with one event.
//!
//! The runtime neither reads nor writes. A caller reads a line and has it
//! decoded, hands each event to `handle_event` in the order of arrival, and
//! writes the lines that come back, one by one, before the next event.
use crate::actor::Actor;
use crate::error::{ActorError, Failure};
use crate::json::{
    as_items, as_text, entries, items_at, lookup, new_object, one_line, parse_object,
    parsed_object, text_at, to_text, value_text, wire_text,
};
use crate::message::{
    decode_failure, envelope, header_entries, next_id, reply_type, to_envelope, Request, Response,
};
use serde_json::Value;
use vstd::prelude::*;

verus! {

/// A runtime that runs one actor: any one type of actor, or, where none is
/// named, an actor behind `dyn Actor`.
pub struct Runtime<A: Actor + ?Sized = dyn Actor> {
    node: Box<A>,
    ready: bool,
}

/// What the runtime reacts to.
pub enum Event {
    /// A request that was read from the input.
    Request(Request),
    /// A call for gossip.
    Trigger,
}

/// Whether every item is a JSON string.
pub open spec fn all_text(items: Seq<Value>) -> bool {
    forall|i: int| 0 <= i < items.len() ==> (#[trigger] value_text(items[i])) is Some
}

/// The texts of items that are JSON strings, in their order.
pub open spec fn texts(items: Seq<Value>) -> Seq<Seq<char>> {
    Seq::new(items.len(), |i: int| value_text(items[i]).unwrap())
}

/// What each string holds.
pub open spec fn views(strings: Seq<String>) -> Seq<Seq<char>> {
    Seq::new(strings.len(), |i: int| strings[i]@)
}

/// The node's name and the names of all nodes, as the body of a handshake
/// gives them: `node_id` is a string and `node_ids` an array of strings, or
/// there is no answer.
pub open spec fn init_fields(body: Map<Seq<char>, Value>) -> Option<(Seq<char>, Seq<Seq<char>>)> {
    match (text_at(body, "node_id"@), items_at(body, "node_ids"@)) {
        (Some(id), Some(items)) => if all_text(items) {
            Some((id, texts(items)))
        } else {
            None
        },
        _ => None,
    }
}

/// Whether `r` is what writing an object with these members gives: its text,
/// which is one line, or `Render` where it has none.
pub open spec fn renders(members: Map<Seq<char>, Value>, r: Result<String, Failure>) -> bool {
    match r {
        Ok(line) => wire_text(members) == Some(line@) && one_line(line@),
        Err(e) => wire_text(members) is None && e == Failure::Render,
    }
}

/// Whether `r` is what writing these responses gives: one line for each, in
/// their order, or `Render` where one of them has no text.
pub open spec fn renders_all(responses: Seq<Response>, r: Result<Vec<String>, Failure>) -> bool {
    match r {
        Ok(lines) => {
            &&& lines@.len() == responses.len()
            &&& forall|i: int|
                0 <= i < responses.len() ==> wire_text(#[trigger] responses[i].wire()) == Some(
                    lines@[i]@,
                ) && one_line(lines@[i]@)
        },
        Err(e) => {
            &&& e == Failure::Render
            &&& exists|i: int|
                0 <= i < responses.len() && wire_text(#[trigger] responses[i].wire()) is None
        },
    }
}

/// The members of the envelope that answers a handshake: from the request's
/// destination to its source, of the type `init_ok` (the request's type with
/// `_ok` behind it), in reply to the request's number, numbered one higher,
/// with no further members.
pub open spec fn init_reply(request: Request) -> Map<Seq<char>, Value> {
    envelope(
        request.destination@,
        request.source@,
        header_entries(
            reply_type(request.message_type@),
            match request.message_id {
                Some(id) => Some(next_id(id)),
                None => None,
            },
            request.message_id,
        ),
    )
}

/// What a handshake may end in. Without proper fields it is `InitFields`.
/// With them it is the one line of the reply, unless the actor refused or the
/// reply has no text. The runtime is ready after a handshake that gave the
/// line, and stays as it was after any other.
pub open spec fn handshake_outcome(
    request: Request,
    was_ready: bool,
    now_ready: bool,
    r: Result<Vec<String>, Failure>,
) -> bool {
    &&& now_ready == (was_ready || r is Ok)
    &&& match r {
        Ok(lines) => {
            &&& init_fields(entries(request.body)) is Some
            &&& lines@.len() == 1
            &&& wire_text(init_reply(request)) == Some(lines@[0]@)
            &&& one_line(lines@[0]@)
        },
        Err(Failure::InitFields) => init_fields(entries(request.body)) is None,
        Err(Failure::Actor(_)) => init_fields(entries(request.body)) is Some,
        Err(Failure::Render) => {
            &&& init_fields(entries(request.body)) is Some
            &&& wire_text(init_reply(request)) is None
        },
        Err(_) => false,
    }
}

/// What handing a request or a trigger on to the actor may end in: the lines
/// of some responses, in their order, or a failure that is the actor's or
/// `Render`. The runtime stays as ready as it was.
pub open spec fn relay_outcome(was_ready: bool, now_ready: bool, r: Result<Vec<String>, Failure>)
    -> bool {
    &&& now_ready == was_ready
    &&& match r {
        Ok(lines) => exists|responses: Seq<Response>| #[trigger]
            renders_all(responses, Ok::<Vec<String>, Failure>(lines)),
        Err(Failure::Actor(_)) => true,
        Err(Failure::Render) => true,
        Err(_) => false,
    }
}

/// What a request may end in: a handshake where its type is `init`, else what
/// the actor makes of it.
pub open spec fn request_outcome(
    request: Request,
    was_ready: bool,
    now_ready: bool,
    r: Result<Vec<String>, Failure>,
) -> bool {
    if request.is_init() {
        handshake_outcome(request, was_ready, now_ready, r)
    } else {
        relay_outcome(was_ready, now_ready, r)
    }
}

/// Once the runtime is ready it stays so, whatever an event ends in.
pub proof fn lemma_ready_is_kept(
    request: Request,
    was_ready: bool,
    now_ready: bool,
    r: Result<Vec<String>, Failure>,
)
    requires
        was_ready,
        request_outcome(request, was_ready, now_ready, r) || relay_outcome(was_ready, now_ready, r),
    ensures
        now_ready,
{
}

/// A handshake fails with `InitFields` exactly where the body lacks proper
/// fields, and gives a line only where it has them; a request of another
/// type never fails so.
pub proof fn lemma_init_fields_decide(
    request: Request,
    was_ready: bool,
    now_ready: bool,
    r: Result<Vec<String>, Failure>,
)
    requires
        request_outcome(request, was_ready, now_ready, r),
    ensures
        request.is_init() ==> (init_fields(entries(request.body)) is None <==> r is Err
            && r->Err_0 is InitFields),
        !request.is_init() ==> !(r is Err && r->Err_0 is InitFields),
        !(r is Err && (r->Err_0 is Syntax || r->Err_0 is Envelope || r->Err_0 is Header)),
{
}

/// Reads one input line as a request.
///
/// A line that is not the text of a JSON object fails with `Syntax`; an
/// object that holds no request fails as `Request::try_from_json` says.
pub fn decode_line(line: &str) -> (r: Result<Request, Failure>)
    ensures
        match parsed_object(line@) {
            None => r is Err && r->Err_0 == Failure::Syntax,
            Some(members) => match r {
                Ok(request) => decode_failure(members) is None && request.is_decoded_from(members),
                Err(e) => decode_failure(members) == Some(e),
            },
        },
{
    match parse_object(line) {
        Ok(mut object) => Request::try_from_json(&mut object),
        Err(_) => Err(Failure::Syntax),
    }
}

/// Reads the node's name and the names of all nodes from the body of a
/// handshake.
pub fn read_init_fields(body: &serde_json::Map<String, Value>) -> (r: Result<
    (String, Vec<String>),
    Failure,
>)
    ensures
        match r {
            Ok((node_id, node_ids)) => init_fields(entries(*body)) == Some(
                (node_id@, views(node_ids@)),
            ),
            Err(e) => init_fields(entries(*body)) is None && e == Failure::InitFields,
        },
{
    let node_id = match lookup(body, "node_id") {
        Some(v) => match as_text(v) {
            Some(s) => s.to_owned(),
            None => { return Err(Failure::InitFields); },
        },
        None => { return Err(Failure::InitFields); },
    };
    let items = match lookup(body, "node_ids") {
        Some(v) => match as_items(v) {
            Some(items) => items,
            None => { return Err(Failure::InitFields); },
        },
        None => { return Err(Failure::InitFields); },
    };
    let mut node_ids: Vec<String> = Vec::new();
    let mut i: usize = 0;
    while i < items.len()
        invariant
            i <= items.len(),
            node_ids@.len() == i,
            forall|j: int| 0 <= j < i ==> value_text(#[trigger] items@[j]) == Some(node_ids@[j]@),
            items_at(entries(*body), "node_ids"@) == Some(items@),
        decreases items.len() - i,
    {
        match as_text(&items[i]) {
            Some(s) => node_ids.push(s.to_owned()),
            None => {
                assert(value_text(items@[i as int]) is None);
                return Err(Failure::InitFields);
            },
        }
        i += 1;
    }
    assert(views(node_ids@) =~= texts(items@));
    Ok((node_id, node_ids))
}

impl<A: Actor + ?Sized> Runtime<A> {
    /// Whether the handshake has been done.
    pub closed spec fn is_ready(self) -> bool {
        self.ready
    }

    /// The actor that the runtime owns and calls.
    pub closed spec fn actor(self) -> Box<A> {
        self.node
    }

    /// A runtime that owns `node`, before the handshake.
    pub fn new(node: Box<A>) -> (r: Runtime<A>)
        ensures
            r.actor() == node,
            !r.is_ready(),
    {
        Runtime { node, ready: false }
    }

    /// Whether the handshake has been done.
    pub fn ready(&self) -> (r: bool)
        ensures
            r == self.is_ready(),
    {
        self.ready
    }

    /// Gives the actor the producer side of the event queue.
    pub fn attach_event_sink(&mut self, sender: std::sync::mpsc::Sender<Event>)
        ensures
            final(self).is_ready() == old(self).is_ready(),
    {
        self.node.inject_sender(sender);
    }

    /// Handles one event: a trigger calls for gossip, a request is handled as
    /// `handle_req` says. The lines to write come back in their order.
    pub fn handle_event(&mut self, event: Event) -> (r: Result<Vec<String>, Failure>)
        ensures
            match event {
                Event::Request(request) => request_outcome(
                    request,
                    old(self).is_ready(),
                    final(self).is_ready(),
                    r,
                ),
                Event::Trigger => relay_outcome(old(self).is_ready(), final(self).is_ready(), r),
            },
    {
        match event {
            Event::Request(request) => self.handle_req(request),
            Event::Trigger => self.handle_trigger(),
        }
    }

    /// Handles one request: the handshake where its type is `init`, else the
    /// actor receives it and its responses are rendered.
    pub fn handle_req(&mut self, request: Request) -> (r: Result<Vec<String>, Failure>)
        ensures
            request_outcome(request, old(self).is_ready(), final(self).is_ready(), r),
    {
        if request.message_type == "init".to_owned() {
            self.handle_init(&request)
        } else {
            let outcome = self.node.receive(&request);
            let ghost given = outcome;
            let r = self.conclude(outcome);
            proof {
                if given is Ok {
                    assert(renders_all(given->Ok_0@, r));
                }
            }
            r
        }
    }

    /// Asks the actor for gossip and renders what it returns.
    pub fn handle_trigger(&mut self) -> (r: Result<Vec<String>, Failure>)
        ensures
            relay_outcome(old(self).is_ready(), final(self).is_ready(), r),
    {
        let outcome = self.node.gossip();
        let ghost given = outcome;
        let r = self.conclude(outcome);
        proof {
            if given is Ok {
                assert(renders_all(given->Ok_0@, r));
            }
        }
        r
    }

    /// Does the handshake: reads the fields, starts the actor and renders the
    /// reply. Without proper fields the actor is not called.
    pub fn handle_init(&mut self, message: &Request) -> (r: Result<Vec<String>, Failure>)
        ensures
            handshake_outcome(*message, old(self).is_ready(), final(self).is_ready(), r),
    {
        let (node_id, node_ids) = match read_init_fields(&message.body) {
            Ok(fields) => fields,
            Err(e) => { return Err(e); },
        };
        let outcome = self.node.init(node_id.as_str(), node_ids);
        let r = self.conclude_init(message, outcome);
        if r.is_ok() {
            self.ready = true;
        }
        r
    }

    /// What a handshake gives once the actor has answered: the actor's error,
    /// or the one line of the reply.
    pub fn conclude_init(&self, message: &Request, outcome: Result<(), ActorError>) -> (r: Result<
        Vec<String>,
        Failure,
    >)
        ensures
            match outcome {
                Err(e) => r is Err && r->Err_0 == Failure::Actor(e),
                Ok(_) => match r {
                    Ok(lines) => lines@.len() == 1 && wire_text(init_reply(*message)) == Some(
                        lines@[0]@,
                    ) && one_line(lines@[0]@),
                    Err(e) => e == Failure::Render && wire_text(init_reply(*message)) is None,
                },
            },
    {
        match outcome {
            Err(e) => Err(Failure::Actor(e)),
            Ok(_) => match self.create_init_response(message) {
                Ok(line) => {
                    let mut lines: Vec<String> = Vec::new();
                    lines.push(line);
                    Ok(lines)
                },
                Err(e) => Err(e),
            },
        }
    }

    /// What a call of the actor gives once it has answered: the actor's
    /// error, or the lines of its responses.
    pub fn conclude(&self, outcome: Result<Vec<Response>, ActorError>) -> (r: Result<
        Vec<String>,
        Failure,
    >)
        ensures
            match outcome {
                Err(e) => r is Err && r->Err_0 == Failure::Actor(e),
                Ok(responses) => renders_all(responses@, r),
            },
    {
        match outcome {
            Err(e) => Err(Failure::Actor(e)),
            Ok(responses) => self.create_responses(&responses),
        }
    }

    /// Renders each response as a line, in the order given.
    pub fn create_responses(&self, responses: &Vec<Response>) -> (r: Result<Vec<String>, Failure>)
        ensures
            renders_all(responses@, r),
    {
        let mut lines: Vec<String> = Vec::new();
        let mut i: usize = 0;
        while i < responses.len()
            invariant
                i <= responses.len(),
                lines@.len() == i,
                forall|j: int|
                    0 <= j < i ==> wire_text(#[trigger] responses@[j].wire()) == Some(lines@[j]@)
                        && one_line(lines@[j]@),
            decreases responses.len() - i,
        {
            match self.create_response(&responses[i]) {
                Ok(line) => lines.push(line),
                Err(e) => {
                    assert(wire_text(responses@[i as int].wire()) is None);
                    return Err(e);
                },
            }
            i += 1;
        }
        Ok(lines)
    }

    /// Renders a response as one line: the envelope with `src`, `dest` and
    /// the wire body.
    pub fn create_response(&self, response: &Response) -> (r: Result<String, Failure>)
        ensures
            renders(response.wire(), r),
    {
        let body = response.to_wire_body();
        self.send_response(response.source.as_str(), response.destination.as_str(), body)
    }

    /// Renders the reply to a handshake.
    pub fn create_init_response(&self, request: &Request) -> (r: Result<String, Failure>)
        ensures
            renders(init_reply(*request), r),
    {
        let reply = Response::new_from_request(request, new_object());
        assert(reply.wire_body() =~= header_entries(
            reply.message_type@,
            reply.message_id,
            reply.in_reply_to,
        ));
        self.create_response(&reply)
    }

    /// Wraps a wire body in its envelope and writes it as one line.
    pub fn send_response(
        &self,
        source: &str,
        destination: &str,
        body: serde_json::Map<String, Value>,
    ) -> (r: Result<String, Failure>)
        ensures
            renders(envelope(source@, destination@, entries(body)), r),
    {
        let reply = to_envelope(source, destination, body);
        match to_text(&reply) {
            Ok(line) => Ok(line),
            Err(_) => Err(Failure::Render),
        }
    }
}

} // verus!

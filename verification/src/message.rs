//! Requests and responses, and how they are read from and written to JSON
//! objects.
use crate::error::Failure;
use crate::json::{
    as_number, as_object, as_text, entries, from_number, from_object, from_text, member, merge,
    new_object, no_entries, number_at, number_value, object_at, object_value, put, take, text_at,
    text_value, value_number,
};
use serde_json::Value;
use vstd::prelude::*;
use vstd::string::StringExecFns;

verus! {

/// An inbound message.
#[derive(Debug)]
pub struct Request {
    /// The node that sent it.
    pub source: String,
    /// The node that it is for.
    pub destination: String,
    /// The tag that selects what is done with it.
    pub message_type: String,
    /// The sender's number for it.
    pub message_id: Option<u64>,
    /// The number of the message that it answers.
    pub in_reply_to: Option<u64>,
    /// The members of the wire body other than `type`, `msg_id` and
    /// `in_reply_to`.
    pub body: serde_json::Map<String, Value>,
}

/// An outbound message.
#[derive(Debug)]
pub struct Response {
    /// The node that sends it.
    pub source: String,
    /// The node that it is for.
    pub destination: String,
    /// The tag that says what it is.
    pub message_type: String,
    /// This node's number for it.
    pub message_id: Option<u64>,
    /// The number of the message that it answers.
    pub in_reply_to: Option<u64>,
    /// The members that the wire body has besides `type`, `msg_id` and
    /// `in_reply_to`.
    pub body: serde_json::Map<String, Value>,
}

/// The members of `members` other than the three header fields.
pub open spec fn without_header(members: Map<Seq<char>, Value>) -> Map<Seq<char>, Value> {
    members.remove("type"@).remove("msg_id"@).remove("in_reply_to"@)
}

/// What is left of an object once a request was sought in it.
pub open spec fn without_envelope(members: Map<Seq<char>, Value>) -> Map<Seq<char>, Value> {
    members.remove("src"@).remove("dest"@).remove("body"@)
}

/// Whether `key` is absent from `members` or holds an unsigned integer.
pub open spec fn number_or_absent(members: Map<Seq<char>, Value>, key: Seq<char>) -> bool {
    members.dom().contains(key) ==> value_number(members[key]) is Some
}

/// Whether an object has the three fields of an envelope.
pub open spec fn has_envelope(members: Map<Seq<char>, Value>) -> bool {
    &&& text_at(members, "src"@) is Some
    &&& text_at(members, "dest"@) is Some
    &&& object_at(members, "body"@) is Some
}

/// Whether a wire body has a well-formed header.
pub open spec fn has_header(body: Map<Seq<char>, Value>) -> bool {
    &&& text_at(body, "type"@) is Some
    &&& number_or_absent(body, "msg_id"@)
    &&& number_or_absent(body, "in_reply_to"@)
}

/// Why an object holds no request, or `None` where it holds one.
pub open spec fn decode_failure(members: Map<Seq<char>, Value>) -> Option<Failure> {
    if !has_envelope(members) {
        Some(Failure::Envelope)
    } else if !has_header(object_at(members, "body"@).unwrap()) {
        Some(Failure::Header)
    } else {
        None
    }
}

/// The text that the reply to a request of type `tag` has as its type.
pub open spec fn reply_type(tag: Seq<char>) -> Seq<char> {
    tag + "_ok"@
}

/// The number that follows `id`; after the largest comes 0.
pub open spec fn next_id(id: u64) -> u64 {
    if id == u64::MAX {
        0
    } else {
        (id + 1) as u64
    }
}

/// The header fields of a response, as members of a wire body.
pub open spec fn header_entries(
    message_type: Seq<char>,
    message_id: Option<u64>,
    in_reply_to: Option<u64>,
) -> Map<Seq<char>, Value> {
    let typed = no_entries().insert("type"@, text_value(message_type));
    let numbered = match message_id {
        Some(id) => typed.insert("msg_id"@, number_value(id)),
        None => typed,
    };
    match in_reply_to {
        Some(id) => numbered.insert("in_reply_to"@, number_value(id)),
        None => numbered,
    }
}

/// The members of an envelope.
pub open spec fn envelope(source: Seq<char>, destination: Seq<char>, body: Map<Seq<char>, Value>)
    -> Map<Seq<char>, Value> {
    no_entries().insert("src"@, text_value(source)).insert("dest"@, text_value(destination)).insert(
        "body"@,
        object_value(body),
    )
}

/// The field names of the envelope differ from one another, and so do those
/// of the header.
pub proof fn lemma_field_names_differ()
    ensures
        "src"@ != "dest"@,
        "src"@ != "body"@,
        "dest"@ != "body"@,
        "type"@ != "msg_id"@,
        "type"@ != "in_reply_to"@,
        "msg_id"@ != "in_reply_to"@,
{
    reveal_strlit("src");
    reveal_strlit("dest");
    reveal_strlit("body");
    reveal_strlit("type");
    reveal_strlit("msg_id");
    reveal_strlit("in_reply_to");
    assert("dest"@[0] != "body"@[0]);
    assert("src"@.len() == 3);
    assert("dest"@.len() == 4);
    assert("type"@.len() == 4);
    assert("msg_id"@.len() == 6);
    assert("in_reply_to"@.len() == 11);
}

impl Request {
    /// Whether this is the request that the object with these members holds:
    /// `src`, `dest` and the header fields as they stand there, and the rest of
    /// the wire body.
    pub open spec fn is_decoded_from(self, members: Map<Seq<char>, Value>) -> bool {
        let body = object_at(members, "body"@).unwrap();
        &&& Some(self.source@) == text_at(members, "src"@)
        &&& Some(self.destination@) == text_at(members, "dest"@)
        &&& Some(self.message_type@) == text_at(body, "type"@)
        &&& self.message_id == number_at(body, "msg_id"@)
        &&& self.in_reply_to == number_at(body, "in_reply_to"@)
        &&& entries(self.body) == without_header(body)
    }

    /// Whether the request is the handshake.
    pub open spec fn is_init(self) -> bool {
        self.message_type@ == "init"@
    }

    /// Reads a request out of a JSON object, and takes `src`, `dest` and
    /// `body` out of the object.
    ///
    /// The object must hold strings under `src` and `dest` and an object
    /// under `body`, else the failure is `Envelope`. The body must hold a
    /// string under `type` and, where it has `msg_id` or `in_reply_to`, an
    /// unsigned 64-bit integer there, else the failure is `Header`.
    pub fn try_from_json(json: &mut serde_json::Map<String, Value>) -> (r: Result<Request, Failure>)
        ensures
            entries(*final(json)) == without_envelope(entries(*old(json))),
            match r {
                Ok(request) => decode_failure(entries(*old(json))) is None
                    && request.is_decoded_from(entries(*old(json))),
                Err(e) => decode_failure(entries(*old(json))) == Some(e),
            },
    {
        proof {
            lemma_field_names_differ();
        }
        let source = take_text(json, "src");
        let destination = take_text(json, "dest");
        let body = take_object(json, "body");
        match (source, destination, body) {
            (Some(source), Some(destination), Some(mut body)) => {
                let message_type = take_text(&mut body, "type");
                let message_id = take_number(&mut body, "msg_id");
                let in_reply_to = take_number(&mut body, "in_reply_to");
                match (message_type, message_id, in_reply_to) {
                    (Some(message_type), Ok(message_id), Ok(in_reply_to)) => Ok(
                        Request {
                            source,
                            destination,
                            message_type,
                            message_id,
                            in_reply_to,
                            body,
                        },
                    ),
                    _ => Err(Failure::Header),
                }
            },
            _ => Err(Failure::Envelope),
        }
    }
}

impl Response {
    /// Whether this is the reply to `request` with these further members: it
    /// goes from the request's destination to its source, answers the
    /// request's number and has the next number as its own.
    pub open spec fn is_reply_to(self, request: Request, body: Map<Seq<char>, Value>) -> bool {
        &&& self.source@ == request.destination@
        &&& self.destination@ == request.source@
        &&& self.message_type@ == reply_type(request.message_type@)
        &&& self.in_reply_to == request.message_id
        &&& self.message_id == match request.message_id {
            Some(id) => Some(next_id(id)),
            None => None,
        }
        &&& entries(self.body) == body
    }

    /// The members of the wire body: the header fields, then the members of
    /// `body`, which take the place of a header field of the same key.
    pub open spec fn wire_body(self) -> Map<Seq<char>, Value> {
        header_entries(self.message_type@, self.message_id, self.in_reply_to).union_prefer_right(
            entries(self.body),
        )
    }

    /// The members of the envelope that carries the response.
    pub open spec fn wire(self) -> Map<Seq<char>, Value> {
        envelope(self.source@, self.destination@, self.wire_body())
    }

    /// The reply to a request.
    pub fn new_from_request(request: &Request, body: serde_json::Map<String, Value>) -> (r:
        Response)
        ensures
            r.is_reply_to(*request, entries(body)),
    {
        Response {
            source: request.destination.clone(),
            destination: request.source.clone(),
            message_type: request.message_type.clone().concat("_ok"),
            message_id: match request.message_id {
                Some(id) => Some(id.wrapping_add(1)),
                None => None,
            },
            in_reply_to: request.message_id,
            body,
        }
    }

    /// Builds the wire body.
    pub fn to_wire_body(&self) -> (r: serde_json::Map<String, Value>)
        ensures
            entries(r) == self.wire_body(),
    {
        let mut body = new_object();
        put(&mut body, "type".to_owned(), from_text(self.message_type.clone()));
        if let Some(message_id) = self.message_id {
            put(&mut body, "msg_id".to_owned(), from_number(message_id));
        }
        if let Some(in_reply_to) = self.in_reply_to {
            put(&mut body, "in_reply_to".to_owned(), from_number(in_reply_to));
        }
        merge(&mut body, &self.body);
        body
    }
}

/// An envelope has the members `src`, `dest` and `body` and no other, and
/// its `src` and `dest` are the response's own source and destination,
/// whatever was received or sent before.
pub proof fn lemma_envelope_addressing(response: Response)
    ensures
        response.wire().dom() =~= set!["src"@, "dest"@, "body"@],
        response.wire()["src"@] == text_value(response.source@),
        response.wire()["dest"@] == text_value(response.destination@),
        response.wire()["body"@] == object_value(response.wire_body()),
{
    lemma_field_names_differ();
}

/// A reply to a decoded request goes back to where the request came from:
/// its destination is the text under `src` of the object that was read, its
/// source the text under `dest`, and it answers the number under `msg_id`.
/// Its envelope says the same.
pub proof fn lemma_reply_addressing(
    members: Map<Seq<char>, Value>,
    request: Request,
    reply: Response,
    body: Map<Seq<char>, Value>,
)
    requires
        request.is_decoded_from(members),
        reply.is_reply_to(request, body),
    ensures
        Some(reply.destination@) == text_at(members, "src"@),
        Some(reply.source@) == text_at(members, "dest"@),
        reply.in_reply_to == number_at(object_at(members, "body"@).unwrap(), "msg_id"@),
        reply.wire()["src"@] == text_value(text_at(members, "dest"@).unwrap()),
        reply.wire()["dest"@] == text_value(text_at(members, "src"@).unwrap()),
{
    lemma_envelope_addressing(reply);
}

/// The body that a decoded request keeps holds none of the header fields,
/// and every other member of the wire body as it stood there.
pub proof fn lemma_decoded_body(members: Map<Seq<char>, Value>, request: Request)
    requires
        request.is_decoded_from(members),
    ensures
        !entries(request.body).dom().contains("type"@),
        !entries(request.body).dom().contains("msg_id"@),
        !entries(request.body).dom().contains("in_reply_to"@),
        forall|key: Seq<char>|
            key != "type"@ && key != "msg_id"@ && key != "in_reply_to"@ ==> member(
                entries(request.body),
                key,
            ) == member(object_at(members, "body"@).unwrap(), key),
{
}

/// In a wire body the members of the response's body stand as they are; a
/// header field stands where the body has no member of its name.
pub proof fn lemma_wire_body(response: Response)
    ensures
        forall|key: Seq<char>| #[trigger]
            entries(response.body).dom().contains(key) ==> response.wire_body()[key] == entries(
                response.body,
            )[key],
        !entries(response.body).dom().contains("type"@) ==> response.wire_body()["type"@]
            == text_value(response.message_type@),
        !entries(response.body).dom().contains("msg_id"@) ==> member(
            response.wire_body(),
            "msg_id"@,
        ) == match response.message_id {
            Some(id) => Some(number_value(id)),
            None => None,
        },
        !entries(response.body).dom().contains("in_reply_to"@) ==> member(
            response.wire_body(),
            "in_reply_to"@,
        ) == match response.in_reply_to {
            Some(id) => Some(number_value(id)),
            None => None,
        },
{
    lemma_field_names_differ();
}

/// Builds an envelope round a wire body.
pub fn to_envelope(source: &str, destination: &str, body: serde_json::Map<String, Value>) -> (r:
    serde_json::Map<String, Value>)
    ensures
        entries(r) == envelope(source@, destination@, entries(body)),
{
    let mut reply = new_object();
    put(&mut reply, "src".to_owned(), from_text(source.to_owned()));
    put(&mut reply, "dest".to_owned(), from_text(destination.to_owned()));
    put(&mut reply, "body".to_owned(), from_object(body));
    reply
}

/// Takes the member under `key` out of an object and reads it as a string.
fn take_text(m: &mut serde_json::Map<String, Value>, key: &str) -> (r: Option<String>)
    ensures
        entries(*final(m)) == entries(*old(m)).remove(key@),
        match r {
            Some(s) => text_at(entries(*old(m)), key@) == Some(s@),
            None => text_at(entries(*old(m)), key@) is None,
        },
{
    match take(m, key) {
        Some(v) => match as_text(&v) {
            Some(s) => Some(s.to_owned()),
            None => None,
        },
        None => None,
    }
}

/// Takes the member under `key` out of an object and reads it as an object.
fn take_object(m: &mut serde_json::Map<String, Value>, key: &str) -> (r: Option<
    serde_json::Map<String, Value>,
>)
    ensures
        entries(*final(m)) == entries(*old(m)).remove(key@),
        match r {
            Some(o) => object_at(entries(*old(m)), key@) == Some(entries(o)),
            None => object_at(entries(*old(m)), key@) is None,
        },
{
    match take(m, key) {
        Some(v) => as_object(&v),
        None => None,
    }
}

/// Takes the member under `key` out of an object and reads it as an unsigned
/// integer: `Ok(None)` where there is no such member, `Err` where it is
/// something else.
fn take_number(m: &mut serde_json::Map<String, Value>, key: &str) -> (r: Result<Option<u64>, ()>)
    ensures
        entries(*final(m)) == entries(*old(m)).remove(key@),
        r is Ok <==> number_or_absent(entries(*old(m)), key@),
        r is Ok ==> r->Ok_0 == number_at(entries(*old(m)), key@),
{
    match take(m, key) {
        Some(v) => match as_number(&v) {
            Some(n) => Ok(Some(n)),
            None => Err(()),
        },
        None => Ok(None),
    }
}

} // verus!

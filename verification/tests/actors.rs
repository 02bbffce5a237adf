use actor_runtime::actor::Actor;
use actor_runtime::error::{ActorError, Failure};
use actor_runtime::message::{Request, Response};
use actor_runtime::runtime::{decode_line, read_init_fields, Event, Runtime};
use serde_json::Value;
use std::cell::RefCell;
use std::rc::Rc;
use std::sync::mpsc::Sender;

pub struct DummyActor;

impl Actor for DummyActor {
    fn init(&mut self, _node_id: &str, _node_ids: Vec<String>) -> Result<(), ActorError> {
        Ok(())
    }

    fn receive(&mut self, _request: &Request) -> Result<Vec<Response>, ActorError> {
        Ok(vec![])
    }

    fn gossip(&mut self) -> Result<Vec<Response>, ActorError> {
        unreachable!()
    }

    fn inject_sender(&mut self, _sender: Sender<Event>) {
        unreachable!()
    }
}

/// What a `Recorder` was asked to do, in the order of the calls.
#[derive(Default)]
struct Calls {
    log: Vec<String>,
    sender: Option<Sender<Event>>,
}

/// An actor that writes down each call, echoes each request twice and
/// gossips from n1 to n2.
struct Recorder {
    calls: Rc<RefCell<Calls>>,
    refuse: bool,
}

fn failure() -> ActorError {
    ActorError { message: String::from("refused") }
}

impl Actor for Recorder {
    fn init(&mut self, node_id: &str, node_ids: Vec<String>) -> Result<(), ActorError> {
        self.calls.borrow_mut().log.push(format!("init {} {}", node_id, node_ids.join(",")));
        if self.refuse {
            return Err(failure());
        }
        Ok(())
    }

    fn receive(&mut self, request: &Request) -> Result<Vec<Response>, ActorError> {
        self.calls.borrow_mut().log.push(format!("receive {}", request.message_type));
        if self.refuse {
            return Err(failure());
        }
        let mut first = Response::new_from_request(request, request.body.clone());
        first.message_id = Some(10);
        let mut second = Response::new_from_request(request, serde_json::Map::new());
        second.message_id = Some(11);
        Ok(vec![first, second])
    }

    fn gossip(&mut self) -> Result<Vec<Response>, ActorError> {
        self.calls.borrow_mut().log.push(String::from("gossip"));
        if self.refuse {
            return Err(failure());
        }
        Ok(vec![Response {
            source: String::from("n1"),
            destination: String::from("n2"),
            message_type: String::from("gossip"),
            message_id: None,
            in_reply_to: None,
            body: serde_json::Map::new(),
        }])
    }

    fn inject_sender(&mut self, sender: Sender<Event>) {
        self.calls.borrow_mut().sender = Some(sender);
    }
}

fn recorder(refuse: bool) -> (Runtime, Rc<RefCell<Calls>>) {
    let calls = Rc::new(RefCell::new(Calls::default()));
    let actor = Recorder { calls: calls.clone(), refuse };
    (Runtime::new(Box::new(actor)), calls)
}

fn parse(line: &str) -> Value {
    serde_json::from_str(line).unwrap()
}

const INIT: &str =
    r#"{"src":"c1","dest":"n1","body":{"type":"init","msg_id":1,"node_id":"n1","node_ids":["n1","n2"]}}"#;

const ECHO: &str = r#"{"src":"c2","dest":"n1","body":{"type":"echo","msg_id":7,"echo":"hi"}}"#;

#[test]
fn dummy_actor_works() {
    let mut actor = DummyActor;
    assert!(actor.init("n1", vec![String::from("n1")]).is_ok());
    assert!(actor
        .receive(&Request {
            source: "".to_string(),
            destination: "".to_string(),
            message_type: "".to_string(),
            message_id: None,
            in_reply_to: None,
            body: Default::default()
        })
        .is_ok());
}

#[test]
fn runtime_accept_actor() {
    let actor = DummyActor;
    let mut _runtime = Runtime::new(Box::new(actor));
}

#[test]
fn new_runtime_is_not_ready() {
    let runtime = Runtime::new(Box::new(DummyActor));
    assert!(!runtime.ready());
}

#[test]
fn init_yields_one_init_ok_line() {
    let (mut runtime, calls) = recorder(false);
    let request = decode_line(INIT).unwrap();
    let lines = runtime.handle_event(Event::Request(request)).unwrap();
    assert_eq!(lines.len(), 1);
    assert_eq!(
        lines[0],
        r#"{"body":{"in_reply_to":1,"msg_id":2,"type":"init_ok"},"dest":"c1","src":"n1"}"#
    );
    let reply = parse(&lines[0]);
    assert_eq!(reply["body"]["type"], Value::from("init_ok"));
    assert_eq!(reply["body"]["in_reply_to"], Value::from(1u64));
    assert_eq!(reply["body"]["msg_id"], Value::from(2u64));
    assert_eq!(reply["src"], Value::from("n1"));
    assert_eq!(reply["dest"], Value::from("c1"));
    assert_eq!(reply["body"].as_object().unwrap().len(), 3);
    assert_eq!(calls.borrow().log, vec![String::from("init n1 n1,n2")]);
    assert!(runtime.ready());
}

#[test]
fn init_without_an_id_has_no_ids_in_its_reply() {
    let (mut runtime, _calls) = recorder(false);
    let line = r#"{"src":"c1","dest":"n1","body":{"type":"init","node_id":"n1","node_ids":[]}}"#;
    let lines = runtime.handle_req(decode_line(line).unwrap()).unwrap();
    assert_eq!(lines, vec![String::from(r#"{"body":{"type":"init_ok"},"dest":"c1","src":"n1"}"#)]);
}

#[test]
fn malformed_line_is_dropped_and_the_next_is_read() {
    let (mut runtime, calls) = recorder(false);
    assert!(matches!(decode_line("{not json"), Err(Failure::Syntax)));
    assert!(matches!(decode_line(""), Err(Failure::Syntax)));
    assert!(matches!(decode_line("[1,2]"), Err(Failure::Syntax)));
    assert!(matches!(decode_line("null"), Err(Failure::Syntax)));
    assert!(matches!(decode_line(r#"{"src":"a"} trailing"#), Err(Failure::Syntax)));
    assert!(calls.borrow().log.is_empty());
    let request = decode_line(INIT).unwrap();
    let lines = runtime.handle_req(request).unwrap();
    assert_eq!(lines.len(), 1);
}

#[test]
fn each_event_is_one_actor_call() {
    let (mut runtime, calls) = recorder(false);
    let mut events = Vec::new();
    for _ in 0..3 {
        events.push(Event::Trigger);
        events.push(Event::Request(decode_line(ECHO).unwrap()));
    }
    events.push(Event::Trigger);
    let mut written = 0;
    for event in events {
        written += runtime.handle_event(event).unwrap().len();
    }
    assert_eq!(calls.borrow().log.len(), 7);
    assert_eq!(
        calls.borrow().log,
        vec![
            "gossip", "receive echo", "gossip", "receive echo", "gossip", "receive echo",
            "gossip"
        ]
    );
    assert_eq!(written, 4 + 3 * 2);
    assert!(!runtime.ready());
}

#[test]
fn two_responses_give_two_lines_in_order() {
    let (mut runtime, _calls) = recorder(false);
    let lines = runtime.handle_req(decode_line(ECHO).unwrap()).unwrap();
    assert_eq!(
        lines,
        vec![
            String::from(
                r#"{"body":{"echo":"hi","in_reply_to":7,"msg_id":10,"type":"echo_ok"},"dest":"c2","src":"n1"}"#
            ),
            String::from(
                r#"{"body":{"in_reply_to":7,"msg_id":11,"type":"echo_ok"},"dest":"c2","src":"n1"}"#
            ),
        ]
    );
}

#[test]
fn gossip_keeps_its_own_addressing() {
    let (mut runtime, _calls) = recorder(false);
    runtime.handle_req(decode_line(ECHO).unwrap()).unwrap();
    let lines = runtime.handle_trigger().unwrap();
    assert_eq!(lines, vec![String::from(r#"{"body":{"type":"gossip"},"dest":"n2","src":"n1"}"#)]);
    let envelope = parse(&lines[0]);
    assert_eq!(envelope["src"], Value::from("n1"));
    assert_eq!(envelope["dest"], Value::from("n2"));
}

#[test]
fn actor_errors_come_back_as_failures() {
    let (mut runtime, calls) = recorder(true);
    let failed = runtime.handle_req(decode_line(INIT).unwrap());
    assert!(matches!(failed, Err(Failure::Actor(ref e)) if e.message == "refused"));
    assert!(!failed.unwrap_err().recoverable());
    assert!(!runtime.ready());
    assert!(matches!(runtime.handle_req(decode_line(ECHO).unwrap()), Err(Failure::Actor(_))));
    assert!(matches!(runtime.handle_trigger(), Err(Failure::Actor(_))));
    assert_eq!(calls.borrow().log.len(), 3);
}

#[test]
fn init_with_bad_fields_does_not_reach_the_actor() {
    let (mut runtime, calls) = recorder(false);
    let lines = [
        r#"{"src":"c1","dest":"n1","body":{"type":"init","msg_id":1,"node_ids":["n1"]}}"#,
        r#"{"src":"c1","dest":"n1","body":{"type":"init","msg_id":1,"node_id":5,"node_ids":["n1"]}}"#,
        r#"{"src":"c1","dest":"n1","body":{"type":"init","msg_id":1,"node_id":"n1"}}"#,
        r#"{"src":"c1","dest":"n1","body":{"type":"init","msg_id":1,"node_id":"n1","node_ids":"n1"}}"#,
        r#"{"src":"c1","dest":"n1","body":{"type":"init","msg_id":1,"node_id":"n1","node_ids":["n1",2]}}"#,
    ];
    for line in lines {
        let failed = runtime.handle_req(decode_line(line).unwrap());
        assert!(matches!(failed, Err(Failure::InitFields)));
        assert!(failed.unwrap_err().recoverable());
    }
    assert!(calls.borrow().log.is_empty());
    assert!(!runtime.ready());
}

#[test]
fn init_fields_are_read_in_order() {
    let request = decode_line(INIT).unwrap();
    let (node_id, node_ids) = read_init_fields(&request.body).unwrap();
    assert_eq!(node_id, "n1");
    assert_eq!(node_ids, vec![String::from("n1"), String::from("n2")]);
}

#[test]
fn event_sink_reaches_the_actor() {
    let (mut runtime, calls) = recorder(false);
    let (sender, receiver) = std::sync::mpsc::channel();
    runtime.attach_event_sink(sender);
    let held = calls.borrow_mut().sender.take().unwrap();
    held.send(Event::Trigger).unwrap();
    assert!(matches!(receiver.recv().unwrap(), Event::Trigger));
}

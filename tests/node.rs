use mael::event::read_step;
use mael::unique_ids::id_from_bytes;
use mael::handshake::handshake;
use mael::{
    generate_ok, Body, Echo, EchoHandler, Event, Generate, GenerateHandler, Handler, Init,
    InitPayload, Line, Message, NodeError, RpcNode,
};

fn msg<P>(src: &str, dest: &str, msg_id: Option<usize>, payload: P) -> Message<P> {
    Message {
        src: src.to_string(),
        dest: dest.to_string(),
        body: Body { msg_id, in_reply_to: None, payload },
    }
}

fn init(msg_id: Option<usize>) -> Message<InitPayload> {
    msg(
        "c1",
        "n1",
        msg_id,
        InitPayload::Init(Init { node_id: "n1".to_string(), node_ids: vec!["n1".to_string()] }),
    )
}

fn echo(msg_id: usize, text: &str) -> Line<Echo> {
    Line::Decoded(msg("c1", "n1", Some(msg_id), Echo::Echo { echo: text.to_string() }))
}

fn echo_text(p: &Echo) -> &str {
    match p {
        Echo::EchoOk { echo } => echo,
        Echo::Echo { .. } => panic!("expected echo_ok"),
    }
}

#[test]
fn reply_swaps_addresses_and_answers_msg_id() {
    let m = msg("c7", "n3", Some(41), 5u8);
    let r = m.reply("x");
    assert_eq!(r.src, "n3");
    assert_eq!(r.dest, "c7");
    assert_eq!(r.body.in_reply_to, Some(41));
    assert_eq!(r.body.msg_id, None);
    assert_eq!(r.body.payload, "x");
}

#[test]
fn reply_to_message_without_id_has_no_in_reply_to() {
    let r = msg("a", "b", None, ()).reply(());
    assert_eq!(r.body.in_reply_to, None);
}

#[test]
fn handshake_acknowledges_init() {
    let ack = handshake(Some(Line::Decoded(init(Some(1))))).unwrap();
    assert_eq!(ack.src, "n1");
    assert_eq!(ack.dest, "c1");
    assert_eq!(ack.body.in_reply_to, Some(1));
    assert_eq!(ack.body.msg_id, None);
    assert!(matches!(ack.body.payload, InitPayload::InitOk));
}

#[test]
fn handshake_without_input_is_missing_init() {
    assert_eq!(handshake(None).unwrap_err(), NodeError::MissingInit);
}

#[test]
fn handshake_on_malformed_line_fails() {
    assert_eq!(handshake(Some(Line::Malformed)).unwrap_err(), NodeError::UnexpectedFirstMessage);
}

#[test]
fn handshake_on_other_payload_fails() {
    let m = msg("c1", "n1", Some(1), InitPayload::InitOk);
    assert_eq!(handshake(Some(Line::Decoded(m))).unwrap_err(), NodeError::UnexpectedFirstMessage);
}

#[test]
fn reader_forwards_decoded_lines() {
    match read_step(Some(echo(3, "a"))) {
        Ok(Event::Message(m)) => assert_eq!(m.body.msg_id, Some(3)),
        _ => panic!("expected a message event"),
    }
}

#[test]
fn reader_signals_end_of_input() {
    assert!(matches!(read_step::<Echo>(None), Ok(Event::EOF)));
}

#[test]
fn reader_fails_on_malformed_line() {
    assert!(matches!(read_step::<Echo>(Some(Line::Malformed)), Err(NodeError::MalformedEnvelope)));
}

#[test]
fn dispatch_answers_echo() {
    let node = RpcNode::new(EchoHandler);
    let m = msg("c2", "n1", Some(9), Echo::Echo { echo: "hi".to_string() });
    let r = node.on_event(Event::Message(m)).unwrap().unwrap();
    assert_eq!(r.src, "n1");
    assert_eq!(r.dest, "c2");
    assert_eq!(r.body.in_reply_to, Some(9));
    assert_eq!(echo_text(&r.body.payload), "hi");
}

#[test]
fn dispatch_stops_on_eof() {
    let node = RpcNode::new(EchoHandler);
    assert!(matches!(node.on_event(Event::EOF), Ok(None)));
}

#[test]
fn dispatch_fails_on_unexpected_payload() {
    let node = RpcNode::new(EchoHandler);
    let m = msg("c2", "n1", Some(9), Echo::EchoOk { echo: "hi".to_string() });
    assert!(matches!(node.on_event(Event::Message(m)), Err(NodeError::HandlerFailure)));
}

#[test]
fn echo_session_scenario() {
    let node = RpcNode::new(EchoHandler);
    let t = node.run_lines(Some(Line::Decoded(init(Some(1)))), vec![echo(2, "hello")]);
    let ack = t.init_reply.unwrap();
    assert_eq!((ack.src.as_str(), ack.dest.as_str()), ("n1", "c1"));
    assert_eq!(ack.body.in_reply_to, Some(1));
    assert!(matches!(ack.body.payload, InitPayload::InitOk));
    assert_eq!(t.replies.len(), 1);
    let r = &t.replies[0];
    assert_eq!((r.src.as_str(), r.dest.as_str()), ("n1", "c1"));
    assert_eq!(r.body.in_reply_to, Some(2));
    assert_eq!(r.body.msg_id, None);
    assert_eq!(echo_text(&r.body.payload), "hello");
    assert_eq!(t.outcome, Ok(()));
}

#[test]
fn replies_come_in_request_order() {
    let node = RpcNode::new(EchoHandler);
    let lines = vec![echo(7, "a"), echo(3, "b"), echo(11, "c")];
    let t = node.run_lines(Some(Line::Decoded(init(Some(1)))), lines);
    let ids: Vec<Option<usize>> = t.replies.iter().map(|r| r.body.in_reply_to).collect();
    assert_eq!(ids, vec![Some(7), Some(3), Some(11)]);
    let texts: Vec<&str> = t.replies.iter().map(|r| echo_text(&r.body.payload)).collect();
    assert_eq!(texts, vec!["a", "b", "c"]);
    assert_eq!(t.outcome, Ok(()));
}

#[test]
fn empty_session_writes_only_handshake_reply() {
    let node = RpcNode::new(EchoHandler);
    let t = node.run_lines(Some(Line::Decoded(init(Some(1)))), Vec::new());
    assert!(t.init_reply.is_some());
    assert!(t.replies.is_empty());
    assert_eq!(t.outcome, Ok(()));
}

#[test]
fn malformed_line_stops_the_session() {
    let node = RpcNode::new(EchoHandler);
    let lines = vec![echo(2, "a"), Line::Malformed, echo(4, "b")];
    let t = node.run_lines(Some(Line::Decoded(init(Some(1)))), lines);
    assert_eq!(t.replies.len(), 1);
    assert_eq!(t.replies[0].body.in_reply_to, Some(2));
    assert_eq!(t.outcome, Err(NodeError::MalformedEnvelope));
}

#[test]
fn refused_request_stops_the_session() {
    let node = RpcNode::new(EchoHandler);
    let bad = Line::Decoded(msg("c1", "n1", Some(3), Echo::EchoOk { echo: "x".to_string() }));
    let lines = vec![echo(2, "a"), bad, echo(4, "b")];
    let t = node.run_lines(Some(Line::Decoded(init(Some(1)))), lines);
    assert_eq!(t.replies.len(), 1);
    assert_eq!(t.outcome, Err(NodeError::HandlerFailure));
}

#[test]
fn failed_handshake_answers_nothing() {
    let node = RpcNode::new(EchoHandler);
    let t = node.run_lines(None, vec![echo(2, "a")]);
    assert!(t.init_reply.is_none());
    assert!(t.replies.is_empty());
    assert_eq!(t.outcome, Err(NodeError::MissingInit));
    let t = node.run_lines(Some(Line::Malformed), vec![echo(2, "a")]);
    assert!(t.init_reply.is_none());
    assert_eq!(t.outcome, Err(NodeError::UnexpectedFirstMessage));
}

#[test]
fn generate_ok_writes_decimal_id() {
    for (n, text) in [(0u64, "0"), (7, "7"), (1234, "1234"), (u64::MAX, "18446744073709551615")] {
        match generate_ok(n) {
            Generate::GenerateOk { id } => assert_eq!(id, text),
            Generate::Generate => panic!("expected generate_ok"),
        }
    }
}

#[test]
fn generate_handler_answers_with_digits() {
    let m = msg("c1", "n1", Some(5), Generate::Generate);
    match GenerateHandler.handle(&m) {
        Some(Generate::GenerateOk { id }) => {
            assert!(!id.is_empty());
            assert!(id.chars().all(|c| c.is_ascii_digit()));
            assert!(id == "0" || !id.starts_with('0'));
        }
        _ => panic!("expected generate_ok"),
    }
    let done = msg("c1", "n1", Some(6), Generate::GenerateOk { id: "1".to_string() });
    assert!(GenerateHandler.handle(&done).is_none());
}

#[test]
fn error_descriptions_are_distinct() {
    let all = [
        NodeError::MissingInit,
        NodeError::UnexpectedFirstMessage,
        NodeError::MalformedEnvelope,
        NodeError::OutputWriteFailed,
        NodeError::HandlerFailure,
    ];
    for (i, a) in all.iter().enumerate() {
        for b in &all[i + 1..] {
            assert_ne!(a.describe(), b.describe());
        }
    }
}

#[test]
fn id_from_bytes_reads_most_significant_first() {
    assert_eq!(id_from_bytes([0; 8]), 0);
    assert_eq!(id_from_bytes([0, 0, 0, 0, 0, 0, 1, 2]), 258);
    assert_eq!(id_from_bytes([1, 0, 0, 0, 0, 0, 0, 0]), 1u64 << 56);
    assert_eq!(id_from_bytes([0x12, 0x34, 0x56, 0x78, 0x9a, 0xbc, 0xde, 0xf0]), 0x1234_5678_9abc_def0);
    assert_eq!(id_from_bytes([0xff; 8]), u64::MAX);
}

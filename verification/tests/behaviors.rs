use dist_sys::node::broadcast::{BroadcastNode, BroadcastPayload, Topology};
use dist_sys::node::echo::{EchoNode, EchoPayload};
use dist_sys::node::unique::{UniqueNode, UniquePayload};
use dist_sys::{Body, Error, IdGen, Init, Message, Node};

fn init_record() -> Init {
    Init { node_id: "n1".to_string(), node_ids: vec!["n1".to_string()] }
}

fn inbound<P>(id: usize, payload: P) -> Message<usize, P> {
    Message::new("c1".to_string(), "n1".to_string(), Body { id: Some(id), in_reply_to: None, payload })
}

fn echo_node() -> EchoNode<Init, usize> {
    let mut node = EchoNode::default();
    node.init(init_record());
    node
}

fn unique_node() -> UniqueNode<Init, usize> {
    let mut node = UniqueNode::default();
    node.init(init_record());
    node
}

fn broadcast_node() -> BroadcastNode<Init, usize, usize> {
    let mut node = BroadcastNode::default();
    node.init(init_record());
    node
}

#[test]
fn echo_replies_with_the_same_string() {
    let mut node = echo_node();
    let mut out: Vec<Message<usize, EchoPayload>> = Vec::new();
    let msg = inbound(2, EchoPayload::Echo { echo: "hello".to_string() });
    assert_eq!(node.step(msg, &mut out), Ok(()));
    assert_eq!(out.len(), 1);
    let (src, dst, body) = out.pop().unwrap().into_parts();
    assert_eq!(src, "n1");
    assert_eq!(dst, "c1");
    assert_eq!(body.id, Some(0));
    assert_eq!(body.in_reply_to, Some(2));
    assert_eq!(body.payload, EchoPayload::EchoOk { echo: "hello".to_string() });
}

#[test]
fn echo_is_idempotent_across_repeated_calls() {
    let mut node = echo_node();
    let mut out: Vec<Message<usize, EchoPayload>> = Vec::new();
    for _ in 0..3 {
        let msg = inbound(2, EchoPayload::Echo { echo: "same".to_string() });
        assert_eq!(node.step(msg, &mut out), Ok(()));
    }
    assert_eq!(out.len(), 3);
    for reply in out {
        let (_, _, body) = reply.into_parts();
        assert_eq!(body.payload, EchoPayload::EchoOk { echo: "same".to_string() });
    }
}

#[test]
fn echo_ignores_echo_ok_input() {
    let mut node = echo_node();
    let mut out: Vec<Message<usize, EchoPayload>> = Vec::new();
    let msg = inbound(2, EchoPayload::EchoOk { echo: "noise".to_string() });
    assert_eq!(node.step(msg, &mut out), Ok(()));
    assert!(out.is_empty());
}

#[test]
fn echo_empty_string_round_trips() {
    let mut node = echo_node();
    let mut out: Vec<Message<usize, EchoPayload>> = Vec::new();
    let msg = inbound(9, EchoPayload::Echo { echo: String::new() });
    assert_eq!(node.step(msg, &mut out), Ok(()));
    let (_, _, body) = out.pop().unwrap().into_parts();
    assert_eq!(body.payload, EchoPayload::EchoOk { echo: String::new() });
}

#[test]
fn generate_scenario_builds_node_name_plus_counter() {
    let mut node = unique_node();
    // The init handshake consumed counter value 0.
    let _ = node.gen_id();
    let mut out: Vec<Message<usize, UniquePayload<String>>> = Vec::new();
    let msg = inbound(2, UniquePayload::Generate);
    assert_eq!(node.step(msg, &mut out), Ok(()));
    assert_eq!(out.len(), 1);
    let (src, dst, body) = out.pop().unwrap().into_parts();
    assert_eq!(src, "n1");
    assert_eq!(dst, "c1");
    assert_eq!(body.id, Some(1));
    assert_eq!(body.in_reply_to, Some(2));
    assert_eq!(body.payload, UniquePayload::GenerateOk { id: "n11".to_string() });
}

#[test]
fn generated_ids_are_distinct() {
    let mut node = unique_node();
    let mut out: Vec<Message<usize, UniquePayload<String>>> = Vec::new();
    assert_eq!(node.step(inbound(2, UniquePayload::Generate), &mut out), Ok(()));
    assert_eq!(node.step(inbound(3, UniquePayload::Generate), &mut out), Ok(()));
    assert_eq!(out.len(), 2);
    let (_, _, second) = out.pop().unwrap().into_parts();
    let (_, _, first) = out.pop().unwrap().into_parts();
    assert_eq!(first.payload, UniquePayload::GenerateOk { id: "n10".to_string() });
    assert_eq!(second.payload, UniquePayload::GenerateOk { id: "n11".to_string() });
    assert_ne!(first.payload, second.payload);
}

#[test]
fn generate_before_init_fails() {
    let mut node: UniqueNode<Init, usize> = UniqueNode::default();
    let mut out: Vec<Message<usize, UniquePayload<String>>> = Vec::new();
    let msg = inbound(2, UniquePayload::Generate);
    assert_eq!(node.step(msg, &mut out), Err(Error::NotInitialized));
    assert!(out.is_empty());
}

#[test]
fn generate_ok_input_is_ignored() {
    let mut node = unique_node();
    let mut out: Vec<Message<usize, UniquePayload<String>>> = Vec::new();
    let msg = inbound(2, UniquePayload::GenerateOk { id: "x".to_string() });
    assert_eq!(node.step(msg, &mut out), Ok(()));
    assert!(out.is_empty());
}

fn read_messages(node: &mut BroadcastNode<Init, usize, usize>, id: usize) -> Vec<usize> {
    let mut out: Vec<Message<usize, BroadcastPayload<usize>>> = Vec::new();
    assert_eq!(node.step(inbound(id, BroadcastPayload::Read), &mut out), Ok(()));
    assert_eq!(out.len(), 1);
    let (_, _, body) = out.pop().unwrap().into_parts();
    match body.payload {
        BroadcastPayload::ReadOk { messages } => messages,
        other => panic!("read must be answered by read_ok, got {:?}", other),
    }
}

#[test]
fn broadcast_stores_and_acknowledges() {
    let mut node = broadcast_node();
    let mut out: Vec<Message<usize, BroadcastPayload<usize>>> = Vec::new();
    assert_eq!(node.step(inbound(2, BroadcastPayload::Broadcast { message: 42 }), &mut out), Ok(()));
    assert_eq!(out.len(), 1);
    let (_, _, body) = out.pop().unwrap().into_parts();
    assert_eq!(body.payload, BroadcastPayload::BroadcastOk);
    assert_eq!(body.in_reply_to, Some(2));
    assert_eq!(read_messages(&mut node, 3), vec![42]);
}

#[test]
fn broadcast_deduplicates_by_value() {
    let mut node = broadcast_node();
    let mut out: Vec<Message<usize, BroadcastPayload<usize>>> = Vec::new();
    assert_eq!(node.step(inbound(2, BroadcastPayload::Broadcast { message: 5 }), &mut out), Ok(()));
    assert_eq!(node.step(inbound(3, BroadcastPayload::Broadcast { message: 5 }), &mut out), Ok(()));
    assert_eq!(node.step(inbound(4, BroadcastPayload::Broadcast { message: 7 }), &mut out), Ok(()));
    assert_eq!(node.step(inbound(5, BroadcastPayload::Broadcast { message: 5 }), &mut out), Ok(()));
    // Every broadcast is acknowledged, new value or not.
    assert_eq!(out.len(), 4);
    for reply in out {
        let (_, _, body) = reply.into_parts();
        assert_eq!(body.payload, BroadcastPayload::BroadcastOk);
    }
    assert_eq!(read_messages(&mut node, 6), vec![5, 7]);
}

#[test]
fn broadcast_stores_extreme_values() {
    let mut node = broadcast_node();
    let mut out: Vec<Message<usize, BroadcastPayload<usize>>> = Vec::new();
    assert_eq!(node.step(inbound(2, BroadcastPayload::Broadcast { message: usize::MAX }), &mut out), Ok(()));
    assert_eq!(node.step(inbound(3, BroadcastPayload::Broadcast { message: 0 }), &mut out), Ok(()));
    assert_eq!(read_messages(&mut node, 4), vec![usize::MAX, 0]);
}

#[test]
fn read_on_fresh_node_is_empty() {
    let mut node = broadcast_node();
    assert_eq!(read_messages(&mut node, 2), Vec::<usize>::new());
}

#[test]
fn topology_is_replaced_wholesale() {
    let mut node = broadcast_node();
    let mut out: Vec<Message<usize, BroadcastPayload<usize>>> = Vec::new();
    let t1 = Topology { tree: vec![("n1".to_string(), vec!["n2".to_string()])] };
    let t2 = Topology { tree: vec![("n3".to_string(), vec![])] };
    assert_eq!(node.step(inbound(2, BroadcastPayload::Topology(t1)), &mut out), Ok(()));
    assert_eq!(node.step(inbound(3, BroadcastPayload::Topology(t2)), &mut out), Ok(()));
    assert_eq!(out.len(), 2);
    for reply in out {
        let (_, _, body) = reply.into_parts();
        assert_eq!(body.payload, BroadcastPayload::TopologyOk);
    }
    let expected = Topology { tree: vec![("n3".to_string(), vec![])] };
    assert_eq!(*node.topology_ref(), expected);
}

#[test]
fn broadcast_ignores_acknowledgment_inputs() {
    let mut node = broadcast_node();
    let mut out: Vec<Message<usize, BroadcastPayload<usize>>> = Vec::new();
    assert_eq!(node.step(inbound(2, BroadcastPayload::BroadcastOk), &mut out), Ok(()));
    assert_eq!(node.step(inbound(3, BroadcastPayload::ReadOk { messages: vec![9] }), &mut out), Ok(()));
    assert_eq!(node.step(inbound(4, BroadcastPayload::TopologyOk), &mut out), Ok(()));
    assert!(out.is_empty());
    assert_eq!(read_messages(&mut node, 5), Vec::<usize>::new());
}

#[test]
fn fresh_node_counts_from_the_baseline() {
    let mut node: UniqueNode<Init, usize> = Node::fresh();
    assert!(node.has_next_id());
    assert_eq!(node.gen_id(), 0);
    assert_eq!(node.gen_id(), 1);
}

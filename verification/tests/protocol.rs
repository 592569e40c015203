use dist_sys::node::echo::{EchoNode, EchoPayload};
use dist_sys::{Body, Error, IdGen, Init, InitPayload, LocalUniq, Message, NodeBuilder, PayloadLinker};

fn init_record() -> Init {
    Init { node_id: "n1".to_string(), node_ids: vec!["n1".to_string()] }
}

#[test]
fn usize_generator_starts_at_begin_and_increases() {
    let mut counter: usize = <usize as LocalUniq>::begin();
    assert_eq!(counter, 0);
    assert!(counter.has_next());
    assert_eq!(counter.reserve(), 0);
    assert_eq!(counter.reserve(), 1);
    assert_eq!(counter.reserve(), 2);
    assert_eq!(counter, 3);
}

#[test]
fn node_base_gen_id_is_gap_free() {
    let mut base = dist_sys::NodeBase::<Init, usize>::default();
    assert!(base.has_next_id());
    assert_eq!(base.gen_id(), 0);
    assert_eq!(base.gen_id(), 1);
    assert_eq!(base.gen_id(), 2);
}

#[test]
fn link_swaps_addresses_and_correlates() {
    let body = Body { id: Some(7usize), in_reply_to: None, payload: EchoPayload::Echo { echo: "hi".to_string() } };
    let inbound = Message::new("c9".to_string(), "n4".to_string(), body);
    let reply = inbound.link(3usize, EchoPayload::EchoOk { echo: "hi".to_string() });
    let (src, dst, rbody) = reply.into_parts();
    assert_eq!(src, "n4");
    assert_eq!(dst, "c9");
    assert_eq!(rbody.id, Some(3));
    assert_eq!(rbody.in_reply_to, Some(7));
    assert_eq!(rbody.payload, EchoPayload::EchoOk { echo: "hi".to_string() });
}

#[test]
fn link_propagates_missing_inbound_id() {
    let body = Body { id: None, in_reply_to: None, payload: EchoPayload::Echo { echo: "x".to_string() } };
    let inbound: Message<usize, EchoPayload> = Message::new("a".to_string(), "b".to_string(), body);
    let reply = inbound.link(0usize, EchoPayload::EchoOk { echo: "x".to_string() });
    let (_, _, rbody) = reply.into_parts();
    assert_eq!(rbody.in_reply_to, None);
}

#[test]
fn send_refuses_unlinked_envelope() {
    let body = Body { id: Some(1usize), in_reply_to: None, payload: EchoPayload::Echo { echo: "s".to_string() } };
    let unlinked = Message::new("c1".to_string(), "n1".to_string(), body);
    let mut out: Vec<Message<usize, EchoPayload>> = Vec::new();
    assert_eq!(unlinked.send(&mut out), Err(Error::NotLinked));
    assert!(out.is_empty());
}

#[test]
fn send_accepts_linked_envelope() {
    let body = Body { id: Some(1usize), in_reply_to: None, payload: EchoPayload::Echo { echo: "s".to_string() } };
    let inbound = Message::new("c1".to_string(), "n1".to_string(), body);
    let reply = inbound.link(0usize, EchoPayload::EchoOk { echo: "s".to_string() });
    let mut out: Vec<Message<usize, EchoPayload>> = Vec::new();
    assert_eq!(reply.send(&mut out), Ok(()));
    assert_eq!(out.len(), 1);
}

#[test]
fn to_node_rejects_init_ok() {
    let body = Body { id: Some(1usize), in_reply_to: None, payload: InitPayload::InitOk };
    let msg = Message::new("c1".to_string(), "n1".to_string(), body);
    let built: Result<EchoNode<Init, usize>, Error> = msg.to_node();
    assert_eq!(built.err(), Some(Error::InitOkRejected));
}

#[test]
fn init_handshake_scenario() {
    let body = Body { id: Some(1usize), in_reply_to: None, payload: InitPayload::Init(init_record()) };
    let msg = Message::new("c1".to_string(), "n1".to_string(), body);
    let built: Result<EchoNode<Init, usize>, Error> = msg.to_node();
    let mut node = built.expect("an init payload must build a node");
    let mut out: Vec<Message<usize, InitPayload>> = Vec::new();
    assert!(node.has_next_id());
    let reply = msg.link(node.gen_id(), InitPayload::InitOk);
    assert_eq!(reply.send(&mut out), Ok(()));
    assert_eq!(out.len(), 1);
    let (src, dst, rbody) = out.pop().unwrap().into_parts();
    assert_eq!(src, "n1");
    assert_eq!(dst, "c1");
    assert_eq!(rbody.id, Some(0));
    assert_eq!(rbody.in_reply_to, Some(1));
    assert_eq!(rbody.payload, InitPayload::InitOk);
}

#[test]
fn init_clone_preserves_the_record() {
    let record = init_record();
    let copy = record.clone();
    assert_eq!(copy, record);
}

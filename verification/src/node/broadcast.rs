use crate::{one_reply, Error, IdGen, LocalUniq, Message, MessageView, Node, NodeBase, PayloadLinker};
use vstd::prelude::*;

verus! {

/// The neighbor graph a broadcast node is told about: for each node name,
/// the ordered list of its neighbors. It is replaced wholesale on every
/// `topology` message and never acted upon: this node does not forward.
#[derive(Debug, PartialEq, Eq)]
pub struct Topology {
    pub tree: Vec<(String, Vec<String>)>,
}

impl Topology {
    /// Well-formedness carried over from the mapping this tree stands for:
    /// each node name appears as a key at most once.
    pub open spec fn wf(&self) -> bool {
        forall|i: int, j: int|
            0 <= i < j < self.tree@.len() ==> self.tree@[i].0@ != self.tree@[j].0@
    }
}

impl Default for Topology {
    /// An empty neighbor graph.
    fn default() -> (r: Self)
        ensures
            r.tree@ == Seq::<(String, Vec<String>)>::empty(),
            r.wf(),
    {
        Topology { tree: Vec::new() }
    }
}

/// The payloads the broadcast behavior speaks.
#[derive(Debug, PartialEq, Eq)]
pub enum BroadcastPayload<T> {
    Broadcast { message: T },
    BroadcastOk,
    Read,
    ReadOk { messages: Vec<T> },
    Topology(Topology),
    TopologyOk,
}

/// The broadcast behavior: it accumulates every distinct value it is told
/// to broadcast, answers `read` with the full store, and keeps the latest
/// topology it was given.
pub struct BroadcastNode<Init, Id: LocalUniq, M> {
    base: NodeBase<Init, Id>,
    messages: Vec<M>,
    topology: Topology,
}

impl<T, I: LocalUniq, M> BroadcastNode<T, I, M> {
    /// The values observed so far, in arrival order.
    pub closed spec fn store(&self) -> Seq<M> {
        self.messages@
    }

    /// The neighbor graph held at the moment.
    pub closed spec fn topo(&self) -> Topology {
        self.topology
    }

    /// The initialization record this node holds, if any.
    pub closed spec fn stored_init(&self) -> Option<T> {
        self.base.init_view()
    }

    /// The neighbor graph, as a caller inspects it.
    pub fn topology_ref(&self) -> (r: &Topology)
        ensures
            *r == self.topo(),
    {
        &self.topology
    }
}

/// The message store never holds a value twice.
pub open spec fn store_inv<T, I: LocalUniq, M>(n: BroadcastNode<T, I, M>) -> bool {
    forall|i: int, j: int| 0 <= i < j < n.store().len() ==> n.store()[i] != n.store()[j]
}

impl<T, I: LocalUniq, M> Default for BroadcastNode<T, I, M> {
    /// A fresh broadcast node: counter at the baseline, not yet
    /// initialized, nothing observed, empty topology.
    fn default() -> (r: Self)
        ensures
            r.counter() == I::baseline(),
            r.gen_ready(),
            r.stored_init() is None,
            r.store() == Seq::<M>::empty(),
            r.topo().tree@ == Seq::<(String, Vec<String>)>::empty(),
    {
        Self { base: Default::default(), messages: Vec::new(), topology: Default::default() }
    }
}

impl<T, I: LocalUniq, M> IdGen<I> for BroadcastNode<T, I, M> {
    closed spec fn counter(&self) -> int {
        self.base.counter()
    }

    closed spec fn gen_ready(&self) -> bool {
        self.base.gen_ready()
    }

    fn gen_id(&mut self) -> (r: I)
        ensures
            final(self).stored_init() == old(self).stored_init(),
            final(self).store() == old(self).store(),
            final(self).topo() == old(self).topo(),
    {
        self.base.gen_id()
    }

    fn has_next_id(&self) -> (b: bool) {
        self.base.has_next_id()
    }
}

impl<T, I: LocalUniq> BroadcastNode<T, I, usize> {
    /// Whether `message` was already observed, by linear scan.
    fn contains_message(&self, message: usize) -> (b: bool)
        ensures
            b == self.store().contains(message),
    {
        let mut i: usize = 0;
        while i < self.messages.len()
            invariant
                i <= self.messages.len(),
                forall|k: int| 0 <= k < i ==> self.messages@[k] != message,
            decreases self.messages.len() - i,
        {
            if self.messages[i] == message {
                return true;
            }
            i = i + 1;
        }
        false
    }

    /// A snapshot of the message store, value for value.
    fn snapshot(&self) -> (r: Vec<usize>)
        ensures
            r@ == self.store(),
    {
        let mut r: Vec<usize> = Vec::new();
        let mut i: usize = 0;
        while i < self.messages.len()
            invariant
                i <= self.messages.len(),
                r@ =~= self.messages@.subrange(0, i as int),
            decreases self.messages.len() - i,
        {
            r.push(self.messages[i]);
            i = i + 1;
        }
        proof {
            assert(r@ =~= self.store());
        }
        r
    }
}

/// Exactly what one `step` of the broadcast behavior does: `broadcast`
/// stores the value unless it was already present and always acknowledges;
/// `read` answers with the full store; `topology` replaces the neighbor
/// graph wholesale and acknowledges; every acknowledgment-only payload
/// received as input is ignored.
pub open spec fn broadcast_transition<T, I: LocalUniq>(
    pre: BroadcastNode<T, I, usize>,
    msg: MessageView<I, BroadcastPayload<usize>>,
    post: BroadcastNode<T, I, usize>,
    out_pre: Seq<Message<I, BroadcastPayload<usize>>>,
    out_post: Seq<Message<I, BroadcastPayload<usize>>>,
    r: Result<(), Error>,
) -> bool {
    match msg.payload {
        BroadcastPayload::Broadcast { message } => {
            &&& r is Ok
            &&& post.store() == if pre.store().contains(message) {
                pre.store()
            } else {
                pre.store().push(message)
            }
            &&& post.topo() == pre.topo()
            &&& post.stored_init() == pre.stored_init()
            &&& post.counter() == pre.counter() + 1
            &&& one_reply(out_pre, out_post, msg, BroadcastPayload::BroadcastOk, pre.counter())
        },
        BroadcastPayload::Read => {
            &&& r is Ok
            &&& post.store() == pre.store()
            &&& post.topo() == pre.topo()
            &&& post.stored_init() == pre.stored_init()
            &&& post.counter() == pre.counter() + 1
            &&& out_post.len() == out_pre.len() + 1
            &&& out_post.subrange(0, out_pre.len() as int) == out_pre
            &&& out_post.last()@.src == msg.dst
            &&& out_post.last()@.dst == msg.src
            &&& out_post.last()@.in_reply_to == msg.id
            &&& out_post.last()@.linked
            &&& out_post.last()@.id is Some
            &&& out_post.last()@.id->0.sval() == pre.counter()
            &&& match out_post.last()@.payload {
                BroadcastPayload::ReadOk { messages } => messages@ == pre.store(),
                _ => false,
            }
        },
        BroadcastPayload::Topology(t) => {
            &&& r is Ok
            &&& post.store() == pre.store()
            &&& post.topo() == t
            &&& post.stored_init() == pre.stored_init()
            &&& post.counter() == pre.counter() + 1
            &&& one_reply(out_pre, out_post, msg, BroadcastPayload::TopologyOk, pre.counter())
        },
        _ => {
            &&& r is Ok
            &&& post == pre
            &&& out_post == out_pre
        },
    }
}

impl<T, I: LocalUniq> Node<I> for BroadcastNode<T, I, usize> {
    type Init = T;

    type Payload = BroadcastPayload<usize>;

    open spec fn init_state(&self) -> Option<T> {
        self.stored_init()
    }

    fn fresh() -> (r: Self) {
        Self::default()
    }

    fn step(
        &mut self,
        msg: Message<I, BroadcastPayload<usize>>,
        out: &mut Vec<Message<I, BroadcastPayload<usize>>>,
    ) -> (r: Result<(), Error>)
        ensures
            broadcast_transition(*old(self), msg@, *final(self), old(out)@, final(out)@, r),
    {
        let mut msg = msg;
        let mut payload = BroadcastPayload::BroadcastOk;
        core::mem::swap(&mut payload, &mut msg.body.payload);
        match payload {
            BroadcastPayload::Broadcast { message } => {
                if !self.contains_message(message) {
                    self.messages.push(message);
                }
                let id = self.base.gen_id();
                let reply = msg.link(id, BroadcastPayload::BroadcastOk);
                let r = reply.send(out);
                proof {
                    assert(out@.subrange(0, old(out)@.len() as int) =~= old(out)@);
                }
                r
            },
            BroadcastPayload::Read => {
                let snapshot = self.snapshot();
                let id = self.base.gen_id();
                let reply = msg.link(id, BroadcastPayload::ReadOk { messages: snapshot });
                let r = reply.send(out);
                proof {
                    assert(out@.subrange(0, old(out)@.len() as int) =~= old(out)@);
                }
                r
            },
            BroadcastPayload::Topology(t) => {
                self.topology = t;
                let id = self.base.gen_id();
                let reply = msg.link(id, BroadcastPayload::TopologyOk);
                let r = reply.send(out);
                proof {
                    assert(out@.subrange(0, old(out)@.len() as int) =~= old(out)@);
                }
                r
            },
            _ => Ok(()),
        }
    }

    fn init(&mut self, init: T)
        ensures
            final(self).store() == old(self).store(),
            final(self).topo() == old(self).topo(),
    {
        self.base.init(init);
    }
}

/// For a broadcast node over `usize` identifiers, readiness is exactly
/// headroom below the machine limit.
pub proof fn lemma_broadcast_gen_ready<T, M>(n: BroadcastNode<T, usize, M>)
    ensures
        n.gen_ready() <==> n.counter() < usize::MAX,
{
    crate::lemma_base_gen_ready(n.base);
}

/// Law: every step of the broadcast behavior preserves the no-duplicates
/// invariant of the message store, and the store only ever grows.
pub proof fn lemma_broadcast_store_inv<T, I: LocalUniq>(
    pre: BroadcastNode<T, I, usize>,
    msg: MessageView<I, BroadcastPayload<usize>>,
    post: BroadcastNode<T, I, usize>,
    out_pre: Seq<Message<I, BroadcastPayload<usize>>>,
    out_post: Seq<Message<I, BroadcastPayload<usize>>>,
    r: Result<(), Error>,
)
    requires
        store_inv(pre),
        broadcast_transition(pre, msg, post, out_pre, out_post, r),
    ensures
        store_inv(post),
        pre.store().is_prefix_of(post.store()),
{
    match msg.payload {
        BroadcastPayload::Broadcast { message } => {
            if !pre.store().contains(message) {
                assert(forall|k: int|
                    0 <= k < pre.store().len() ==> pre.store()[k] != message);
                assert(post.store() == pre.store().push(message));
            }
            assert(pre.store().is_prefix_of(post.store()));
        },
        _ => {
            assert(post.store() == pre.store());
            assert(pre.store() =~= post.store().subrange(0, pre.store().len() as int));
        },
    }
}

/// Law: broadcast deduplicates by value. Broadcasting `v` twice leaves the
/// store holding `v` at exactly one position, and a following `read`
/// returns exactly the accumulated store, duplicates never included.
pub proof fn lemma_broadcast_dedup<T, I: LocalUniq>(
    s0: BroadcastNode<T, I, usize>,
    s1: BroadcastNode<T, I, usize>,
    s2: BroadcastNode<T, I, usize>,
    s3: BroadcastNode<T, I, usize>,
    m1: MessageView<I, BroadcastPayload<usize>>,
    m2: MessageView<I, BroadcastPayload<usize>>,
    m3: MessageView<I, BroadcastPayload<usize>>,
    o0: Seq<Message<I, BroadcastPayload<usize>>>,
    o1: Seq<Message<I, BroadcastPayload<usize>>>,
    o2: Seq<Message<I, BroadcastPayload<usize>>>,
    o3: Seq<Message<I, BroadcastPayload<usize>>>,
    r1: Result<(), Error>,
    r2: Result<(), Error>,
    r3: Result<(), Error>,
    v: usize,
)
    requires
        store_inv(s0),
        m1.payload == (BroadcastPayload::Broadcast { message: v }),
        m2.payload == (BroadcastPayload::Broadcast { message: v }),
        m3.payload == BroadcastPayload::<usize>::Read,
        broadcast_transition(s0, m1, s1, o0, o1, r1),
        broadcast_transition(s1, m2, s2, o1, o2, r2),
        broadcast_transition(s2, m3, s3, o2, o3, r3),
    ensures
        s1.store().contains(v),
        s2.store() == s1.store(),
        store_inv(s2),
        forall|i: int, j: int|
            0 <= i < s2.store().len() && 0 <= j < s2.store().len() && s2.store()[i] == v
                && s2.store()[j] == v ==> i == j,
        match o3.last()@.payload {
            BroadcastPayload::ReadOk { messages } => messages@ == s2.store(),
            _ => false,
        },
{
    lemma_broadcast_store_inv(s0, m1, s1, o0, o1, r1);
    if !s0.store().contains(v) {
        assert(s1.store() == s0.store().push(v));
        assert(s1.store()[s1.store().len() - 1] == v);
    }
    assert(s1.store().contains(v));
    lemma_broadcast_store_inv(s1, m2, s2, o1, o2, r2);
}

/// Every step of the broadcast behavior keeps the topology well formed,
/// as long as each topology handed to the node is well formed itself.
pub proof fn lemma_topology_wf_preserved<T, I: LocalUniq>(
    pre: BroadcastNode<T, I, usize>,
    msg: MessageView<I, BroadcastPayload<usize>>,
    post: BroadcastNode<T, I, usize>,
    out_pre: Seq<Message<I, BroadcastPayload<usize>>>,
    out_post: Seq<Message<I, BroadcastPayload<usize>>>,
    r: Result<(), Error>,
)
    requires
        pre.topo().wf(),
        match msg.payload {
            BroadcastPayload::Topology(t) => t.wf(),
            _ => true,
        },
        broadcast_transition(pre, msg, post, out_pre, out_post, r),
    ensures
        post.topo().wf(),
{
}

/// Law: the topology is replaced, never merged. After a `topology` carrying
/// `t1` and then one carrying `t2`, the node holds exactly `t2`.
pub proof fn lemma_topology_replace<T, I: LocalUniq>(
    s0: BroadcastNode<T, I, usize>,
    s1: BroadcastNode<T, I, usize>,
    s2: BroadcastNode<T, I, usize>,
    m1: MessageView<I, BroadcastPayload<usize>>,
    m2: MessageView<I, BroadcastPayload<usize>>,
    o0: Seq<Message<I, BroadcastPayload<usize>>>,
    o1: Seq<Message<I, BroadcastPayload<usize>>>,
    o2: Seq<Message<I, BroadcastPayload<usize>>>,
    r1: Result<(), Error>,
    r2: Result<(), Error>,
    t1: Topology,
    t2: Topology,
)
    requires
        m1.payload == BroadcastPayload::<usize>::Topology(t1),
        m2.payload == BroadcastPayload::<usize>::Topology(t2),
        broadcast_transition(s0, m1, s1, o0, o1, r1),
        broadcast_transition(s1, m2, s2, o1, o2, r2),
    ensures
        s2.topo() == t2,
        s2.store() == s0.store(),
{
}

} // verus!

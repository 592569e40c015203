use vstd::prelude::*;

pub mod node;

verus! {

/// The ways a node can fail. Every failure is a protocol violation and is
/// fatal to the process driving the node.
#[derive(Clone, Copy, Debug, PartialEq, Eq, Structural)]
pub enum Error {
    /// A node was asked to build itself from an `init_ok` payload.
    InitOkRejected,
    /// An envelope that was never produced by `link` was handed to `send`.
    NotLinked,
    /// A unique id was requested before the init record arrived.
    NotInitialized,
}

/// The identifier generator contract: a totally ordered value that a node
/// hands out locally, starting from a fixed baseline and strictly increasing.
pub trait LocalUniq: Sized {
    /// The mathematical value of this identifier.
    spec fn sval(&self) -> int;

    /// The fixed starting value of a fresh generator.
    spec fn baseline() -> int;

    /// Whether one more identifier can still be reserved.
    spec fn can_reserve(&self) -> bool;

    /// The value a fresh counter starts from. A fresh counter can always
    /// reserve at least one identifier.
    fn begin() -> (r: Self)
        ensures
            r.sval() == Self::baseline(),
            r.can_reserve(),
    ;

    /// Returns the current value and advances the counter by one.
    fn reserve(&mut self) -> (r: Self)
        requires
            old(self).can_reserve(),
        ensures
            r.sval() == old(self).sval(),
            final(self).sval() == old(self).sval() + 1,
    ;

    /// Runtime test of `can_reserve`.
    fn has_next(&self) -> (b: bool)
        ensures
            b == self.can_reserve(),
    ;
}

impl LocalUniq for usize {
    open spec fn sval(&self) -> int {
        *self as int
    }

    open spec fn baseline() -> int {
        0
    }

    open spec fn can_reserve(&self) -> bool {
        *self < usize::MAX
    }

    fn begin() -> (r: Self) {
        usize::MIN
    }

    fn reserve(&mut self) -> (r: Self) {
        let n: usize = *self;
        *self = *self + 1;
        n
    }

    fn has_next(&self) -> (b: bool) {
        *self < usize::MAX
    }
}

/// Correlation metadata plus the behavior-specific payload of one envelope.
#[derive(Debug)]
pub struct Body<Id, Payload> {
    pub id: Option<Id>,
    pub in_reply_to: Option<Id>,
    pub payload: Payload,
}

/// One transmitted unit: where it came from, where it goes, and its body.
/// Only `link` can mark an envelope as linked; `send` refuses any other.
#[derive(Debug)]
pub struct Message<Id, Payload> {
    src: String,
    dst: String,
    body: Body<Id, Payload>,
    linked: bool,
}

/// The mathematical value of a `Message`: its addresses as character
/// sequences, its correlation metadata, its payload, and whether it was
/// produced by `link`.
pub ghost struct MessageView<Id, Payload> {
    pub src: Seq<char>,
    pub dst: Seq<char>,
    pub id: Option<Id>,
    pub in_reply_to: Option<Id>,
    pub payload: Payload,
    pub linked: bool,
}

impl<Id, Payload> View for Message<Id, Payload> {
    type V = MessageView<Id, Payload>;

    closed spec fn view(&self) -> MessageView<Id, Payload> {
        MessageView {
            src: self.src@,
            dst: self.dst@,
            id: self.body.id,
            in_reply_to: self.body.in_reply_to,
            payload: self.body.payload,
            linked: self.linked,
        }
    }
}

impl<Id, Payload> Message<Id, Payload> {
    /// An inbound envelope, as the transport hands it over: never linked.
    pub fn new(src: String, dst: String, body: Body<Id, Payload>) -> (r: Self)
        ensures
            r@.src == src@,
            r@.dst == dst@,
            r@.id == body.id,
            r@.in_reply_to == body.in_reply_to,
            r@.payload == body.payload,
            !r@.linked,
    {
        Message { src, dst, body, linked: false }
    }

    /// Appends this envelope to the output sink, but only if it was linked;
    /// an unlinked envelope is refused and the sink is left untouched.
    pub fn send(self, out: &mut Vec<Message<Id, Payload>>) -> (r: Result<(), Error>)
        ensures
            self@.linked ==> r is Ok && final(out)@ == old(out)@.push(self),
            !self@.linked ==> r == Result::<(), Error>::Err(Error::NotLinked) && final(out)@ == old(
                out,
            )@,
    {
        if self.linked {
            out.push(self);
            Ok(())
        } else {
            Err(Error::NotLinked)
        }
    }

    /// Hands the envelope's pieces back to the transport for encoding.
    pub fn into_parts(self) -> (r: (String, String, Body<Id, Payload>))
        ensures
            r.0@ == self@.src,
            r.1@ == self@.dst,
            r.2.id == self@.id,
            r.2.in_reply_to == self@.in_reply_to,
            r.2.payload == self@.payload,
    {
        let Message { src, dst, body, linked: _ } = self;
        (src, dst, body)
    }
}

/// What it means for `r` to be the correctly correlated reply to `m`
/// carrying payload `p`: addresses swapped, causal reference propagated,
/// and the result marked linked.
pub open spec fn is_reply_to<Id, IP, OP>(
    r: MessageView<Id, OP>,
    m: MessageView<Id, IP>,
    p: OP,
) -> bool {
    &&& r.src == m.dst
    &&& r.dst == m.src
    &&& r.in_reply_to == m.id
    &&& r.payload == p
    &&& r.linked
}

/// What it means for one `step` to have answered `msg`: exactly one linked
/// reply carrying payload `p` was appended to the sink, stamped with the
/// identifier value `counter`.
pub open spec fn one_reply<Id: LocalUniq, P>(
    out_pre: Seq<Message<Id, P>>,
    out_post: Seq<Message<Id, P>>,
    msg: MessageView<Id, P>,
    p: P,
    counter: int,
) -> bool {
    &&& out_post.len() == out_pre.len() + 1
    &&& out_post.subrange(0, out_pre.len() as int) == out_pre
    &&& is_reply_to(out_post.last()@, msg, p)
    &&& out_post.last()@.id is Some
    &&& out_post.last()@.id->0.sval() == counter
}

/// Building a correlated outbound envelope from an inbound one. This is the
/// single place where source/destination inversion is defined.
pub trait PayloadLinker<Id, OP>: Sized {
    /// The source address of the envelope being answered.
    spec fn link_src(&self) -> Seq<char>;

    /// The destination address of the envelope being answered.
    spec fn link_dst(&self) -> Seq<char>;

    /// The correlation id of the envelope being answered.
    spec fn link_id(&self) -> Option<Id>;

    /// Swaps source and destination, stamps the reply with `id`, points its
    /// causal reference at the inbound id, and attaches `payload`.
    fn link(self, id: Id, payload: OP) -> (r: Message<Id, OP>)
        ensures
            r@.src == self.link_dst(),
            r@.dst == self.link_src(),
            r@.id == Some(id),
            r@.in_reply_to == self.link_id(),
            r@.payload == payload,
            r@.linked,
    ;
}

impl<Id, IP, OP> PayloadLinker<Id, OP> for Message<Id, IP> {
    open spec fn link_src(&self) -> Seq<char> {
        self@.src
    }

    open spec fn link_dst(&self) -> Seq<char> {
        self@.dst
    }

    open spec fn link_id(&self) -> Option<Id> {
        self@.id
    }

    fn link(self, id: Id, payload: OP) -> (r: Message<Id, OP>) {
        let Message { src, dst, body, linked: _ } = self;
        let Body { id: inbound_id, in_reply_to: _, payload: _ } = body;
        Message {
            src: dst,
            dst: src,
            body: Body { id: Some(id), in_reply_to: inbound_id, payload },
            linked: true,
        }
    }
}

/// The initialization record: the node's own name and the names of every
/// node in the cluster, received exactly once as the first inbound message.
#[derive(Debug, PartialEq, Eq)]
pub struct Init {
    pub node_id: String,
    pub node_ids: Vec<String>,
}

/// Copies a list of node names, element for element.
fn clone_strings(v: &Vec<String>) -> (r: Vec<String>)
    ensures
        r@ == v@,
{
    let mut r: Vec<String> = Vec::new();
    let mut i: usize = 0;
    while i < v.len()
        invariant
            i <= v.len(),
            r@ =~= v@.subrange(0, i as int),
        decreases v.len() - i,
    {
        r.push(v[i].clone());
        i = i + 1;
    }
    proof {
        assert(r@ =~= v@);
    }
    r
}

impl Clone for Init {
    fn clone(&self) -> (r: Self)
        ensures
            r.node_id == self.node_id,
            r.node_ids@ == self.node_ids@,
    {
        Init { node_id: self.node_id.clone(), node_ids: clone_strings(&self.node_ids) }
    }
}

/// The state every behavior shares: the identifier counter and the
/// initialization record, held once the init handshake has happened.
pub struct NodeBase<Init, Id: LocalUniq> {
    next_id: Id,
    init: Option<Init>,
}

/// Ownership of a strictly increasing identifier counter.
pub trait IdGen<Id: LocalUniq> {
    /// The value the next generated identifier will carry.
    spec fn counter(&self) -> int;

    /// Whether one more identifier can still be generated.
    spec fn gen_ready(&self) -> bool;

    /// Returns an identifier carrying the current counter value and
    /// advances the counter by one.
    fn gen_id(&mut self) -> (r: Id)
        requires
            old(self).gen_ready(),
        ensures
            r.sval() == old(self).counter(),
            final(self).counter() == old(self).counter() + 1,
    ;

    /// Runtime test of `gen_ready`.
    fn has_next_id(&self) -> (b: bool)
        ensures
            b == self.gen_ready(),
    ;
}

impl<Init, Id: LocalUniq> NodeBase<Init, Id> {
    /// The initialization record this base holds, if any.
    pub closed spec fn init_view(&self) -> Option<Init> {
        self.init
    }

    /// The initialization record, as the behaviors read it back.
    pub fn init_ref(&self) -> (r: &Option<Init>)
        ensures
            *r == self.init_view(),
    {
        &self.init
    }

    /// Stores the initialization record; the counter is untouched.
    pub fn init(&mut self, init: Init)
        ensures
            final(self).init_view() == Some(init),
            final(self).counter() == old(self).counter(),
            final(self).gen_ready() == old(self).gen_ready(),
    {
        self.init = Some(init);
    }
}

impl<Init, Id: LocalUniq> Default for NodeBase<Init, Id> {
    /// A fresh base: counter at the baseline, no initialization record.
    fn default() -> (r: Self)
        ensures
            r.counter() == Id::baseline(),
            r.gen_ready(),
            r.init_view() is None,
    {
        NodeBase { next_id: Id::begin(), init: None }
    }
}

impl<Init, Id: LocalUniq> IdGen<Id> for NodeBase<Init, Id> {
    closed spec fn counter(&self) -> int {
        self.next_id.sval()
    }

    closed spec fn gen_ready(&self) -> bool {
        self.next_id.can_reserve()
    }

    fn gen_id(&mut self) -> (r: Id)
        ensures
            final(self).init_view() == old(self).init_view(),
    {
        self.next_id.reserve()
    }

    fn has_next_id(&self) -> (b: bool) {
        self.next_id.has_next()
    }
}

/// One protocol behavior: it owns an identifier generator and its
/// initialization state, and answers one decoded inbound envelope at a time
/// by writing zero or more linked replies to the output sink.
pub trait Node<MI: LocalUniq>: IdGen<MI> + Default + Sized {
    type Init;

    type Payload;

    /// The initialization record this node holds, if any.
    spec fn init_state(&self) -> Option<Self::Init>;

    /// A fresh node: not yet initialized, counter at the baseline, ready
    /// to generate an identifier.
    fn fresh() -> (r: Self)
        ensures
            r.init_state() is None,
            r.counter() == MI::baseline(),
            r.gen_ready(),
    ;

    /// Handles one inbound envelope: may mutate internal state and appends
    /// only linked replies to the sink, never removing or reordering what
    /// is already there.
    fn step(
        &mut self,
        msg: Message<MI, Self::Payload>,
        out: &mut Vec<Message<MI, Self::Payload>>,
    ) -> (r: Result<(), Error>)
        requires
            old(self).gen_ready(),
        ensures
            final(out)@.len() >= old(out)@.len(),
            final(out)@.subrange(0, old(out)@.len() as int) == old(out)@,
            forall|i: int|
                old(out)@.len() <= i < final(out)@.len() ==> (#[trigger] final(out)@[i])@.linked,
    ;

    /// Stores the initialization record; everything else is untouched.
    fn init(&mut self, init: Self::Init)
        ensures
            final(self).init_state() == Some(init),
            final(self).counter() == old(self).counter(),
            final(self).gen_ready() == old(self).gen_ready(),
    ;
}

/// The first inbound payload of a node's life: the init handshake.
#[derive(Debug, PartialEq, Eq)]
pub enum InitPayload {
    Init(Init),
    InitOk,
}

/// Construction of a behavior from the first inbound envelope.
pub trait NodeBuilder<I: LocalUniq, N: Node<I, Init = Init>>: Sized {
    /// The initialization record carried by this value, if it carries one.
    spec fn init_payload(&self) -> Option<Init>;

    /// Builds a fresh node and hands it the initialization record; an
    /// `init_ok` at this position is a protocol violation and is refused.
    /// The built node is fresh but for the stored record: its counter
    /// stands at the baseline and it is ready to generate.
    fn to_node(&self) -> (r: Result<N, Error>)
        ensures
            match r {
                Ok(n) => {
                    &&& self.init_payload() is Some
                    &&& n.init_state() is Some
                    &&& n.init_state()->0.node_id == self.init_payload()->0.node_id
                    &&& n.init_state()->0.node_ids@ == self.init_payload()->0.node_ids@
                    &&& n.counter() == I::baseline()
                    &&& n.gen_ready()
                },
                Err(e) => self.init_payload() is None && e == Error::InitOkRejected,
            },
    ;
}

impl<I: LocalUniq, N: Node<I, Init = Init>> NodeBuilder<I, N> for Message<I, InitPayload> {
    open spec fn init_payload(&self) -> Option<Init> {
        match self@.payload {
            InitPayload::Init(record) => Some(record),
            InitPayload::InitOk => None,
        }
    }

    fn to_node(&self) -> (r: Result<N, Error>) {
        let mut node = N::fresh();
        match &self.body.payload {
            InitPayload::Init(record) => {
                node.init(record.clone());
                Ok(node)
            },
            InitPayload::InitOk => Err(Error::InitOkRejected),
        }
    }
}

/// For the `usize` generator, readiness is exactly headroom below the
/// machine limit: one more identifier can be generated if and only if the
/// counter is still below `usize::MAX`.
pub proof fn lemma_base_gen_ready<T>(b: NodeBase<T, usize>)
    ensures
        b.gen_ready() <==> b.counter() < usize::MAX,
{
}

/// Walks one step of a generator run: each state is one above the last.
proof fn lemma_run_is_linear(states: Seq<int>, base: int, i: int)
    requires
        states.len() > 0,
        states[0] == base,
        forall|k: int| 0 <= k < states.len() - 1 ==> #[trigger] states[k + 1] == states[k] + 1,
        0 <= i < states.len(),
    ensures
        states[i] == base + i,
    decreases i,
{
    if i > 0 {
        lemma_run_is_linear(states, base, i - 1);
        assert(states[(i - 1) + 1] == states[i - 1] + 1);
    }
}

/// Law: over one node's lifetime, the values a generator returns are
/// strictly increasing, and the first value returned is the baseline the
/// counter began at. A run is any interleaving allowed by `reserve`: each
/// returned value is the counter before the call, and each call advances
/// the counter by one.
pub proof fn lemma_generator_monotonic(issued: Seq<int>, states: Seq<int>, base: int)
    requires
        states.len() == issued.len() + 1,
        states[0] == base,
        forall|k: int| 0 <= k < issued.len() ==> #[trigger] issued[k] == states[k],
        forall|k: int| 0 <= k < states.len() - 1 ==> #[trigger] states[k + 1] == states[k] + 1,
    ensures
        issued.len() > 0 ==> issued[0] == base,
        forall|i: int, j: int| 0 <= i < j < issued.len() ==> issued[i] < issued[j],
{
    assert forall|i: int, j: int| 0 <= i < j < issued.len() implies issued[i] < issued[j] by {
        lemma_run_is_linear(states, base, i);
        lemma_run_is_linear(states, base, j);
    }
}

} // verus!

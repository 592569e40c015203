use crate::{one_reply, Error, IdGen, LocalUniq, Message, MessageView, Node, NodeBase, PayloadLinker};
use vstd::prelude::*;

verus! {

/// The echo behavior: every `echo` request is answered by one `echo_ok`
/// carrying the same string, and nothing else ever happens.
pub struct EchoNode<Init, Id: LocalUniq> {
    base: NodeBase<Init, Id>,
}

impl<T, Id: LocalUniq> EchoNode<T, Id> {
    /// The initialization record this node holds, if any.
    pub closed spec fn stored_init(&self) -> Option<T> {
        self.base.init_view()
    }
}

/// The payloads the echo behavior speaks.
#[derive(Debug, PartialEq, Eq)]
pub enum EchoPayload {
    Echo { echo: String },
    EchoOk { echo: String },
}

impl<Init, Id: LocalUniq> Default for EchoNode<Init, Id> {
    /// A fresh echo node: counter at the baseline, not yet initialized.
    fn default() -> (r: Self)
        ensures
            r.counter() == Id::baseline(),
            r.gen_ready(),
            r.init_state() is None,
    {
        Self { base: Default::default() }
    }
}

impl<Init, Id: LocalUniq> IdGen<Id> for EchoNode<Init, Id> {
    closed spec fn counter(&self) -> int {
        self.base.counter()
    }

    closed spec fn gen_ready(&self) -> bool {
        self.base.gen_ready()
    }

    fn gen_id(&mut self) -> (r: Id)
        ensures
            final(self).stored_init() == old(self).stored_init(),
    {
        self.base.gen_id()
    }

    fn has_next_id(&self) -> (b: bool) {
        self.base.has_next_id()
    }
}

/// Exactly what one `step` of the echo behavior does: an `echo` request is
/// answered by one linked `echo_ok` with the same string, stamped with the
/// pre-call counter value; an `echo_ok` received as input is ignored.
pub open spec fn echo_transition<T, I: LocalUniq>(
    pre: EchoNode<T, I>,
    msg: MessageView<I, EchoPayload>,
    post: EchoNode<T, I>,
    out_pre: Seq<Message<I, EchoPayload>>,
    out_post: Seq<Message<I, EchoPayload>>,
    r: Result<(), Error>,
) -> bool {
    match msg.payload {
        EchoPayload::Echo { echo } => {
            &&& r is Ok
            &&& post.init_state() == pre.init_state()
            &&& post.counter() == pre.counter() + 1
            &&& one_reply(out_pre, out_post, msg, (EchoPayload::EchoOk { echo }), pre.counter())
        },
        EchoPayload::EchoOk { .. } => {
            &&& r is Ok
            &&& post == pre
            &&& out_post == out_pre
        },
    }
}

impl<T, I: LocalUniq> Node<I> for EchoNode<T, I> {
    type Init = T;

    type Payload = EchoPayload;

    open spec fn init_state(&self) -> Option<T> {
        self.stored_init()
    }

    fn fresh() -> (r: Self) {
        Self::default()
    }

    fn step(
        &mut self,
        msg: Message<I, EchoPayload>,
        out: &mut Vec<Message<I, EchoPayload>>,
    ) -> (r: Result<(), Error>)
        ensures
            echo_transition(*old(self), msg@, *final(self), old(out)@, final(out)@, r),
    {
        match &msg.body.payload {
            EchoPayload::Echo { echo } => {
                let response = EchoPayload::EchoOk { echo: echo.clone() };
                let id = self.gen_id();
                let reply = msg.link(id, response);
                let r = reply.send(out);
                proof {
                    assert(out@.subrange(0, old(out)@.len() as int) =~= old(out)@);
                }
                r
            },
            EchoPayload::EchoOk { .. } => Ok(()),
        }
    }

    fn init(&mut self, init: T) {
        self.base.init(init);
    }
}

/// For an echo node over `usize` identifiers, readiness is exactly
/// headroom below the machine limit.
pub proof fn lemma_echo_gen_ready<T>(n: EchoNode<T, usize>)
    ensures
        n.gen_ready() <==> n.counter() < usize::MAX,
{
    crate::lemma_base_gen_ready(n.base);
}

/// Law: echo is idempotent. For every string, an `echo` request yields
/// exactly one `echo_ok` carrying that same string, and sending the
/// identical request again does the same, with no change to any node state
/// other than the identifier counter advancing.
pub proof fn lemma_echo_idempotent<T, I: LocalUniq>(
    s0: EchoNode<T, I>,
    s1: EchoNode<T, I>,
    s2: EchoNode<T, I>,
    m1: MessageView<I, EchoPayload>,
    m2: MessageView<I, EchoPayload>,
    o0: Seq<Message<I, EchoPayload>>,
    o1: Seq<Message<I, EchoPayload>>,
    o2: Seq<Message<I, EchoPayload>>,
    r1: Result<(), Error>,
    r2: Result<(), Error>,
    e: String,
)
    requires
        m1.payload == (EchoPayload::Echo { echo: e }),
        m2.payload == (EchoPayload::Echo { echo: e }),
        echo_transition(s0, m1, s1, o0, o1, r1),
        echo_transition(s1, m2, s2, o1, o2, r2),
    ensures
        r1 is Ok && r2 is Ok,
        o1.len() == o0.len() + 1 && o2.len() == o1.len() + 1,
        o1.last()@.payload == (EchoPayload::EchoOk { echo: e }),
        o2.last()@.payload == (EchoPayload::EchoOk { echo: e }),
        s1.init_state() == s0.init_state() && s2.init_state() == s0.init_state(),
{
}

} // verus!

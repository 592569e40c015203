use crate::{Error, IdGen, Init, LocalUniq, Message, MessageView, Node, NodeBase, PayloadLinker};
use vstd::prelude::*;

verus! {

/// The unique-id behavior: on `generate` it answers with an id built from
/// the node's own name followed by the current counter value, which makes
/// every answer distinct within one process lifetime.
pub struct UniqueNode<Init, Id: LocalUniq> {
    base: NodeBase<Init, Id>,
}

/// The payloads the unique-id behavior speaks.
#[derive(Debug, PartialEq, Eq)]
pub enum UniquePayload<I> {
    Generate,
    GenerateOk { id: I },
}

impl<T, Id: LocalUniq> UniqueNode<T, Id> {
    /// The initialization record this node holds, if any.
    pub closed spec fn stored_init(&self) -> Option<T> {
        self.base.init_view()
    }
}

impl<T, Id: LocalUniq> Default for UniqueNode<T, Id> {
    /// A fresh unique-id node: counter at the baseline, not yet initialized.
    fn default() -> (r: Self)
        ensures
            r.counter() == Id::baseline(),
            r.gen_ready(),
            r.stored_init() is None,
    {
        Self { base: Default::default() }
    }
}

impl<T, Id: LocalUniq> IdGen<Id> for UniqueNode<T, Id> {
    closed spec fn counter(&self) -> int {
        self.base.counter()
    }

    closed spec fn gen_ready(&self) -> bool {
        self.base.gen_ready()
    }

    fn gen_id(&mut self) -> (r: Id)
        ensures
            final(self).stored_init() == old(self).stored_init(),
    {
        self.base.gen_id()
    }

    fn has_next_id(&self) -> (b: bool) {
        self.base.has_next_id()
    }
}

/// The character for one decimal digit.
pub open spec fn dec_digit(d: nat) -> char {
    if d == 0 {
        '0'
    } else if d == 1 {
        '1'
    } else if d == 2 {
        '2'
    } else if d == 3 {
        '3'
    } else if d == 4 {
        '4'
    } else if d == 5 {
        '5'
    } else if d == 6 {
        '6'
    } else if d == 7 {
        '7'
    } else if d == 8 {
        '8'
    } else {
        '9'
    }
}

/// The decimal digit characters of `n`, most significant first.
pub open spec fn dec_seq(n: nat) -> Seq<char>
    decreases n,
{
    if n < 10 {
        seq![dec_digit(n)]
    } else {
        dec_seq(n / 10).push(dec_digit(n % 10))
    }
}

/// Relies on std's `format!` with the `Display` of `str` and of `usize`:
/// the result is the prefix followed by the decimal digits of `n`.
#[verifier::external_body]
fn concat_id(prefix: &str, n: usize) -> (r: String)
    ensures
        r@ == prefix@ + dec_seq(n as nat),
{
    format!("{}{}", prefix, n)
}

/// Exactly what one `step` of the unique-id behavior does: before the init
/// record arrived, `generate` fails and changes nothing; afterwards it is
/// answered by one linked `generate_ok` whose id is the node's name
/// followed by the decimal pre-call counter value, and whose envelope id is
/// that same counter value; a `generate_ok` received as input is ignored.
pub open spec fn unique_transition(
    pre: UniqueNode<Init, usize>,
    msg: MessageView<usize, UniquePayload<String>>,
    post: UniqueNode<Init, usize>,
    out_pre: Seq<Message<usize, UniquePayload<String>>>,
    out_post: Seq<Message<usize, UniquePayload<String>>>,
    r: Result<(), Error>,
) -> bool {
    match msg.payload {
        UniquePayload::Generate => match pre.init_state() {
            Option::None => {
                &&& r == Result::<(), Error>::Err(Error::NotInitialized)
                &&& post == pre
                &&& out_post == out_pre
            },
            Option::Some(record) => {
                &&& r is Ok
                &&& post.init_state() == pre.init_state()
                &&& post.counter() == pre.counter() + 1
                &&& out_post.len() == out_pre.len() + 1
                &&& out_post.subrange(0, out_pre.len() as int) == out_pre
                &&& out_post.last()@.src == msg.dst
                &&& out_post.last()@.dst == msg.src
                &&& out_post.last()@.in_reply_to == msg.id
                &&& out_post.last()@.linked
                &&& out_post.last()@.id is Some
                &&& out_post.last()@.id->0 as int == pre.counter()
                &&& match out_post.last()@.payload {
                    UniquePayload::GenerateOk { id } => id@ == record.node_id@ + dec_seq(
                        pre.counter() as nat,
                    ),
                    _ => false,
                }
            },
        },
        UniquePayload::GenerateOk { .. } => {
            &&& r is Ok
            &&& post == pre
            &&& out_post == out_pre
        },
    }
}

impl Node<usize> for UniqueNode<Init, usize> {
    type Init = Init;

    type Payload = UniquePayload<String>;

    open spec fn init_state(&self) -> Option<Init> {
        self.stored_init()
    }

    fn fresh() -> (r: Self) {
        Self::default()
    }

    fn step(
        &mut self,
        msg: Message<usize, UniquePayload<String>>,
        out: &mut Vec<Message<usize, UniquePayload<String>>>,
    ) -> (r: Result<(), Error>)
        ensures
            unique_transition(*old(self), msg@, *final(self), old(out)@, final(out)@, r),
    {
        match &msg.body.payload {
            UniquePayload::Generate => {
                let node_id = match self.base.init_ref() {
                    Option::Some(record) => record.node_id.clone(),
                    Option::None => {
                        return Err(Error::NotInitialized);
                    },
                };
                let id = self.base.gen_id();
                let uid = concat_id(node_id.as_str(), id);
                let reply = msg.link(id, UniquePayload::GenerateOk { id: uid });
                let r = reply.send(out);
                proof {
                    assert(out@.subrange(0, old(out)@.len() as int) =~= old(out)@);
                }
                r
            },
            UniquePayload::GenerateOk { .. } => Ok(()),
        }
    }

    fn init(&mut self, init: Init) {
        self.base.init(init);
    }
}

/// For a unique-id node over `usize` identifiers, readiness is exactly
/// headroom below the machine limit.
pub proof fn lemma_unique_gen_ready<T>(n: UniqueNode<T, usize>)
    ensures
        n.gen_ready() <==> n.counter() < usize::MAX,
{
    crate::lemma_base_gen_ready(n.base);
}

/// The decimal form of a number has at least one digit.
proof fn lemma_dec_seq_len(n: nat)
    ensures
        dec_seq(n).len() >= 1,
    decreases n,
{
    if n >= 10 {
        lemma_dec_seq_len(n / 10);
    }
}

/// The decimal form is injective: equal digit sequences mean equal numbers.
proof fn lemma_dec_seq_injective(a: nat, b: nat)
    requires
        dec_seq(a) == dec_seq(b),
    ensures
        a == b,
    decreases a,
{
    lemma_dec_seq_len(a / 10);
    lemma_dec_seq_len(b / 10);
    if a < 10 && b < 10 {
        assert(dec_seq(a) == seq![dec_digit(a)]);
        assert(dec_seq(b) == seq![dec_digit(b)]);
        assert(seq![dec_digit(a)][0] == dec_digit(a));
        assert(seq![dec_digit(b)][0] == dec_digit(b));
        assert(dec_digit(a) == dec_digit(b));
        assert(a == b);
    } else if a < 10 {
        assert(dec_seq(a).len() == 1);
        assert(dec_seq(b).len() == dec_seq(b / 10).len() + 1);
    } else if b < 10 {
        assert(dec_seq(b).len() == 1);
        assert(dec_seq(a).len() == dec_seq(a / 10).len() + 1);
    } else {
        assert(dec_seq(a).last() == dec_digit(a % 10));
        assert(dec_seq(b).last() == dec_digit(b % 10));
        assert(a % 10 == b % 10);
        assert(dec_seq(a).drop_last() =~= dec_seq(a / 10));
        assert(dec_seq(b).drop_last() =~= dec_seq(b / 10));
        assert(dec_seq(a / 10) == dec_seq(b / 10));
        lemma_dec_seq_injective(a / 10, b / 10);
        assert(a / 10 == b / 10);
        vstd::arithmetic::div_mod::lemma_fundamental_div_mod(a as int, 10);
        vstd::arithmetic::div_mod::lemma_fundamental_div_mod(b as int, 10);
    }
}

/// Law: within one node's lifetime, no two `generate` requests are ever
/// answered with the same id. The id embeds the counter value at the time
/// of the request, every answered `generate` advances the counter, and the
/// decimal form is injective; so any two `generate` replies, however many
/// other steps lie between them, carry distinct ids.
pub proof fn lemma_generated_ids_distinct(
    sa: UniqueNode<Init, usize>,
    sa_post: UniqueNode<Init, usize>,
    sb: UniqueNode<Init, usize>,
    sb_post: UniqueNode<Init, usize>,
    ma: MessageView<usize, UniquePayload<String>>,
    mb: MessageView<usize, UniquePayload<String>>,
    oa0: Seq<Message<usize, UniquePayload<String>>>,
    oa1: Seq<Message<usize, UniquePayload<String>>>,
    ob0: Seq<Message<usize, UniquePayload<String>>>,
    ob1: Seq<Message<usize, UniquePayload<String>>>,
    ra: Result<(), Error>,
    rb: Result<(), Error>,
)
    requires
        ma.payload == UniquePayload::<String>::Generate,
        mb.payload == UniquePayload::<String>::Generate,
        sa.init_state() is Some,
        sb.init_state() == sa.init_state(),
        sa.counter() >= 0,
        sb.counter() >= 0,
        sa.counter() != sb.counter(),
        unique_transition(sa, ma, sa_post, oa0, oa1, ra),
        unique_transition(sb, mb, sb_post, ob0, ob1, rb),
    ensures
        oa1.last()@.payload != ob1.last()@.payload,
{
    let record = sa.init_state()->0;
    let nid = record.node_id@;
    let ca = sa.counter() as nat;
    let cb = sb.counter() as nat;
    if oa1.last()@.payload == ob1.last()@.payload {
        match oa1.last()@.payload {
            UniquePayload::GenerateOk { id } => {
                let da = dec_seq(ca);
                let db = dec_seq(cb);
                lemma_dec_seq_len(ca);
                lemma_dec_seq_len(cb);
                assert(id@ == nid + da);
                assert(id@ == nid + db);
                assert forall|k: int| 0 <= k < da.len() implies da[k] == (nid + da)[nid.len()
                    + k] by {}
                assert(da =~= (nid + da).subrange(nid.len() as int, (nid + da).len() as int));
                assert(db =~= (nid + db).subrange(nid.len() as int, (nid + db).len() as int));
                assert(da == db);
                lemma_dec_seq_injective(ca, cb);
                assert(false);
            },
            _ => {
                assert(false);
            },
        }
    }
}

} // verus!

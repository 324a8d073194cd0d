//! The chat message store: an append-only transcript whose messages carry
//! unique, strictly increasing identifiers handed out by a counter.

use vstd::assert_sets_equal;
use vstd::prelude::*;
use vstd::string::StringExecFns;

verus! {

/// The mathematical content of one chat message: its identifier (the render
/// key), its text, and its author tag.
pub ghost struct MsgView {
    pub id: int,
    pub text: Seq<char>,
    pub author: Seq<char>,
}

/// One chat message. The identifier is assigned once, at construction, and
/// never changes; the text and the author tag are arbitrary strings, the
/// empty string included.
pub struct ChatMsg {
    id: Option<i32>,
    pub message: String,
    pub user_type: String,
}

impl View for ChatMsg {
    type V = MsgView;

    closed spec fn view(&self) -> MsgView {
        MsgView { id: self.id->0 as int, text: self.message@, author: self.user_type@ }
    }
}

impl ChatMsg {
    /// A message is well formed once its identifier slot has been filled in;
    /// every constructor of this crate does so.
    pub closed spec fn wf(self) -> bool {
        self.id is Some
    }

    /// Builds a message that carries `id` as its identifier.
    pub fn new(id: i32, message: String, user_type: String) -> (r: Self)
        ensures
            r.wf(),
            r@ == (MsgView { id: id as int, text: message@, author: user_type@ }),
    {
        ChatMsg { id: Some(id), message: message, user_type: user_type }
    }

    /// The identifier this message was built with.
    pub fn get_id(&self) -> (r: i32)
        requires
            self.wf(),
        ensures
            r as int == self@.id,
    {
        self.id.unwrap()
    }
}

impl Clone for ChatMsg {
    fn clone(&self) -> (r: Self)
        ensures
            r == *self,
    {
        ChatMsg { id: self.id, message: self.message.clone(), user_type: self.user_type.clone() }
    }
}

impl PartialEq for ChatMsg {
    fn eq(&self, other: &Self) -> (r: bool) {
        let ids_equal = match (self.id, other.id) {
            (Some(a), Some(b)) => a == b,
            (None, None) => true,
            _ => false,
        };
        ids_equal && self.message == other.message && self.user_type == other.user_type
    }
}

impl vstd::std_specs::cmp::PartialEqSpecImpl for ChatMsg {
    open spec fn obeys_eq_spec() -> bool {
        true
    }

    open spec fn eq_spec(&self, other: &ChatMsg) -> bool {
        (self.wf() <==> other.wf()) && self@ == other@
    }
}

/// The message store: the single source of truth for the ordered chat
/// transcript and for identifier allocation. `chat_msgs` only ever grows at
/// the back, and `curr_idx` is the identifier the next appended message will
/// receive.
pub struct ChatCtx {
    pub chat_msgs: Vec<ChatMsg>,
    pub curr_idx: i32,
}

impl View for ChatCtx {
    type V = Seq<MsgView>;

    open spec fn view(&self) -> Seq<MsgView> {
        self.chat_msgs@.map_values(|m: ChatMsg| m@)
    }
}

impl Clone for ChatCtx {
    fn clone(&self) -> (r: Self)
        ensures
            r.curr_idx == self.curr_idx,
            r.chat_msgs@ == self.chat_msgs@,
            r@ == self@,
    {
        let copy = ChatCtx { chat_msgs: self.chat_msgs.clone(), curr_idx: self.curr_idx };
        proof {
            assert forall|i: int| 0 <= i < copy.chat_msgs@.len() implies copy.chat_msgs@[i]
                == self.chat_msgs@[i] by {
                assert(cloned::<ChatMsg>(self.chat_msgs@[i], copy.chat_msgs@[i]));
            }
            assert(copy.chat_msgs@ =~= self.chat_msgs@);
        }
        copy
    }
}

impl ChatCtx {
    /// The store invariant: the counter counts the messages stored so far,
    /// and the message at position `i` of the transcript carries identifier
    /// `i` — identifiers start at 0, never repeat, and leave no gaps.
    pub open spec fn wf(self) -> bool {
        &&& self.curr_idx as int == self@.len()
        &&& forall|i: int| 0 <= i < self@.len() ==> (#[trigger] self.chat_msgs@[i]).wf()
        &&& forall|i: int| 0 <= i < self@.len() ==> (#[trigger] self@[i]).id == i
    }

    /// An empty store; the first message appended will receive identifier 0.
    pub fn new() -> (r: Self)
        ensures
            r.wf(),
            r@ == Seq::<MsgView>::empty(),
    {
        let r = ChatCtx { chat_msgs: Vec::<ChatMsg>::new(), curr_idx: 0 };
        proof {
            assert(r@ =~= Seq::<MsgView>::empty());
        }
        r
    }

    /// Appends a message to the transcript and returns the identifier
    /// allocated for it: the current counter value, which equals the number
    /// of messages appended before this one. Any text and any author tag are
    /// accepted, the empty string included; the only limit is that the
    /// identifier counter must not have reached its machine bound.
    pub fn add_msg(&mut self, msg: String, user_type: String) -> (id: i32)
        requires
            old(self).wf(),
            old(self).curr_idx < i32::MAX,
        ensures
            final(self).wf(),
            id == old(self).curr_idx,
            id as int == old(self)@.len(),
            final(self).curr_idx == old(self).curr_idx + 1,
            final(self)@ == old(self)@.push(
                (MsgView { id: id as int, text: msg@, author: user_type@ }),
            ),
            old(self)@.is_prefix_of(final(self)@),
    {
        let id = self.curr_idx;
        let new_msg = ChatMsg::new(id, msg, user_type);
        self.chat_msgs.push(new_msg);
        self.curr_idx = self.curr_idx + 1;
        proof {
            assert(self@ =~= old(self)@.push(
                MsgView { id: id as int, text: msg@, author: user_type@ },
            ));
        }
        id
    }

    /// The current transcript, front to back in insertion order. Read-only:
    /// the store is untouched, and two calls without an intervening
    /// `add_msg` hand back the same sequence.
    pub fn snapshot(&self) -> (r: Vec<ChatMsg>)
        ensures
            r@ == self.chat_msgs@,
            r@.map_values(|m: ChatMsg| m@) == self@,
    {
        let r = self.chat_msgs.clone();
        proof {
            assert forall|i: int| 0 <= i < r@.len() implies r@[i] == self.chat_msgs@[i] by {
                assert(cloned::<ChatMsg>(self.chat_msgs@[i], r@[i]));
            }
            assert(r@ =~= self.chat_msgs@);
        }
        r
    }
}

/// Display form of one message, author tag first: the line the rendering
/// layer shows for it.
pub fn render_line(msg: &ChatMsg) -> (r: String)
    ensures
        r@ == msg@.author + ":"@ + msg@.text,
{
    let mut r = msg.user_type.clone();
    r.append(":");
    r.append(msg.message.as_str());
    r
}

/// Law: identifiers follow call order. In any store reachable by `add_msg`
/// calls from `new()`, the message at position `i` of the transcript carries
/// identifier `i`; since `add_msg` returns the identifier of the message it
/// appends, a sequence of N appends on a fresh store returns exactly
/// 0, 1, ..., N-1, in call order.
pub proof fn lemma_ids_follow_call_order(ctx: ChatCtx)
    requires
        ctx.wf(),
    ensures
        forall|i: int| 0 <= i < ctx@.len() ==> (#[trigger] ctx@[i]).id == i,
{
}

/// Law: the transcript length counts the appends. The counter starts at 0,
/// each `add_msg` raises it by exactly 1, and in every well-formed store it
/// equals the transcript length — so a snapshot's length equals the number
/// of `add_msg` calls performed so far.
pub proof fn lemma_len_counts_appends(ctx: ChatCtx)
    requires
        ctx.wf(),
    ensures
        ctx@.len() == ctx.curr_idx as int,
{
}

/// Law: identifiers are strictly increasing by insertion order, and hence
/// pairwise distinct, throughout the transcript.
pub proof fn lemma_ids_strictly_increasing(ctx: ChatCtx)
    requires
        ctx.wf(),
    ensures
        forall|i: int, j: int|
            0 <= i < j < ctx@.len() ==> (#[trigger] ctx@[i]).id < (#[trigger] ctx@[j]).id,
        forall|i: int, j: int|
            0 <= i < ctx@.len() && 0 <= j < ctx@.len() && i != j ==> (#[trigger] ctx@[i]).id != (
            #[trigger] ctx@[j]).id,
{
}

/// The set of identifiers that occur somewhere in the transcript.
pub open spec fn transcript_ids(ctx: ChatCtx) -> Set<int> {
    Set::new(|k: int| exists|i: int| 0 <= i < ctx@.len() && (#[trigger] ctx@[i]).id == k)
}

/// Law: the identifiers present in the transcript are exactly
/// {0, ..., N-1} for N stored messages — no duplicates, no gaps. Appends are
/// serialized by exclusive access to the store, so however concurrent
/// callers' appends interleave, the N identifiers handed out cover this
/// range exactly.
pub proof fn lemma_ids_cover_exact_range(ctx: ChatCtx)
    requires
        ctx.wf(),
    ensures
        transcript_ids(ctx) == Set::new(|k: int| 0 <= k < ctx@.len()),
{
    assert_sets_equal!(transcript_ids(ctx), Set::new(|k: int| 0 <= k < ctx@.len()), k => {
        if 0 <= k < ctx@.len() {
            assert(ctx@[k].id == k);
        }
        if transcript_ids(ctx).contains(k) {
            let i = choose|i: int| 0 <= i < ctx@.len() && (#[trigger] ctx@[i]).id == k;
            assert(ctx@[i].id == i);
        }
    });
}

/// Law: `snapshot` is read-only and deterministic in the store state. Its
/// contract pins the result to the stored transcript, so any two results it
/// can return for the same store — two calls in a row with no `add_msg`
/// between them — are equal.
pub proof fn lemma_snapshot_idempotent(ctx: &ChatCtx, first: &Vec<ChatMsg>, second: &Vec<ChatMsg>)
    requires
        first@ == ctx.chat_msgs@,
        second@ == ctx.chat_msgs@,
    ensures
        first@ == second@,
{
}

} // verus!

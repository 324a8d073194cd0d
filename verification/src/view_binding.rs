//! The rendering subscriber: a UI-visible list kept in step with the
//! store's transcript, each entry keyed by its message identifier so the
//! rendering layer can tell new items from ones already displayed.

use crate::chat_ctx::{ChatCtx, ChatMsg, MsgView};
use vstd::prelude::*;

verus! {

/// The UI-visible list. It is a pure consumer of the store: it holds copies
/// of messages already displayed and only ever appends to them, so entries
/// on screen are never re-rendered or reordered.
pub struct ViewBinding {
    visible: Vec<ChatMsg>,
}

impl View for ViewBinding {
    type V = Seq<MsgView>;

    closed spec fn view(&self) -> Seq<MsgView> {
        self.visible@.map_values(|m: ChatMsg| m@)
    }
}

impl ViewBinding {
    /// The messages currently held by the binding, as stored.
    pub closed spec fn entries(self) -> Seq<ChatMsg> {
        self.visible@
    }

    /// The binding's invariant: the entry at position `i` carries render key
    /// `i`, so keys are unique and in insertion order — what keyed, diffed
    /// rendering needs.
    pub closed spec fn wf(self) -> bool {
        &&& forall|i: int| 0 <= i < self@.len() ==> (#[trigger] self.visible@[i]).wf()
        &&& forall|i: int| 0 <= i < self@.len() ==> (#[trigger] self@[i]).id == i
    }

    /// The binding shows some earlier state of the append-only store: its
    /// list is a prefix of the store's transcript.
    pub open spec fn in_sync_prefix(self, store: ChatCtx) -> bool {
        &&& self@.len() <= store@.len()
        &&& self@ == store@.take(self@.len() as int)
    }

    /// An empty visible list: nothing displayed yet, in sync with any store.
    pub fn new() -> (r: Self)
        ensures
            r.wf(),
            r@ == Seq::<MsgView>::empty(),
            forall|store: ChatCtx| #[trigger] r.in_sync_prefix(store),
    {
        let r = ViewBinding { visible: Vec::<ChatMsg>::new() };
        proof {
            assert(r@ =~= Seq::<MsgView>::empty());
            assert forall|store: ChatCtx| #[trigger] r.in_sync_prefix(store) by {
                assert(r@ =~= store@.take(r@.len() as int));
            }
        }
        r
    }

    /// How many messages are currently displayed.
    pub fn len(&self) -> (n: usize)
        ensures
            n == self@.len(),
    {
        self.visible.len()
    }

    /// The displayed messages, front to back in insertion order.
    pub fn visible(&self) -> (r: &Vec<ChatMsg>)
        ensures
            r@ == self.entries(),
            r@.map_values(|m: ChatMsg| m@) == self@,
    {
        &self.visible
    }

    /// The two-step handler's path: the caller appended to the store, got an
    /// identifier back, and hands the binding a locally built entry carrying
    /// that identifier as its render key. The entry's key must be the next
    /// free position, else it would duplicate a key already on screen.
    pub fn push_keyed(&mut self, msg: ChatMsg)
        requires
            old(self).wf(),
            msg.wf(),
            msg@.id == old(self)@.len(),
        ensures
            final(self).wf(),
            final(self)@ == old(self)@.push(msg@),
    {
        self.visible.push(msg);
        proof {
            assert(self@ =~= old(self)@.push(msg@));
        }
    }

    /// The subscription's update path: reconciles the visible list against
    /// the store's transcript, appending copies of exactly the messages not
    /// yet displayed. The store is read, never mutated, and the entries
    /// already displayed are left untouched.
    pub fn reconcile(&mut self, store: &ChatCtx)
        requires
            store.wf(),
            old(self).wf(),
            old(self).in_sync_prefix(*store),
        ensures
            final(self).wf(),
            final(self)@ == store@,
            final(self)@.take(old(self)@.len() as int) == old(self)@,
    {
        let mut i: usize = self.visible.len();
        while i < store.chat_msgs.len()
            invariant
                store.wf(),
                self.wf(),
                i == self@.len(),
                i <= store@.len(),
                self@ == store@.take(i as int),
            decreases store.chat_msgs@.len() - i,
        {
            self.visible.push(store.chat_msgs[i].clone());
            i = i + 1;
            proof {
                assert(self@ =~= store@.take(i as int));
            }
        }
        proof {
            assert(self@ =~= store@);
            assert(self@.take(old(self)@.len() as int) =~= old(self)@);
        }
    }
}

/// Law: the subscription stays valid across appends. A binding whose list
/// equals the transcript it last reconciled against is in sync with any
/// store whose transcript extends that one — the store is append-only, so
/// what was displayed remains a prefix, and the next `reconcile` may run.
pub proof fn lemma_sync_survives_appends(b: ViewBinding, before: ChatCtx, after: ChatCtx)
    requires
        b@ == before@,
        before@.is_prefix_of(after@),
    ensures
        b.in_sync_prefix(after),
{
    assert(b@ =~= after@.take(b@.len() as int));
}

/// Law: render keys are unique and in insertion order. In any binding
/// reachable through `new`, `push_keyed` and `reconcile`, the keys read
/// 0, 1, ... down the visible list, so no two entries on screen ever share
/// a render key and entries never move.
pub proof fn lemma_render_keys_unique(b: ViewBinding)
    requires
        b.wf(),
    ensures
        forall|i: int| 0 <= i < b@.len() ==> (#[trigger] b@[i]).id == i,
        forall|i: int, j: int|
            0 <= i < b@.len() && 0 <= j < b@.len() && i != j ==> (#[trigger] b@[i]).id != (
            #[trigger] b@[j]).id,
{
}

} // verus!

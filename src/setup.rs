//! The inbox in front of an interactive contract setup: protocol messages that arrive before
//! the setup can take them are held in arrival order and handed over, once, when it is
//! ready; after that each message is forwarded as it arrives, until the setup finishes and
//! the inbox is retired.
use vstd::prelude::*;

verus! {

/// What became of one received message.
pub enum Delivery<M> {
    /// Held until the setup is ready.
    Buffered,
    /// To be handed to the setup now.
    Forward(M),
    /// The setup is over: the message is handed back and goes nowhere.
    Rejected(M),
}

/// The inbox's state: whether the setup takes messages, whether it is over, and what is
/// held for it.
pub struct InboxView<M> {
    pub ready: bool,
    pub retired: bool,
    pub buffered: Seq<M>,
}

/// The messages a delivery hands to the setup.
pub open spec fn handed_over<M>(d: Delivery<M>) -> Seq<M> {
    match d {
        Delivery::Buffered => Seq::empty(),
        Delivery::Forward(m) => seq![m],
        Delivery::Rejected(_) => Seq::empty(),
    }
}

pub open spec fn after_receive<M>(v: InboxView<M>, m: M) -> InboxView<M> {
    if v.ready || v.retired {
        v
    } else {
        InboxView { buffered: v.buffered.push(m), ..v }
    }
}

pub open spec fn delivered_on_receive<M>(v: InboxView<M>, m: M) -> Seq<M> {
    if v.ready && !v.retired {
        seq![m]
    } else {
        Seq::empty()
    }
}

/// The inbox after receiving `ms` in order, from `v`.
pub open spec fn after_all<M>(v: InboxView<M>, ms: Seq<M>) -> InboxView<M>
    decreases ms.len(),
{
    if ms.len() == 0 {
        v
    } else {
        after_receive(after_all(v, ms.drop_last()), ms.last())
    }
}

/// What the setup is handed while `ms` are received in order, from `v`.
pub open spec fn delivered_all<M>(v: InboxView<M>, ms: Seq<M>) -> Seq<M>
    decreases ms.len(),
{
    if ms.len() == 0 {
        Seq::empty()
    } else {
        delivered_all(v, ms.drop_last()) + delivered_on_receive(
            after_all(v, ms.drop_last()),
            ms.last(),
        )
    }
}

/// What the setup is handed when it becomes ready.
pub open spec fn delivered_on_ready<M>(v: InboxView<M>) -> Seq<M> {
    if v.ready || v.retired {
        Seq::empty()
    } else {
        v.buffered
    }
}

/// The inbox once the setup is ready: it stays retired if it was.
pub open spec fn after_ready<M>(v: InboxView<M>) -> InboxView<M> {
    InboxView { ready: !v.retired, retired: v.retired, buffered: Seq::empty() }
}

pub open spec fn fresh_inbox<M>() -> InboxView<M> {
    InboxView { ready: false, retired: false, buffered: Seq::empty() }
}

pub open spec fn retired_inbox<M>() -> InboxView<M> {
    InboxView { ready: false, retired: true, buffered: Seq::empty() }
}

proof fn lemma_not_ready_holds<M>(b: Seq<M>, ms: Seq<M>)
    ensures
        after_all(InboxView { ready: false, retired: false, buffered: b }, ms) == (InboxView::<M> {
            ready: false,
            retired: false,
            buffered: b + ms,
        }),
        delivered_all(InboxView { ready: false, retired: false, buffered: b }, ms) == Seq::<M>::empty(),
    decreases ms.len(),
{
    if ms.len() > 0 {
        lemma_not_ready_holds(b, ms.drop_last());
        assert((b + ms.drop_last()).push(ms.last()) =~= b + ms);
        assert(Seq::<M>::empty() + Seq::<M>::empty() =~= Seq::<M>::empty());
    } else {
        assert(b + ms =~= b);
    }
}

proof fn lemma_ready_forwards<M>(ms: Seq<M>)
    ensures
        after_all(InboxView { ready: true, retired: false, buffered: Seq::<M>::empty() }, ms) == (InboxView::<
            M,
        > { ready: true, retired: false, buffered: Seq::empty() }),
        delivered_all(InboxView { ready: true, retired: false, buffered: Seq::<M>::empty() }, ms) == ms,
    decreases ms.len(),
{
    if ms.len() > 0 {
        lemma_ready_forwards(ms.drop_last());
        assert(ms.drop_last() + seq![ms.last()] =~= ms);
    }
}

/// Messages received before the setup is ready reach it in arrival order when it becomes
/// ready, followed by those received afterwards: none is dropped, duplicated or reordered.
pub proof fn lemma_arrival_order_kept<M>(before: Seq<M>, after: Seq<M>)
    ensures
        ({
            let v = after_all(fresh_inbox::<M>(), before);
            let ready = InboxView { ready: true, retired: false, buffered: Seq::<M>::empty() };
            delivered_all(fresh_inbox::<M>(), before) + delivered_on_ready(v) + delivered_all(
                ready,
                after,
            ) == before + after
        }),
{
    lemma_not_ready_holds(Seq::<M>::empty(), before);
    lemma_ready_forwards(after);
    assert(Seq::<M>::empty() + before =~= before);
    assert(Seq::<M>::empty() + before + after =~= before + after);
}

pub struct SetupInbox<M> {
    ready: bool,
    retired: bool,
    buffer: Vec<M>,
}

impl<M> SetupInbox<M> {
    pub closed spec fn view(&self) -> InboxView<M> {
        InboxView { ready: self.ready, retired: self.retired, buffered: self.buffer@ }
    }

    /// Nothing is held once the setup takes messages or is over, and an inbox is never both.
    pub closed spec fn wf(&self) -> bool {
        &&& (self.ready || self.retired) ==> self.buffer@.len() == 0
        &&& !(self.ready && self.retired)
    }

    pub fn new() -> (r: SetupInbox<M>)
        ensures
            r.view() == fresh_inbox::<M>(),
            r.wf(),
    {
        SetupInbox { ready: false, retired: false, buffer: Vec::new() }
    }

    pub fn is_ready(&self) -> (r: bool)
        ensures
            r == self.view().ready,
    {
        self.ready
    }

    pub fn is_retired(&self) -> (r: bool)
        ensures
            r == self.view().retired,
    {
        self.retired
    }

    /// A protocol message arrived: it is held while the setup is not ready, handed over at
    /// once while it is, and handed back once the setup is over.
    pub fn receive(&mut self, msg: M) -> (d: Delivery<M>)
        requires
            old(self).wf(),
        ensures
            final(self).wf(),
            final(self).view() == after_receive(old(self).view(), msg),
            handed_over(d) == delivered_on_receive(old(self).view(), msg),
            old(self).view().retired <==> d is Rejected,
    {
        if self.retired {
            Delivery::Rejected(msg)
        } else if self.ready {
            Delivery::Forward(msg)
        } else {
            self.buffer.push(msg);
            Delivery::Buffered
        }
    }

    /// The setup can take messages: every held message is handed over, in arrival order,
    /// and the buffer is done with. A retired inbox stays retired.
    pub fn make_ready(&mut self) -> (flushed: Vec<M>)
        requires
            old(self).wf(),
        ensures
            final(self).wf(),
            final(self).view() == after_ready(old(self).view()),
            flushed@ == delivered_on_ready(old(self).view()),
    {
        let mut flushed: Vec<M> = Vec::new();
        std::mem::swap(&mut flushed, &mut self.buffer);
        self.ready = !self.retired;
        flushed
    }

    /// The setup finished: the inbox is retired, and later messages go nowhere.
    pub fn retire(&mut self)
        ensures
            final(self).wf(),
            final(self).view() == retired_inbox::<M>(),
    {
        self.ready = false;
        self.retired = true;
        self.buffer = Vec::new();
    }

    /// A new contract was accepted: a fresh inbox holds messages for its setup.
    pub fn reset(&mut self)
        ensures
            final(self).wf(),
            final(self).view() == fresh_inbox::<M>(),
    {
        self.ready = false;
        self.retired = false;
        self.buffer = Vec::new();
    }
}

} // verus!

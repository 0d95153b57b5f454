//! The maker actor: owns the one advertised order and the setup inbox, and decides what
//! each command asks of storage, the feeds and the taker connections.
use vstd::prelude::*;
use crate::cfd::Order;
use crate::model::{OrderId, PeerId, Txid};
use crate::setup::{
    after_ready, after_receive, delivered_on_ready, delivered_on_receive, fresh_inbox, handed_over,
    retired_inbox, Delivery, InboxView, SetupInbox,
};

verus! {

/// Identifies a connected taker.
pub type TakerId = PeerId;

/// Work that the host performs for the maker actor, in the order given.
#[derive(Clone, Copy, Debug, PartialEq, Eq, Structural)]
pub enum MakerAction {
    /// Persist the order.
    InsertOrder { order: Order },
    /// Publish the current order (or its absence) on the order feed.
    PublishOrder { order: Option<Order> },
    /// Send the current order (or its withdrawal) to every connected taker.
    BroadcastOrder { order: Option<Order> },
    /// Tell one taker that the order it asked for is not the current one.
    NotifyInvalidOrderId { taker_id: TakerId, order_id: OrderId },
    /// Load order `order_id` and persist a contract of `quantity` against it, in state
    /// `Accepted`, with `taker_id` as counterparty.
    CreateCfd { order_id: OrderId, taker_id: TakerId, quantity: u64 },
    /// Tell one taker that its take request was accepted.
    NotifyOrderAccepted { taker_id: TakerId, order_id: OrderId },
    /// Republish every contract on the contract feed.
    PublishCfds,
    /// Load order `order_id` (or nothing) and send it to one taker.
    SendOrder { taker_id: TakerId, order_id: Option<OrderId> },
    /// Move contract `order_id` to `ContractSetup`.
    EnterContractSetup { order_id: OrderId },
    /// Move contract `order_id` to `PendingOpen` with the DLC its setup produced.
    EnterPendingOpen { order_id: OrderId },
    /// Ask the wallet to broadcast the lock transaction.
    BroadcastLock { txid: Txid },
}

#[derive(Clone, Copy, Debug, PartialEq, Eq, Structural)]
pub enum MakerError {
    /// The taker connections are not known yet: the actor was used before it was set up.
    TakersNotInitialised,
    /// The stored contract or order is not the advertised order.
    OrderNotCurrent,
}

/// Whether a take request for `requested` is accepted while `current` is advertised.
pub open spec fn take_accepted(current: Option<OrderId>, requested: OrderId) -> bool {
    current == Some(requested)
}

/// The advertised order after a take request for `requested`.
pub open spec fn after_take(current: Option<OrderId>, requested: OrderId) -> Option<OrderId> {
    if take_accepted(current, requested) {
        None
    } else {
        current
    }
}

/// How many take requests of `reqs`, handled in order from `current` with no new order in
/// between, are accepted, when the contract of each accepted request is stored before the
/// next request is handled.
pub open spec fn accepted_count(current: Option<OrderId>, reqs: Seq<OrderId>) -> nat
    decreases reqs.len(),
{
    if reqs.len() == 0 {
        0
    } else {
        (if take_accepted(current, reqs[0]) {
            1nat
        } else {
            0nat
        }) + accepted_count(after_take(current, reqs[0]), reqs.drop_first())
    }
}

proof fn lemma_nothing_accepted_without_order(reqs: Seq<OrderId>)
    ensures
        accepted_count(None, reqs) == 0,
    decreases reqs.len(),
{
    if reqs.len() > 0 {
        lemma_nothing_accepted_without_order(reqs.drop_first());
    }
}

/// However many take requests arrive between two announcements of an order, at most one of
/// them creates a contract.
pub proof fn lemma_at_most_one_take(current: Option<OrderId>, reqs: Seq<OrderId>)
    ensures
        accepted_count(current, reqs) <= 1,
    decreases reqs.len(),
{
    if reqs.len() > 0 {
        if take_accepted(current, reqs[0]) {
            lemma_nothing_accepted_without_order(reqs.drop_first());
        } else {
            lemma_at_most_one_take(current, reqs.drop_first());
        }
    }
}

/// Once a take request for an order is accepted, a later take request for the same order is
/// answered "invalid order id", whatever requests came in between.
pub proof fn lemma_taken_order_is_invalid(current: Option<OrderId>, x: OrderId, between: Seq<
    OrderId,
>)
    requires
        take_accepted(current, x),
    ensures
        ({
            let s = after_take(current, x);
            accepted_count(s, between.push(x)) == 0
        }),
{
    lemma_nothing_accepted_without_order(between.push(x));
}

pub struct MakerCfdActor<M> {
    takers_initialised: bool,
    current_order_id: Option<OrderId>,
    setup: SetupInbox<M>,
}

impl<M> MakerCfdActor<M> {
    pub closed spec fn current(&self) -> Option<OrderId> {
        self.current_order_id
    }

    pub closed spec fn takers_known(&self) -> bool {
        self.takers_initialised
    }

    pub closed spec fn inbox(&self) -> InboxView<M> {
        self.setup.view()
    }

    pub closed spec fn wf(&self) -> bool {
        self.setup.wf()
    }

    /// An actor with no order advertised and no setup running.
    pub fn new() -> (r: MakerCfdActor<M>)
        ensures
            r.wf(),
            r.current().is_none(),
            !r.takers_known(),
            r.inbox() == fresh_inbox::<M>(),
    {
        MakerCfdActor {
            takers_initialised: false,
            current_order_id: None,
            setup: SetupInbox::new(),
        }
    }

    /// The taker connections are known.
    pub fn initialized(&mut self)
        ensures
            final(self).takers_known(),
            final(self).current() == old(self).current(),
            final(self).inbox() == old(self).inbox(),
            final(self).wf() == old(self).wf(),
    {
        self.takers_initialised = true;
    }

    pub fn current_order_id(&self) -> (r: Option<OrderId>)
        ensures
            r == self.current(),
    {
        self.current_order_id
    }

    /// A new order is to replace the advertised one: the host stores it first. Nothing
    /// changes until `order_stored` reports that the store succeeded.
    pub fn handle_new_order(&self, order: Order) -> (r: Result<Vec<MakerAction>, MakerError>)
        ensures
            !self.takers_known() ==> r == Err::<Vec<MakerAction>, MakerError>(
                MakerError::TakersNotInitialised,
            ),
            self.takers_known() ==> r is Ok && r.unwrap()@ == seq![
                MakerAction::InsertOrder { order },
            ],
    {
        if !self.takers_initialised {
            return Err(MakerError::TakersNotInitialised);
        }
        Ok(vec![MakerAction::InsertOrder { order }])
    }

    /// The new order is stored: it becomes the advertised order and is published to the feed
    /// and to every taker.
    pub fn order_stored(&mut self, order: Order) -> (r: Result<Vec<MakerAction>, MakerError>)
        ensures
            final(self).takers_known() == old(self).takers_known(),
            final(self).inbox() == old(self).inbox(),
            final(self).wf() == old(self).wf(),
            !old(self).takers_known() ==> r == Err::<Vec<MakerAction>, MakerError>(
                MakerError::TakersNotInitialised,
            ) && final(self).current() == old(self).current(),
            old(self).takers_known() ==> r is Ok && r.unwrap()@ == seq![
                MakerAction::PublishOrder { order: Some(order) },
                MakerAction::BroadcastOrder { order: Some(order) },
            ] && final(self).current() == Some(order.id),
    {
        if !self.takers_initialised {
            return Err(MakerError::TakersNotInitialised);
        }
        self.current_order_id = Some(order.id);
        Ok(
            vec![
                MakerAction::PublishOrder { order: Some(order) },
                MakerAction::BroadcastOrder { order: Some(order) },
            ],
        )
    }

    /// A taker asks to take `order_id` for `quantity`. Only the advertised order can be
    /// taken: the host is asked to store a contract for it, and nothing changes until
    /// `cfd_created` reports that it did. Any other order id is answered "invalid order id".
    pub fn handle_take_order(&self, taker_id: TakerId, order_id: OrderId, quantity: u64) -> (r:
        Result<Vec<MakerAction>, MakerError>)
        ensures
            !self.takers_known() ==> r == Err::<Vec<MakerAction>, MakerError>(
                MakerError::TakersNotInitialised,
            ),
            self.takers_known() && take_accepted(self.current(), order_id) ==> r is Ok
                && r.unwrap()@ == seq![MakerAction::CreateCfd { order_id, taker_id, quantity }],
            self.takers_known() && !take_accepted(self.current(), order_id) ==> r is Ok
                && r.unwrap()@ == seq![MakerAction::NotifyInvalidOrderId { taker_id, order_id }],
    {
        if !self.takers_initialised {
            return Err(MakerError::TakersNotInitialised);
        }
        let accepted = match self.current_order_id {
            Some(current) => current == order_id,
            None => false,
        };
        if accepted {
            Ok(vec![MakerAction::CreateCfd { order_id, taker_id, quantity }])
        } else {
            Ok(vec![MakerAction::NotifyInvalidOrderId { taker_id, order_id }])
        }
    }

    /// The contract for `taker_id`'s take of `order_id` is stored: the taker is told, the
    /// contract feed republished, the order withdrawn everywhere, and a fresh inbox holds
    /// messages for the new contract's setup. Refused, with nothing changed, when `order_id`
    /// is not the advertised order.
    pub fn cfd_created(&mut self, taker_id: TakerId, order_id: OrderId) -> (r: Result<
        Vec<MakerAction>,
        MakerError,
    >)
        requires
            old(self).wf(),
        ensures
            final(self).takers_known() == old(self).takers_known(),
            final(self).wf(),
            !take_accepted(old(self).current(), order_id) ==> r == Err::<
                Vec<MakerAction>,
                MakerError,
            >(MakerError::OrderNotCurrent) && final(self).current() == old(self).current()
                && final(self).inbox() == old(self).inbox(),
            take_accepted(old(self).current(), order_id) ==> r is Ok && final(self).current()
                == after_take(old(self).current(), order_id) && final(self).inbox()
                == fresh_inbox::<M>() && r.unwrap()@ == seq![
                MakerAction::NotifyOrderAccepted { taker_id, order_id },
                MakerAction::PublishCfds,
                MakerAction::BroadcastOrder { order: None },
                MakerAction::PublishOrder { order: None },
            ],
    {
        let accepted = match self.current_order_id {
            Some(current) => current == order_id,
            None => false,
        };
        if !accepted {
            return Err(MakerError::OrderNotCurrent);
        }
        self.current_order_id = None;
        self.setup.reset();
        Ok(
            vec![
                MakerAction::NotifyOrderAccepted { taker_id, order_id },
                MakerAction::PublishCfds,
                MakerAction::BroadcastOrder { order: None },
                MakerAction::PublishOrder { order: None },
            ],
        )
    }

    /// A taker connected: it alone is sent the current order, or its absence.
    pub fn handle_new_taker_online(&self, taker_id: TakerId) -> (r: Result<
        Vec<MakerAction>,
        MakerError,
    >)
        ensures
            !self.takers_known() ==> r == Err::<Vec<MakerAction>, MakerError>(
                MakerError::TakersNotInitialised,
            ),
            self.takers_known() ==> r is Ok && r.unwrap()@ == seq![
                MakerAction::SendOrder { taker_id, order_id: self.current() },
            ],
    {
        if !self.takers_initialised {
            return Err(MakerError::TakersNotInitialised);
        }
        Ok(vec![MakerAction::SendOrder { taker_id, order_id: self.current_order_id }])
    }

    /// A setup protocol message arrived from a taker.
    pub fn handle_inc_protocol_msg(&mut self, msg: M) -> (d: Delivery<M>)
        requires
            old(self).wf(),
        ensures
            final(self).wf(),
            final(self).current() == old(self).current(),
            final(self).takers_known() == old(self).takers_known(),
            final(self).inbox() == after_receive(old(self).inbox(), msg),
            handed_over(d) == delivered_on_receive(old(self).inbox(), msg),
    {
        self.setup.receive(msg)
    }

    /// The setup for `order_id` is running and takes messages: the held ones are returned to
    /// be handed to it in arrival order, and the contract moves to `ContractSetup`. An inbox
    /// already retired stays so and hands over nothing.
    pub fn handle_start_contract_setup(&mut self, order_id: OrderId) -> (r: (
        Vec<M>,
        Vec<MakerAction>,
    ))
        requires
            old(self).wf(),
        ensures
            final(self).wf(),
            final(self).current() == old(self).current(),
            final(self).takers_known() == old(self).takers_known(),
            final(self).inbox() == after_ready(old(self).inbox()),
            r.0@ == delivered_on_ready(old(self).inbox()),
            r.1@ == seq![MakerAction::EnterContractSetup { order_id }, MakerAction::PublishCfds],
    {
        let flushed = self.setup.make_ready();
        (flushed, vec![MakerAction::EnterContractSetup { order_id }, MakerAction::PublishCfds])
    }

    /// The setup for `order_id` produced a DLC whose lock transaction is `lock`: the contract
    /// moves to `PendingOpen`, the feed is republished, the lock transaction broadcast, and
    /// the inbox is retired: later setup messages go nowhere.
    pub fn handle_cfd_setup_completed(&mut self, order_id: OrderId, lock: Txid) -> (r: Vec<
        MakerAction,
    >)
        ensures
            final(self).wf(),
            final(self).current() == old(self).current(),
            final(self).takers_known() == old(self).takers_known(),
            final(self).inbox() == retired_inbox::<M>(),
            r@ == seq![
                MakerAction::EnterPendingOpen { order_id },
                MakerAction::PublishCfds,
                MakerAction::BroadcastLock { txid: lock },
            ],
    {
        self.setup.retire();
        vec![
            MakerAction::EnterPendingOpen { order_id },
            MakerAction::PublishCfds,
            MakerAction::BroadcastLock { txid: lock },
        ]
    }
}

} // verus!

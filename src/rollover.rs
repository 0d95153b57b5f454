//! The rollover protocol engine. One instance serves every contract: it keeps, per contract,
//! a proposal awaiting the maker's decision and the task running an accepted handshake, and
//! it drives each handshake as a state machine whose steps the host performs.
use vstd::prelude::*;
use std::collections::HashMap;
use crate::cfd::{is_open, only_phase_changed, Cfd, CfdError, RolloverParams, RolloverPhase};
use crate::model::{
    funding_fee_for, rate_for, select_funding_rate, CompleteFee, EventId, FundingRate, Key, OrderId, PeerId,
    TxFeeRate,
};

verus! {

broadcast use vstd::std_specs::hash::group_hash_axioms;

/// The maker accepts a rollover with the current transaction fee rate and the funding rates
/// for each side.
#[derive(Clone, Copy, Debug, PartialEq, Eq, Structural)]
pub struct Accept {
    pub order_id: OrderId,
    pub tx_fee_rate: TxFeeRate,
    pub long_funding_rate: FundingRate,
    pub short_funding_rate: FundingRate,
}

/// The maker rejects a rollover.
#[derive(Clone, Copy, Debug, PartialEq, Eq, Structural)]
pub struct Reject {
    pub order_id: OrderId,
}

#[derive(Clone, Copy, Debug, PartialEq, Eq, Structural)]
pub enum RolloverError {
    /// No proposal for the contract awaits a decision.
    NoActiveNegotiation,
}

/// A proposal awaiting the maker's decision: the open channel to the proposer, its identity,
/// and the price event and settled fee at proposal time.
pub struct Pending<C> {
    pub channel: C,
    pub peer: PeerId,
    pub from_event_id: EventId,
    pub from_complete_fee: CompleteFee,
}

/// What the host does after a proposal was checked against its contract.
pub enum ProposeDecision<C> {
    /// The proposal awaits a decision; a proposal it replaced hands back its channel.
    Pending { replaced: Option<C> },
    /// Record the rollover as failed for the contract and close the channel.
    Failed { channel: C },
}

/// The accepted or rejected proposal, and the task it supersedes.
pub struct Decided<C, T> {
    pub pending: Pending<C>,
    /// The task that ran for the contract before; the host cancels it.
    pub superseded: Option<T>,
}

pub struct Actor<C, T> {
    protocol_tasks: HashMap<OrderId, T>,
    pending_protocols: HashMap<OrderId, Pending<C>>,
    oracle_pk: Key,
    n_payouts: usize,
}

impl<C, T> Actor<C, T> {
    pub closed spec fn pending(&self) -> Map<OrderId, Pending<C>> {
        self.pending_protocols@
    }

    pub closed spec fn tasks(&self) -> Map<OrderId, T> {
        self.protocol_tasks@
    }

    /// The oracle's public key and the number of payout points each contract is built with.
    pub closed spec fn config(&self) -> (Key, usize) {
        (self.oracle_pk, self.n_payouts)
    }

    pub fn oracle_pk(&self) -> (r: Key)
        ensures
            r == self.config().0,
    {
        self.oracle_pk
    }

    pub fn n_payouts(&self) -> (r: usize)
        ensures
            r == self.config().1,
    {
        self.n_payouts
    }

    pub fn new(oracle_pk: Key, n_payouts: usize) -> (r: Actor<C, T>)
        ensures
            r.pending() == Map::<OrderId, Pending<C>>::empty(),
            r.tasks() == Map::<OrderId, T>::empty(),
            r.config() == (oracle_pk, n_payouts),
    {
        Actor {
            protocol_tasks: HashMap::new(),
            pending_protocols: HashMap::new(),
            oracle_pk,
            n_payouts,
        }
    }

    pub fn has_pending(&self, order_id: OrderId) -> (r: bool)
        ensures
            r == self.pending().contains_key(order_id),
    {
        self.pending_protocols.contains_key(&order_id)
    }

    /// A proposal for `order_id` from `peer` arrived on `channel`, and `checked` is what the
    /// contract's transition made of it. Accepted, it awaits a decision, replacing any earlier
    /// proposal for the contract; refused, it leaves no pending entry and the channel goes
    /// back to be closed.
    pub fn handle_propose(
        &mut self,
        order_id: OrderId,
        peer: PeerId,
        channel: C,
        checked: Result<(EventId, CompleteFee), CfdError>,
    ) -> (r: ProposeDecision<C>)
        ensures
            final(self).tasks() == old(self).tasks(),
            final(self).config() == old(self).config(),
            checked is Err ==> final(self).pending() == old(self).pending() && (r matches ProposeDecision::Failed { channel: c } && c == channel),
            checked is Ok ==> final(self).pending() == old(self).pending().insert(
                order_id,
                Pending {
                    channel,
                    peer,
                    from_event_id: checked.unwrap().0,
                    from_complete_fee: checked.unwrap().1,
                },
            ) && (r matches ProposeDecision::Pending { replaced } && (replaced is Some
                <==> old(self).pending().contains_key(order_id)) && (replaced is Some
                ==> replaced.unwrap() == old(self).pending()[order_id].channel)),
    {
        match checked {
            Err(_) => ProposeDecision::Failed { channel },
            Ok((from_event_id, from_complete_fee)) => {
                let old = self.pending_protocols.insert(
                    order_id,
                    Pending { channel, peer, from_event_id, from_complete_fee },
                );
                match old {
                    Some(p) => ProposeDecision::Pending { replaced: Some(p.channel) },
                    None => ProposeDecision::Pending { replaced: None },
                }
            },
        }
    }

    /// Takes the pending proposal for `order_id` and registers `task` as the contract's one
    /// running task. Without a pending proposal nothing changes and no task is registered.
    fn decide(&mut self, order_id: OrderId, task: T) -> (r: Result<Decided<C, T>, RolloverError>)
        ensures
            final(self).config() == old(self).config(),
            !old(self).pending().contains_key(order_id) ==> r == Err::<Decided<C, T>, RolloverError>(
                RolloverError::NoActiveNegotiation,
            ) && final(self).pending() == old(self).pending() && final(self).tasks() == old(
                self,
            ).tasks(),
            old(self).pending().contains_key(order_id) ==> r is Ok && r.unwrap().pending == old(
                self,
            ).pending()[order_id] && final(self).pending() == old(self).pending().remove(order_id)
                && final(self).tasks() == old(self).tasks().insert(order_id, task) && (r.unwrap().superseded
                is Some <==> old(self).tasks().contains_key(order_id)) && (r.unwrap().superseded is Some
                ==> r.unwrap().superseded.unwrap() == old(self).tasks()[order_id]),
    {
        match self.pending_protocols.remove(&order_id) {
            None => Err(RolloverError::NoActiveNegotiation),
            Some(pending) => {
                let superseded = self.protocol_tasks.insert(order_id, task);
                Ok(Decided { pending, superseded })
            },
        }
    }

    /// The maker accepts the proposal for `msg.order_id`; `task` stands for the handshake the
    /// host starts with the returned channel. Fails with "no active negotiation", starting
    /// nothing, when no proposal for the contract is pending.
    pub fn handle_accept(&mut self, msg: Accept, task: T) -> (r: Result<
        Decided<C, T>,
        RolloverError,
    >)
        ensures
            final(self).config() == old(self).config(),
            !old(self).pending().contains_key(msg.order_id) ==> r == Err::<
                Decided<C, T>,
                RolloverError,
            >(RolloverError::NoActiveNegotiation) && final(self).pending() == old(self).pending()
                && final(self).tasks() == old(self).tasks(),
            old(self).pending().contains_key(msg.order_id) ==> r is Ok && r.unwrap().pending
                == old(self).pending()[msg.order_id] && final(self).pending() == old(
                self,
            ).pending().remove(msg.order_id) && final(self).tasks() == old(self).tasks().insert(
                msg.order_id,
                task,
            ) && (r.unwrap().superseded is Some <==> old(self).tasks().contains_key(msg.order_id))
                && (r.unwrap().superseded is Some ==> r.unwrap().superseded.unwrap() == old(
                self,
            ).tasks()[msg.order_id]),
    {
        self.decide(msg.order_id, task)
    }

    /// The maker rejects the proposal for `msg.order_id`; `task` stands for the best-effort
    /// send of the rejection on the returned channel. Fails with "no active negotiation" when
    /// no proposal for the contract is pending.
    pub fn handle_reject(&mut self, msg: Reject, task: T) -> (r: Result<
        Decided<C, T>,
        RolloverError,
    >)
        ensures
            final(self).config() == old(self).config(),
            !old(self).pending().contains_key(msg.order_id) ==> r == Err::<
                Decided<C, T>,
                RolloverError,
            >(RolloverError::NoActiveNegotiation) && final(self).pending() == old(self).pending()
                && final(self).tasks() == old(self).tasks(),
            old(self).pending().contains_key(msg.order_id) ==> r is Ok && r.unwrap().pending
                == old(self).pending()[msg.order_id] && final(self).pending() == old(
                self,
            ).pending().remove(msg.order_id) && final(self).tasks() == old(self).tasks().insert(
                msg.order_id,
                task,
            ) && (r.unwrap().superseded is Some <==> old(self).tasks().contains_key(msg.order_id))
                && (r.unwrap().superseded is Some ==> r.unwrap().superseded.unwrap() == old(
                self,
            ).tasks()[msg.order_id]),
    {
        self.decide(msg.order_id, task)
    }
}

/// The contract transition for an accepted rollover: the funding rate is the one configured
/// for the contract's own position, and the proposal is accepted with it (see
/// `Cfd::accept_rollover_proposal`).
pub fn accept_rollover(
    cfd: &mut Cfd,
    msg: &Accept,
    from: (EventId, CompleteFee),
    next_event_id: EventId,
) -> (r: Result<RolloverParams, CfdError>)
    ensures
        ({
            let rate = rate_for(old(cfd).order.position, msg.long_funding_rate, msg.short_funding_rate);
            let fee = funding_fee_for(old(cfd).quantity, rate);
            &&& r is Ok <==> is_open(*old(cfd)) && old(cfd).rollover == RolloverPhase::Proposed
                && i64::MIN <= fee <= i64::MAX && i64::MIN <= from.1.long_owes_short + fee <= i64::MAX
            &&& r is Ok ==> r.unwrap().funding_fee == fee
                && r.unwrap().complete_fee.long_owes_short == from.1.long_owes_short + fee
        }),
        r is Ok ==> r.unwrap().funding_rate == rate_for(
            old(cfd).order.position,
            msg.long_funding_rate,
            msg.short_funding_rate,
        ) && r.unwrap().tx_fee_rate == msg.tx_fee_rate && r.unwrap().oracle_event_id
            == next_event_id && r.unwrap().complete_fee_before == from.1
            && only_phase_changed(*old(cfd), *final(cfd), RolloverPhase::Accepted),
        r is Err ==> *final(cfd) == *old(cfd),
{
    let funding_rate = select_funding_rate(
        cfd.position(),
        msg.long_funding_rate,
        msg.short_funding_rate,
    );
    cfd.accept_rollover_proposal(msg.tx_fee_rate, funding_rate, from, next_event_id)
}

} // verus!

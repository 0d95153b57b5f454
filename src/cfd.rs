//! Contracts (CFDs) and the pure transitions the command executor applies to them.
use vstd::prelude::*;
use crate::model::{
    funding_fee, funding_fee_for, CompleteFee, Dlc, EventId, FundingRate, OrderId, PeerId, Position, TxFeeRate, Txid,
};

verus! {

/// The maker's advertised order.
#[derive(Clone, Copy, Debug, PartialEq, Eq, Structural)]
pub struct Order {
    pub id: OrderId,
    pub price: u64,
    pub min_quantity: u64,
    pub max_quantity: u64,
    pub creation_timestamp: u64,
    /// The maker's side of every contract taken from this order.
    pub position: Position,
}

/// Where a contract stands in its lifecycle.
#[derive(Clone, Copy, Debug, PartialEq, Eq, Structural)]
pub enum CfdState {
    Accepted,
    ContractSetup,
    PendingOpen,
    Open,
}

/// Where a contract stands in a rollover negotiation.
#[derive(Clone, Copy, Debug, PartialEq, Eq, Structural)]
pub enum RolloverPhase {
    Idle,
    Proposed,
    Accepted,
}

#[derive(Clone, Copy, Debug, PartialEq, Eq, Structural)]
pub enum CfdError {
    /// The transition does not apply to the contract's lifecycle state.
    InvalidState,
    /// The proposing peer is not the contract's recorded counterparty.
    CounterpartyMismatch,
    /// The contract is not open, so it cannot be rolled over.
    NotOpen,
    /// A rollover handshake is running for the contract.
    RolloverInProgress,
    /// The proposal starts from a commit transaction that is not the current one.
    UnknownCommit,
    /// No rollover proposal is awaiting a decision.
    NoProposal,
    /// The settled fee does not fit the fee's range.
    FeeOverflow,
}

/// A contract opened against an order, from the maker's side.
#[derive(Clone, Debug)]
pub struct Cfd {
    pub order: Order,
    pub quantity: u64,
    pub counterparty: PeerId,
    pub state: CfdState,
    pub dlc: Option<Dlc>,
    pub rollover: RolloverPhase,
}

/// The terms of a rollover that the maker accepted.
#[derive(Clone, Copy, Debug, PartialEq, Eq, Structural)]
pub struct RolloverParams {
    pub oracle_event_id: EventId,
    pub tx_fee_rate: TxFeeRate,
    pub funding_rate: FundingRate,
    pub funding_fee: i64,
    /// The fee settled before this rollover, as carried by the proposal.
    pub complete_fee_before: CompleteFee,
    /// The fee settled once this rollover's funding fee is added.
    pub complete_fee: CompleteFee,
    pub refund_timelock: u32,
}

/// A contract that is open and has a materialised DLC.
pub open spec fn is_open(c: Cfd) -> bool {
    c.state == CfdState::Open && c.dlc.is_some()
}

/// `b` is `a` with only the rollover phase changed, to `p`.
pub open spec fn only_phase_changed(a: Cfd, b: Cfd, p: RolloverPhase) -> bool {
    b == Cfd { rollover: p, ..a }
}

/// Why a proposal from `peer` starting at commit `from_commit` is refused, if it is.
pub open spec fn proposal_error(c: Cfd, peer: PeerId, from_commit: Txid) -> Option<CfdError> {
    if peer != c.counterparty {
        Some(CfdError::CounterpartyMismatch)
    } else if !is_open(c) {
        Some(CfdError::NotOpen)
    } else if c.rollover == RolloverPhase::Accepted {
        Some(CfdError::RolloverInProgress)
    } else if c.dlc.unwrap().commit.theirs != from_commit {
        Some(CfdError::UnknownCommit)
    } else {
        None
    }
}

impl Cfd {
    /// A contract just accepted from `order`, with no DLC yet.
    pub fn new(order: Order, quantity: u64, counterparty: PeerId) -> (r: Cfd)
        ensures
            r.order == order,
            r.quantity == quantity,
            r.counterparty == counterparty,
            r.state == CfdState::Accepted,
            r.dlc.is_none(),
            r.rollover == RolloverPhase::Idle,
    {
        Cfd {
            order,
            quantity,
            counterparty,
            state: CfdState::Accepted,
            dlc: None,
            rollover: RolloverPhase::Idle,
        }
    }

    pub fn id(&self) -> (r: OrderId)
        ensures
            r == self.order.id,
    {
        self.order.id
    }

    /// The maker's position in this contract.
    pub fn position(&self) -> (r: Position)
        ensures
            r == self.order.position,
    {
        self.order.position
    }

    /// Interactive setup has begun: `Accepted` becomes `ContractSetup`.
    pub fn start_contract_setup(&mut self) -> (r: Result<(), CfdError>)
        ensures
            old(self).state == CfdState::Accepted ==> r is Ok && *final(self) == (Cfd {
                state: CfdState::ContractSetup,
                ..*old(self)
            }),
            old(self).state != CfdState::Accepted ==> r == Err::<(), CfdError>(
                CfdError::InvalidState,
            ) && *final(self) == *old(self),
    {
        if self.state != CfdState::Accepted {
            return Err(CfdError::InvalidState);
        }
        self.state = CfdState::ContractSetup;
        Ok(())
    }

    /// Interactive setup produced `dlc`: `ContractSetup` becomes `PendingOpen`.
    pub fn complete_contract_setup(&mut self, dlc: Dlc) -> (r: Result<(), CfdError>)
        ensures
            old(self).state == CfdState::ContractSetup ==> r is Ok && *final(self) == (Cfd {
                state: CfdState::PendingOpen,
                dlc: Some(dlc),
                ..*old(self)
            }),
            old(self).state != CfdState::ContractSetup ==> r == Err::<(), CfdError>(
                CfdError::InvalidState,
            ) && *final(self) == *old(self),
    {
        if self.state != CfdState::ContractSetup {
            return Err(CfdError::InvalidState);
        }
        self.state = CfdState::PendingOpen;
        self.dlc = Some(dlc);
        Ok(())
    }

    /// The lock transaction is confirmed: `PendingOpen` becomes `Open`.
    pub fn confirm_lock(&mut self) -> (r: Result<(), CfdError>)
        ensures
            old(self).state == CfdState::PendingOpen ==> r is Ok && *final(self) == (Cfd {
                state: CfdState::Open,
                ..*old(self)
            }),
            old(self).state != CfdState::PendingOpen ==> r == Err::<(), CfdError>(
                CfdError::InvalidState,
            ) && *final(self) == *old(self),
    {
        if self.state != CfdState::PendingOpen {
            return Err(CfdError::InvalidState);
        }
        self.state = CfdState::Open;
        Ok(())
    }

    /// A rollover proposal from `peer`, starting at the counterparty's commit `from_commit`.
    /// On success the contract is marked as having a proposal and the price event and
    /// settled fee at proposal time are returned; otherwise nothing changes.
    pub fn start_rollover_maker(&mut self, peer: PeerId, from_commit: Txid) -> (r: Result<
        (EventId, CompleteFee),
        CfdError,
    >)
        ensures
            match proposal_error(*old(self), peer, from_commit) {
                Some(e) => r == Err::<(EventId, CompleteFee), CfdError>(e) && *final(self)
                    == *old(self),
                None => r == Ok::<(EventId, CompleteFee), CfdError>(
                    (
                        old(self).dlc.unwrap().settlement_event_id,
                        old(self).dlc.unwrap().complete_fee,
                    ),
                ) && only_phase_changed(*old(self), *final(self), RolloverPhase::Proposed),
            },
    {
        if peer != self.counterparty {
            return Err(CfdError::CounterpartyMismatch);
        }
        if self.state != CfdState::Open {
            return Err(CfdError::NotOpen);
        }
        let context = match &self.dlc {
            None => {
                return Err(CfdError::NotOpen);
            },
            Some(dlc) => {
                if self.rollover == RolloverPhase::Accepted {
                    return Err(CfdError::RolloverInProgress);
                }
                if dlc.commit.theirs != from_commit {
                    return Err(CfdError::UnknownCommit);
                }
                (dlc.settlement_event_id, dlc.complete_fee)
            },
        };
        self.rollover = RolloverPhase::Proposed;
        Ok(context)
    }

    /// The maker accepts the proposal with fee rate `tx_fee_rate` and `funding_rate`; `from`
    /// is the price event and settled fee that the proposal carried, and `next_event_id` the
    /// oracle event the rolled-over contract settles on. The funding fee of this period is
    /// computed from the contract's quantity and `funding_rate`, and added to the settled
    /// fee. Refused, with nothing changed, unless the contract is open with a proposal
    /// awaiting a decision and the fees fit.
    pub fn accept_rollover_proposal(
        &mut self,
        tx_fee_rate: TxFeeRate,
        funding_rate: FundingRate,
        from: (EventId, CompleteFee),
        next_event_id: EventId,
    ) -> (r: Result<RolloverParams, CfdError>)
        ensures
            !is_open(*old(self)) ==> r == Err::<RolloverParams, CfdError>(CfdError::NotOpen)
                && *final(self) == *old(self),
            is_open(*old(self)) && old(self).rollover != RolloverPhase::Proposed ==> r == Err::<
                RolloverParams,
                CfdError,
            >(CfdError::NoProposal) && *final(self) == *old(self),
            is_open(*old(self)) && old(self).rollover == RolloverPhase::Proposed ==> {
                let funding_fee = funding_fee_for(old(self).quantity, funding_rate);
                let total = from.1.long_owes_short + funding_fee;
                if i64::MIN <= funding_fee <= i64::MAX && i64::MIN <= total <= i64::MAX {
                    r == Ok::<RolloverParams, CfdError>(
                        RolloverParams {
                            oracle_event_id: next_event_id,
                            tx_fee_rate,
                            funding_rate,
                            funding_fee: funding_fee as i64,
                            complete_fee_before: from.1,
                            complete_fee: CompleteFee { long_owes_short: total as i64 },
                            refund_timelock: old(self).dlc.unwrap().refund_timelock,
                        },
                    ) && only_phase_changed(*old(self), *final(self), RolloverPhase::Accepted)
                } else {
                    r == Err::<RolloverParams, CfdError>(CfdError::FeeOverflow) && *final(self)
                        == *old(self)
                }
            },
    {
        if self.state != CfdState::Open {
            return Err(CfdError::NotOpen);
        }
        let refund_timelock = match &self.dlc {
            None => {
                return Err(CfdError::NotOpen);
            },
            Some(dlc) => dlc.refund_timelock,
        };
        if self.rollover != RolloverPhase::Proposed {
            return Err(CfdError::NoProposal);
        }
        let wide = funding_fee(self.quantity, funding_rate);
        if wide < i64::MIN as i128 || wide > i64::MAX as i128 {
            return Err(CfdError::FeeOverflow);
        }
        let funding_fee = wide as i64;
        let total = match from.1.long_owes_short.checked_add(funding_fee) {
            None => {
                return Err(CfdError::FeeOverflow);
            },
            Some(t) => t,
        };
        self.rollover = RolloverPhase::Accepted;
        Ok(
            RolloverParams {
                oracle_event_id: next_event_id,
                tx_fee_rate,
                funding_rate,
                funding_fee,
                complete_fee_before: from.1,
                complete_fee: CompleteFee { long_owes_short: total },
                refund_timelock,
            },
        )
    }

    /// The handshake finished with `dlc`, which replaces the contract's DLC; the contract can
    /// be rolled over again.
    pub fn complete_rollover(&mut self, dlc: Dlc) -> (r: Result<(), CfdError>)
        ensures
            old(self).rollover == RolloverPhase::Accepted && is_open(*old(self)) ==> r is Ok
                && *final(self) == (Cfd { dlc: Some(dlc), rollover: RolloverPhase::Idle, ..*old(self) }),
            !(old(self).rollover == RolloverPhase::Accepted && is_open(*old(self))) ==> r == Err::<
                (),
                CfdError,
            >(CfdError::NoProposal) && *final(self) == *old(self),
    {
        if self.rollover != RolloverPhase::Accepted || self.state != CfdState::Open
            || self.dlc.is_none() {
            return Err(CfdError::NoProposal);
        }
        self.dlc = Some(dlc);
        self.rollover = RolloverPhase::Idle;
        Ok(())
    }

    /// A rollover attempt failed: whatever phase it reached is cleared so that a later
    /// proposal can start, and nothing else changes.
    pub fn fail_rollover(&mut self)
        ensures
            only_phase_changed(*old(self), *final(self), RolloverPhase::Idle),
    {
        self.rollover = RolloverPhase::Idle;
    }

    /// The maker rejected the pending proposal.
    pub fn reject_rollover(&mut self) -> (r: Result<(), CfdError>)
        ensures
            old(self).rollover == RolloverPhase::Proposed ==> r is Ok && only_phase_changed(
                *old(self),
                *final(self),
                RolloverPhase::Idle,
            ),
            old(self).rollover != RolloverPhase::Proposed ==> r == Err::<(), CfdError>(
                CfdError::NoProposal,
            ) && *final(self) == *old(self),
    {
        if self.rollover != RolloverPhase::Proposed {
            return Err(CfdError::NoProposal);
        }
        self.rollover = RolloverPhase::Idle;
        Ok(())
    }
}

} // verus!

//! One rollover handshake, from the maker's confirmation to the new DLC, as a state machine.
//! Each step names the work the host does next (send, receive under the message timeout,
//! ask the oracle, run the transaction builder); the host reports what came of it as the
//! next event, and any failure it meets as `Failure`.
use vstd::prelude::*;
use crate::cfd::RolloverParams;
use crate::model::{
    is_rolled_over, same_lock_and_identity, CompleteFee, Dlc, EventId, FundingRate, Key, OrderId, RolloverResult, TxFeeRate,
    TxPair, Txid,
};

verus! {

#[derive(Clone, Copy, Debug, PartialEq, Eq, Structural)]
pub enum Stage {
    Confirming,
    FetchingAnnouncement,
    AwaitingMsg0,
    BuildingOwnTransactions,
    AwaitingMsg1,
    VerifyingCets,
    AwaitingMsg2,
    Completed,
    Failed,
}

/// Why the host gave up on a step.
#[derive(Clone, Copy, Debug, PartialEq, Eq, Structural)]
pub enum FailureReason {
    SendFailed,
    Timeout,
    EndOfStream,
    DecodeFailed,
    UnexpectedMessage,
    NoAnnouncement,
    BuildFailed,
    VerificationFailed,
}

/// What came of the step the host was asked to do.
pub enum HandshakeEvent {
    ConfirmSent,
    AnnouncementFetched,
    /// The counterparty's Msg0.
    Msg0Received { revocation_pk: Key, publish_pk: Key },
    /// This side's Msg0 is sent and its new commit and refund transactions are built.
    OwnTransactionsBuilt { commit: Txid, refund: Txid },
    /// The counterparty's Msg1.
    Msg1Received { commit: Txid, refund: Txid },
    /// This side's Msg1 is sent, and the contract-execution and refund transactions are
    /// built and verified against both sides' data.
    CetsVerified { cets: Vec<Txid>, refund: Txid },
    /// The counterparty's Msg2: its revocation secret for the replaced commit, checked by the
    /// transaction builder.
    Msg2Received { revocation_sk: Key },
    Failure { reason: FailureReason },
}

/// The work the host does next.
pub enum HandshakeAction {
    SendConfirm {
        order_id: OrderId,
        oracle_event_id: EventId,
        tx_fee_rate: TxFeeRate,
        funding_rate: FundingRate,
        complete_fee: CompleteFee,
    },
    FetchAnnouncement { event_id: EventId },
    /// Receive the counterparty's Msg0 within the message timeout.
    ReceiveMsg0,
    /// Send this side's Msg0 and build the punishment parameters and own transactions.
    SendMsg0AndBuild { revocation_pk_counterparty: Key, publish_pk_counterparty: Key },
    /// Receive the counterparty's Msg1 within the message timeout.
    ReceiveMsg1,
    /// Send this side's Msg1, then build and verify the contract-execution transactions.
    SendMsg1AndVerify { commit_counterparty: Txid, refund_counterparty: Txid },
    /// Receive the counterparty's Msg2 within the message timeout.
    ReceiveMsg2,
    /// Reveal this side's revocation secret for the replaced commit (best effort: a failed
    /// send is only logged), then record the rollover as completed with `dlc`.
    Complete { revocation_sk: Key, dlc: Dlc, funding_fee: i64, complete_fee: CompleteFee },
    /// Record the rollover as failed for the contract.
    EmitFailed { order_id: OrderId },
    /// The handshake is over; nothing is left to do.
    Nothing,
}

pub open spec fn is_terminal(s: Stage) -> bool {
    s == Stage::Completed || s == Stage::Failed
}

/// The stage that the expected event of stage `s` leads to.
pub open spec fn successor(s: Stage) -> Stage {
    match s {
        Stage::Confirming => Stage::FetchingAnnouncement,
        Stage::FetchingAnnouncement => Stage::AwaitingMsg0,
        Stage::AwaitingMsg0 => Stage::BuildingOwnTransactions,
        Stage::BuildingOwnTransactions => Stage::AwaitingMsg1,
        Stage::AwaitingMsg1 => Stage::VerifyingCets,
        Stage::VerifyingCets => Stage::AwaitingMsg2,
        Stage::AwaitingMsg2 => Stage::Completed,
        Stage::Completed => Stage::Completed,
        Stage::Failed => Stage::Failed,
    }
}

/// Whether `e` is the event that stage `s` waits for.
pub open spec fn expected(s: Stage, e: HandshakeEvent) -> bool {
    match (s, e) {
        (Stage::Confirming, HandshakeEvent::ConfirmSent) => true,
        (Stage::FetchingAnnouncement, HandshakeEvent::AnnouncementFetched) => true,
        (Stage::AwaitingMsg0, HandshakeEvent::Msg0Received { .. }) => true,
        (Stage::BuildingOwnTransactions, HandshakeEvent::OwnTransactionsBuilt { .. }) => true,
        (Stage::AwaitingMsg1, HandshakeEvent::Msg1Received { .. }) => true,
        (Stage::VerifyingCets, HandshakeEvent::CetsVerified { .. }) => true,
        (Stage::AwaitingMsg2, HandshakeEvent::Msg2Received { .. }) => true,
        _ => false,
    }
}

/// The stage after event `e` in stage `s`: a terminal stage stays; the expected event
/// advances; a failure, or any other event, fails the handshake.
pub open spec fn next_stage(s: Stage, e: HandshakeEvent) -> Stage {
    if is_terminal(s) {
        s
    } else if expected(s, e) {
        successor(s)
    } else {
        Stage::Failed
    }
}

/// The stage after the events `es`, in order, from `s`.
pub open spec fn run(s: Stage, es: Seq<HandshakeEvent>) -> Stage
    decreases es.len(),
{
    if es.len() == 0 {
        s
    } else {
        next_stage(run(s, es.drop_last()), es.last())
    }
}

/// However a handshake went, once the host reports the failure that ended its task it is
/// either completed or failed: it is never left in progress.
pub proof fn lemma_never_left_in_progress(es: Seq<HandshakeEvent>, reason: FailureReason)
    ensures
        is_terminal(run(Stage::Confirming, es.push(HandshakeEvent::Failure { reason }))),
{
    assert(es.push(HandshakeEvent::Failure { reason }).drop_last() == es);
}

/// A terminal stage is never left again, whatever events follow.
pub proof fn lemma_terminal_is_final(s: Stage, es: Seq<HandshakeEvent>)
    requires
        is_terminal(s),
    ensures
        run(s, es) == s,
    decreases es.len(),
{
    if es.len() > 0 {
        lemma_terminal_is_final(s, es.drop_last());
    }
}

/// What a handshake holds: the contract, its DLC before the rollover, the accepted terms,
/// the stage reached, this side's fresh keys, and what each finished step produced.
pub struct HandshakeView {
    pub order_id: OrderId,
    pub dlc: Dlc,
    pub params: RolloverParams,
    pub stage: Stage,
    pub revocation: Key,
    pub revocation_pk: Key,
    pub publish: Key,
    pub publish_pk: Key,
    pub revocation_pk_counterparty: Key,
    pub publish_pk_counterparty: Key,
    pub own_commit: Txid,
    pub own_refund_unverified: Txid,
    pub commit_counterparty: Txid,
    pub refund_counterparty: Txid,
    pub cets: Seq<Txid>,
    pub refund: Txid,
}

/// One handshake for a contract, started from its DLC before the rollover.
pub struct Handshake {
    order_id: OrderId,
    dlc: Dlc,
    params: RolloverParams,
    stage: Stage,
    revocation: Key,
    revocation_pk: Key,
    publish: Key,
    publish_pk: Key,
    revocation_pk_counterparty: Key,
    publish_pk_counterparty: Key,
    own_commit: Txid,
    own_refund_unverified: Txid,
    commit_counterparty: Txid,
    refund_counterparty: Txid,
    cets: Vec<Txid>,
    refund: Txid,
}

/// What the handshake `h` negotiated, once the counterparty revealed `secret`.
pub open spec fn negotiated(h: HandshakeView, secret: Key, cets: Vec<Txid>) -> RolloverResult {
    RolloverResult {
        revocation: h.revocation,
        revocation_pk_counterparty: h.revocation_pk_counterparty,
        publish: h.publish,
        publish_pk_counterparty: h.publish_pk_counterparty,
        commit: TxPair { ours: h.own_commit, theirs: h.commit_counterparty },
        refund: TxPair { ours: h.refund, theirs: h.refund_counterparty },
        cets,
        revealed_secret: secret,
        settlement_event_id: h.params.oracle_event_id,
        complete_fee: h.params.complete_fee,
        complete_fee_before: h.params.complete_fee_before,
        refund_timelock: h.params.refund_timelock,
    }
}

/// `n` is the DLC that completing handshake `h` with the counterparty's `secret` yields.
pub open spec fn completes_with(h: HandshakeView, secret: Key, n: Dlc) -> bool {
    exists|cets: Vec<Txid>| cets@ == h.cets && #[trigger] is_rolled_over(h.dlc, negotiated(h, secret, cets), n)
}

impl Handshake {
    pub closed spec fn view(&self) -> HandshakeView {
        HandshakeView {
            order_id: self.order_id,
            dlc: self.dlc,
            params: self.params,
            stage: self.stage,
            revocation: self.revocation,
            revocation_pk: self.revocation_pk,
            publish: self.publish,
            publish_pk: self.publish_pk,
            revocation_pk_counterparty: self.revocation_pk_counterparty,
            publish_pk_counterparty: self.publish_pk_counterparty,
            own_commit: self.own_commit,
            own_refund_unverified: self.own_refund_unverified,
            commit_counterparty: self.commit_counterparty,
            refund_counterparty: self.refund_counterparty,
            cets: self.cets@,
            refund: self.refund,
        }
    }

    pub fn stage(&self) -> (r: Stage)
        ensures
            r == self.view().stage,
    {
        self.stage
    }

    pub fn order_id(&self) -> (r: OrderId)
        ensures
            r == self.view().order_id,
    {
        self.order_id
    }

    /// A handshake for `order_id` with the accepted `params`, this side's fresh keys, and the
    /// DLC before the rollover. Its first step is to send the confirmation.
    pub fn new(
        order_id: OrderId,
        dlc: Dlc,
        params: RolloverParams,
        revocation: Key,
        revocation_pk: Key,
        publish: Key,
        publish_pk: Key,
    ) -> (r: (Handshake, HandshakeAction))
        ensures
            r.0.view() == (HandshakeView {
                order_id,
                dlc,
                params,
                stage: Stage::Confirming,
                revocation,
                revocation_pk,
                publish,
                publish_pk,
                revocation_pk_counterparty: 0,
                publish_pk_counterparty: 0,
                own_commit: 0,
                own_refund_unverified: 0,
                commit_counterparty: 0,
                refund_counterparty: 0,
                cets: Seq::empty(),
                refund: 0,
            }),
            r.1 == (HandshakeAction::SendConfirm {
                order_id,
                oracle_event_id: params.oracle_event_id,
                tx_fee_rate: params.tx_fee_rate,
                funding_rate: params.funding_rate,
                complete_fee: params.complete_fee,
            }),
    {
        let h = Handshake {
            order_id,
            dlc,
            params,
            stage: Stage::Confirming,
            revocation,
            revocation_pk,
            publish,
            publish_pk,
            revocation_pk_counterparty: 0,
            publish_pk_counterparty: 0,
            own_commit: 0,
            own_refund_unverified: 0,
            commit_counterparty: 0,
            refund_counterparty: 0,
            cets: Vec::new(),
            refund: 0,
        };
        (
            h,
            HandshakeAction::SendConfirm {
                order_id,
                oracle_event_id: params.oracle_event_id,
                tx_fee_rate: params.tx_fee_rate,
                funding_rate: params.funding_rate,
                complete_fee: params.complete_fee,
            },
        )
    }

    /// Applies what came of the last step and names the next one. Each step records what it
    /// produced and keeps everything recorded before.
    pub fn step(&mut self, e: HandshakeEvent) -> (a: HandshakeAction)
        ensures
            final(self).view().stage == next_stage(old(self).view().stage, e),
            is_terminal(old(self).view().stage) ==> final(self).view() == old(self).view() && a
                == HandshakeAction::Nothing,
            !is_terminal(old(self).view().stage) && !expected(old(self).view().stage, e) ==> a == (
            HandshakeAction::EmitFailed { order_id: old(self).view().order_id })
                && final(self).view() == (HandshakeView {
                stage: Stage::Failed,
                ..old(self).view()
            }),
            expected(old(self).view().stage, e) ==> match e {
                HandshakeEvent::ConfirmSent => a == (HandshakeAction::FetchAnnouncement {
                    event_id: old(self).view().params.oracle_event_id,
                }) && final(self).view() == (HandshakeView {
                    stage: Stage::FetchingAnnouncement,
                    ..old(self).view()
                }),
                HandshakeEvent::AnnouncementFetched => a == HandshakeAction::ReceiveMsg0
                    && final(self).view() == (HandshakeView {
                    stage: Stage::AwaitingMsg0,
                    ..old(self).view()
                }),
                HandshakeEvent::Msg0Received { revocation_pk, publish_pk } => a == (
                HandshakeAction::SendMsg0AndBuild {
                    revocation_pk_counterparty: revocation_pk,
                    publish_pk_counterparty: publish_pk,
                }) && final(self).view() == (HandshakeView {
                    stage: Stage::BuildingOwnTransactions,
                    revocation_pk_counterparty: revocation_pk,
                    publish_pk_counterparty: publish_pk,
                    ..old(self).view()
                }),
                HandshakeEvent::OwnTransactionsBuilt { commit, refund } => a
                    == HandshakeAction::ReceiveMsg1 && final(self).view() == (HandshakeView {
                    stage: Stage::AwaitingMsg1,
                    own_commit: commit,
                    own_refund_unverified: refund,
                    ..old(self).view()
                }),
                HandshakeEvent::Msg1Received { commit, refund } => a == (
                HandshakeAction::SendMsg1AndVerify {
                    commit_counterparty: commit,
                    refund_counterparty: refund,
                }) && final(self).view() == (HandshakeView {
                    stage: Stage::VerifyingCets,
                    commit_counterparty: commit,
                    refund_counterparty: refund,
                    ..old(self).view()
                }),
                HandshakeEvent::CetsVerified { cets, refund } => a == HandshakeAction::ReceiveMsg2
                    && final(self).view() == (HandshakeView {
                    stage: Stage::AwaitingMsg2,
                    cets: cets@,
                    refund,
                    ..old(self).view()
                }),
                HandshakeEvent::Msg2Received { revocation_sk } => final(self).view() == (
                HandshakeView { stage: Stage::Completed, ..old(self).view() }) && match a {
                    HandshakeAction::Complete {
                        revocation_sk: revealed,
                        dlc,
                        funding_fee,
                        complete_fee,
                    } => {
                        &&& revealed == old(self).view().dlc.revocation
                        &&& completes_with(old(self).view(), revocation_sk, dlc)
                        &&& same_lock_and_identity(old(self).view().dlc, dlc)
                        &&& dlc.revoked_commit@.len() == old(self).view().dlc.revoked_commit@.len() + 1
                        &&& funding_fee == old(self).view().params.funding_fee
                        &&& complete_fee == old(self).view().params.complete_fee
                    },
                    _ => false,
                },
                HandshakeEvent::Failure { .. } => false,
            },
    {
        if self.stage == Stage::Completed || self.stage == Stage::Failed {
            return HandshakeAction::Nothing;
        }
        match e {
            HandshakeEvent::ConfirmSent => {
                if self.stage == Stage::Confirming {
                    self.stage = Stage::FetchingAnnouncement;
                    return HandshakeAction::FetchAnnouncement { event_id: self.params.oracle_event_id };
                }
            },
            HandshakeEvent::AnnouncementFetched => {
                if self.stage == Stage::FetchingAnnouncement {
                    self.stage = Stage::AwaitingMsg0;
                    return HandshakeAction::ReceiveMsg0;
                }
            },
            HandshakeEvent::Msg0Received { revocation_pk, publish_pk } => {
                if self.stage == Stage::AwaitingMsg0 {
                    self.stage = Stage::BuildingOwnTransactions;
                    self.revocation_pk_counterparty = revocation_pk;
                    self.publish_pk_counterparty = publish_pk;
                    return HandshakeAction::SendMsg0AndBuild {
                        revocation_pk_counterparty: revocation_pk,
                        publish_pk_counterparty: publish_pk,
                    };
                }
            },
            HandshakeEvent::OwnTransactionsBuilt { commit, refund } => {
                if self.stage == Stage::BuildingOwnTransactions {
                    self.stage = Stage::AwaitingMsg1;
                    self.own_commit = commit;
                    self.own_refund_unverified = refund;
                    return HandshakeAction::ReceiveMsg1;
                }
            },
            HandshakeEvent::Msg1Received { commit, refund } => {
                if self.stage == Stage::AwaitingMsg1 {
                    self.stage = Stage::VerifyingCets;
                    self.commit_counterparty = commit;
                    self.refund_counterparty = refund;
                    return HandshakeAction::SendMsg1AndVerify {
                        commit_counterparty: commit,
                        refund_counterparty: refund,
                    };
                }
            },
            HandshakeEvent::CetsVerified { cets, refund } => {
                if self.stage == Stage::VerifyingCets {
                    self.stage = Stage::AwaitingMsg2;
                    self.cets = cets;
                    self.refund = refund;
                    return HandshakeAction::ReceiveMsg2;
                }
            },
            HandshakeEvent::Msg2Received { revocation_sk } => {
                if self.stage == Stage::AwaitingMsg2 {
                    let result = RolloverResult {
                        revocation: self.revocation,
                        revocation_pk_counterparty: self.revocation_pk_counterparty,
                        publish: self.publish,
                        publish_pk_counterparty: self.publish_pk_counterparty,
                        commit: TxPair { ours: self.own_commit, theirs: self.commit_counterparty },
                        refund: TxPair { ours: self.refund, theirs: self.refund_counterparty },
                        cets: self.cets.clone(),
                        revealed_secret: revocation_sk,
                        settlement_event_id: self.params.oracle_event_id,
                        complete_fee: self.params.complete_fee,
                        complete_fee_before: self.params.complete_fee_before,
                        refund_timelock: self.params.refund_timelock,
                    };
                    assert(result.cets@ == self.cets@);
                    assert(result == negotiated(self.view(), revocation_sk, result.cets));
                    let dlc = self.dlc.rolled_over(&result);
                    assert(is_rolled_over(self.dlc, negotiated(self.view(), revocation_sk, result.cets), dlc));
                    self.stage = Stage::Completed;
                    return HandshakeAction::Complete {
                        revocation_sk: self.dlc.revocation,
                        dlc,
                        funding_fee: self.params.funding_fee,
                        complete_fee: self.params.complete_fee,
                    };
                }
            },
            HandshakeEvent::Failure { .. } => {},
        }
        self.stage = Stage::Failed;
        HandshakeAction::EmitFailed { order_id: self.order_id }
    }
}

} // verus!

use cfd_maker::cfd::{Cfd, CfdError, CfdState, Order, RolloverPhase};
use cfd_maker::handshake::{FailureReason, Handshake, HandshakeAction, HandshakeEvent, Stage};
use cfd_maker::model::{funding_fee, CompleteFee, Dlc, FundingRate, Position, TxFeeRate, TxPair};
use cfd_maker::rollover::{accept_rollover, Accept, Actor, ProposeDecision, Reject, RolloverError};

const TAKER: u128 = 77;

fn dlc() -> Dlc {
    Dlc {
        identity: 1,
        identity_counterparty: 2,
        revocation: 3,
        revocation_pk_counterparty: 4,
        publish: 5,
        publish_pk_counterparty: 6,
        maker_address: 7,
        taker_address: 8,
        lock: 9,
        maker_lock_amount: 1000,
        taker_lock_amount: 2000,
        commit: TxPair { ours: 10, theirs: 11 },
        refund: TxPair { ours: 12, theirs: 13 },
        cets: vec![14, 15],
        revoked_commit: vec![],
        settlement_event_id: 100,
        complete_fee: CompleteFee { long_owes_short: 5 },
        refund_timelock: 144,
    }
}

fn open_cfd(position: Position) -> Cfd {
    let order = Order {
        id: 42,
        price: 50_000,
        min_quantity: 10,
        max_quantity: 100,
        creation_timestamp: 1,
        position,
    };
    let mut cfd = Cfd::new(order, 1_000_000, TAKER);
    cfd.start_contract_setup().unwrap();
    cfd.complete_contract_setup(dlc()).unwrap();
    cfd.confirm_lock().unwrap();
    cfd
}

fn accept_msg() -> Accept {
    Accept {
        order_id: 42,
        tx_fee_rate: TxFeeRate { sat_per_vbyte: 2 },
        long_funding_rate: FundingRate { ppm: 300 },
        short_funding_rate: FundingRate { ppm: -300 },
    }
}

#[test]
fn propose_from_wrong_peer_fails_and_leaves_no_pending_entry() {
    let mut cfd = open_cfd(Position::Long);
    let before = cfd.clone();
    let checked = cfd.start_rollover_maker(99, 11);
    assert_eq!(checked, Err(CfdError::CounterpartyMismatch));
    assert_eq!(cfd.rollover, RolloverPhase::Idle);
    assert_eq!(cfd.state, before.state);

    let mut actor: Actor<&str, u32> = Actor::new(5, 200);
    match actor.handle_propose(42, 99, "channel", checked) {
        ProposeDecision::Failed { channel } => assert_eq!(channel, "channel"),
        ProposeDecision::Pending { .. } => panic!("a refused proposal must not be pending"),
    }
    assert!(!actor.has_pending(42));
    cfd.fail_rollover();
    assert_eq!(cfd.rollover, RolloverPhase::Idle);
}

#[test]
fn accept_without_proposal_is_no_active_negotiation() {
    let mut actor: Actor<&str, u32> = Actor::new(5, 200);
    let r = actor.handle_accept(accept_msg(), 1);
    assert!(matches!(r, Err(RolloverError::NoActiveNegotiation)));
    // no task was registered: a later accept after a proposal supersedes nothing
    actor.handle_propose(42, TAKER, "c", Ok((100, CompleteFee { long_owes_short: 5 })));
    let d = actor.handle_accept(accept_msg(), 2).ok().unwrap();
    assert!(d.superseded.is_none());
    assert_eq!(d.pending.channel, "c");
    assert_eq!(d.pending.peer, TAKER);
    assert_eq!(d.pending.from_event_id, 100);
    assert!(!actor.has_pending(42));
}

#[test]
fn reject_without_proposal_is_no_active_negotiation() {
    let mut actor: Actor<&str, u32> = Actor::new(5, 200);
    let r = actor.handle_reject(Reject { order_id: 42 }, 1);
    assert!(matches!(r, Err(RolloverError::NoActiveNegotiation)));
}

#[test]
fn reject_consumes_pending_and_supersedes_task() {
    let mut actor: Actor<&str, u32> = Actor::new(5, 200);
    actor.handle_propose(42, TAKER, "a", Ok((100, CompleteFee { long_owes_short: 0 })));
    let d = actor.handle_accept(accept_msg(), 1).ok().unwrap();
    assert!(d.superseded.is_none());
    match actor.handle_propose(42, TAKER, "b", Ok((100, CompleteFee { long_owes_short: 0 }))) {
        ProposeDecision::Pending { replaced } => assert!(replaced.is_none()),
        ProposeDecision::Failed { .. } => panic!("proposal should be pending"),
    }
    let d = actor.handle_reject(Reject { order_id: 42 }, 2).ok().unwrap();
    assert_eq!(d.pending.channel, "b");
    assert_eq!(d.superseded, Some(1));
    assert!(!actor.has_pending(42));
}

#[test]
fn second_proposal_replaces_first() {
    let mut actor: Actor<&str, u32> = Actor::new(5, 200);
    actor.handle_propose(42, TAKER, "a", Ok((100, CompleteFee { long_owes_short: 0 })));
    match actor.handle_propose(42, TAKER, "b", Ok((101, CompleteFee { long_owes_short: 0 }))) {
        ProposeDecision::Pending { replaced } => assert_eq!(replaced, Some("a")),
        ProposeDecision::Failed { .. } => panic!("proposal should be pending"),
    }
    assert_eq!(actor.oracle_pk(), 5);
    assert_eq!(actor.n_payouts(), 200);
}

#[test]
fn funding_rate_follows_own_position() {
    for (position, expected, fee, total) in [(Position::Long, 300, 300, 305), (Position::Short, -300, -300, -295)] {
        let mut cfd = open_cfd(position);
        let ctx = cfd.start_rollover_maker(TAKER, 11).unwrap();
        assert_eq!(ctx, (100, CompleteFee { long_owes_short: 5 }));
        let params = accept_rollover(&mut cfd, &accept_msg(), ctx, 200).unwrap();
        assert_eq!(params.funding_rate, FundingRate { ppm: expected });
        assert_eq!(params.tx_fee_rate, TxFeeRate { sat_per_vbyte: 2 });
        assert_eq!(params.oracle_event_id, 200);
        assert_eq!(params.complete_fee_before, CompleteFee { long_owes_short: 5 });
        assert_eq!(params.funding_fee, fee);
        assert_eq!(params.complete_fee, CompleteFee { long_owes_short: total });
        assert_eq!(params.refund_timelock, 144);
        assert_eq!(cfd.rollover, RolloverPhase::Accepted);
    }
}

#[test]
fn rollover_errors() {
    let mut cfd = open_cfd(Position::Long);
    assert_eq!(cfd.start_rollover_maker(TAKER, 999), Err(CfdError::UnknownCommit));
    let ctx = (100, CompleteFee { long_owes_short: 5 });
    assert_eq!(
        accept_rollover(&mut cfd, &accept_msg(), ctx, 200),
        Err(CfdError::NoProposal)
    );
    cfd.start_rollover_maker(TAKER, 11).unwrap();
    assert_eq!(
        accept_rollover(&mut cfd, &accept_msg(), (100, CompleteFee { long_owes_short: i64::MAX }), 200),
        Err(CfdError::FeeOverflow)
    );
    accept_rollover(&mut cfd, &accept_msg(), ctx, 200).unwrap();
    assert_eq!(cfd.start_rollover_maker(TAKER, 11), Err(CfdError::RolloverInProgress));
    assert_eq!(cfd.reject_rollover(), Err(CfdError::NoProposal));

    let order = cfd.order;
    let mut fresh = Cfd::new(order, 10, TAKER);
    assert_eq!(fresh.start_rollover_maker(TAKER, 11), Err(CfdError::NotOpen));
    assert_eq!(fresh.confirm_lock(), Err(CfdError::InvalidState));
    assert_eq!(fresh.complete_contract_setup(dlc()), Err(CfdError::InvalidState));
    assert_eq!(fresh.complete_rollover(dlc()), Err(CfdError::NoProposal));
    assert_eq!(fresh.state, CfdState::Accepted);
}

#[test]
fn reject_rollover_clears_proposal() {
    let mut cfd = open_cfd(Position::Short);
    cfd.start_rollover_maker(TAKER, 11).unwrap();
    assert_eq!(cfd.reject_rollover(), Ok(()));
    assert_eq!(cfd.rollover, RolloverPhase::Idle);
}

fn started(cfd: &mut Cfd) -> (Handshake, HandshakeAction) {
    let ctx = cfd.start_rollover_maker(TAKER, 11).unwrap();
    let params = accept_rollover(cfd, &accept_msg(), ctx, 200).unwrap();
    Handshake::new(42, cfd.dlc.clone().unwrap(), params, 30, 31, 32, 33)
}

fn run_to_msg1(h: &mut Handshake) {
    assert!(matches!(h.step(HandshakeEvent::ConfirmSent), HandshakeAction::FetchAnnouncement { event_id: 200 }));
    assert!(matches!(h.step(HandshakeEvent::AnnouncementFetched), HandshakeAction::ReceiveMsg0));
    assert!(matches!(
        h.step(HandshakeEvent::Msg0Received { revocation_pk: 40, publish_pk: 41 }),
        HandshakeAction::SendMsg0AndBuild { revocation_pk_counterparty: 40, publish_pk_counterparty: 41 }
    ));
    assert!(matches!(
        h.step(HandshakeEvent::OwnTransactionsBuilt { commit: 50, refund: 51 }),
        HandshakeAction::ReceiveMsg1
    ));
    assert_eq!(h.stage(), Stage::AwaitingMsg1);
}

#[test]
fn handshake_completes_with_new_dlc() {
    let mut cfd = open_cfd(Position::Long);
    let (mut h, first) = started(&mut cfd);
    match first {
        HandshakeAction::SendConfirm { order_id, oracle_event_id, tx_fee_rate, funding_rate, complete_fee } => {
            assert_eq!(order_id, 42);
            assert_eq!(oracle_event_id, 200);
            assert_eq!(tx_fee_rate, TxFeeRate { sat_per_vbyte: 2 });
            assert_eq!(funding_rate, FundingRate { ppm: 300 });
            assert_eq!(complete_fee, CompleteFee { long_owes_short: 305 });
        }
        _ => panic!("the first step sends the confirmation"),
    }
    run_to_msg1(&mut h);
    assert!(matches!(
        h.step(HandshakeEvent::Msg1Received { commit: 60, refund: 61 }),
        HandshakeAction::SendMsg1AndVerify { commit_counterparty: 60, refund_counterparty: 61 }
    ));
    assert!(matches!(
        h.step(HandshakeEvent::CetsVerified { cets: vec![70, 71, 72], refund: 73 }),
        HandshakeAction::ReceiveMsg2
    ));
    let new_dlc = match h.step(HandshakeEvent::Msg2Received { revocation_sk: 80 }) {
        HandshakeAction::Complete { revocation_sk, dlc, funding_fee, complete_fee } => {
            assert_eq!(revocation_sk, 3);
            assert_eq!(funding_fee, 300);
            assert_eq!(complete_fee, CompleteFee { long_owes_short: 305 });
            dlc
        }
        _ => panic!("the handshake should complete"),
    };
    assert_eq!(h.stage(), Stage::Completed);
    assert_eq!(new_dlc.identity, 1);
    assert_eq!(new_dlc.identity_counterparty, 2);
    assert_eq!(new_dlc.lock, 9);
    assert_eq!(new_dlc.maker_lock_amount, 1000);
    assert_eq!(new_dlc.revocation, 30);
    assert_eq!(new_dlc.publish, 32);
    assert_eq!(new_dlc.revocation_pk_counterparty, 40);
    assert_eq!(new_dlc.publish_pk_counterparty, 41);
    assert_eq!(new_dlc.commit, TxPair { ours: 50, theirs: 60 });
    assert_eq!(new_dlc.refund, TxPair { ours: 73, theirs: 61 });
    assert_eq!(new_dlc.cets, vec![70, 71, 72]);
    assert_eq!(new_dlc.settlement_event_id, 200);
    assert_eq!(new_dlc.revoked_commit.len(), 1);
    assert_eq!(new_dlc.revoked_commit[0].txid, 10);
    assert_eq!(new_dlc.revoked_commit[0].revocation_sk_theirs, 80);
    assert_eq!(new_dlc.revoked_commit[0].settlement_event_id, 100);
    assert_eq!(new_dlc.revoked_commit[0].complete_fee, CompleteFee { long_owes_short: 5 });
    assert_eq!(new_dlc.complete_fee, CompleteFee { long_owes_short: 305 });
    // a finished handshake ignores anything further
    assert!(matches!(h.step(HandshakeEvent::ConfirmSent), HandshakeAction::Nothing));

    cfd.complete_rollover(new_dlc).unwrap();
    assert_eq!(cfd.rollover, RolloverPhase::Idle);
    assert_eq!(cfd.dlc.as_ref().unwrap().commit.theirs, 60);
}

#[test]
fn msg1_timeout_fails_and_contract_stays_eligible() {
    let mut cfd = open_cfd(Position::Long);
    let dlc_before = cfd.dlc.clone().unwrap();
    let (mut h, _) = started(&mut cfd);
    run_to_msg1(&mut h);
    let a = h.step(HandshakeEvent::Failure { reason: FailureReason::Timeout });
    assert!(matches!(a, HandshakeAction::EmitFailed { order_id: 42 }));
    assert_eq!(h.stage(), Stage::Failed);
    cfd.fail_rollover();
    let after = cfd.dlc.clone().unwrap();
    assert_eq!(after.commit, dlc_before.commit);
    assert_eq!(after.revoked_commit.len(), 0);
    assert_eq!(after.revocation, dlc_before.revocation);
    // a new proposal can start
    assert!(cfd.start_rollover_maker(TAKER, 11).is_ok());
}

#[test]
fn unexpected_event_fails_handshake() {
    let mut cfd = open_cfd(Position::Long);
    let (mut h, _) = started(&mut cfd);
    let a = h.step(HandshakeEvent::Msg2Received { revocation_sk: 1 });
    assert!(matches!(a, HandshakeAction::EmitFailed { order_id: 42 }));
    assert_eq!(h.stage(), Stage::Failed);
}

#[test]
fn revoked_history_grows_by_one_per_rollover() {
    let mut cfd = open_cfd(Position::Long);
    for n in 1..=3u128 {
        let (mut h, _) = started(&mut cfd);
        run_to_msg1(&mut h);
        h.step(HandshakeEvent::Msg1Received { commit: 60 + n, refund: 61 });
        h.step(HandshakeEvent::CetsVerified { cets: vec![70], refund: 73 });
        let dlc = match h.step(HandshakeEvent::Msg2Received { revocation_sk: 80 + n }) {
            HandshakeAction::Complete { dlc, .. } => dlc,
            _ => panic!("the handshake should complete"),
        };
        assert_eq!(dlc.revoked_commit.len() as u128, n);
        cfd.complete_rollover(dlc).unwrap();
        // the counterparty's commit of this rollover is what the next proposal starts from
        let theirs = cfd.dlc.as_ref().unwrap().commit.theirs;
        assert_eq!(theirs, 60 + n);
        cfd.dlc.as_mut().unwrap().commit.theirs = 11;
    }
    let history = &cfd.dlc.as_ref().unwrap().revoked_commit;
    assert_eq!(history.len(), 3);
    assert_eq!(history[0].txid, 10);
    assert_eq!(history[1].revocation_sk_theirs, 82);
}

#[test]
fn funding_fee_rounds_toward_zero() {
    assert_eq!(funding_fee(1_000_000, FundingRate { ppm: 300 }), 300);
    assert_eq!(funding_fee(999, FundingRate { ppm: -1500 }), -1);
    assert_eq!(funding_fee(999, FundingRate { ppm: 1500 }), 1);
    assert_eq!(funding_fee(u64::MAX, FundingRate { ppm: i64::MIN }), -((u64::MAX as i128) * (1i128 << 63) / 1_000_000));
}

#[test]
fn funding_fee_too_large_is_refused() {
    let order = Order { id: 42, price: 1, min_quantity: 1, max_quantity: 1, creation_timestamp: 1, position: Position::Long };
    let mut cfd = Cfd::new(order, u64::MAX, TAKER);
    cfd.start_contract_setup().unwrap();
    cfd.complete_contract_setup(dlc()).unwrap();
    cfd.confirm_lock().unwrap();
    let ctx = cfd.start_rollover_maker(TAKER, 11).unwrap();
    let msg = Accept { long_funding_rate: FundingRate { ppm: i64::MAX }, ..accept_msg() };
    assert_eq!(accept_rollover(&mut cfd, &msg, ctx, 200), Err(CfdError::FeeOverflow));
    assert_eq!(cfd.rollover, RolloverPhase::Proposed);
}

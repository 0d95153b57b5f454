//! The contract (CFD) model: identifiers, the materialised DLC with its revoked-commit
//! history, and the pure state transitions that the command executor applies.
use vstd::prelude::*;

verus! {

/// Identifies an order and the contract opened against it.
pub type OrderId = u128;

/// Identifies a peer on the transport.
pub type PeerId = u128;

/// Identifies a transaction.
pub type Txid = u128;

/// A key, public or secret, as the transaction builder hands it out.
pub type Key = u128;

/// Identifies an oracle price event.
pub type EventId = u64;

#[derive(Clone, Copy, Debug, PartialEq, Eq, Structural)]
pub enum Position {
    Long,
    Short,
}

#[derive(Clone, Copy, Debug, PartialEq, Eq, Structural)]
pub enum Role {
    Maker,
    Taker,
}

/// A funding rate in parts per million per funding period; positive when long pays short.
#[derive(Clone, Copy, Debug, PartialEq, Eq, Structural)]
pub struct FundingRate {
    pub ppm: i64,
}

/// A transaction fee rate in satoshi per virtual byte.
#[derive(Clone, Copy, Debug, PartialEq, Eq, Structural)]
pub struct TxFeeRate {
    pub sat_per_vbyte: u32,
}

/// A settled fee between the parties, in satoshi: positive when long owes short.
#[derive(Clone, Copy, Debug, PartialEq, Eq, Structural)]
pub struct CompleteFee {
    pub long_owes_short: i64,
}

/// The funding rate that applies to a contract: the one configured for its own recorded
/// position, whichever side proposed the rollover.
pub open spec fn rate_for(position: Position, long: FundingRate, short: FundingRate) -> FundingRate {
    match position {
        Position::Long => long,
        Position::Short => short,
    }
}

pub fn select_funding_rate(position: Position, long: FundingRate, short: FundingRate) -> (r:
    FundingRate)
    ensures
        r == rate_for(position, long, short),
{
    match position {
        Position::Long => long,
        Position::Short => short,
    }
}

/// A transaction of this side and the matching one of the counterparty.
#[derive(Clone, Copy, Debug, PartialEq, Eq, Structural)]
pub struct TxPair {
    pub ours: Txid,
    pub theirs: Txid,
}

/// The funding fee for one funding period on a notional of `quantity` at `rate`: the
/// notional times the rate in parts per million, rounded toward zero; positive when long
/// pays short.
pub open spec fn funding_fee_for(quantity: u64, rate: FundingRate) -> int {
    if rate.ppm >= 0 {
        (quantity * rate.ppm) / 1_000_000
    } else {
        -((quantity * (-rate.ppm)) / 1_000_000)
    }
}

pub fn funding_fee(quantity: u64, rate: FundingRate) -> (r: i128)
    ensures
        r == funding_fee_for(quantity, rate),
{
    let magnitude: u128 = if rate.ppm >= 0 {
        rate.ppm as u128
    } else {
        (-(rate.ppm as i128)) as u128
    };
    let q = quantity as u128;
    assert(q * magnitude <= 0xffff_ffff_ffff_ffff * 0x8000_0000_0000_0000) by (nonlinear_arith)
        requires
            q <= 0xffff_ffff_ffff_ffff,
            magnitude <= 0x8000_0000_0000_0000,
    ;
    let scaled: u128 = q * magnitude / 1_000_000;
    if rate.ppm >= 0 {
        scaled as i128
    } else {
        -(scaled as i128)
    }
}

/// A commit transaction that has been replaced, with the counterparty's revealed revocation
/// secret that lets this side punish its publication.
#[derive(Clone, Copy, Debug, PartialEq, Eq, Structural)]
pub struct RevokedCommit {
    pub txid: Txid,
    pub revocation_sk_theirs: Key,
    pub settlement_event_id: EventId,
    pub complete_fee: CompleteFee,
}

/// The materialised cryptographic contract.
#[derive(Clone, Debug)]
pub struct Dlc {
    pub identity: Key,
    pub identity_counterparty: Key,
    pub revocation: Key,
    pub revocation_pk_counterparty: Key,
    pub publish: Key,
    pub publish_pk_counterparty: Key,
    pub maker_address: u128,
    pub taker_address: u128,
    pub lock: Txid,
    pub maker_lock_amount: u64,
    pub taker_lock_amount: u64,
    /// This side's commit transaction, and the counterparty's.
    pub commit: TxPair,
    /// This side's refund transaction, and the counterparty's.
    pub refund: TxPair,
    pub cets: Vec<Txid>,
    pub revoked_commit: Vec<RevokedCommit>,
    pub settlement_event_id: EventId,
    pub complete_fee: CompleteFee,
    pub refund_timelock: u32,
}

/// What a finished rollover handshake produced and must replace in the contract.
#[derive(Clone, Debug)]
pub struct RolloverResult {
    pub revocation: Key,
    pub revocation_pk_counterparty: Key,
    pub publish: Key,
    pub publish_pk_counterparty: Key,
    pub commit: TxPair,
    pub refund: TxPair,
    pub cets: Vec<Txid>,
    /// The counterparty's revocation secret for the commit being replaced.
    pub revealed_secret: Key,
    pub settlement_event_id: EventId,
    pub complete_fee: CompleteFee,
    /// The fee settled before this rollover, recorded with the revoked commit.
    pub complete_fee_before: CompleteFee,
    pub refund_timelock: u32,
}

/// The fields that a rollover never touches.
pub open spec fn same_lock_and_identity(a: Dlc, b: Dlc) -> bool {
    &&& a.identity == b.identity
    &&& a.identity_counterparty == b.identity_counterparty
    &&& a.maker_address == b.maker_address
    &&& a.taker_address == b.taker_address
    &&& a.lock == b.lock
    &&& a.maker_lock_amount == b.maker_lock_amount
    &&& a.taker_lock_amount == b.taker_lock_amount
}

/// The entry that revokes `d`'s current commit in the rollover `r`: the counterparty's
/// revealed secret and the fee settled before the rollover.
pub open spec fn revoked_entry(d: Dlc, r: RolloverResult) -> RevokedCommit {
    RevokedCommit {
        txid: d.commit.ours,
        revocation_sk_theirs: r.revealed_secret,
        settlement_event_id: d.settlement_event_id,
        complete_fee: r.complete_fee_before,
    }
}

/// `n` is `d` after the rollover `r`: new keys and transactions, the replaced commit appended
/// to the history, lock and identity kept.
pub open spec fn is_rolled_over(d: Dlc, r: RolloverResult, n: Dlc) -> bool {
    &&& same_lock_and_identity(d, n)
    &&& n.revocation == r.revocation
    &&& n.revocation_pk_counterparty == r.revocation_pk_counterparty
    &&& n.publish == r.publish
    &&& n.publish_pk_counterparty == r.publish_pk_counterparty
    &&& n.commit == r.commit
    &&& n.refund == r.refund
    &&& n.cets@ == r.cets@
    &&& n.revoked_commit@ == d.revoked_commit@.push(revoked_entry(d, r))
    &&& n.settlement_event_id == r.settlement_event_id
    &&& n.complete_fee == r.complete_fee
    &&& n.refund_timelock == r.refund_timelock
}

/// Each contract of `ds` is the one before it after the rollover of `rs` at that place.
pub open spec fn is_rollover_chain(ds: Seq<Dlc>, rs: Seq<RolloverResult>) -> bool {
    &&& ds.len() == rs.len() + 1
    &&& forall|i: int| 0 <= i < rs.len() ==> is_rolled_over(#[trigger] ds[i], rs[i], ds[i + 1])
}

/// After any number of successful rollovers the revoked-commit history has grown by
/// exactly one entry per rollover, and every entry it held before is still there in place.
pub proof fn lemma_history_grows_by_one_per_rollover(ds: Seq<Dlc>, rs: Seq<RolloverResult>)
    requires
        is_rollover_chain(ds, rs),
    ensures
        ds.last().revoked_commit@.len() == ds[0].revoked_commit@.len() + rs.len(),
        ds[0].revoked_commit@.is_prefix_of(ds.last().revoked_commit@),
        same_lock_and_identity(ds[0], ds.last()),
    decreases rs.len(),
{
    if rs.len() > 0 {
        let ds2 = ds.drop_last();
        let rs2 = rs.drop_last();
        assert forall|i: int| 0 <= i < rs2.len() implies is_rolled_over(
            #[trigger] ds2[i],
            rs2[i],
            ds2[i + 1],
        ) by {
            assert(is_rolled_over(ds[i], rs[i], ds[i + 1]));
        }
        lemma_history_grows_by_one_per_rollover(ds2, rs2);
        let k = rs.len() - 1;
        assert(is_rolled_over(ds[k], rs[k], ds[k + 1]));
        assert(ds2.last() == ds[k]);
    }
}

fn copy_vec<T: Copy>(v: &Vec<T>) -> (r: Vec<T>)
    ensures
        r@ == v@,
{
    let mut r: Vec<T> = Vec::new();
    let mut i: usize = 0;
    while i < v.len()
        invariant
            0 <= i <= v.len(),
            r@ == v@.take(i as int),
        decreases v.len() - i,
    {
        r.push(v[i]);
        i += 1;
        assert(r@ =~= v@.take(i as int));
    }
    assert(v@.take(v.len() as int) =~= v@);
    r
}

impl Dlc {
    /// The contract after a finished rollover: the negotiated keys and transactions replace
    /// the old ones, the replaced commit joins the revoked history with the counterparty's
    /// secret, and lock and identity fields stay.
    pub fn rolled_over(&self, r: &RolloverResult) -> (n: Dlc)
        ensures
            is_rolled_over(*self, *r, n),
    {
        let mut revoked_commit = copy_vec(&self.revoked_commit);
        revoked_commit.push(
            RevokedCommit {
                txid: self.commit.ours,
                revocation_sk_theirs: r.revealed_secret,
                settlement_event_id: self.settlement_event_id,
                complete_fee: r.complete_fee_before,
            },
        );
        Dlc {
            identity: self.identity,
            identity_counterparty: self.identity_counterparty,
            revocation: r.revocation,
            revocation_pk_counterparty: r.revocation_pk_counterparty,
            publish: r.publish,
            publish_pk_counterparty: r.publish_pk_counterparty,
            maker_address: self.maker_address,
            taker_address: self.taker_address,
            lock: self.lock,
            maker_lock_amount: self.maker_lock_amount,
            taker_lock_amount: self.taker_lock_amount,
            commit: r.commit,
            refund: r.refund,
            cets: copy_vec(&r.cets),
            revoked_commit,
            settlement_event_id: r.settlement_event_id,
            complete_fee: r.complete_fee,
            refund_timelock: r.refund_timelock,
        }
    }
}

} // verus!

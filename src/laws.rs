use vstd::prelude::*;
use crate::types::{Pubkey, EscrowStatus, EscrowError, Escrow, Operation, Payment};
use crate::split::fee_spec;
use crate::lifecycle::{payments_of, outcome, opened};

verus! {

/// The sum of the amounts of a list of payments.
pub open spec fn total(s: Seq<Payment>) -> nat
    decreases s.len(),
{
    if s.len() == 0 {
        0
    } else {
        total(s.drop_last()) + s.last().amount as nat
    }
}

/// What the custody account holds for a record.
pub open spec fn held(e: Escrow) -> nat {
    if e.status.holds_funds() {
        e.amount as nat
    } else {
        0
    }
}

/// The record's invariant: a positive amount, never `Created` once kept, and
/// exactly the time stamps of the states it has passed through.
pub open spec fn well_formed(e: Escrow) -> bool {
    &&& e.amount > 0
    &&& e.status != EscrowStatus::Created
    &&& e.funded_at.is_some()
    &&& (e.delivered_at.is_some() <==> (e.status == EscrowStatus::Delivered || e.status
        == EscrowStatus::Disputed || e.status == EscrowStatus::Completed || e.status
        == EscrowStatus::Refunded))
    &&& (e.completed_at.is_some() <==> e.status == EscrowStatus::Completed)
    &&& (e.refunded_at.is_some() <==> e.status == EscrowStatus::Refunded)
    &&& (e.status == EscrowStatus::Disputed || e.status == EscrowStatus::Refunded
        ==> e.disputed_at.is_some())
    &&& (e.status == EscrowStatus::Funded || e.status == EscrowStatus::Delivered || e.status
        == EscrowStatus::Cancelled ==> e.disputed_at.is_none())
}

/// Both release paths pay the provider and the platform the same two amounts:
/// the fee is five percent of the amount rounded down, and the two add up to
/// the amount exactly.
pub proof fn law_release_split(e: Escrow)
    requires
        e.amount > 0,
    ensures
        payments_of(e, Operation::ConfirmAndRelease) == payments_of(
            e,
            Operation::ResolveDispute(false),
        ),
        payments_of(e, Operation::ConfirmAndRelease).len() == 2,
        payments_of(e, Operation::ConfirmAndRelease)[1].amount == e.amount * 5 / 100,
        payments_of(e, Operation::ConfirmAndRelease)[0].amount + payments_of(
            e,
            Operation::ConfirmAndRelease,
        )[1].amount == e.amount,
{
    let a = e.amount as nat;
    assert(a * 5 / 100 <= a) by (nonlinear_arith);
    assert(fee_spec(a) <= a);
}

/// An operation asked of a record in any state other than the one it starts
/// from fails with `InvalidStatus` and leaves the record unchanged.
pub proof fn law_wrong_state(e: Escrow, op: Operation, caller: Seq<u8>, transfers_ok: bool, now: i64)
    requires
        e.status != op.from_status(),
    ensures
        outcome(e, op, caller, transfers_ok, now) == (Err::<(), EscrowError>(EscrowError::InvalidStatus), e),
{
}

/// An operation asked by anyone but the party it requires fails with
/// `Unauthorized` and leaves the record unchanged.
pub proof fn law_wrong_caller(e: Escrow, op: Operation, caller: Seq<u8>, transfers_ok: bool, now: i64)
    requires
        e.status == op.from_status(),
        caller != e.key_of(op.actor()),
    ensures
        outcome(e, op, caller, transfers_ok, now) == (Err::<(), EscrowError>(EscrowError::Unauthorized), e),
{
}

/// Once a record is `Completed`, `Refunded` or `Cancelled`, every operation
/// fails with `InvalidStatus`; and no operation leaves one of these states, so
/// a record ends in at most one of them.
pub proof fn law_terminal_is_final(e: Escrow, op: Operation, caller: Seq<u8>, transfers_ok: bool, now: i64)
    requires
        e.status.is_terminal(),
    ensures
        outcome(e, op, caller, transfers_ok, now) == (Err::<(), EscrowError>(EscrowError::InvalidStatus), e),
        !op.from_status().is_terminal(),
{
}

/// A failed operation leaves the record, and so what the custody account
/// holds for it, as it was.
pub proof fn law_failure_changes_nothing(
    e: Escrow,
    op: Operation,
    caller: Seq<u8>,
    transfers_ok: bool,
    now: i64,
)
    requires
        outcome(e, op, caller, transfers_ok, now).0 is Err,
    ensures
        outcome(e, op, caller, transfers_ok, now).1 == e,
        held(outcome(e, op, caller, transfers_ok, now).1) == held(e),
{
}

/// A successful operation pays out exactly what the custody account stops
/// holding: the whole amount when the record reaches a final state, nothing
/// otherwise.
pub proof fn law_funds_conserved(e: Escrow, op: Operation, caller: Seq<u8>, transfers_ok: bool, now: i64)
    requires
        e.amount > 0,
        outcome(e, op, caller, transfers_ok, now).0 is Ok,
    ensures
        held(e) == total(payments_of(e, op)) + held(outcome(e, op, caller, transfers_ok, now).1),
{
    let a = e.amount as nat;
    assert(a * 5 / 100 <= a) by (nonlinear_arith);
    let p = payments_of(e, op);
    reveal_with_fuel(total, 3);
    if p.len() == 2 {
        assert(p.drop_last().drop_last() =~= Seq::<Payment>::empty());
    } else if p.len() == 1 {
        assert(p.drop_last() =~= Seq::<Payment>::empty());
    }
}

/// `refund` and a ruling for the buyer have the same effect.
pub proof fn law_refund_matches_ruling(e: Escrow, caller: Seq<u8>, transfers_ok: bool, now: i64)
    ensures
        outcome(e, Operation::Refund, caller, transfers_ok, now) == outcome(
            e,
            Operation::ResolveDispute(true),
            caller,
            transfers_ok,
            now,
        ),
        payments_of(e, Operation::Refund) == payments_of(e, Operation::ResolveDispute(true)),
{
}

/// Every operation keeps the record's invariant, whether it succeeds or fails.
pub proof fn law_well_formed_kept(e: Escrow, op: Operation, caller: Seq<u8>, transfers_ok: bool, now: i64)
    requires
        well_formed(e),
    ensures
        well_formed(outcome(e, op, caller, transfers_ok, now).1),
{
}

/// A record created and funded for a positive amount satisfies the invariant.
pub proof fn law_created_well_formed(
    buyer: Pubkey,
    provider: Pubkey,
    platform: Pubkey,
    amount: u64,
    request_id: String,
    proposal_id: String,
    bump: u8,
    now: i64,
)
    requires
        amount > 0,
    ensures
        well_formed(
            (Escrow {
                status: EscrowStatus::Funded,
                funded_at: Some(now),
                ..opened(buyer, provider, platform, amount, request_id, proposal_id, bump, now)
            }),
        ),
{
}

} // verus!

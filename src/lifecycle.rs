use vstd::prelude::*;
use crate::types::{Pubkey, EscrowStatus, EscrowError, Escrow, Operation, Party, Payment};
use crate::split::{fee_spec, split_amount};
use vstd::string::StringSliceAdditionalSpecFns;

verus! {

/// The seeds that an escrow's address is derived from: the prefix, the buyer's
/// key, then the request id.
pub open spec fn seeds_spec(buyer: Seq<u8>, request_id: Seq<u8>) -> Seq<u8> {
    seq![101u8, 115u8, 99u8, 114u8, 111u8, 119u8] + buyer + request_id
}

/// The two payments of a full release: the provider's share, then the fee.
pub open spec fn release_payments(amount: u64) -> Seq<Payment> {
    seq![
        Payment { to: Party::Provider, amount: (amount - fee_spec(amount as nat)) as u64 },
        Payment { to: Party::Platform, amount: fee_spec(amount as nat) as u64 },
    ]
}

/// The single payment that returns the whole amount to the buyer.
pub open spec fn refund_payments(amount: u64) -> Seq<Payment> {
    seq![Payment { to: Party::Buyer, amount: amount }]
}

/// The payments that an operation makes out of the custody account.
pub open spec fn payments_of(e: Escrow, op: Operation) -> Seq<Payment> {
    match op {
        Operation::MarkDelivered => Seq::empty(),
        Operation::RaiseDispute => Seq::empty(),
        Operation::ConfirmAndRelease => release_payments(e.amount),
        Operation::ResolveDispute(to_buyer) => if to_buyer {
            refund_payments(e.amount)
        } else {
            release_payments(e.amount)
        },
        Operation::Cancel => refund_payments(e.amount),
        Operation::Refund => refund_payments(e.amount),
    }
}

/// The state check, then the caller check, of an operation on a record.
pub open spec fn check(e: Escrow, op: Operation, caller: Seq<u8>) -> Result<(), EscrowError> {
    if e.status != op.from_status() {
        Err(EscrowError::InvalidStatus)
    } else if caller != e.key_of(op.actor()) {
        Err(EscrowError::Unauthorized)
    } else {
        Ok(())
    }
}

/// The record after a permitted operation: the new state, and the time stamp of
/// that state where the record has one.
pub open spec fn committed(e: Escrow, op: Operation, now: i64) -> Escrow {
    match op {
        Operation::MarkDelivered => Escrow {
            status: EscrowStatus::Delivered,
            delivered_at: Some(now),
            ..e
        },
        Operation::RaiseDispute => Escrow {
            status: EscrowStatus::Disputed,
            disputed_at: Some(now),
            ..e
        },
        Operation::Cancel => Escrow { status: EscrowStatus::Cancelled, ..e },
        _ => if op.to_status() == EscrowStatus::Completed {
            Escrow { status: EscrowStatus::Completed, completed_at: Some(now), ..e }
        } else {
            Escrow { status: EscrowStatus::Refunded, refunded_at: Some(now), ..e }
        },
    }
}

/// What an operation returns and leaves behind, given whether the custody
/// account made its payments and the time of the call.
pub open spec fn outcome(e: Escrow, op: Operation, caller: Seq<u8>, transfers_ok: bool, now: i64) -> (
    Result<(), EscrowError>,
    Escrow,
) {
    match check(e, op, caller) {
        Err(x) => (Err(x), e),
        Ok(_) => if op.moves_funds() && !transfers_ok {
            (Err(EscrowError::TransferFailure), e)
        } else {
            (Ok(()), committed(e, op, now))
        },
    }
}

/// A freshly created record, before its funds arrive.
pub open spec fn opened(
    buyer: Pubkey,
    provider: Pubkey,
    platform: Pubkey,
    amount: u64,
    request_id: String,
    proposal_id: String,
    bump: u8,
    now: i64,
) -> Escrow {
    Escrow {
        buyer,
        provider,
        platform,
        amount,
        request_id,
        proposal_id,
        status: EscrowStatus::Created,
        created_at: now,
        funded_at: None,
        delivered_at: None,
        completed_at: None,
        refunded_at: None,
        disputed_at: None,
        bump,
    }
}

/// The seeds of the escrow record that `buyer` opens for `request_id`.
pub fn escrow_seeds(buyer: &Pubkey, request_id: &str) -> (r: Vec<u8>)
    ensures
        r@ == seeds_spec(buyer@, request_id.spec_bytes()),
{
    // the prefix "escrow"
    let mut out: Vec<u8> = vec![101u8, 115u8, 99u8, 114u8, 111u8, 119u8];
    let ghost prefix = out@;
    assert(prefix =~= prefix + buyer@.subrange(0, 0));
    let mut j: usize = 0;
    while j < 32
        invariant
            j <= 32,
            buyer@.len() == 32,
            prefix == seq![101u8, 115u8, 99u8, 114u8, 111u8, 119u8],
            out@ =~= prefix + buyer@.subrange(0, j as int),
        decreases 32 - j,
    {
        out.push(buyer.bytes[j]);
        j += 1;
    }
    let id: &[u8] = request_id.as_bytes();
    let mut k: usize = 0;
    while k < id.len()
        invariant
            k <= id@.len(),
            buyer@.len() == 32,
            prefix == seq![101u8, 115u8, 99u8, 114u8, 111u8, 119u8],
            out@ =~= prefix + buyer@ + id@.subrange(0, k as int),
        decreases id@.len() - k,
    {
        out.push(id[k]);
        k += 1;
    }
    assert(id@.subrange(0, id@.len() as int) =~= id@);
    out
}

/// Whether two identities are the same.
pub fn same_key(a: &Pubkey, b: &Pubkey) -> (r: bool)
    ensures
        r == (a@ == b@),
{
    let mut i: usize = 0;
    while i < 32
        invariant
            i <= 32,
            a@.len() == 32,
            b@.len() == 32,
            forall|j: int| 0 <= j < i ==> a@[j] == b@[j],
        decreases 32 - i,
    {
        if a.bytes[i] != b.bytes[i] {
            assert(a@[i as int] != b@[i as int]);
            return false;
        }
        i += 1;
    }
    assert(a@ =~= b@);
    true
}

/// The identity recorded for a party.
fn key_of<'a>(e: &'a Escrow, p: Party) -> (r: &'a Pubkey)
    ensures
        r@ == e.key_of(p),
{
    match p {
        Party::Buyer => &e.buyer,
        Party::Provider => &e.provider,
        Party::Platform => &e.platform,
    }
}

/// Checks that the record is in the state the operation starts from, then that
/// the caller is the party it requires.
fn authorize(e: &Escrow, op: Operation, caller: &Pubkey) -> (r: Result<(), EscrowError>)
    ensures
        r == check(*e, op, caller@),
{
    let (from, actor) = match op {
        Operation::MarkDelivered => (EscrowStatus::Funded, Party::Provider),
        Operation::ConfirmAndRelease => (EscrowStatus::Delivered, Party::Buyer),
        Operation::Cancel => (EscrowStatus::Funded, Party::Buyer),
        Operation::RaiseDispute => (EscrowStatus::Delivered, Party::Buyer),
        Operation::ResolveDispute(_) => (EscrowStatus::Disputed, Party::Platform),
        Operation::Refund => (EscrowStatus::Disputed, Party::Platform),
    };
    if e.status != from {
        return Err(EscrowError::InvalidStatus);
    }
    if !same_key(caller, key_of(e, actor)) {
        return Err(EscrowError::Unauthorized);
    }
    Ok(())
}

/// The two payments of a full release of `amount`.
fn release(amount: u64) -> (r: Vec<Payment>)
    ensures
        r@ == release_payments(amount),
{
    let (provider_amount, fee) = split_amount(amount);
    let mut r: Vec<Payment> = Vec::new();
    r.push(Payment { to: Party::Provider, amount: provider_amount });
    r.push(Payment { to: Party::Platform, amount: fee });
    assert(r@ =~= release_payments(amount));
    r
}

/// The payments that `caller` may have the custody account make for `op`, or
/// why the operation is refused. Nothing is paid before this returns `Ok`.
pub fn payouts(escrow: &Escrow, op: Operation, caller: &Pubkey) -> (r: Result<Vec<Payment>, EscrowError>)
    ensures
        match r {
            Ok(v) => check(*escrow, op, caller@) == Ok::<(), EscrowError>(()) && v@ == payments_of(
                *escrow,
                op,
            ),
            Err(x) => check(*escrow, op, caller@) == Err::<(), EscrowError>(x),
        },
{
    match authorize(escrow, op, caller) {
        Err(x) => Err(x),
        Ok(()) => {
            let v: Vec<Payment> = match op {
                Operation::MarkDelivered | Operation::RaiseDispute => Vec::new(),
                Operation::ConfirmAndRelease | Operation::ResolveDispute(false) => release(
                    escrow.amount,
                ),
                _ => vec![Payment { to: Party::Buyer, amount: escrow.amount }],
            };
            assert(v@ =~= payments_of(*escrow, op));
            Ok(v)
        },
    }
}

/// Applies `op` from `caller` at time `now`. `transfers_ok` reports whether the
/// custody account made every payment that `payouts` gave for it; an operation
/// that moves funds commits only when it did. A refused operation changes nothing.
pub fn apply(escrow: &mut Escrow, op: Operation, caller: &Pubkey, transfers_ok: bool, now: i64) -> (r:
    Result<(), EscrowError>)
    ensures
        (r, *final(escrow)) == outcome(*old(escrow), op, caller@, transfers_ok, now),
{
    match authorize(escrow, op, caller) {
        Err(x) => {
            return Err(x);
        },
        Ok(()) => {},
    }
    let moves_funds = match op {
        Operation::MarkDelivered | Operation::RaiseDispute => false,
        _ => true,
    };
    if moves_funds && !transfers_ok {
        return Err(EscrowError::TransferFailure);
    }
    match op {
        Operation::MarkDelivered => {
            escrow.status = EscrowStatus::Delivered;
            escrow.delivered_at = Some(now);
        },
        Operation::RaiseDispute => {
            escrow.status = EscrowStatus::Disputed;
            escrow.disputed_at = Some(now);
        },
        Operation::Cancel => {
            escrow.status = EscrowStatus::Cancelled;
        },
        Operation::ConfirmAndRelease | Operation::ResolveDispute(false) => {
            escrow.status = EscrowStatus::Completed;
            escrow.completed_at = Some(now);
        },
        Operation::ResolveDispute(true) | Operation::Refund => {
            escrow.status = EscrowStatus::Refunded;
            escrow.refunded_at = Some(now);
        },
    }
    Ok(())
}

/// Opens a record for `amount`, in the `Created` state, before its funds arrive.
/// A zero amount is refused.
pub fn open_escrow(
    buyer: Pubkey,
    provider: Pubkey,
    platform: Pubkey,
    amount: u64,
    request_id: String,
    proposal_id: String,
    bump: u8,
    now: i64,
) -> (r: Result<Escrow, EscrowError>)
    ensures
        amount == 0 ==> r == Err::<Escrow, EscrowError>(EscrowError::InvalidAmount),
        amount > 0 ==> r == Ok::<Escrow, EscrowError>(
            opened(buyer, provider, platform, amount, request_id, proposal_id, bump, now),
        ),
{
    if amount == 0 {
        return Err(EscrowError::InvalidAmount);
    }
    Ok(
        Escrow {
            buyer,
            provider,
            platform,
            amount,
            request_id,
            proposal_id,
            status: EscrowStatus::Created,
            created_at: now,
            funded_at: None,
            delivered_at: None,
            completed_at: None,
            refunded_at: None,
            disputed_at: None,
            bump,
        },
    )
}

/// Records that the buyer's deposit reached the custody account: `Created`
/// becomes `Funded`. Where the deposit failed the record is left as it was and
/// must not be kept.
pub fn fund(escrow: &mut Escrow, deposited: bool, now: i64) -> (r: Result<(), EscrowError>)
    ensures
        old(escrow).status != EscrowStatus::Created ==> r == Err::<(), EscrowError>(
            EscrowError::InvalidStatus,
        ) && *final(escrow) == *old(escrow),
        old(escrow).status == EscrowStatus::Created && !deposited ==> r == Err::<(), EscrowError>(
            EscrowError::TransferFailure,
        ) && *final(escrow) == *old(escrow),
        old(escrow).status == EscrowStatus::Created && deposited ==> r == Ok::<(), EscrowError>(())
            && *final(escrow) == (Escrow {
            status: EscrowStatus::Funded,
            funded_at: Some(now),
            ..*old(escrow)
        }),
{
    if escrow.status != EscrowStatus::Created {
        return Err(EscrowError::InvalidStatus);
    }
    if !deposited {
        return Err(EscrowError::TransferFailure);
    }
    escrow.status = EscrowStatus::Funded;
    escrow.funded_at = Some(now);
    Ok(())
}

/// Creates a funded record: opens it, then records the buyer's deposit of
/// `amount`, reported by `deposited`. Either both steps succeed or no record
/// results.
pub fn create_escrow(
    buyer: Pubkey,
    provider: Pubkey,
    platform: Pubkey,
    amount: u64,
    request_id: String,
    proposal_id: String,
    bump: u8,
    deposited: bool,
    now: i64,
) -> (r: Result<Escrow, EscrowError>)
    ensures
        amount == 0 ==> r == Err::<Escrow, EscrowError>(EscrowError::InvalidAmount),
        amount > 0 && !deposited ==> r == Err::<Escrow, EscrowError>(EscrowError::TransferFailure),
        amount > 0 && deposited ==> r == Ok::<Escrow, EscrowError>(
            (Escrow {
                status: EscrowStatus::Funded,
                funded_at: Some(now),
                ..opened(buyer, provider, platform, amount, request_id, proposal_id, bump, now)
            }),
        ),
{
    let mut e: Escrow = match open_escrow(
        buyer,
        provider,
        platform,
        amount,
        request_id,
        proposal_id,
        bump,
        now,
    ) {
        Ok(e) => e,
        Err(x) => {
            return Err(x);
        },
    };
    match fund(&mut e, deposited, now) {
        Ok(()) => Ok(e),
        Err(x) => Err(x),
    }
}

/// The provider reports delivery: `Funded` becomes `Delivered`.
pub fn mark_delivered(escrow: &mut Escrow, caller: &Pubkey, now: i64) -> (r: Result<(), EscrowError>)
    ensures
        (r, *final(escrow)) == outcome(*old(escrow), Operation::MarkDelivered, caller@, true, now),
{
    apply(escrow, Operation::MarkDelivered, caller, true, now)
}

/// The buyer confirms delivery: `Delivered` becomes `Completed`, once the
/// provider's share and the platform's fee have been paid.
pub fn confirm_and_release(escrow: &mut Escrow, caller: &Pubkey, transfers_ok: bool, now: i64) -> (r:
    Result<(), EscrowError>)
    ensures
        (r, *final(escrow)) == outcome(
            *old(escrow),
            Operation::ConfirmAndRelease,
            caller@,
            transfers_ok,
            now,
        ),
{
    apply(escrow, Operation::ConfirmAndRelease, caller, transfers_ok, now)
}

/// The platform refunds a disputed escrow: `Disputed` becomes `Refunded`, once
/// the buyer has been paid the whole amount.
pub fn refund(escrow: &mut Escrow, caller: &Pubkey, transfers_ok: bool, now: i64) -> (r: Result<
    (),
    EscrowError,
>)
    ensures
        (r, *final(escrow)) == outcome(*old(escrow), Operation::Refund, caller@, transfers_ok, now),
{
    apply(escrow, Operation::Refund, caller, transfers_ok, now)
}

/// The buyer cancels before delivery: `Funded` becomes `Cancelled`, once the
/// buyer has been paid the whole amount.
pub fn cancel(escrow: &mut Escrow, caller: &Pubkey, transfers_ok: bool, now: i64) -> (r: Result<
    (),
    EscrowError,
>)
    ensures
        (r, *final(escrow)) == outcome(*old(escrow), Operation::Cancel, caller@, transfers_ok, now),
{
    apply(escrow, Operation::Cancel, caller, transfers_ok, now)
}

/// The buyer disputes a delivery: `Delivered` becomes `Disputed`.
pub fn raise_dispute(escrow: &mut Escrow, caller: &Pubkey, now: i64) -> (r: Result<(), EscrowError>)
    ensures
        (r, *final(escrow)) == outcome(*old(escrow), Operation::RaiseDispute, caller@, true, now),
{
    apply(escrow, Operation::RaiseDispute, caller, true, now)
}

/// The platform rules on a dispute: a refund to the buyer (`Refunded`) or a
/// release to the provider (`Completed`), once the payments have been made.
pub fn resolve_dispute(
    escrow: &mut Escrow,
    caller: &Pubkey,
    refund_to_buyer: bool,
    transfers_ok: bool,
    now: i64,
) -> (r: Result<(), EscrowError>)
    ensures
        (r, *final(escrow)) == outcome(
            *old(escrow),
            Operation::ResolveDispute(refund_to_buyer),
            caller@,
            transfers_ok,
            now,
        ),
{
    apply(escrow, Operation::ResolveDispute(refund_to_buyer), caller, transfers_ok, now)
}

} // verus!

use datanexus_escrow::{
    apply, cancel, confirm_and_release, create_escrow, escrow_seeds, fund, mark_delivered,
    open_escrow, payouts, platform_fee_of, raise_dispute, refund, resolve_dispute, same_key,
    split_amount, Escrow, EscrowError, EscrowStatus, Operation, Party, Payment, Pubkey,
};

fn key(b: u8) -> Pubkey {
    Pubkey { bytes: [b; 32] }
}

fn buyer() -> Pubkey {
    key(1)
}

fn provider() -> Pubkey {
    key(2)
}

fn platform() -> Pubkey {
    key(3)
}

fn funded(amount: u64) -> Escrow {
    create_escrow(
        buyer(),
        provider(),
        platform(),
        amount,
        "req1".to_string(),
        "prop1".to_string(),
        254,
        true,
        100,
    )
    .unwrap()
}

fn delivered(amount: u64) -> Escrow {
    let mut e = funded(amount);
    mark_delivered(&mut e, &provider(), 200).unwrap();
    e
}

fn disputed(amount: u64) -> Escrow {
    let mut e = delivered(amount);
    raise_dispute(&mut e, &buyer(), 300).unwrap();
    e
}

fn same_record(a: &Escrow, b: &Escrow) -> bool {
    a.status == b.status
        && a.amount == b.amount
        && a.request_id == b.request_id
        && a.proposal_id == b.proposal_id
        && a.created_at == b.created_at
        && a.funded_at == b.funded_at
        && a.delivered_at == b.delivered_at
        && a.completed_at == b.completed_at
        && a.refunded_at == b.refunded_at
        && a.disputed_at == b.disputed_at
}

#[test]
fn fee_is_five_percent_rounded_down() {
    assert_eq!(platform_fee_of(1_000_000), 50_000);
    assert_eq!(platform_fee_of(101), 5);
    assert_eq!(platform_fee_of(19), 0);
    assert_eq!(platform_fee_of(20), 1);
    assert_eq!(platform_fee_of(1), 0);
}

#[test]
fn split_adds_up_to_amount() {
    assert_eq!(split_amount(1_000_000), (950_000, 50_000));
    assert_eq!(split_amount(101), (96, 5));
    assert_eq!(split_amount(1), (1, 0));
    let (p, f) = split_amount(u64::MAX);
    assert_eq!(f, 922_337_203_685_477_580);
    assert_eq!(p + f, u64::MAX);
}

#[test]
fn scenario_full_release() {
    let mut e = funded(1_000_000);
    assert_eq!(e.status, EscrowStatus::Funded);
    assert_eq!(e.funded_at, Some(100));
    assert_eq!(
        payouts(&e, Operation::MarkDelivered, &provider()),
        Ok(vec![])
    );
    mark_delivered(&mut e, &provider(), 200).unwrap();
    assert_eq!(e.status, EscrowStatus::Delivered);
    assert_eq!(e.delivered_at, Some(200));
    let pays = payouts(&e, Operation::ConfirmAndRelease, &buyer()).unwrap();
    assert_eq!(
        pays,
        vec![
            Payment { to: Party::Provider, amount: 950_000 },
            Payment { to: Party::Platform, amount: 50_000 },
        ]
    );
    confirm_and_release(&mut e, &buyer(), true, 300).unwrap();
    assert_eq!(e.status, EscrowStatus::Completed);
    assert_eq!(e.completed_at, Some(300));
}

#[test]
fn scenario_odd_amount_split() {
    let e = delivered(101);
    let pays = payouts(&e, Operation::ConfirmAndRelease, &buyer()).unwrap();
    assert_eq!(
        pays,
        vec![
            Payment { to: Party::Provider, amount: 96 },
            Payment { to: Party::Platform, amount: 5 },
        ]
    );
    let d = disputed(101);
    let pays = payouts(&d, Operation::ResolveDispute(false), &platform()).unwrap();
    assert_eq!(
        pays,
        vec![
            Payment { to: Party::Provider, amount: 96 },
            Payment { to: Party::Platform, amount: 5 },
        ]
    );
}

#[test]
fn scenario_cancel_then_deliver() {
    let mut e = funded(500);
    let pays = payouts(&e, Operation::Cancel, &buyer()).unwrap();
    assert_eq!(pays, vec![Payment { to: Party::Buyer, amount: 500 }]);
    cancel(&mut e, &buyer(), true, 150).unwrap();
    assert_eq!(e.status, EscrowStatus::Cancelled);
    assert_eq!(
        mark_delivered(&mut e, &provider(), 160),
        Err(EscrowError::InvalidStatus)
    );
    assert_eq!(e.status, EscrowStatus::Cancelled);
    assert_eq!(e.delivered_at, None);
}

#[test]
fn scenario_dispute_refund() {
    let mut e = delivered(700);
    raise_dispute(&mut e, &buyer(), 300).unwrap();
    assert_eq!(e.status, EscrowStatus::Disputed);
    assert_eq!(e.disputed_at, Some(300));
    let pays = payouts(&e, Operation::ResolveDispute(true), &platform()).unwrap();
    assert_eq!(pays, vec![Payment { to: Party::Buyer, amount: 700 }]);
    resolve_dispute(&mut e, &platform(), true, true, 400).unwrap();
    assert_eq!(e.status, EscrowStatus::Refunded);
    assert_eq!(e.refunded_at, Some(400));
    assert_eq!(
        confirm_and_release(&mut e, &buyer(), true, 500),
        Err(EscrowError::InvalidStatus)
    );
    assert_eq!(e.status, EscrowStatus::Refunded);
}

#[test]
fn scenario_stranger_marks_delivered() {
    let mut e = funded(1_000);
    assert_eq!(
        mark_delivered(&mut e, &key(9), 200),
        Err(EscrowError::Unauthorized)
    );
    assert_eq!(e.status, EscrowStatus::Funded);
    assert_eq!(e.delivered_at, None);
    assert_eq!(
        mark_delivered(&mut e, &buyer(), 200),
        Err(EscrowError::Unauthorized)
    );
}

#[test]
fn dispute_released_to_provider() {
    let mut e = disputed(1_000_000);
    resolve_dispute(&mut e, &platform(), false, true, 400).unwrap();
    assert_eq!(e.status, EscrowStatus::Completed);
    assert_eq!(e.completed_at, Some(400));
    assert_eq!(e.refunded_at, None);
}

#[test]
fn refund_by_platform() {
    let mut e = disputed(42);
    assert_eq!(refund(&mut e, &buyer(), true, 400), Err(EscrowError::Unauthorized));
    assert_eq!(e.status, EscrowStatus::Disputed);
    refund(&mut e, &platform(), true, 400).unwrap();
    assert_eq!(e.status, EscrowStatus::Refunded);
    assert_eq!(e.refunded_at, Some(400));
}

#[test]
fn refund_matches_ruling_for_buyer() {
    let mut a = disputed(42);
    let mut b = disputed(42);
    refund(&mut a, &platform(), true, 400).unwrap();
    resolve_dispute(&mut b, &platform(), true, true, 400).unwrap();
    assert!(same_record(&a, &b));
}

#[test]
fn wrong_state_is_invalid_status() {
    let ops = [
        Operation::MarkDelivered,
        Operation::ConfirmAndRelease,
        Operation::Cancel,
        Operation::RaiseDispute,
        Operation::ResolveDispute(true),
        Operation::ResolveDispute(false),
        Operation::Refund,
    ];
    let states = [funded(10), delivered(10), disputed(10)];
    let callers = [buyer(), provider(), platform()];
    for s in states.iter() {
        for op in ops.iter() {
            for c in callers.iter() {
                let mut e = s.clone();
                let r = apply(&mut e, *op, c, true, 999);
                let from = match op {
                    Operation::MarkDelivered | Operation::Cancel => EscrowStatus::Funded,
                    Operation::ConfirmAndRelease | Operation::RaiseDispute => {
                        EscrowStatus::Delivered
                    }
                    _ => EscrowStatus::Disputed,
                };
                if s.status != from {
                    assert_eq!(r, Err(EscrowError::InvalidStatus));
                    assert!(same_record(&e, s));
                }
            }
        }
    }
}

#[test]
fn terminal_states_refuse_everything() {
    let mut done = delivered(10);
    confirm_and_release(&mut done, &buyer(), true, 5).unwrap();
    let mut refunded = disputed(10);
    refund(&mut refunded, &platform(), true, 5).unwrap();
    let mut cancelled = funded(10);
    cancel(&mut cancelled, &buyer(), true, 5).unwrap();
    let ops = [
        Operation::MarkDelivered,
        Operation::ConfirmAndRelease,
        Operation::Cancel,
        Operation::RaiseDispute,
        Operation::ResolveDispute(true),
        Operation::ResolveDispute(false),
        Operation::Refund,
    ];
    for s in [done, refunded, cancelled].iter() {
        for op in ops.iter() {
            for c in [buyer(), provider(), platform()].iter() {
                let mut e = s.clone();
                assert_eq!(apply(&mut e, *op, c, true, 9), Err(EscrowError::InvalidStatus));
                assert_eq!(payouts(&e, *op, c), Err(EscrowError::InvalidStatus));
                assert!(same_record(&e, s));
            }
        }
    }
}

#[test]
fn failed_transfer_changes_nothing() {
    let mut e = delivered(1_000);
    let before = e.clone();
    assert_eq!(
        confirm_and_release(&mut e, &buyer(), false, 300),
        Err(EscrowError::TransferFailure)
    );
    assert!(same_record(&e, &before));
    let mut f = funded(1_000);
    let before = f.clone();
    assert_eq!(cancel(&mut f, &buyer(), false, 300), Err(EscrowError::TransferFailure));
    assert!(same_record(&f, &before));
    let mut d = disputed(1_000);
    let before = d.clone();
    assert_eq!(
        resolve_dispute(&mut d, &platform(), false, false, 300),
        Err(EscrowError::TransferFailure)
    );
    assert!(same_record(&d, &before));
}

#[test]
fn wrong_caller_for_each_operation() {
    let mut d = delivered(10);
    assert_eq!(confirm_and_release(&mut d, &provider(), true, 1), Err(EscrowError::Unauthorized));
    assert_eq!(raise_dispute(&mut d, &platform(), 1), Err(EscrowError::Unauthorized));
    let mut f = funded(10);
    assert_eq!(cancel(&mut f, &platform(), true, 1), Err(EscrowError::Unauthorized));
    let mut x = disputed(10);
    assert_eq!(
        resolve_dispute(&mut x, &buyer(), false, true, 1),
        Err(EscrowError::Unauthorized)
    );
    assert_eq!(payouts(&x, Operation::Refund, &provider()), Err(EscrowError::Unauthorized));
    assert_eq!(x.status, EscrowStatus::Disputed);
}

#[test]
fn zero_amount_is_refused() {
    let r = create_escrow(
        buyer(),
        provider(),
        platform(),
        0,
        "r".to_string(),
        "p".to_string(),
        1,
        true,
        0,
    );
    assert_eq!(r.err(), Some(EscrowError::InvalidAmount));
}

#[test]
fn failed_deposit_leaves_no_record() {
    let r = create_escrow(
        buyer(),
        provider(),
        platform(),
        10,
        "r".to_string(),
        "p".to_string(),
        1,
        false,
        0,
    );
    assert_eq!(r.err(), Some(EscrowError::TransferFailure));
}

#[test]
fn open_then_fund() {
    let mut e = open_escrow(
        buyer(),
        provider(),
        platform(),
        10,
        "r".to_string(),
        "p".to_string(),
        7,
        50,
    )
    .unwrap();
    assert_eq!(e.status, EscrowStatus::Created);
    assert_eq!(e.created_at, 50);
    assert_eq!(e.funded_at, None);
    assert_eq!(fund(&mut e, false, 60), Err(EscrowError::TransferFailure));
    assert_eq!(e.status, EscrowStatus::Created);
    fund(&mut e, true, 60).unwrap();
    assert_eq!(e.status, EscrowStatus::Funded);
    assert_eq!(e.funded_at, Some(60));
    assert_eq!(e.bump, 7);
    assert_eq!(fund(&mut e, true, 70), Err(EscrowError::InvalidStatus));
}

#[test]
fn seeds_layout() {
    let s = escrow_seeds(&key(1), "req1");
    let mut expected: Vec<u8> = b"escrow".to_vec();
    expected.extend_from_slice(&[1u8; 32]);
    expected.extend_from_slice(b"req1");
    assert_eq!(s, expected);
    assert_eq!(escrow_seeds(&key(0), "").len(), 38);
}

#[test]
fn keys_compare_by_every_byte() {
    assert!(same_key(&key(4), &key(4)));
    let mut k = key(4);
    k.bytes[31] = 5;
    assert!(!same_key(&key(4), &k));
    let mut j = key(4);
    j.bytes[0] = 0;
    assert!(!same_key(&j, &key(4)));
}

use ledger::amount::{check_amount, to_decimal, AMOUNT_LIMIT};
use ledger::balance::{bail_if_locked, Balance};
use ledger::errors::TxError;
use ledger::history::{TransactionHistory, TxKind};
use ledger::balances::Balances;
use ledger::processor::{do_cmd, Command, CommandKind};

fn cmd(kind: CommandKind, client_id: u16, tx_id: u32, amount: Option<&str>) -> Command {
    Command { kind, client_id, tx_id, amount: amount.map(|a| a.to_string()) }
}

fn run(th: &mut TransactionHistory, bs: &mut Balances, c: Command) -> Result<(), TxError> {
    do_cmd(&c, th, bs)
}

#[test]
fn to_decimal_reads_exact_units() {
    // the parse is not the identity on its input: the literal is rescaled
    // to a count of ten-thousandths
    assert_eq!(to_decimal("2"), Ok(20000));
    assert_eq!(to_decimal("1.5"), Ok(15000));
    assert_eq!(to_decimal("1000.0001"), Ok(10000001));
    assert_eq!(to_decimal("0.0001"), Ok(1));
    assert_eq!(to_decimal("-3"), Ok(-30000));
    assert_eq!(to_decimal("0"), Ok(0));
}

#[test]
fn to_decimal_rejects_excess_precision() {
    assert_eq!(to_decimal("0.00001"), Err(TxError::DecimalFormatError));
    assert_eq!(to_decimal("1000.00000"), Err(TxError::DecimalFormatError));
    // four digits pass exactly
    assert_eq!(to_decimal("1000.0000"), Ok(10000000));
}

#[test]
fn to_decimal_rejects_malformed_literals() {
    assert_eq!(to_decimal("abc"), Err(TxError::DecimalFormatError));
    assert_eq!(to_decimal(""), Err(TxError::DecimalFormatError));
    assert_eq!(to_decimal("1.2.3"), Err(TxError::DecimalFormatError));
}

#[test]
fn check_amount_requires_positive() {
    assert_eq!(check_amount(1), Ok(()));
    assert_eq!(check_amount(0), Err(TxError::AmountNotPositive));
    assert_eq!(check_amount(-1), Err(TxError::AmountNotPositive));
}

#[test]
fn balance_operations_move_funds() {
    let b = Balance::new();
    assert_eq!(bail_if_locked(&b), Ok(()));
    let b = b.deposit(10000).unwrap();
    assert_eq!((b.avail, b.held, b.locked), (10000, 0, false));
    let b = b.dispute(4000).unwrap();
    assert_eq!((b.avail, b.held), (6000, 4000));
    let b = b.resolve(4000).unwrap();
    assert_eq!((b.avail, b.held), (10000, 0));
    let b = b.withdrawal(2500).unwrap();
    assert_eq!((b.avail, b.held), (7500, 0));
    assert_eq!(b.withdrawal(7501), Err(TxError::InsufficientFunds));
    assert_eq!(b.dispute(7501), Err(TxError::InsufficientFunds));
    assert_eq!(b.resolve(1), Err(TxError::InsufficientFunds));
    assert_eq!(b.chargeback(1), Err(TxError::InsufficientFunds));
    let b = b.dispute(7500).unwrap();
    let b = b.chargeback(7500).unwrap();
    assert_eq!((b.avail, b.held, b.locked), (0, 0, true));
    assert_eq!(b.deposit(1), Err(TxError::LockedAccount));
    assert_eq!(bail_if_locked(&b), Err(TxError::LockedAccount));
}

#[test]
fn duplicate_transaction_id_rejected() {
    let mut th = TransactionHistory::new();
    let mut bs = Balances::new();
    run(&mut th, &mut bs, cmd(CommandKind::Deposit, 1, 7, Some("5"))).unwrap();
    let before = bs.get(1).unwrap();
    let e = run(&mut th, &mut bs, cmd(CommandKind::Deposit, 1, 7, Some("5"))).unwrap_err();
    assert_eq!(e, TxError::TransactionAlreadyExists);
    let e = run(&mut th, &mut bs, cmd(CommandKind::Withdrawal, 2, 7, Some("1"))).unwrap_err();
    assert_eq!(e, TxError::TransactionAlreadyExists);
    assert_eq!(bs.get(1).unwrap(), before);
    assert_eq!(th.len(), 1);
}

#[test]
fn dispute_referential_integrity_errors() {
    let mut th = TransactionHistory::new();
    let mut bs = Balances::new();
    run(&mut th, &mut bs, cmd(CommandKind::Deposit, 1, 1, Some("100"))).unwrap();
    run(&mut th, &mut bs, cmd(CommandKind::Withdrawal, 1, 2, Some("10"))).unwrap();
    run(&mut th, &mut bs, cmd(CommandKind::Deposit, 1, 3, Some("100"))).unwrap();

    // unknown id
    let e = run(&mut th, &mut bs, cmd(CommandKind::Dispute, 1, 99, None)).unwrap_err();
    assert_eq!(e, TxError::ReferenceTransactionNotFound);
    // a withdrawal cannot be disputed
    let e = run(&mut th, &mut bs, cmd(CommandKind::Dispute, 1, 2, None)).unwrap_err();
    assert_eq!(e, TxError::ReferenceTransactionTypeIncorrect);
    // wrong client
    let e = run(&mut th, &mut bs, cmd(CommandKind::Dispute, 2, 1, None)).unwrap_err();
    assert_eq!(e, TxError::ReferenceTransactionIncorrect);
    // disputing twice
    run(&mut th, &mut bs, cmd(CommandKind::Dispute, 1, 1, None)).unwrap();
    let e = run(&mut th, &mut bs, cmd(CommandKind::Dispute, 1, 1, None)).unwrap_err();
    assert_eq!(e, TxError::TransactionAlreadyInDispute);
}

#[test]
fn resolve_requires_open_dispute() {
    let mut th = TransactionHistory::new();
    let mut bs = Balances::new();
    run(&mut th, &mut bs, cmd(CommandKind::Deposit, 1, 1, Some("100"))).unwrap();
    let e = run(&mut th, &mut bs, cmd(CommandKind::Resolve, 1, 1, None)).unwrap_err();
    assert_eq!(e, TxError::ReferenceTransactionStateIncorrect);
    let e = run(&mut th, &mut bs, cmd(CommandKind::Chargeback, 1, 1, None)).unwrap_err();
    assert_eq!(e, TxError::ReferenceTransactionStateIncorrect);
}

#[test]
fn unknown_commands_rejected() {
    let mut th = TransactionHistory::new();
    let mut bs = Balances::new();
    let e = run(&mut th, &mut bs, cmd(CommandKind::Unknown, 1, 1, Some("5"))).unwrap_err();
    assert_eq!(e, TxError::UnknownTransactionType);
    // a deposit without an amount is rejected the same way
    let e = run(&mut th, &mut bs, cmd(CommandKind::Deposit, 1, 1, None)).unwrap_err();
    assert_eq!(e, TxError::UnknownTransactionType);
    assert_eq!(th.len(), 0);
}

#[test]
fn insufficient_funds_rejected() {
    let mut th = TransactionHistory::new();
    let mut bs = Balances::new();
    run(&mut th, &mut bs, cmd(CommandKind::Deposit, 1, 1, Some("5"))).unwrap();
    let e = run(&mut th, &mut bs, cmd(CommandKind::Withdrawal, 1, 2, Some("5.0001"))).unwrap_err();
    assert_eq!(e, TxError::InsufficientFunds);
    assert_eq!(bs.get(1).unwrap().avail, 50000);
}

#[test]
fn history_registry_answers() {
    let mut th = TransactionHistory::new();
    assert!(!th.contains(1));
    assert_eq!(th.len(), 0);
    th.insert(1, TxKind::Deposit, 9, 12345).unwrap();
    assert!(th.contains(1));
    assert_eq!(th.len(), 1);
    let rec = th.lookup(1).unwrap();
    assert_eq!(rec.kind, TxKind::Deposit);
    assert_eq!(rec.client_id, 9);
    assert_eq!(rec.units, 12345);
    assert!(!rec.in_dispute);
    let e = th.insert(1, TxKind::Withdrawal, 9, 1).unwrap_err();
    assert_eq!(e, TxError::TransactionAlreadyExists);
    th.mark_disputed(1);
    assert!(th.lookup(1).unwrap().in_dispute);
    th.mark_resolved(1);
    assert!(!th.lookup(1).unwrap().in_dispute);
    // unknown ids change nothing
    th.mark_disputed(42);
    assert!(th.lookup(42).is_none());
}

#[test]
fn ledger_lists_clients_in_first_appearance_order() {
    let mut th = TransactionHistory::new();
    let mut bs = Balances::new();
    run(&mut th, &mut bs, cmd(CommandKind::Deposit, 5, 1, Some("1"))).unwrap();
    run(&mut th, &mut bs, cmd(CommandKind::Deposit, 2, 2, Some("1"))).unwrap();
    run(&mut th, &mut bs, cmd(CommandKind::Deposit, 5, 3, Some("1"))).unwrap();
    assert_eq!(bs.clients(), vec![5, 2]);
    assert_eq!(bs.len(), 2);
    assert!(bs.get(5).is_some());
    assert!(bs.get(3).is_none());
    assert!(bs.has_headroom(5));
    assert!(bs.has_headroom(77));
}

#[test]
fn amount_limit_is_the_parse_ceiling() {
    // the largest mantissa rust_decimal carries, taken to four digits
    assert_eq!(AMOUNT_LIMIT, 79228162514264337593543950335u128 * 10000);
    // the largest integral literal the parser takes, as ten-thousandths
    assert_eq!(
        to_decimal("79228162514264337593543950335"),
        Ok(AMOUNT_LIMIT as i128)
    );
    // one more does not parse at all
    assert_eq!(
        to_decimal("79228162514264337593543950336"),
        Err(TxError::DecimalFormatError)
    );
    assert_eq!(
        to_decimal("7922816251426433759354395.0335"),
        Ok(79228162514264337593543950335i128)
    );
}

#[test]
fn error_messages_are_distinct() {
    let msgs = [
        TxError::AmountNotPositive.message(),
        TxError::DecimalFormatError.message(),
        TxError::LockedAccount.message(),
        TxError::InsufficientFunds.message(),
        TxError::TransactionAlreadyExists.message(),
        TxError::TransactionAlreadyInDispute.message(),
        TxError::ReferenceTransactionTypeIncorrect.message(),
        TxError::ReferenceTransactionNotFound.message(),
        TxError::ReferenceTransactionIncorrect.message(),
        TxError::ReferenceTransactionStateIncorrect.message(),
        TxError::UnknownTransactionType.message(),
    ];
    for i in 0..msgs.len() {
        for j in 0..msgs.len() {
            if i != j {
                assert_ne!(msgs[i], msgs[j]);
            }
        }
    }
}

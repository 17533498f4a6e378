use ledger::auth::{bearer_token, claims_for, is_public_route, subject_user_id, Claims};
use ledger::error::AppError;
use ledger::ledger::{
    apply_delta, check_user_scope, owned_account, owned_transaction, page_bounds, BalanceOperation,
    LedgerAction, LedgerEvent,
};
use ledger::models::{
    Account, CreateAccountRequest, Transaction, TransactionPaginationParams, TransactionStatus,
    TransactionType,
};
use ledger::money::Money;
use ledger::query::transaction_list_query;
use ledger::rate_limit::RateLimiter;

fn money(units: i128, scale: u32) -> Money {
    Money::new(units, scale).unwrap()
}

fn account(id: u128, owner: u128, balance: Money) -> Account {
    Account {
        id,
        user_id: owner,
        balance,
        currency: "INR".to_string(),
        created_at: 0,
        updated_at: 0,
    }
}

/// A store holding one account, performing the actions of balance operations.
struct Store {
    account: Account,
    next_tx: u128,
    statuses: Vec<(u128, TransactionStatus)>,
}

impl Store {
    fn perform(&mut self, action: &LedgerAction) -> LedgerEvent {
        match action {
            LedgerAction::FetchAccount(id) => {
                if *id == self.account.id {
                    LedgerEvent::Account(Some(self.account.clone()))
                } else {
                    LedgerEvent::Account(None)
                }
            }
            LedgerAction::RecordPending(req) => {
                assert_eq!(req.account_id, self.account.id);
                self.next_tx += 1;
                self.statuses.push((self.next_tx, TransactionStatus::Pending));
                LedgerEvent::Recorded(self.next_tx)
            }
            LedgerAction::WriteBalance { account_id, expected, new_balance } => {
                if *account_id == self.account.id && self.account.balance.le(expected) && expected.le(&self.account.balance) {
                    self.account.balance = *new_balance;
                    LedgerEvent::BalanceWritten(Some(self.account.clone()))
                } else {
                    LedgerEvent::BalanceWritten(None)
                }
            }
            LedgerAction::SetStatus { transaction_id, status } => {
                for entry in self.statuses.iter_mut() {
                    if entry.0 == *transaction_id {
                        entry.1 = *status;
                    }
                }
                LedgerEvent::StatusSet
            }
            LedgerAction::Finish(_) => panic!("nothing to perform"),
        }
    }
}

fn run(op: &mut BalanceOperation, store: &mut Store) -> Result<Account, AppError> {
    let mut action = op.start();
    loop {
        if let LedgerAction::Finish(r) = action {
            return r;
        }
        let ev = store.perform(&action);
        action = op.on_event(ev);
    }
}

#[test]
fn money_compares_across_scales() {
    assert!(money(10000, 2).le(&money(1000, 1)));
    assert!(money(1000, 1).le(&money(10000, 2)));
    assert!(money(6000, 2).lt(&money(10001, 2)));
    assert!(!money(10001, 2).le(&money(100, 0)));
    assert!(money(-500, 2).is_negative());
    assert!(!money(0, 3).is_positive());
    assert!(Money::new(1, 29).is_none());
}

#[test]
fn money_adds_exactly() {
    let sum = money(10000, 2).checked_add(&money(5, 1)).unwrap();
    assert_eq!(sum, money(10050, 2));
    let diff = money(10000, 2).checked_sub(&money(6000, 2)).unwrap();
    assert_eq!(diff, money(4000, 2));
    let big = money(79228162514264337593543950335, 0);
    assert!(big.checked_add(&money(1, 0)).is_none());
}

#[test]
fn deposit_raises_balance() {
    let r = apply_delta(&money(10000, 2), &money(2550, 2), TransactionType::Deposit).unwrap();
    assert_eq!(r, money(12550, 2));
}

#[test]
fn withdrawal_beyond_balance_is_refused() {
    let r = apply_delta(&money(10000, 2), &money(10001, 2), TransactionType::Withdrawal);
    assert!(matches!(r, Err(AppError::Validation(_))));
    let whole = apply_delta(&money(10000, 2), &money(100, 0), TransactionType::Withdrawal).unwrap();
    assert!(!whole.is_positive() && !whole.is_negative());
}

#[test]
fn concurrent_withdrawals_apply_once() {
    // Both operations read 100.00 before either writes.
    let mut store = Store { account: account(1, 7, money(10000, 2)), next_tx: 0, statuses: Vec::new() };
    let mut a = BalanceOperation::new(7, 1, TransactionType::Withdrawal, money(6000, 2), None);
    let mut b = BalanceOperation::new(7, 1, TransactionType::Withdrawal, money(6000, 2), None);
    let mut act_a = a.start();
    let mut act_b = b.start();
    act_a = a.on_event(store.perform(&act_a)); // read
    act_b = b.on_event(store.perform(&act_b)); // read
    act_a = a.on_event(store.perform(&act_a)); // record
    act_b = b.on_event(store.perform(&act_b)); // record
    assert!(matches!(act_a, LedgerAction::WriteBalance { .. }));
    assert!(matches!(act_b, LedgerAction::WriteBalance { .. }));
    act_a = a.on_event(store.perform(&act_a)); // write succeeds
    act_b = b.on_event(store.perform(&act_b)); // write loses the race
    assert!(matches!(act_a, LedgerAction::SetStatus { status: TransactionStatus::Completed, .. }));
    assert!(matches!(act_b, LedgerAction::FetchAccount(1)));
    act_a = a.on_event(store.perform(&act_a));
    act_b = b.on_event(store.perform(&act_b)); // re-read: 40.00 left
    assert!(matches!(act_b, LedgerAction::SetStatus { status: TransactionStatus::Failed, .. }));
    act_b = b.on_event(store.perform(&act_b));
    match act_a {
        LedgerAction::Finish(Ok(acc)) => assert_eq!(acc.balance, money(4000, 2)),
        _ => panic!("first withdrawal should succeed"),
    }
    assert!(matches!(act_b, LedgerAction::Finish(Err(AppError::Validation(_)))));
    assert_eq!(store.account.balance, money(4000, 2));
    assert_eq!(store.statuses, vec![(1, TransactionStatus::Completed), (2, TransactionStatus::Failed)]);
}

#[test]
fn sequential_withdrawals_of_whole_balance() {
    let mut store = Store { account: account(1, 7, money(5000, 2)), next_tx: 0, statuses: Vec::new() };
    let mut a = BalanceOperation::new(7, 1, TransactionType::Withdrawal, money(5000, 2), None);
    let mut b = BalanceOperation::new(7, 1, TransactionType::Withdrawal, money(5000, 2), None);
    let ra = run(&mut a, &mut store);
    let rb = run(&mut b, &mut store);
    assert_eq!(ra.unwrap().balance, money(0, 2));
    assert!(matches!(rb, Err(AppError::Validation(_))));
    assert!(b.is_finished());
}

#[test]
fn negative_deposit_is_refused_without_record() {
    let mut store = Store { account: account(1, 7, money(10000, 2)), next_tx: 0, statuses: Vec::new() };
    let mut op = BalanceOperation::new(7, 1, TransactionType::Deposit, money(-500, 2), None);
    let r = run(&mut op, &mut store);
    assert!(matches!(r, Err(AppError::Validation(_))));
    assert!(store.statuses.is_empty());
    assert_eq!(store.account.balance, money(10000, 2));
}

#[test]
fn deposit_completes_and_records() {
    let mut store = Store { account: account(1, 7, money(10000, 2)), next_tx: 0, statuses: Vec::new() };
    let mut op = BalanceOperation::new(7, 1, TransactionType::Deposit, money(2500, 2), Some("pay".to_string()));
    let r = run(&mut op, &mut store).unwrap();
    assert_eq!(r.balance, money(12500, 2));
    assert_eq!(store.statuses, vec![(1, TransactionStatus::Completed)]);
}

#[test]
fn foreign_account_is_refused() {
    let mut store = Store { account: account(1, 7, money(10000, 2)), next_tx: 0, statuses: Vec::new() };
    let mut op = BalanceOperation::new(8, 1, TransactionType::Withdrawal, money(100, 2), None);
    let r = run(&mut op, &mut store);
    assert!(matches!(r, Err(AppError::Auth(_))));
    assert!(store.statuses.is_empty());
    assert_eq!(store.account.balance, money(10000, 2));
    let r = owned_account(8, Some(account(1, 7, money(0, 0))));
    assert!(matches!(r, Err(AppError::Auth(_))));
    let r = owned_account(7, None);
    assert!(matches!(r, Err(AppError::NotFound(_))));
    assert_eq!(owned_account(7, Some(account(1, 7, money(0, 0)))).unwrap().id, 1);
}

#[test]
fn missing_account_is_not_found() {
    let mut store = Store { account: account(1, 7, money(10000, 2)), next_tx: 0, statuses: Vec::new() };
    let mut op = BalanceOperation::new(7, 2, TransactionType::Deposit, money(100, 2), None);
    let r = run(&mut op, &mut store);
    assert!(matches!(r, Err(AppError::NotFound(_))));
}

#[test]
fn store_failure_is_reported() {
    let mut op = BalanceOperation::new(7, 1, TransactionType::Deposit, money(100, 2), None);
    let _ = op.start();
    let r = op.on_event(LedgerEvent::StoreFailed("connection lost".to_string()));
    match r {
        LedgerAction::Finish(Err(AppError::Database(m))) => assert_eq!(m, "connection lost"),
        _ => panic!("expected a store error"),
    }
}

#[test]
fn transaction_ownership() {
    let t = Transaction {
        id: 5,
        account_id: 1,
        amount: money(100, 2),
        transaction_type: TransactionType::Deposit,
        status: TransactionStatus::Pending,
        description: None,
        created_at: 0,
        updated_at: 0,
    };
    let ok = owned_transaction(7, Some(t.clone()), Some(account(1, 7, money(0, 0))));
    assert_eq!(ok.unwrap().id, 5);
    let denied = owned_transaction(9, Some(t.clone()), Some(account(1, 7, money(0, 0))));
    assert!(matches!(denied, Err(AppError::Auth(_))));
    assert!(matches!(owned_transaction(7, None, None), Err(AppError::NotFound(_))));
    assert!(matches!(owned_transaction(7, Some(t), None), Err(AppError::NotFound(_))));
    assert!(check_user_scope(7, Some(7)).is_ok());
    assert!(check_user_scope(7, None).is_ok());
    assert!(matches!(check_user_scope(7, Some(8)), Err(AppError::Auth(_))));
}

#[test]
fn limiter_admits_hundred_then_refuses_then_resets() {
    let mut limiter = RateLimiter::new(100, 60_000);
    for i in 0..100u64 {
        assert!(!limiter.is_rate_limited("10.0.0.1", i * 100), "call {} refused", i);
    }
    assert!(limiter.is_rate_limited("10.0.0.1", 30_000));
    assert!(!limiter.is_rate_limited("10.0.0.2", 30_000));
    // At second 61 the first window (opened at 0) has ended.
    assert!(!limiter.is_rate_limited("10.0.0.1", 61_000));
    // The new window counts from 1: 99 more calls are admitted, the next refused.
    for i in 0..99u64 {
        assert!(!limiter.is_rate_limited("10.0.0.1", 61_000 + i));
    }
    assert!(limiter.is_rate_limited("10.0.0.1", 62_000));
}

#[test]
fn limiter_boundary_small() {
    let mut limiter = RateLimiter::new(2, 10);
    assert_eq!(limiter.max_requests(), 2);
    assert_eq!(limiter.window(), 10);
    assert!(!limiter.is_rate_limited("k", 0));
    assert!(!limiter.is_rate_limited("k", 5));
    assert!(limiter.is_rate_limited("k", 9));
    assert!(!limiter.is_rate_limited("k", 10));
}

#[test]
fn error_codes_and_statuses() {
    let cases = [
        (AppError::Database("d".to_string()), 500, "INTERNAL_SERVER_ERROR"),
        (AppError::Auth("a".to_string()), 401, "AUTH_FAILED"),
        (AppError::Validation("v".to_string()), 400, "INVALID_INPUT"),
        (AppError::NotFound("n".to_string()), 404, "NOT_FOUND"),
    ];
    for (e, status, code) in cases.iter() {
        assert_eq!(e.status_code(), *status);
        assert_eq!(e.code(), *code);
    }
    assert_eq!(AppError::Auth("bad token".to_string()).message(), "bad token");
}

#[test]
fn stored_text_of_directions_and_statuses() {
    assert_eq!(TransactionType::Deposit.as_str(), "DEPOSIT");
    assert_eq!(TransactionType::Withdrawal.to_string(), "WITHDRAWAL");
    assert_eq!(TransactionType::from_db("DEPOSIT"), TransactionType::Deposit);
    assert_eq!(TransactionType::from_db("other"), TransactionType::Withdrawal);
    assert_eq!(TransactionStatus::Completed.to_string(), "COMPLETED");
    assert_eq!(TransactionStatus::from_db("FAILED"), TransactionStatus::Failed);
    assert_eq!(TransactionStatus::from_db("COMPLETED"), TransactionStatus::Completed);
    assert_eq!(TransactionStatus::from_db("?"), TransactionStatus::Pending);
}

#[test]
fn routes_and_bearer_header() {
    assert!(is_public_route("/users/login", false));
    assert!(is_public_route("/users", true));
    assert!(!is_public_route("/users", false));
    assert!(!is_public_route("/accounts", true));
    assert_eq!(bearer_token("Bearer abc.def").unwrap(), "abc.def");
    assert!(matches!(bearer_token("Basic abc"), Err(AppError::Auth(_))));
    assert!(matches!(bearer_token("Bear"), Err(AppError::Auth(_))));
}

#[test]
fn token_subject_and_claims() {
    let claims = Claims { sub: "a1a2a3a4-b1b2-c1c2-d1d2-d3d4d5d6d7d8".to_string(), exp: 0 };
    let user = subject_user_id(&claims).unwrap();
    assert_eq!(user.user_id, 0xa1a2a3a4b1b2c1c2d1d2d3d4d5d6d7d8);
    let bad = Claims { sub: "not-a-uuid".to_string(), exp: 0 };
    assert!(matches!(subject_user_id(&bad), Err(AppError::Auth(_))));
    let c = claims_for(0xa1a2a3a4b1b2c1c2d1d2d3d4d5d6d7d8, 1_000, 24).unwrap();
    assert_eq!(c.sub, "a1a2a3a4-b1b2-c1c2-d1d2-d3d4d5d6d7d8");
    assert_eq!(c.exp, 1_000 + 24 * 3600);
    assert!(claims_for(1, 1_000, -1).is_none());
}

#[test]
fn pages() {
    assert_eq!(page_bounds(None, None).unwrap(), (0, 10));
    assert_eq!(page_bounds(Some(3), Some(20)).unwrap(), (40, 20));
    assert!(matches!(page_bounds(Some(i64::MAX), Some(i64::MAX)), Err(AppError::Validation(_))));
}

#[test]
fn listing_query_numbers_parameters() {
    let none = TransactionPaginationParams { page: None, per_page: None, account_id: None, transaction_type: None, status: None };
    let q = transaction_list_query(&none);
    assert!(q.ends_with("WHERE a.user_id = $1 ORDER BY t.created_at DESC LIMIT $2 OFFSET $3"));
    let some = TransactionPaginationParams {
        page: None,
        per_page: None,
        account_id: None,
        transaction_type: Some(TransactionType::Deposit),
        status: Some(TransactionStatus::Failed),
    };
    let q = transaction_list_query(&some);
    assert!(q.ends_with(" AND t.type = $2 AND t.status = $3 ORDER BY t.created_at DESC LIMIT $4 OFFSET $5"));
}

#[test]
fn self_service_and_removal() {
    assert!(ledger::ledger::check_self(4, 4).is_ok());
    assert!(matches!(ledger::ledger::check_self(4, 5), Err(AppError::Auth(_))));
    assert!(ledger::ledger::check_removed(true).is_ok());
    assert!(matches!(ledger::ledger::check_removed(false), Err(AppError::NotFound(_))));
}

#[test]
fn new_account_defaults_and_owner() {
    let req = CreateAccountRequest { user_id: 99, currency: None, initial_balance: None };
    let (owner, balance, currency) = ledger::ledger::new_account_values(7, &req).unwrap();
    assert_eq!(owner, 7);
    assert!(!balance.is_positive() && !balance.is_negative());
    assert_eq!(currency, "INR");
    let req = CreateAccountRequest { user_id: 7, currency: Some("USD".to_string()), initial_balance: Some(money(1234, 2)) };
    let (_, balance, currency) = ledger::ledger::new_account_values(7, &req).unwrap();
    assert_eq!(balance, money(1234, 2));
    assert_eq!(currency, "USD");
    let req = CreateAccountRequest { user_id: 7, currency: None, initial_balance: Some(money(-1, 2)) };
    assert!(matches!(ledger::ledger::new_account_values(7, &req), Err(AppError::Validation(_))));
}

#[test]
fn mixed_sequence_keeps_balance_non_negative() {
    let ops = [
        (TransactionType::Withdrawal, money(3000, 2)),
        (TransactionType::Deposit, money(1050, 2)),
        (TransactionType::Withdrawal, money(8000, 2)),
        (TransactionType::Withdrawal, money(5, 0)),
    ];
    let mut balance = money(2500, 2);
    let mut took = Vec::new();
    for (kind, amount) in ops.iter() {
        match apply_delta(&balance, amount, *kind) {
            Ok(b) => {
                balance = b;
                took.push(true);
            }
            Err(_) => took.push(false),
        }
        assert!(!balance.is_negative());
    }
    assert_eq!(took, vec![false, true, false, true]);
    assert_eq!(balance, money(3050, 2));
}

#[test]
fn account_gone_after_lost_race_is_not_found_and_failed() {
    let mut op = BalanceOperation::new(7, 1, TransactionType::Withdrawal, money(1000, 2), None);
    assert!(matches!(op.start(), LedgerAction::FetchAccount(1)));
    let a = op.on_event(LedgerEvent::Account(Some(account(1, 7, money(5000, 2)))));
    assert!(matches!(a, LedgerAction::RecordPending(_)));
    let a = op.on_event(LedgerEvent::Recorded(42));
    assert!(matches!(a, LedgerAction::WriteBalance { account_id: 1, .. }));
    let a = op.on_event(LedgerEvent::BalanceWritten(None));
    assert!(matches!(a, LedgerAction::FetchAccount(1)));
    let a = op.on_event(LedgerEvent::Account(None));
    assert!(matches!(a, LedgerAction::SetStatus { transaction_id: 42, status: TransactionStatus::Failed }));
    let a = op.on_event(LedgerEvent::StatusSet);
    assert!(matches!(a, LedgerAction::Finish(Err(AppError::NotFound(_)))));
    assert!(op.is_finished());
}

#[test]
fn out_of_order_report_ends_with_store_error() {
    let mut op = BalanceOperation::new(7, 1, TransactionType::Deposit, money(1000, 2), None);
    let _ = op.start();
    let a = op.on_event(LedgerEvent::StatusSet);
    assert!(matches!(a, LedgerAction::Finish(Err(AppError::Database(_)))));
}

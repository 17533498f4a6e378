//! The balance-mutation protocol.
//!
//! A deposit or withdrawal reads the account, checks ownership and the amount,
//! records a pending transaction, writes the new balance with a
//! compare-and-swap against the balance it read (re-reading and retrying when
//! another mutation got there first), and finally marks the transaction
//! `Completed` or `Failed` by whether a balance write took effect.
//! `BalanceOperation` makes these decisions; the caller performs each action
//! against the store and hands back what happened.
use vstd::prelude::*;
use crate::error::AppError;
use crate::models::{Account, CreateAccountRequest, CreateTransactionRequest, Transaction, TransactionStatus, TransactionType};
use crate::money::{common_scale, Money, MAX_UNITS};

verus! {

/// The balance after applying `amount` in direction `kind` to `balance`, or
/// `None` when a withdrawal exceeds the balance.
pub open spec fn delta_outcome(balance: int, amount: int, kind: TransactionType) -> Option<int> {
    match kind {
        TransactionType::Deposit => Some(balance + amount),
        TransactionType::Withdrawal => if balance >= amount {
            Some(balance - amount)
        } else {
            None
        },
    }
}

/// Whether the new balance can be written exactly at the finer of the two
/// scales.
pub open spec fn change_fits(balance: Money, amount: Money, kind: TransactionType) -> bool {
    let s = common_scale(balance, amount);
    match kind {
        TransactionType::Deposit => -MAX_UNITS <= balance.at_scale(s) + amount.at_scale(s) <= MAX_UNITS,
        TransactionType::Withdrawal => -MAX_UNITS <= balance.at_scale(s) - amount.at_scale(s)
            <= MAX_UNITS,
    }
}

/// The balance after a deposit or withdrawal of `amount`. A withdrawal larger
/// than the balance is refused as insufficient funds, never clamped.
pub fn apply_delta(balance: &Money, amount: &Money, kind: TransactionType) -> (r: Result<Money, AppError>)
    requires
        balance.wf(),
        amount.wf(),
    ensures
        r is Ok <==> (delta_outcome(balance.value(), amount.value(), kind) is Some && change_fits(
            *balance,
            *amount,
            kind,
        )),
        r matches Ok(m) ==> m.wf() && delta_outcome(balance.value(), amount.value(), kind) == Some(
            m.value(),
        ),
        r matches Err(e) ==> e is Validation,
{
    match kind {
        TransactionType::Deposit => match balance.checked_add(amount) {
            Some(m) => Ok(m),
            None => Err(AppError::Validation("Amount out of range".to_owned())),
        },
        TransactionType::Withdrawal => {
            if balance.lt(amount) {
                Err(AppError::Validation("Insufficient balance".to_owned()))
            } else {
                match balance.checked_sub(amount) {
                    Some(m) => Ok(m),
                    None => Err(AppError::Validation("Amount out of range".to_owned())),
                }
            }
        },
    }
}

/// The account a caller may act on: absent accounts are not found, and an
/// account owned by anyone else is refused.
pub fn owned_account(caller: u128, found: Option<Account>) -> (r: Result<Account, AppError>)
    ensures
        found is None ==> r matches Err(AppError::NotFound(_)),
        found matches Some(a) ==> (a.user_id == caller <==> r is Ok),
        found matches Some(a) && a.user_id != caller ==> r matches Err(AppError::Auth(_)),
        r matches Ok(b) ==> found == Some(b) && b.user_id == caller,
{
    match found {
        None => Err(AppError::NotFound("Account not found".to_owned())),
        Some(a) => {
            if a.user_id == caller {
                Ok(a)
            } else {
                Err(AppError::Auth("Unauthorized access to account".to_owned()))
            }
        },
    }
}

/// The transaction a caller may act on: it must exist, and so must its
/// account, which the caller must own.
pub fn owned_transaction(caller: u128, found: Option<Transaction>, account: Option<Account>) -> (r:
    Result<Transaction, AppError>)
    ensures
        found is None ==> r matches Err(AppError::NotFound(_)),
        found is Some && account is None ==> r matches Err(AppError::NotFound(_)),
        found is Some && (account matches Some(a) && a.user_id != caller) ==> r matches Err(
            AppError::Auth(_),
        ),
        r is Ok <==> (found is Some && (account matches Some(a) && a.user_id == caller)),
        r matches Ok(t) ==> found == Some(t),
{
    match found {
        None => Err(AppError::NotFound("Transaction not found".to_owned())),
        Some(t) => match account {
            None => Err(AppError::NotFound("Account not found".to_owned())),
            Some(a) => {
                if a.user_id == caller {
                    Ok(t)
                } else {
                    Err(AppError::Auth("Unauthorized access to transaction".to_owned()))
                }
            },
        },
    }
}

/// A listing scoped to a user is only for that user.
pub fn check_user_scope(caller: u128, requested: Option<u128>) -> (r: Result<(), AppError>)
    ensures
        r is Ok <==> (requested is None || requested == Some(caller)),
        r matches Err(e) ==> e is Auth,
{
    match requested {
        Some(u) => {
            if u != caller {
                Err(AppError::Auth("Unauthorized to view other users' records".to_owned()))
            } else {
                Ok(())
            }
        },
        None => Ok(()),
    }
}

/// The offset and limit of a page (pages count from 1, ten records each by
/// default); a page whose offset does not fit in `i64` is refused.
pub fn page_bounds(page: Option<i64>, per_page: Option<i64>) -> (r: Result<(i64, i64), AppError>)
    ensures
        ({
            let p: int = match page {
                Some(v) => v as int,
                None => 1,
            };
            let n: int = match per_page {
                Some(v) => v as int,
                None => 10,
            };
            &&& r is Ok <==> i64::MIN <= (p - 1) * n <= i64::MAX
            &&& r matches Ok(b) ==> b.0 == (p - 1) * n && b.1 == n
            &&& r matches Err(e) ==> e is Validation
        }),
{
    let p: i64 = match page {
        Some(v) => v,
        None => 1,
    };
    let n: i64 = match per_page {
        Some(v) => v,
        None => 10,
    };
    let prev = p as i128 - 1;
    let wide = (n as i128).checked_mul(prev);
    proof {
        assert(prev * n == n * prev) by (nonlinear_arith);
    }
    match wide {
        Some(off) => {
            if off < i64::MIN as i128 || off > i64::MAX as i128 {
                Err(AppError::Validation("Page out of range".to_owned()))
            } else {
                Ok((off as i64, n))
            }
        },
        None => {
            proof {
                assert(-(i64::MAX as int) - 1 <= n <= i64::MAX);
                assert(-(i64::MAX as int) - 2 <= prev <= i64::MAX);
                assert(n * prev <= 0x8000_0000_0000_0001 * 0x8000_0000_0000_0000) by (nonlinear_arith)
                    requires
                        -0x8000_0000_0000_0000 <= n <= 0x7fff_ffff_ffff_ffff,
                        -0x8000_0000_0000_0001 <= prev <= 0x7fff_ffff_ffff_ffff,
                ;
                assert(n * prev >= -(0x8000_0000_0000_0001 * 0x8000_0000_0000_0000)) by (nonlinear_arith)
                    requires
                        -0x8000_0000_0000_0000 <= n <= 0x7fff_ffff_ffff_ffff,
                        -0x8000_0000_0000_0001 <= prev <= 0x7fff_ffff_ffff_ffff,
                ;
            }
            Err(AppError::Validation("Page out of range".to_owned()))
        },
    }
}

/// The signed change a transaction of `amount` in direction `kind` makes.
pub open spec fn signed_delta(kind: TransactionType, amount: int) -> int {
    match kind {
        TransactionType::Deposit => amount,
        TransactionType::Withdrawal => -amount,
    }
}

/// Applies `ops` one after another to `balance` by the balance rule, as the
/// store serializes them: the final balance, and for each operation whether
/// it took effect.
pub open spec fn run_deltas(balance: int, ops: Seq<(TransactionType, int)>) -> (int, Seq<bool>)
    decreases ops.len(),
{
    if ops.len() == 0 {
        (balance, Seq::empty())
    } else {
        let prev = run_deltas(balance, ops.drop_last());
        match delta_outcome(prev.0, ops.last().1, ops.last().0) {
            Some(b) => (b, prev.1.push(true)),
            None => (prev.0, prev.1.push(false)),
        }
    }
}

/// The sum of the changes of the operations in `ops` that took effect.
pub open spec fn applied_sum(ops: Seq<(TransactionType, int)>, took: Seq<bool>) -> int
    decreases ops.len(),
{
    if ops.len() == 0 || took.len() != ops.len() {
        0
    } else {
        applied_sum(ops.drop_last(), took.drop_last()) + if took.last() {
            signed_delta(ops.last().0, ops.last().1)
        } else {
            0
        }
    }
}

/// Whatever the order in which deposits and withdrawals of positive amounts
/// reach an account, its balance stays non-negative and ends at the starting
/// balance plus the changes that took effect; an operation is refused exactly
/// when it is a withdrawal larger than the balance it met.
pub proof fn lemma_balance_never_negative(balance: int, ops: Seq<(TransactionType, int)>)
    requires
        balance >= 0,
        forall|i: int| 0 <= i < ops.len() ==> #[trigger] ops[i].1 > 0,
    ensures
        run_deltas(balance, ops).0 >= 0,
        run_deltas(balance, ops).1.len() == ops.len(),
        run_deltas(balance, ops).0 == balance + applied_sum(ops, run_deltas(balance, ops).1),
        forall|i: int|
            0 <= i < ops.len() ==> (!#[trigger] run_deltas(balance, ops).1[i] <==> (ops[i].0 is Withdrawal
                && run_deltas(balance, ops.take(i)).0 < ops[i].1)),
    decreases ops.len(),
{
    if ops.len() > 0 {
        let front = ops.drop_last();
        assert forall|i: int| 0 <= i < front.len() implies #[trigger] front[i].1 > 0 by {
            assert(front[i] == ops[i]);
        }
        lemma_balance_never_negative(balance, front);
        let prev = run_deltas(balance, front);
        let r = run_deltas(balance, ops);
        assert(r.1.drop_last() == prev.1);
        let n = ops.len() - 1;
        assert(ops.take(n) == front);
        assert forall|i: int| 0 <= i < ops.len() implies (!#[trigger] r.1[i] <==> (ops[i].0 is Withdrawal
            && run_deltas(balance, ops.take(i)).0 < ops[i].1)) by {
            if i < n {
                assert(r.1[i] == prev.1[i]);
                assert(ops.take(i) == front.take(i));
                assert(ops[i] == front[i]);
            }
        }
    }
}

/// Two withdrawals that each ask for the whole (positive) balance: whichever
/// the store applies first succeeds and leaves zero, and the other is refused.
pub proof fn lemma_whole_balance_withdrawn_once(balance: int)
    requires
        balance > 0,
    ensures
        run_deltas(
            balance,
            seq![(TransactionType::Withdrawal, balance), (TransactionType::Withdrawal, balance)],
        ) == (0int, seq![true, false]),
{
    let ops = seq![(TransactionType::Withdrawal, balance), (TransactionType::Withdrawal, balance)];
    let one = ops.drop_last();
    assert(one.drop_last().len() == 0);
    assert(run_deltas(balance, one.drop_last()) == (balance, Seq::<bool>::empty()));
    assert(run_deltas(balance, one) == (0int, seq![true]));
    assert(seq![true].push(false) == seq![true, false]);
}

/// A user may change or remove only their own record.
pub fn check_self(caller: u128, target: u128) -> (r: Result<(), AppError>)
    ensures
        r is Ok <==> caller == target,
        r matches Err(e) ==> e is Auth,
{
    if caller == target {
        Ok(())
    } else {
        Err(AppError::Auth("Unauthorized".to_owned()))
    }
}

/// A removal that found nothing to remove reports the record as not found.
pub fn check_removed(removed: bool) -> (r: Result<(), AppError>)
    ensures
        r is Ok <==> removed,
        r matches Err(e) ==> e is NotFound,
{
    if removed {
        Ok(())
    } else {
        Err(AppError::NotFound("Record not found".to_owned()))
    }
}

/// The owner, opening balance and currency of a new account: it belongs to
/// the caller whoever the request names, opens at zero in "INR" unless the
/// request says otherwise, and may not open with a negative balance.
pub fn new_account_values(caller: u128, req: &CreateAccountRequest) -> (r: Result<
    (u128, Money, String),
    AppError,
>)
    ensures
        r is Ok <==> (req.initial_balance matches Some(b) ==> b.wf() && b.value() >= 0),
        r matches Ok(v) ==> v.0 == caller && (req.initial_balance matches Some(b) ==> v.1 == b)
            && (req.initial_balance is None ==> v.1.wf() && v.1.value() == 0) && (
        req.currency matches Some(c) ==> v.2@ == c@) && (req.currency is None ==> v.2@ == "INR"@),
        r matches Err(e) ==> e is Validation,
{
    let balance = match req.initial_balance {
        Some(b) => {
            if !b.wf_check() || b.is_negative() {
                return Err(AppError::Validation("Invalid initial balance".to_owned()));
            }
            b
        },
        None => Money::zero(),
    };
    let currency = match &req.currency {
        Some(c) => c.clone(),
        None => "INR".to_owned(),
    };
    Ok((caller, balance, currency))
}

/// What the store should do next for a balance operation.
#[derive(Debug)]
pub enum LedgerAction {
    /// Read the account with this id.
    FetchAccount(u128),
    /// Insert this transaction with status `Pending`, handing back its id.
    RecordPending(CreateTransactionRequest),
    /// Set the account's balance to `new_balance` only if it still is
    /// `expected`, handing back the updated account, or nothing when the
    /// balance had changed.
    WriteBalance { account_id: u128, expected: Money, new_balance: Money },
    /// Set the status of the recorded transaction.
    SetStatus { transaction_id: u128, status: TransactionStatus },
    /// The operation is over, with this outcome.
    Finish(Result<Account, AppError>),
}

/// What the store reports after an action.
#[derive(Clone, Debug)]
pub enum LedgerEvent {
    Account(Option<Account>),
    Recorded(u128),
    BalanceWritten(Option<Account>),
    StatusSet,
    StoreFailed(String),
}

/// Where a balance operation stands.
#[derive(Debug)]
pub enum Stage {
    Start,
    AwaitAccount,
    AwaitRecord { expected: Money, new_balance: Money },
    AwaitWrite { transaction_id: u128 },
    AwaitRefetch { transaction_id: u128 },
    AwaitStatus { transaction_id: u128, outcome: Result<Account, AppError> },
    Done,
}

/// Whether the balance rule applies `amount` to `balance` within range.
pub open spec fn applies(balance: Money, amount: Money, kind: TransactionType) -> bool {
    delta_outcome(balance.value(), amount.value(), kind) is Some && change_fits(balance, amount, kind)
}

/// Whether `ev` is a report that an operation at stage `st` waits for.
pub open spec fn expects(st: Stage, ev: LedgerEvent) -> bool {
    match st {
        Stage::AwaitAccount | Stage::AwaitRefetch { .. } => ev is Account,
        Stage::AwaitRecord { .. } => ev is Recorded,
        Stage::AwaitWrite { .. } => ev is BalanceWritten,
        Stage::AwaitStatus { .. } => ev is StatusSet,
        Stage::Start | Stage::Done => false,
    }
}

/// One deposit or withdrawal by `caller` on one account.
pub struct BalanceOperation {
    caller: u128,
    account_id: u128,
    kind: TransactionType,
    amount: Money,
    description: Option<String>,
    stage: Stage,
    applied: Ghost<nat>,
}

impl BalanceOperation {
    pub closed spec fn caller(self) -> u128 {
        self.caller
    }

    pub closed spec fn account_id(self) -> u128 {
        self.account_id
    }

    pub closed spec fn kind(self) -> TransactionType {
        self.kind
    }

    pub closed spec fn amount(self) -> Money {
        self.amount
    }

    pub closed spec fn description(self) -> Option<String> {
        self.description
    }

    pub closed spec fn stage(self) -> Stage {
        self.stage
    }

    /// How many balance writes of this operation took effect.
    pub closed spec fn applied(self) -> nat {
        self.applied@
    }

    /// A balance write takes effect at most once; the transaction's final
    /// status is only set once it is known whether one did; an operation that
    /// succeeds has applied its change.
    pub closed spec fn wf(self) -> bool {
        &&& self.amount.wf()
        &&& self.applied@ <= 1
        &&& match self.stage {
            Stage::Start | Stage::AwaitAccount | Stage::AwaitRecord { .. } => self.applied@ == 0,
            Stage::AwaitWrite { .. } | Stage::AwaitRefetch { .. } => self.applied@ == 0,
            Stage::AwaitStatus { outcome, .. } => (outcome is Ok <==> self.applied@ == 1),
            Stage::Done => true,
        }
        &&& (self.stage matches Stage::AwaitRecord { expected, new_balance } ==> expected.wf()
            && new_balance.wf() && delta_outcome(expected.value(), self.amount.value(), self.kind) == Some(
            new_balance.value(),
        ))
    }

    pub fn new(
        caller: u128,
        account_id: u128,
        kind: TransactionType,
        amount: Money,
        description: Option<String>,
    ) -> (r: BalanceOperation)
        requires
            amount.wf(),
        ensures
            r.wf(),
            r.caller() == caller,
            r.account_id() == account_id,
            r.kind() == kind,
            r.amount() == amount,
            r.description() == description,
            r.stage() is Start,
            r.applied() == 0,
    {
        BalanceOperation {
            caller,
            account_id,
            kind,
            amount,
            description,
            stage: Stage::Start,
            applied: Ghost(0),
        }
    }

    pub fn is_finished(&self) -> (r: bool)
        ensures
            r == self.stage() is Done,
    {
        match self.stage {
            Stage::Done => true,
            _ => false,
        }
    }

    /// The first action: a non-positive amount is refused before anything is
    /// read or recorded; otherwise the account is read.
    pub fn start(&mut self) -> (r: LedgerAction)
        requires
            old(self).wf(),
            old(self).stage() is Start,
        ensures
            final(self).wf(),
            final(self).applied() == 0,
            final(self).caller() == old(self).caller(),
            final(self).account_id() == old(self).account_id(),
            final(self).kind() == old(self).kind(),
            final(self).amount() == old(self).amount(),
            final(self).description() == old(self).description(),
            old(self).amount().value() <= 0 ==> (r matches LedgerAction::Finish(
                Err(AppError::Validation(_)),
            ) && final(self).stage() is Done),
            old(self).amount().value() > 0 ==> r == LedgerAction::FetchAccount(old(self).account_id())
                && final(self).stage() is AwaitAccount,
    {
        if !self.amount.is_positive() {
            self.stage = Stage::Done;
            LedgerAction::Finish(Err(AppError::Validation("Invalid amount".to_owned())))
        } else {
            self.stage = Stage::AwaitAccount;
            LedgerAction::FetchAccount(self.account_id)
        }
    }

    /// Ends the operation on a store failure or an out-of-order report.
    fn fail(&mut self, message: String) -> (r: LedgerAction)
        requires
            old(self).wf(),
        ensures
            final(self).wf(),
            final(self).stage() is Done,
            final(self).applied() == old(self).applied(),
            r == LedgerAction::Finish(Err(AppError::Database(message))),
            final(self).caller() == old(self).caller(),
            final(self).account_id() == old(self).account_id(),
            final(self).kind() == old(self).kind(),
            final(self).amount() == old(self).amount(),
            final(self).description() == old(self).description(),
    {
        self.stage = Stage::Done;
        LedgerAction::Finish(Err(AppError::Database(message)))
    }

    /// The next action, given what the store reported for the last one.
    pub fn on_event(&mut self, ev: LedgerEvent) -> (r: LedgerAction)
        requires
            old(self).wf(),
        ensures
            final(self).wf(),
            final(self).caller() == old(self).caller(),
            final(self).account_id() == old(self).account_id(),
            final(self).kind() == old(self).kind(),
            final(self).amount() == old(self).amount(),
            final(self).description() == old(self).description(),
            // a balance write takes effect exactly when the store reports it
            final(self).applied() == old(self).applied() + if old(self).stage() is AwaitWrite
                && (ev matches LedgerEvent::BalanceWritten(Some(_))) {
                1nat
            } else {
                0nat
            },
            // a store failure, or a report the operation is not waiting for, ends it
            ev matches LedgerEvent::StoreFailed(m) ==> (r == LedgerAction::Finish(
                Err(AppError::Database(m)),
            ) && final(self).stage() is Done),
            !expects(old(self).stage(), ev) ==> (r matches LedgerAction::Finish(
                Err(AppError::Database(_)),
            ) && final(self).stage() is Done),
            // reading the account: absent, foreign, refused by the balance rule, or recorded
            old(self).stage() is AwaitAccount ==> (ev matches LedgerEvent::Account(found) ==> (
            found is None ==> (r matches LedgerAction::Finish(Err(AppError::NotFound(_)))
                && final(self).stage() is Done))),
            old(self).stage() is AwaitAccount ==> (ev matches LedgerEvent::Account(Some(a)) ==> (
            a.user_id != old(self).caller() ==> (r matches LedgerAction::Finish(
                Err(AppError::Auth(_)),
            ) && final(self).stage() is Done))),
            old(self).stage() is AwaitAccount ==> (ev matches LedgerEvent::Account(Some(a)) ==> (
            a.user_id == old(self).caller() && !a.balance.wf() ==> (r matches LedgerAction::Finish(
                Err(AppError::Database(_)),
            ) && final(self).stage() is Done))),
            old(self).stage() is AwaitAccount ==> (ev matches LedgerEvent::Account(Some(a)) ==> (
            a.user_id == old(self).caller() && a.balance.wf() && !applies(
                a.balance,
                old(self).amount(),
                old(self).kind(),
            ) ==> (r matches LedgerAction::Finish(Err(AppError::Validation(_)))
                && final(self).stage() is Done))),
            old(self).stage() is AwaitAccount ==> (ev matches LedgerEvent::Account(Some(a)) ==> (
            a.user_id == old(self).caller() && a.balance.wf() && applies(
                a.balance,
                old(self).amount(),
                old(self).kind(),
            ) ==> (r == LedgerAction::RecordPending(
                CreateTransactionRequest {
                    account_id: old(self).account_id(),
                    amount: old(self).amount(),
                    transaction_type: old(self).kind(),
                    description: old(self).description(),
                },
            ) && (final(self).stage() matches Stage::AwaitRecord { expected, new_balance }
                && expected == a.balance && new_balance.wf() && delta_outcome(
                a.balance.value(),
                old(self).amount().value(),
                old(self).kind(),
            ) == Some(new_balance.value()))))),
            // the record exists: write the balance computed from the one read
            old(self).stage() matches Stage::AwaitRecord { expected, new_balance } ==> (
            ev matches LedgerEvent::Recorded(tid) ==> (r == LedgerAction::WriteBalance {
                account_id: old(self).account_id(),
                expected,
                new_balance,
            } && final(self).stage() == Stage::AwaitWrite { transaction_id: tid })),
            // the write took effect: mark the record completed, then succeed with the
            // account the store returned
            old(self).stage() matches Stage::AwaitWrite { transaction_id } ==> (
            ev matches LedgerEvent::BalanceWritten(Some(acc)) ==> (r == LedgerAction::SetStatus {
                transaction_id,
                status: TransactionStatus::Completed,
            } && final(self).stage() == Stage::AwaitStatus { transaction_id, outcome: Ok(acc) })),
            // the balance changed meanwhile: read it again
            old(self).stage() matches Stage::AwaitWrite { transaction_id } ==> (
            ev matches LedgerEvent::BalanceWritten(None) ==> (r == LedgerAction::FetchAccount(
                old(self).account_id(),
            ) && final(self).stage() == Stage::AwaitRefetch { transaction_id })),
            // after a lost race: mark the record failed when the change no longer
            // applies, or write again from the balance just read
            old(self).stage() matches Stage::AwaitRefetch { transaction_id } ==> (
            ev matches LedgerEvent::Account(None) ==> (r == LedgerAction::SetStatus {
                transaction_id,
                status: TransactionStatus::Failed,
            } && (final(self).stage() matches Stage::AwaitStatus { transaction_id: t, outcome }
                && t == transaction_id && outcome matches Err(AppError::NotFound(_))))),
            old(self).stage() matches Stage::AwaitRefetch { transaction_id } ==> (
            ev matches LedgerEvent::Account(Some(a)) ==> (!a.balance.wf() ==> (r
                == LedgerAction::SetStatus { transaction_id, status: TransactionStatus::Failed }
                && (final(self).stage() matches Stage::AwaitStatus { transaction_id: t, outcome }
                && t == transaction_id && outcome matches Err(AppError::Database(_)))))),
            old(self).stage() matches Stage::AwaitRefetch { transaction_id } ==> (
            ev matches LedgerEvent::Account(Some(a)) ==> (a.balance.wf() && !applies(
                a.balance,
                old(self).amount(),
                old(self).kind(),
            ) ==> (r == LedgerAction::SetStatus {
                transaction_id,
                status: TransactionStatus::Failed,
            } && (final(self).stage() matches Stage::AwaitStatus { transaction_id: t, outcome }
                && t == transaction_id && outcome matches Err(AppError::Validation(_)))))),
            old(self).stage() matches Stage::AwaitRefetch { transaction_id } ==> (
            ev matches LedgerEvent::Account(Some(a)) ==> (a.balance.wf() && applies(
                a.balance,
                old(self).amount(),
                old(self).kind(),
            ) ==> ((r matches LedgerAction::WriteBalance { account_id, expected, new_balance }
                && account_id == old(self).account_id() && expected == a.balance
                && new_balance.wf() && delta_outcome(
                a.balance.value(),
                old(self).amount().value(),
                old(self).kind(),
            ) == Some(new_balance.value())) && final(self).stage() == Stage::AwaitWrite {
                transaction_id,
            }))),
            // the status is stored: end with the outcome decided before
            old(self).stage() matches Stage::AwaitStatus { outcome, .. } ==> (ev is StatusSet ==> (r
                == LedgerAction::Finish(outcome) && final(self).stage() is Done)),
            // only a pending record of an owned account leads to a write
            r is RecordPending ==> old(self).stage() is AwaitAccount && (ev matches LedgerEvent::Account(
                Some(a),
            ) && a.user_id == old(self).caller()),
            // every write is the balance rule applied to the balance it replaces
            r matches LedgerAction::WriteBalance { account_id, expected, new_balance }
                ==> account_id == old(self).account_id() && expected.wf() && new_balance.wf()
                && delta_outcome(expected.value(), old(self).amount().value(), old(self).kind())
                == Some(new_balance.value()) && final(self).applied() == 0
                && final(self).stage() is AwaitWrite,
            // the final status tells whether the change took effect
            r matches LedgerAction::SetStatus { status, .. } ==> (status is Completed
                <==> final(self).applied() == 1) && (status is Completed || status is Failed),
            // success only after the change took effect; an error other than a store
            // failure only when it did not
            r matches LedgerAction::Finish(Ok(_)) ==> final(self).applied() == 1,
            r matches LedgerAction::Finish(Err(e)) ==> (e is Database || final(self).applied() == 0),
            r is Finish ==> final(self).stage() is Done,
    {
        if let LedgerEvent::StoreFailed(m) = ev {
            return self.fail(m);
        }
        let mut stage = Stage::Done;
        std::mem::swap(&mut stage, &mut self.stage);
        match stage {
            Stage::AwaitAccount => match ev {
                LedgerEvent::Account(found) => match owned_account(self.caller, found) {
                    Err(e) => LedgerAction::Finish(Err(e)),
                    Ok(a) => {
                        if !a.balance.wf_check() {
                            return self.fail("Stored balance out of range".to_owned());
                        }
                        match apply_delta(&a.balance, &self.amount, self.kind) {
                            Err(e) => LedgerAction::Finish(Err(e)),
                            Ok(nb) => {
                                self.stage = Stage::AwaitRecord { expected: a.balance, new_balance: nb };
                                LedgerAction::RecordPending(
                                    CreateTransactionRequest {
                                        account_id: self.account_id,
                                        amount: self.amount,
                                        transaction_type: self.kind,
                                        description: self.description.clone(),
                                    },
                                )
                            },
                        }
                    },
                },
                _ => self.fail("Unexpected store reply".to_owned()),
            },
            Stage::AwaitRecord { expected, new_balance } => match ev {
                LedgerEvent::Recorded(id) => {
                    self.stage = Stage::AwaitWrite { transaction_id: id };
                    LedgerAction::WriteBalance { account_id: self.account_id, expected, new_balance }
                },
                _ => self.fail("Unexpected store reply".to_owned()),
            },
            Stage::AwaitWrite { transaction_id } => match ev {
                LedgerEvent::BalanceWritten(Some(acc)) => {
                    self.stage = Stage::AwaitStatus { transaction_id, outcome: Ok(acc) };
                    proof {
                        self.applied = Ghost(1);
                    }
                    LedgerAction::SetStatus { transaction_id, status: TransactionStatus::Completed }
                },
                LedgerEvent::BalanceWritten(None) => {
                    self.stage = Stage::AwaitRefetch { transaction_id };
                    LedgerAction::FetchAccount(self.account_id)
                },
                _ => self.fail("Unexpected store reply".to_owned()),
            },
            Stage::AwaitRefetch { transaction_id } => match ev {
                LedgerEvent::Account(None) => {
                    self.stage = Stage::AwaitStatus {
                        transaction_id,
                        outcome: Err(AppError::NotFound("Account not found".to_owned())),
                    };
                    LedgerAction::SetStatus { transaction_id, status: TransactionStatus::Failed }
                },
                LedgerEvent::Account(Some(a)) => {
                    if !a.balance.wf_check() {
                        self.stage = Stage::AwaitStatus {
                            transaction_id,
                            outcome: Err(AppError::Database("Stored balance out of range".to_owned())),
                        };
                        return LedgerAction::SetStatus { transaction_id, status: TransactionStatus::Failed };
                    }
                    match apply_delta(&a.balance, &self.amount, self.kind) {
                        Err(e) => {
                            self.stage = Stage::AwaitStatus { transaction_id, outcome: Err(e) };
                            LedgerAction::SetStatus { transaction_id, status: TransactionStatus::Failed }
                        },
                        Ok(nb) => {
                            self.stage = Stage::AwaitWrite { transaction_id };
                            LedgerAction::WriteBalance {
                                account_id: self.account_id,
                                expected: a.balance,
                                new_balance: nb,
                            }
                        },
                    }
                },
                _ => self.fail("Unexpected store reply".to_owned()),
            },
            Stage::AwaitStatus { transaction_id, outcome } => match ev {
                LedgerEvent::StatusSet => LedgerAction::Finish(outcome),
                _ => self.fail("Unexpected store reply".to_owned()),
            },
            _ => self.fail("Unexpected store reply".to_owned()),
        }
    }
}

} // verus!

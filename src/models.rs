//! The ledger's records and the requests that act on them.
//!
//! Identities are 128-bit values (the integer form of a UUID); timestamps are
//! microseconds since the Unix epoch; amounts are exact decimals.
use vstd::prelude::*;
use crate::money::Money;

verus! {

#[derive(Clone, Copy, Debug, PartialEq, Eq, Structural)]
pub enum TransactionType {
    Withdrawal,
    Deposit,
}

impl TransactionType {
    /// The stored text of this direction.
    pub fn as_str(&self) -> (r: &'static str)
        ensures
            r@ == match self {
                TransactionType::Withdrawal => "WITHDRAWAL"@,
                TransactionType::Deposit => "DEPOSIT"@,
            },
    {
        match self {
            TransactionType::Withdrawal => "WITHDRAWAL",
            TransactionType::Deposit => "DEPOSIT",
        }
    }

    pub fn to_string(&self) -> (r: String)
        ensures
            r@ == match self {
                TransactionType::Withdrawal => "WITHDRAWAL"@,
                TransactionType::Deposit => "DEPOSIT"@,
            },
    {
        self.as_str().to_owned()
    }

    /// The direction stored as `s`; text that names none reads as a withdrawal.
    pub fn from_db(s: &str) -> (r: TransactionType)
        ensures
            r == (if s@ == "DEPOSIT"@ {
                TransactionType::Deposit
            } else {
                TransactionType::Withdrawal
            }),
    {
        if s.to_owned() == "DEPOSIT".to_owned() {
            TransactionType::Deposit
        } else {
            TransactionType::Withdrawal
        }
    }
}

#[derive(Clone, Copy, Debug, PartialEq, Eq, Structural)]
pub enum TransactionStatus {
    Pending,
    Completed,
    Failed,
}

impl TransactionStatus {
    /// The stored text of this status.
    pub fn as_str(&self) -> (r: &'static str)
        ensures
            r@ == match self {
                TransactionStatus::Pending => "PENDING"@,
                TransactionStatus::Completed => "COMPLETED"@,
                TransactionStatus::Failed => "FAILED"@,
            },
    {
        match self {
            TransactionStatus::Pending => "PENDING",
            TransactionStatus::Completed => "COMPLETED",
            TransactionStatus::Failed => "FAILED",
        }
    }

    pub fn to_string(&self) -> (r: String)
        ensures
            r@ == match self {
                TransactionStatus::Pending => "PENDING"@,
                TransactionStatus::Completed => "COMPLETED"@,
                TransactionStatus::Failed => "FAILED"@,
            },
    {
        self.as_str().to_owned()
    }

    /// The status stored as `s`; text that names none reads as pending.
    pub fn from_db(s: &str) -> (r: TransactionStatus)
        ensures
            r == (if s@ == "COMPLETED"@ {
                TransactionStatus::Completed
            } else if s@ == "FAILED"@ {
                TransactionStatus::Failed
            } else {
                TransactionStatus::Pending
            }),
    {
        let t = s.to_owned();
        if t == "COMPLETED".to_owned() {
            TransactionStatus::Completed
        } else if t == "FAILED".to_owned() {
            TransactionStatus::Failed
        } else {
            TransactionStatus::Pending
        }
    }
}

#[derive(Clone, Debug)]
pub struct Account {
    pub id: u128,
    pub user_id: u128,
    pub balance: Money,
    pub currency: String,
    pub created_at: i64,
    pub updated_at: i64,
}

#[derive(Clone, Debug)]
pub struct CreateAccountRequest {
    pub user_id: u128,
    pub currency: Option<String>,
    pub initial_balance: Option<Money>,
}

#[derive(Clone, Debug)]
pub struct UpdateAccountRequest {
    pub currency: Option<String>,
}

#[derive(Clone, Debug)]
pub struct DepositRequest {
    pub amount: Money,
    pub description: Option<String>,
}

#[derive(Clone, Debug)]
pub struct WithdrawalRequest {
    pub amount: Money,
    pub description: Option<String>,
}

#[derive(Clone, Debug)]
pub struct AccountPaginationParams {
    pub page: Option<i64>,
    pub per_page: Option<i64>,
    pub user_id: Option<u128>,
}

#[derive(Clone, Debug)]
pub struct Transaction {
    pub id: u128,
    pub account_id: u128,
    pub amount: Money,
    pub transaction_type: TransactionType,
    pub status: TransactionStatus,
    pub description: Option<String>,
    pub created_at: i64,
    pub updated_at: i64,
}

#[derive(Clone, Debug)]
pub struct CreateTransactionRequest {
    pub account_id: u128,
    pub amount: Money,
    pub transaction_type: TransactionType,
    pub description: Option<String>,
}

#[derive(Clone, Copy, Debug)]
pub struct UpdateTransactionStatusRequest {
    pub status: TransactionStatus,
}

#[derive(Clone, Copy, Debug)]
pub struct TransactionPaginationParams {
    pub page: Option<i64>,
    pub per_page: Option<i64>,
    pub account_id: Option<u128>,
    pub transaction_type: Option<TransactionType>,
    pub status: Option<TransactionStatus>,
}

#[derive(Clone, Debug)]
pub struct User {
    pub id: u128,
    pub name: String,
    pub email: String,
    pub created_at: i64,
    pub updated_at: i64,
    pub password: String,
}

#[derive(Clone, Debug)]
pub struct CreateUserRequest {
    pub name: String,
    pub email: String,
    pub password: String,
}

#[derive(Clone, Debug)]
pub struct UpdateUserRequest {
    pub name: Option<String>,
    pub email: Option<String>,
    pub password: Option<String>,
}

#[derive(Clone, Debug)]
pub struct LoginRequest {
    pub email: String,
    pub password: String,
}

#[derive(Clone, Debug)]
pub struct LoginResponse {
    pub token: String,
    pub user: User,
}

#[derive(Clone, Copy, Debug)]
pub struct PaginationParams {
    pub page: Option<i64>,
    pub per_page: Option<i64>,
}

/// Where the service finds its store.
#[derive(Clone, Debug)]
pub struct AppConfig {
    pub database_url: String,
}

} // verus!

//! The library's error type.

use vstd::prelude::*;
use vstd::string::*;
use crate::text::concat;

verus! {

/// Errors of the budget domain, of the transport and of tool execution.
#[derive(Debug, Clone, PartialEq)]
pub enum YnabError {
    /// Invalid budget ID, or a tool name that is not in the registry.
    InvalidBudgetId(String),
    /// Category not found.
    CategoryNotFound(String),
    /// Account not found.
    AccountNotFound(String),
    /// Payee not found.
    PayeeNotFound(String),
    /// Transaction not found.
    TransactionNotFound(String),
    /// Invalid money amount.
    InvalidAmount(String),
    /// Invalid date format.
    InvalidDate(String),
    /// An HTTP request to the budgeting service failed; holds its description.
    HttpApiError(String),
    /// A read or write failed, or the stream ended inside a message; holds
    /// its description.
    IoError(String),
    /// Malformed input or a failed call, with a message.
    ApiError(String),
}

/// Result of the library's fallible operations.
pub type YnabResult<T> = Result<T, YnabError>;

/// The human-readable text of an error.
pub open spec fn error_text(e: YnabError) -> Seq<char> {
    match e {
        YnabError::InvalidBudgetId(s) => "Invalid budget ID: "@ + s@,
        YnabError::CategoryNotFound(s) => "Category not found: "@ + s@,
        YnabError::AccountNotFound(s) => "Account not found: "@ + s@,
        YnabError::PayeeNotFound(s) => "Payee not found: "@ + s@,
        YnabError::TransactionNotFound(s) => "Transaction not found: "@ + s@,
        YnabError::InvalidAmount(s) => "Invalid money amount: "@ + s@,
        YnabError::InvalidDate(s) => "Invalid date format: "@ + s@,
        YnabError::HttpApiError(s) => "API request failed: "@ + s@,
        YnabError::IoError(s) => "IO operation failed: "@ + s@,
        YnabError::ApiError(s) => "API request failed: "@ + s@,
    }
}

impl YnabError {
    /// An invalid budget ID error.
    pub fn invalid_budget_id(id: &str) -> (r: YnabError)
        ensures
            r matches YnabError::InvalidBudgetId(s) && s@ == id@,
    {
        YnabError::InvalidBudgetId(String::from_str(id))
    }

    /// A category-not-found error.
    pub fn category_not_found(id: &str) -> (r: YnabError)
        ensures
            r matches YnabError::CategoryNotFound(s) && s@ == id@,
    {
        YnabError::CategoryNotFound(String::from_str(id))
    }

    /// An account-not-found error.
    pub fn account_not_found(id: &str) -> (r: YnabError)
        ensures
            r matches YnabError::AccountNotFound(s) && s@ == id@,
    {
        YnabError::AccountNotFound(String::from_str(id))
    }

    /// A payee-not-found error.
    pub fn payee_not_found(id: &str) -> (r: YnabError)
        ensures
            r matches YnabError::PayeeNotFound(s) && s@ == id@,
    {
        YnabError::PayeeNotFound(String::from_str(id))
    }

    /// A transaction-not-found error.
    pub fn transaction_not_found(id: &str) -> (r: YnabError)
        ensures
            r matches YnabError::TransactionNotFound(s) && s@ == id@,
    {
        YnabError::TransactionNotFound(String::from_str(id))
    }

    /// An invalid-amount error.
    pub fn invalid_amount(message: &str) -> (r: YnabError)
        ensures
            r matches YnabError::InvalidAmount(s) && s@ == message@,
    {
        YnabError::InvalidAmount(String::from_str(message))
    }

    /// An invalid-date error.
    pub fn invalid_date(date: &str) -> (r: YnabError)
        ensures
            r matches YnabError::InvalidDate(s) && s@ == date@,
    {
        YnabError::InvalidDate(String::from_str(date))
    }

    /// A generic API error with a message.
    pub fn api_error(message: &str) -> (r: YnabError)
        ensures
            r matches YnabError::ApiError(s) && s@ == message@,
    {
        YnabError::ApiError(String::from_str(message))
    }

    /// The human-readable text of the error.
    pub fn to_string(&self) -> (r: String)
        ensures
            r@ == error_text(*self),
    {
        match self {
            YnabError::InvalidBudgetId(s) => concat("Invalid budget ID: ", s.as_str()),
            YnabError::CategoryNotFound(s) => concat("Category not found: ", s.as_str()),
            YnabError::AccountNotFound(s) => concat("Account not found: ", s.as_str()),
            YnabError::PayeeNotFound(s) => concat("Payee not found: ", s.as_str()),
            YnabError::TransactionNotFound(s) => concat("Transaction not found: ", s.as_str()),
            YnabError::InvalidAmount(s) => concat("Invalid money amount: ", s.as_str()),
            YnabError::InvalidDate(s) => concat("Invalid date format: ", s.as_str()),
            YnabError::HttpApiError(s) => concat("API request failed: ", s.as_str()),
            YnabError::IoError(s) => concat("IO operation failed: ", s.as_str()),
            YnabError::ApiError(s) => concat("API request failed: ", s.as_str()),
        }
    }
}

} // verus!

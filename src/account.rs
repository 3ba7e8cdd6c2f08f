//! Accounts.

use vstd::prelude::*;

verus! {

/// Kinds of account.
#[derive(Debug, Clone, Copy, PartialEq, Eq, Structural)]
pub enum AccountType {
    Checking,
    Savings,
    CreditCard,
    Cash,
    LineOfCredit,
    OtherAsset,
    OtherLiability,
    Mortgage,
    AutoLoan,
    StudentLoan,
    PersonalLoan,
    MedicalDebt,
    OtherDebt,
}

/// The account kinds that hold a debt.
pub open spec fn is_debt(t: AccountType) -> bool {
    !(t == AccountType::Checking || t == AccountType::Savings || t == AccountType::Cash
        || t == AccountType::OtherAsset)
}

/// A financial account.
#[derive(Debug, Clone, PartialEq)]
pub struct Account {
    pub id: String,
    pub name: String,
    pub account_type: AccountType,
    pub on_budget: bool,
}

impl Account {
    /// Makes an account.
    pub fn new(id: String, name: String, account_type: AccountType, on_budget: bool) -> (r:
        Account)
        ensures
            r == (Account { id, name, account_type, on_budget }),
    {
        Account { id, name, account_type, on_budget }
    }

    /// The ID.
    pub fn id(&self) -> (r: &str)
        ensures
            r@ == self.id@,
    {
        self.id.as_str()
    }

    /// The name.
    pub fn name(&self) -> (r: &str)
        ensures
            r@ == self.name@,
    {
        self.name.as_str()
    }

    /// The kind of account.
    pub fn account_type(&self) -> (r: &AccountType)
        ensures
            *r == self.account_type,
    {
        &self.account_type
    }

    /// Whether the account is tracked on the budget.
    pub fn is_on_budget(&self) -> (r: bool)
        ensures
            r == self.on_budget,
    {
        self.on_budget
    }

    /// Whether the account is a liability: a card, a line of credit, a loan
    /// or another debt.
    pub fn is_liability(&self) -> (r: bool)
        ensures
            r == is_debt(self.account_type),
    {
        match self.account_type {
            AccountType::Checking | AccountType::Savings | AccountType::Cash
            | AccountType::OtherAsset => false,
            _ => true,
        }
    }
}

} // verus!

//! Financial transactions and their builder.

use vstd::prelude::*;
use crate::money::Money;

verus! {

/// A financial transaction. `amount` is signed: negative is an expense,
/// positive is income. `date` is an ISO `YYYY-MM-DD` string when present.
#[derive(Debug, Clone, PartialEq)]
pub struct Transaction {
    pub id: String,
    pub account_id: String,
    pub category_id: String,
    pub payee_id: Option<String>,
    pub amount: Money,
    pub date: Option<String>,
    pub description: Option<String>,
}

/// Borrows the text of an optional string.
fn opt_str(s: &Option<String>) -> (r: Option<&str>)
    ensures
        r is Some <==> s is Some,
        r is Some ==> r->Some_0@ == s->Some_0@,
{
    match s {
        Some(x) => Some(x.as_str()),
        None => None,
    }
}

impl Transaction {
    /// A builder with no field set.
    pub fn builder() -> (r: TransactionBuilder)
        ensures
            r == TransactionBuilder::empty(),
    {
        TransactionBuilder::new()
    }

    /// A transaction without payee, date or description.
    pub fn new(id: String, account_id: String, category_id: String, amount: Money) -> (r:
        Transaction)
        ensures
            r == (Transaction {
                id,
                account_id,
                category_id,
                payee_id: None,
                amount,
                date: None,
                description: None,
            }),
    {
        Transaction {
            id,
            account_id,
            category_id,
            payee_id: None,
            amount,
            date: None,
            description: None,
        }
    }

    /// A transaction with a date and without payee or description.
    pub fn new_with_date(
        id: String,
        account_id: String,
        category_id: String,
        amount: Money,
        date: String,
    ) -> (r: Transaction)
        ensures
            r == (Transaction {
                id,
                account_id,
                category_id,
                payee_id: None,
                amount,
                date: Some(date),
                description: None,
            }),
    {
        Transaction {
            id,
            account_id,
            category_id,
            payee_id: None,
            amount,
            date: Some(date),
            description: None,
        }
    }

    /// A transaction with a description and without payee or date.
    pub fn new_with_description(
        id: String,
        account_id: String,
        category_id: String,
        amount: Money,
        description: String,
    ) -> (r: Transaction)
        ensures
            r == (Transaction {
                id,
                account_id,
                category_id,
                payee_id: None,
                amount,
                date: None,
                description: Some(description),
            }),
    {
        Transaction {
            id,
            account_id,
            category_id,
            payee_id: None,
            amount,
            date: None,
            description: Some(description),
        }
    }

    /// The transaction's ID.
    pub fn id(&self) -> (r: &str)
        ensures
            r@ == self.id@,
    {
        self.id.as_str()
    }

    /// The account the transaction belongs to.
    pub fn account_id(&self) -> (r: &str)
        ensures
            r@ == self.account_id@,
    {
        self.account_id.as_str()
    }

    /// The category the transaction belongs to.
    pub fn category_id(&self) -> (r: &str)
        ensures
            r@ == self.category_id@,
    {
        self.category_id.as_str()
    }

    /// The payee, if there is one.
    pub fn payee_id(&self) -> (r: Option<&str>)
        ensures
            r is Some <==> self.payee_id is Some,
            r is Some ==> r->Some_0@ == self.payee_id->Some_0@,
    {
        opt_str(&self.payee_id)
    }

    /// The signed amount.
    pub fn amount(&self) -> (r: Money)
        ensures
            r == self.amount,
    {
        self.amount
    }

    /// The date, if there is one.
    pub fn date(&self) -> (r: Option<&str>)
        ensures
            r is Some <==> self.date is Some,
            r is Some ==> r->Some_0@ == self.date->Some_0@,
    {
        opt_str(&self.date)
    }

    /// The description, if there is one.
    pub fn description(&self) -> (r: Option<&str>)
        ensures
            r is Some <==> self.description is Some,
            r is Some ==> r->Some_0@ == self.description->Some_0@,
    {
        opt_str(&self.description)
    }
}

/// Builds a [`Transaction`] field by field; `id`, `account_id`,
/// `category_id` and `amount` must be set before `build`.
#[derive(Debug)]
pub struct TransactionBuilder {
    pub id: Option<String>,
    pub account_id: Option<String>,
    pub category_id: Option<String>,
    pub payee_id: Option<String>,
    pub amount: Option<Money>,
    pub date: Option<String>,
    pub description: Option<String>,
}

impl TransactionBuilder {
    /// The builder with no field set.
    pub open spec fn empty() -> TransactionBuilder {
        TransactionBuilder {
            id: None,
            account_id: None,
            category_id: None,
            payee_id: None,
            amount: None,
            date: None,
            description: None,
        }
    }

    /// Whether every required field is set.
    pub open spec fn is_complete(&self) -> bool {
        &&& self.id is Some
        &&& self.account_id is Some
        &&& self.category_id is Some
        &&& self.amount is Some
    }

    /// A builder with no field set.
    pub fn new() -> (r: TransactionBuilder)
        ensures
            r == TransactionBuilder::empty(),
    {
        TransactionBuilder {
            id: None,
            account_id: None,
            category_id: None,
            payee_id: None,
            amount: None,
            date: None,
            description: None,
        }
    }

    /// Sets the ID.
    pub fn id(self, id: String) -> (r: TransactionBuilder)
        ensures
            r == (TransactionBuilder { id: Some(id), ..self }),
    {
        TransactionBuilder { id: Some(id), ..self }
    }

    /// Sets the account.
    pub fn account_id(self, account_id: String) -> (r: TransactionBuilder)
        ensures
            r == (TransactionBuilder { account_id: Some(account_id), ..self }),
    {
        TransactionBuilder { account_id: Some(account_id), ..self }
    }

    /// Sets the category.
    pub fn category_id(self, category_id: String) -> (r: TransactionBuilder)
        ensures
            r == (TransactionBuilder { category_id: Some(category_id), ..self }),
    {
        TransactionBuilder { category_id: Some(category_id), ..self }
    }

    /// Sets the payee.
    pub fn payee_id(self, payee_id: String) -> (r: TransactionBuilder)
        ensures
            r == (TransactionBuilder { payee_id: Some(payee_id), ..self }),
    {
        TransactionBuilder { payee_id: Some(payee_id), ..self }
    }

    /// Sets the amount.
    pub fn amount(self, amount: Money) -> (r: TransactionBuilder)
        ensures
            r == (TransactionBuilder { amount: Some(amount), ..self }),
    {
        TransactionBuilder { amount: Some(amount), ..self }
    }

    /// Sets the date.
    pub fn date(self, date: String) -> (r: TransactionBuilder)
        ensures
            r == (TransactionBuilder { date: Some(date), ..self }),
    {
        TransactionBuilder { date: Some(date), ..self }
    }

    /// Sets the description.
    pub fn description(self, description: String) -> (r: TransactionBuilder)
        ensures
            r == (TransactionBuilder { description: Some(description), ..self }),
    {
        TransactionBuilder { description: Some(description), ..self }
    }

    /// The transaction with the fields set so far.
    pub fn build(self) -> (r: Transaction)
        requires
            self.is_complete(),
        ensures
            r == (Transaction {
                id: self.id->Some_0,
                account_id: self.account_id->Some_0,
                category_id: self.category_id->Some_0,
                payee_id: self.payee_id,
                amount: self.amount->Some_0,
                date: self.date,
                description: self.description,
            }),
    {
        Transaction {
            id: self.id.unwrap(),
            account_id: self.account_id.unwrap(),
            category_id: self.category_id.unwrap(),
            payee_id: self.payee_id,
            amount: self.amount.unwrap(),
            date: self.date,
            description: self.description,
        }
    }
}

} // verus!

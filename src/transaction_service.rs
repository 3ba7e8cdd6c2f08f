//! An in-memory collection of transactions that queries run against.

use vstd::prelude::*;
use crate::transaction::Transaction;
use crate::transaction_query::TransactionQuery;

verus! {

/// Holds transactions in the order they were added.
#[derive(Debug, Clone)]
pub struct TransactionService {
    pub transactions: Vec<Transaction>,
}

impl TransactionService {
    /// A service without transactions.
    pub fn new() -> (r: TransactionService)
        ensures
            r.transactions@.len() == 0,
    {
        TransactionService { transactions: Vec::new() }
    }

    /// A service holding the given transactions.
    pub fn with_transactions(transactions: Vec<Transaction>) -> (r: TransactionService)
        ensures
            r.transactions == transactions,
    {
        TransactionService { transactions }
    }

    /// Applies the query to the held transactions.
    pub fn query(&self, query: &TransactionQuery) -> (r: Vec<&Transaction>)
        ensures
            query.is_result(self.transactions@, r@),
    {
        query.filter(self.transactions.as_slice())
    }

    /// How many transactions are held.
    pub fn total_count(&self) -> (r: usize)
        ensures
            r == self.transactions@.len(),
    {
        self.transactions.len()
    }

    /// Adds a transaction after the others.
    pub fn add_transaction(&mut self, transaction: Transaction)
        ensures
            final(self).transactions@ == old(self).transactions@.push(transaction),
    {
        self.transactions.push(transaction);
    }

    /// Adds transactions after the others, in their order.
    pub fn add_transactions(&mut self, transactions: Vec<Transaction>)
        ensures
            final(self).transactions@ == old(self).transactions@ + transactions@,
    {
        let mut transactions = transactions;
        self.transactions.append(&mut transactions);
    }
}

} // verus!

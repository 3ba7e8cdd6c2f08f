//! Budget categories and their spending.

use vstd::prelude::*;
use crate::aggregate::{amount_sum, AMOUNT_BOUND};
use crate::date_range::{in_range, DateRange};
use crate::money::Money;
use crate::text::str_eq;
use crate::transaction::Transaction;

verus! {

/// A budget category.
#[derive(Debug, Clone, PartialEq)]
pub struct Category {
    pub id: String,
    pub name: String,
    pub group_id: Option<String>,
}

/// The transaction is in the category and, when a range is given, has a
/// date within it.
pub open spec fn counts_for(id: Seq<char>, range: Option<DateRange>, t: Transaction) -> bool {
    &&& t.category_id@ == id
    &&& (range matches Some(r) ==> (t.date matches Some(d) && in_range(r.start@, r.end@, d@)))
}

/// The signed sum of the amounts of the category's transactions, within the
/// range when one is given.
pub open spec fn category_spending(
    id: Seq<char>,
    range: Option<DateRange>,
    txs: Seq<Transaction>,
) -> int {
    amount_sum(txs, |t: Transaction| counts_for(id, range, t))
}

impl Category {
    /// Makes a category.
    pub fn new(id: String, name: String) -> (r: Category)
        ensures
            r == (Category { id, name, group_id: None }),
    {
        Category { id, name, group_id: None }
    }

    /// Makes a category that belongs to a group.
    pub fn new_with_group(id: String, name: String, group_id: String) -> (r: Category)
        ensures
            r == (Category { id, name, group_id: Some(group_id) }),
    {
        Category { id, name, group_id: Some(group_id) }
    }

    /// The group, if the category has one.
    pub fn group_id(&self) -> (r: Option<&str>)
        ensures
            r is Some <==> self.group_id is Some,
            r matches Some(g) ==> g@ == self.group_id->Some_0@,
    {
        match &self.group_id {
            Some(g) => Some(g.as_str()),
            None => None,
        }
    }

    /// The ID.
    pub fn id(&self) -> (r: &str)
        ensures
            r@ == self.id@,
    {
        self.id.as_str()
    }

    /// The name.
    pub fn name(&self) -> (r: &str)
        ensures
            r@ == self.name@,
    {
        self.name.as_str()
    }

    /// The signed sum of the amounts of this category's transactions.
    pub fn calculate_spending(&self, transactions: &[Transaction]) -> (r: Money)
        requires
            i64::MIN <= category_spending(self.id@, None, transactions@) <= i64::MAX,
        ensures
            r@ == category_spending(self.id@, None, transactions@),
    {
        self.calculate_spending_with_date_filter(transactions, None)
    }

    /// The signed sum of the amounts of this category's transactions; with a
    /// range, only dated transactions within it count.
    pub fn calculate_spending_with_date_filter(
        &self,
        transactions: &[Transaction],
        date_range: Option<DateRange>,
    ) -> (r: Money)
        requires
            i64::MIN <= category_spending(self.id@, date_range, transactions@) <= i64::MAX,
        ensures
            r@ == category_spending(self.id@, date_range, transactions@),
    {
        let ghost txs = transactions@;
        let ghost id = self.id@;
        let mut sum: i128 = 0;
        let mut i: usize = 0;
        while i < transactions.len()
            invariant
                txs == transactions@,
                id == self.id@,
                i <= txs.len(),
                sum == amount_sum(txs.take(i as int), |t: Transaction| counts_for(id, date_range, t)),
                -(i * AMOUNT_BOUND) <= sum <= i * AMOUNT_BOUND,
            decreases txs.len() - i,
        {
            let t = &transactions[i];
            let keep = str_eq(t.category_id.as_str(), self.id.as_str()) && match &date_range {
                None => true,
                Some(range) => match &t.date {
                    Some(d) => range.contains(d.as_str()),
                    None => false,
                },
            };
            proof {
                assert(txs.take(i + 1).drop_last() =~= txs.take(i as int));
                assert(txs.take(i + 1).last() == txs[i as int]);
            }
            if keep {
                sum = sum + t.amount.as_milliunits() as i128;
            }
            i = i + 1;
        }
        proof {
            assert(txs.take(i as int) =~= txs);
        }
        Money::from_milliunits(sum as i64)
    }
}

} // verus!

//! Turns the budgeting service's JSON responses into domain records.
//! Missing or mistyped fields become neutral values: the empty string, zero,
//! or no value.

use vstd::prelude::*;
use vstd::string::*;
use crate::budget::Budget;
use crate::category::Category;
use crate::error::{YnabError, YnabResult};
use crate::handler::{str_arg, str_param};
use crate::json::{i64_of, items_view, member, str_of, Json, JsonV};
use crate::money::Money;
use crate::transaction::Transaction;

verus! {

/// Maps service responses to records.
#[derive(Debug, Clone)]
pub struct ResponseMapper;

/// The optional string field `key`.
pub open spec fn opt_str_arg(j: JsonV, key: Seq<char>) -> Option<Seq<char>> {
    str_of(member(j, key))
}

/// The optional string `o` holds the text `s`, or both are absent.
pub open spec fn same_opt(o: Option<String>, s: Option<Seq<char>>) -> bool {
    match (o, s) {
        (Some(x), Some(y)) => x@ == y,
        (None, None) => true,
        _ => false,
    }
}

/// `t` is the transaction that the JSON object `j` describes.
pub open spec fn transaction_of(j: JsonV, t: Transaction) -> bool {
    &&& t.id@ == str_arg(j, "id"@)
    &&& t.account_id@ == str_arg(j, "account_id"@)
    &&& t.category_id@ == str_arg(j, "category_id"@)
    &&& same_opt(t.payee_id, opt_str_arg(j, "payee_id"@))
    &&& t.amount@ == match i64_of(member(j, "amount"@)) {
        Some(a) => a,
        None => 0,
    }
    &&& same_opt(t.date, opt_str_arg(j, "date"@))
    &&& same_opt(t.description, opt_str_arg(j, "memo"@))
}

fn opt_string(j: &Json, key: &str) -> (r: Option<String>)
    ensures
        same_opt(r, opt_str_arg(j@, key@)),
{
    match j.str_member(key) {
        Some(s) => Some(String::from_str(s)),
        None => None,
    }
}

impl ResponseMapper {
    /// A mapper.
    pub fn new() -> (r: ResponseMapper) {
        ResponseMapper
    }

    /// A budget from its `id` and `name`.
    pub fn map_budget(&self, json: &Json) -> (r: YnabResult<Budget>)
        ensures
            r matches Ok(b) && b.id@ == str_arg(json@, "id"@) && b.name@ == str_arg(json@, "name"@),
    {
        Ok(Budget::new(String::from_str(str_param(json, "id")), String::from_str(str_param(json, "name"))))
    }

    /// A category from its `id`, `name` and `category_group_id`.
    pub fn map_category(&self, json: &Json) -> (r: YnabResult<Category>)
        ensures
            r matches Ok(c) && c.id@ == str_arg(json@, "id"@) && c.name@ == str_arg(json@, "name"@)
                && same_opt(c.group_id, opt_str_arg(json@, "category_group_id"@)),
    {
        let id = String::from_str(str_param(json, "id"));
        let name = String::from_str(str_param(json, "name"));
        Ok(match opt_string(json, "category_group_id") {
            Some(g) => Category::new_with_group(id, name, g),
            None => Category::new(id, name),
        })
    }

    /// A transaction; its description is the `memo` field.
    pub fn map_transaction(&self, json: &Json) -> (r: YnabResult<Transaction>)
        ensures
            r matches Ok(t) && transaction_of(json@, t),
    {
        let amount = match json.get("amount") {
            Some(a) => match a.as_i64() {
                Some(x) => x,
                None => 0,
            },
            None => 0,
        };
        Ok(Transaction {
            id: String::from_str(str_param(json, "id")),
            account_id: String::from_str(str_param(json, "account_id")),
            category_id: String::from_str(str_param(json, "category_id")),
            payee_id: opt_string(json, "payee_id"),
            amount: Money::from_milliunits(amount),
            date: opt_string(json, "date"),
            description: opt_string(json, "memo"),
        })
    }

    /// The transactions of a response's `data.transactions` array, in order;
    /// fails when there is no such array.
    pub fn map_transactions_from_response(&self, json: &Json) -> (r: YnabResult<Vec<Transaction>>)
        ensures
            !(member(member(json@, "data"@), "transactions"@) is Array) ==> (r matches Err(
                YnabError::ApiError(m),
            ) && m@ == "Invalid transactions response format"@),
            member(member(json@, "data"@), "transactions"@) matches JsonV::Array(items) ==> (
            r matches Ok(ts) && ts@.len() == items.len() && forall|i: int|
                0 <= i < items.len() ==> transaction_of(items[i], #[trigger] ts@[i])),
    {
        let items = match json.get("data") {
            Some(d) => match d.get("transactions") {
                Some(t) => t.as_array(),
                None => None,
            },
            None => None,
        };
        let items = match items {
            Some(a) => a,
            None => return Err(YnabError::api_error("Invalid transactions response format")),
        };
        proof {
            crate::json::lemma_items_view(items@);
        }
        let mut out: Vec<Transaction> = Vec::new();
        let mut i: usize = 0;
        while i < items.len()
            invariant
                items_view(items@).len() == items@.len(),
                forall|k: int| 0 <= k < items@.len() ==> #[trigger] items_view(items@)[k] == items@[k]@,
                i <= items@.len(),
                out@.len() == i,
                forall|k: int| 0 <= k < i ==> transaction_of(items@[k]@, #[trigger] out@[k]),
            decreases items@.len() - i,
        {
            match self.map_transaction(&items[i]) {
                Ok(t) => out.push(t),
                Err(e) => return Err(e),
            }
            i = i + 1;
        }
        Ok(out)
    }
}

} // verus!

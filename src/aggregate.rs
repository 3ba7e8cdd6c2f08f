//! Sums of transaction amounts.

use vstd::prelude::*;
use vstd::string::*;
use crate::text::str_eq;
use crate::transaction::Transaction;

verus! {

/// The largest magnitude of an `i64` amount.
pub const AMOUNT_BOUND: i128 = 0x8000_0000_0000_0000;

/// The sum of the amounts of the transactions that `keep` selects.
pub open spec fn amount_sum(txs: Seq<Transaction>, keep: spec_fn(Transaction) -> bool) -> int
    decreases txs.len(),
{
    if txs.len() == 0 {
        0
    } else {
        amount_sum(txs.drop_last(), keep) + if keep(txs.last()) {
            txs.last().amount@
        } else {
            0
        }
    }
}

/// Expenses: the amounts below zero.
pub open spec fn is_expense(t: Transaction) -> bool {
    t.amount@ < 0
}

/// Income: the amounts of zero and above.
pub open spec fn is_income(t: Transaction) -> bool {
    t.amount@ >= 0
}

/// The total of the expenses, as a positive magnitude.
pub open spec fn expense_total(txs: Seq<Transaction>) -> int {
    -amount_sum(txs, |t: Transaction| is_expense(t))
}

/// The total of the income.
pub open spec fn income_total(txs: Seq<Transaction>) -> int {
    amount_sum(txs, |t: Transaction| is_income(t))
}

/// The expense and income totals of the transactions, in that order.
pub fn expense_and_income(txs: &[Transaction]) -> (r: (i128, i128))
    ensures
        r.0 == expense_total(txs@),
        r.1 == income_total(txs@),
        0 <= r.0 <= txs@.len() * AMOUNT_BOUND,
        0 <= r.1 <= txs@.len() * AMOUNT_BOUND,
{
    let mut expenses: i128 = 0;
    let mut income: i128 = 0;
    let mut i: usize = 0;
    while i < txs.len()
        invariant
            i <= txs@.len(),
            expenses == expense_total(txs@.take(i as int)),
            income == income_total(txs@.take(i as int)),
            0 <= expenses <= i * AMOUNT_BOUND,
            0 <= income <= i * AMOUNT_BOUND,
        decreases txs@.len() - i,
    {
        let a = txs[i].amount.as_milliunits();
        proof {
            assert(txs@.take(i + 1).drop_last() =~= txs@.take(i as int));
            assert(txs@.take(i + 1).last() == txs@[i as int]);
        }
        if a < 0 {
            expenses = expenses - a as i128;
        } else {
            income = income + a as i128;
        }
        i = i + 1;
    }
    proof {
        assert(txs@.take(i as int) =~= txs@);
    }
    (expenses, income)
}

/// How many of the transactions `keep` selects.
pub open spec fn count_where(txs: Seq<Transaction>, keep: spec_fn(Transaction) -> bool) -> nat
    decreases txs.len(),
{
    if txs.len() == 0 {
        0
    } else {
        count_where(txs.drop_last(), keep) + if keep(txs.last()) {
            1nat
        } else {
            0
        }
    }
}

/// The transaction is in category `id`.
pub open spec fn in_category(id: Seq<char>, t: Transaction) -> bool {
    t.category_id@ == id
}

/// The signed sum of the amounts in category `id`, and how many
/// transactions it has.
pub fn category_sum_and_count(txs: &[Transaction], id: &str) -> (r: (i128, usize))
    ensures
        r.0 == amount_sum(txs@, |t: Transaction| in_category(id@, t)),
        r.1 == count_where(txs@, |t: Transaction| in_category(id@, t)),
        -(txs@.len() * AMOUNT_BOUND) <= r.0 <= txs@.len() * AMOUNT_BOUND,
{
    let mut sum: i128 = 0;
    let mut count: usize = 0;
    let mut i: usize = 0;
    while i < txs.len()
        invariant
            i <= txs@.len(),
            sum == amount_sum(txs@.take(i as int), |t: Transaction| in_category(id@, t)),
            count == count_where(txs@.take(i as int), |t: Transaction| in_category(id@, t)),
            -(i * AMOUNT_BOUND) <= sum <= i * AMOUNT_BOUND,
            count <= i,
        decreases txs@.len() - i,
    {
        proof {
            assert(txs@.take(i + 1).drop_last() =~= txs@.take(i as int));
            assert(txs@.take(i + 1).last() == txs@[i as int]);
        }
        if str_eq(txs[i].category_id.as_str(), id) {
            sum = sum + txs[i].amount.as_milliunits() as i128;
            count = count + 1;
        }
        i = i + 1;
    }
    proof {
        assert(txs@.take(i as int) =~= txs@);
    }
    (sum, count)
}

/// Per-key totals: key, sum of values, number of values.
pub open spec fn groups_view(gs: Seq<(String, i128, usize)>) -> Seq<(Seq<char>, int, nat)> {
    Seq::new(gs.len(), |i: int| (gs[i].0@, gs[i].1 as int, gs[i].2 as nat))
}

/// No key occurs twice.
pub open spec fn distinct_keys(gs: Seq<(Seq<char>, int, nat)>) -> bool {
    forall|i: int, j: int| 0 <= i < j < gs.len() ==> gs[i].0 != gs[j].0
}

/// The totals with one more value for `key`: added to its group, or a new
/// group at the end.
pub open spec fn add_to_groups(gs: Seq<(Seq<char>, int, nat)>, key: Seq<char>, v: int) -> Seq<
    (Seq<char>, int, nat),
> {
    if exists|i: int| 0 <= i < gs.len() && gs[i].0 == key {
        let i = choose|i: int| 0 <= i < gs.len() && gs[i].0 == key;
        gs.update(i, (key, gs[i].1 + v, gs[i].2 + 1))
    } else {
        gs.push((key, v, 1))
    }
}

/// The totals per key of keyed values, keys in the order they first occur.
pub open spec fn group_by(items: Seq<(Seq<char>, int)>) -> Seq<(Seq<char>, int, nat)>
    decreases items.len(),
{
    if items.len() == 0 {
        Seq::empty()
    } else {
        add_to_groups(group_by(items.drop_last()), items.last().0, items.last().1)
    }
}

/// The sum of the values.
pub open spec fn items_total(items: Seq<(Seq<char>, int)>) -> int
    decreases items.len(),
{
    if items.len() == 0 {
        0
    } else {
        items_total(items.drop_last()) + items.last().1
    }
}

/// Adds `v` to the group of `key`, making the group if there is none.
#[verifier::loop_isolation(false)]
pub fn add_to_group(gs: &mut Vec<(String, i128, usize)>, key: &str, v: i128)
    requires
        distinct_keys(groups_view(old(gs)@)),
        0 <= v <= AMOUNT_BOUND,
        forall|i: int|
            0 <= i < old(gs)@.len() ==> 0 <= #[trigger] old(gs)@[i].1 <= i128::MAX - AMOUNT_BOUND
                && old(gs)@[i].2 < usize::MAX,
    ensures
        groups_view(final(gs)@) == add_to_groups(groups_view(old(gs)@), key@, v as int),
        distinct_keys(groups_view(final(gs)@)),
        final(gs)@.len() <= old(gs)@.len() + 1,
        forall|i: int|
            0 <= i < final(gs)@.len() ==> 0 <= #[trigger] final(gs)@[i].1 && (i < old(gs)@.len()
                ==> final(gs)@[i].1 <= old(gs)@[i].1 + v && final(gs)@[i].2 <= old(gs)@[i].2 + 1)
                && (i >= old(gs)@.len() ==> final(gs)@[i].1 == v && final(gs)@[i].2 == 1),
{
    let ghost g = groups_view(gs@);
    let mut i: usize = 0;
    while i < gs.len()
        invariant
            g == groups_view(gs@),
            gs@ == old(gs)@,
            i <= gs@.len(),
            forall|k: int| 0 <= k < i ==> (#[trigger] g[k]).0 != key@,
        decreases gs@.len() - i,
    {
        if str_eq(gs[i].0.as_str(), key) {
            proof {
                assert(g[i as int].0 == key@);
                let j = choose|j: int| 0 <= j < g.len() && g[j].0 == key@;
                assert(j == i);
            }
            let sum = gs[i].1 + v;
            let count = gs[i].2 + 1;
            gs.set(i, (String::from_str(key), sum, count));
            proof {
                assert(groups_view(gs@) =~= add_to_groups(g, key@, v as int));
            }
            return;
        }
        i = i + 1;
    }
    gs.push((String::from_str(key), v, 1));
    proof {
        assert(groups_view(gs@) =~= add_to_groups(g, key@, v as int));
    }
}

/// The expenses as (category, positive amount), in input order.
pub open spec fn expense_items(txs: Seq<Transaction>) -> Seq<(Seq<char>, int)>
    decreases txs.len(),
{
    if txs.len() == 0 {
        Seq::empty()
    } else if txs.last().amount@ < 0 {
        expense_items(txs.drop_last()).push((txs.last().category_id@, -txs.last().amount@))
    } else {
        expense_items(txs.drop_last())
    }
}

/// Each group's total lies between zero and `n` times the largest amount,
/// and its count is at most `n`.
pub open spec fn groups_bounded(gs: Seq<(String, i128, usize)>, n: int) -> bool {
    forall|k: int|
        0 <= k < gs.len() ==> 0 <= #[trigger] gs[k].1 <= n * AMOUNT_BOUND && gs[k].2 <= n
}

proof fn lemma_group_room(i: int)
    requires
        0 <= i < usize::MAX,
    ensures
        i * AMOUNT_BOUND <= i128::MAX - AMOUNT_BOUND,
{
    assert(i * AMOUNT_BOUND <= (usize::MAX - 1) * AMOUNT_BOUND) by (nonlinear_arith)
        requires
            i <= usize::MAX - 1,
    ;
}

/// Adds one value to the groups, keeping them within bounds after `i` values.
pub fn add_bounded(gs: &mut Vec<(String, i128, usize)>, key: &str, v: i128, i: usize)
    requires
        distinct_keys(groups_view(old(gs)@)),
        groups_bounded(old(gs)@, i as int),
        i < usize::MAX,
        0 <= v <= AMOUNT_BOUND,
    ensures
        groups_view(final(gs)@) == add_to_groups(groups_view(old(gs)@), key@, v as int),
        distinct_keys(groups_view(final(gs)@)),
        groups_bounded(final(gs)@, i + 1),
{
    proof {
        lemma_group_room(i as int);
    }
    add_to_group(gs, key, v);
}

/// The spending of each category, as positive totals, in the order the
/// categories first occur among the expenses.
pub fn expense_groups(txs: &[Transaction]) -> (r: Vec<(String, i128, usize)>)
    ensures
        groups_view(r@) == group_by(expense_items(txs@)),
        distinct_keys(groups_view(r@)),
        groups_bounded(r@, txs@.len() as int),
{
    let mut gs: Vec<(String, i128, usize)> = Vec::new();
    let mut i: usize = 0;
    proof {
        assert(txs@.take(0) =~= Seq::<Transaction>::empty());
        assert(groups_view(gs@) =~= Seq::<(Seq<char>, int, nat)>::empty());
    }
    while i < txs.len()
        invariant
            i <= txs@.len(),
            groups_view(gs@) == group_by(expense_items(txs@.take(i as int))),
            distinct_keys(groups_view(gs@)),
            groups_bounded(gs@, i as int),
        decreases txs@.len() - i,
    {
        proof {
            assert(txs@.take(i + 1).drop_last() =~= txs@.take(i as int));
            assert(txs@.take(i + 1).last() == txs@[i as int]);
        }
        let a = txs[i].amount.as_milliunits();
        if a < 0 {
            proof {
                let items = expense_items(txs@.take(i as int));
                let x = (txs@[i as int].category_id@, -txs@[i as int].amount@);
                assert(items.push(x).drop_last() =~= items);
            }
            add_bounded(&mut gs, txs[i].category_id.as_str(), -(a as i128), i);
        } else {
            assert(groups_bounded(gs@, i + 1));
        }
        i = i + 1;
    }
    proof {
        assert(txs@.take(i as int) =~= txs@);
    }
    gs
}

/// The category list is empty, or holds the transaction's category.
pub open spec fn allowed(cats: Seq<Seq<char>>, t: Transaction) -> bool {
    cats.len() == 0 || exists|i: int| 0 <= i < cats.len() && #[trigger] cats[i] == t.category_id@
}

/// The magnitude of a transaction's amount.
pub open spec fn magnitude(t: Transaction) -> int {
    if t.amount@ < 0 {
        -t.amount@
    } else {
        t.amount@
    }
}

/// The month (`YYYY-MM`, the first seven characters of the date) of a dated
/// transaction.
pub open spec fn month_of(t: Transaction) -> Option<Seq<char>> {
    match t.date {
        Some(d) => if d@.len() >= 7 {
            Some(d@.subrange(0, 7))
        } else {
            None
        },
        None => None,
    }
}

/// The allowed transactions as (category, magnitude), in input order.
pub open spec fn category_items(cats: Seq<Seq<char>>, txs: Seq<Transaction>) -> Seq<(Seq<char>, int)>
    decreases txs.len(),
{
    if txs.len() == 0 {
        Seq::empty()
    } else if allowed(cats, txs.last()) {
        category_items(cats, txs.drop_last()).push((txs.last().category_id@, magnitude(txs.last())))
    } else {
        category_items(cats, txs.drop_last())
    }
}

/// The allowed dated transactions as (month, magnitude), in input order.
pub open spec fn month_items(cats: Seq<Seq<char>>, txs: Seq<Transaction>) -> Seq<(Seq<char>, int)>
    decreases txs.len(),
{
    if txs.len() == 0 {
        Seq::empty()
    } else if allowed(cats, txs.last()) && month_of(txs.last()) is Some {
        month_items(cats, txs.drop_last()).push((month_of(txs.last())->Some_0, magnitude(txs.last())))
    } else {
        month_items(cats, txs.drop_last())
    }
}

/// Whether the list is empty or holds the category.
fn is_allowed(cats: &Vec<String>, t: &Transaction) -> (r: bool)
    ensures
        r == allowed(cats@.map_values(|c: String| c@), *t),
{
    let ghost cv = cats@.map_values(|c: String| c@);
    if cats.len() == 0 {
        return true;
    }
    let mut i: usize = 0;
    while i < cats.len()
        invariant
            cv == cats@.map_values(|c: String| c@),
            i <= cats@.len(),
            forall|k: int| 0 <= k < i ==> cv[k] != t.category_id@,
        decreases cats@.len() - i,
    {
        if str_eq(cats[i].as_str(), t.category_id.as_str()) {
            assert(cv[i as int] == t.category_id@);
            return true;
        }
        i = i + 1;
    }
    false
}

/// The month of a dated transaction.
fn month_key(t: &Transaction) -> (r: Option<&str>)
    ensures
        r is Some <==> month_of(*t) is Some,
        r matches Some(m) ==> month_of(*t) == Some(m@),
{
    match &t.date {
        Some(d) => {
            let s = d.as_str();
            if s.unicode_len() >= 7 {
                Some(s.substring_char(0, 7))
            } else {
                None
            }
        },
        None => None,
    }
}

/// Per-category and per-month totals of the allowed transactions, and the
/// sum over the months.
#[verifier::loop_isolation(false)]
pub fn trend_groups(txs: &[Transaction], cats: &Vec<String>) -> (r: (
    Vec<(String, i128, usize)>,
    Vec<(String, i128, usize)>,
    i128,
))
    ensures
        groups_view(r.0@) == group_by(category_items(cats@.map_values(|c: String| c@), txs@)),
        groups_view(r.1@) == group_by(month_items(cats@.map_values(|c: String| c@), txs@)),
        r.2 == items_total(month_items(cats@.map_values(|c: String| c@), txs@)),
        0 <= r.2,
{
    let ghost cv = cats@.map_values(|c: String| c@);
    let mut by_category: Vec<(String, i128, usize)> = Vec::new();
    let mut by_month: Vec<(String, i128, usize)> = Vec::new();
    let mut total: i128 = 0;
    let mut i: usize = 0;
    proof {
        assert(txs@.take(0) =~= Seq::<Transaction>::empty());
        assert(groups_view(by_category@) =~= Seq::<(Seq<char>, int, nat)>::empty());
        assert(groups_view(by_month@) =~= Seq::<(Seq<char>, int, nat)>::empty());
    }
    while i < txs.len()
        invariant
            i <= txs@.len(),
            groups_view(by_category@) == group_by(category_items(cv, txs@.take(i as int))),
            groups_view(by_month@) == group_by(month_items(cv, txs@.take(i as int))),
            total == items_total(month_items(cv, txs@.take(i as int))),
            0 <= total <= i * AMOUNT_BOUND,
            distinct_keys(groups_view(by_category@)),
            distinct_keys(groups_view(by_month@)),
            groups_bounded(by_category@, i as int),
            groups_bounded(by_month@, i as int),
        decreases txs@.len() - i,
    {
        let t = &txs[i];
        proof {
            assert(txs@.take(i + 1).drop_last() =~= txs@.take(i as int));
            assert(txs@.take(i + 1).last() == txs@[i as int]);
        }
        let a = t.amount.as_milliunits() as i128;
        let m: i128 = if a < 0 { -a } else { a };
        if is_allowed(cats, t) {
            proof {
                let items = category_items(cv, txs@.take(i as int));
                assert(items.push((t.category_id@, m as int)).drop_last() =~= items);
            }
            add_bounded(&mut by_category, t.category_id.as_str(), m, i);
            match month_key(t) {
                Some(month) => {
                    proof {
                        let items = month_items(cv, txs@.take(i as int));
                        assert(items.push((month@, m as int)).drop_last() =~= items);
                    }
                    add_bounded(&mut by_month, month, m, i);
                    total = total + m;
                },
                None => {
                    assert(groups_bounded(by_month@, i + 1));
                },
            }
        } else {
            assert(groups_bounded(by_category@, i + 1));
            assert(groups_bounded(by_month@, i + 1));
        }
        i = i + 1;
    }
    proof {
        assert(txs@.take(i as int) =~= txs@);
    }
    (by_category, by_month, total)
}

/// The allowed transactions of month `month` as (category, magnitude), in
/// input order.
pub open spec fn month_category_items(cats: Seq<Seq<char>>, txs: Seq<Transaction>, month: Seq<char>) -> Seq<
    (Seq<char>, int),
>
    decreases txs.len(),
{
    if txs.len() == 0 {
        Seq::empty()
    } else if allowed(cats, txs.last()) && month_of(txs.last()) == Some(month) {
        month_category_items(cats, txs.drop_last(), month).push(
            (txs.last().category_id@, magnitude(txs.last())),
        )
    } else {
        month_category_items(cats, txs.drop_last(), month)
    }
}

/// The spending of each allowed category within one month.
#[verifier::loop_isolation(false)]
pub fn month_category_groups(txs: &[Transaction], cats: &Vec<String>, month: &str) -> (r: Vec<
    (String, i128, usize),
>)
    ensures
        groups_view(r@) == group_by(month_category_items(cats@.map_values(|c: String| c@), txs@, month@)),
{
    let ghost cv = cats@.map_values(|c: String| c@);
    let mut gs: Vec<(String, i128, usize)> = Vec::new();
    let mut i: usize = 0;
    proof {
        assert(txs@.take(0) =~= Seq::<Transaction>::empty());
        assert(groups_view(gs@) =~= Seq::<(Seq<char>, int, nat)>::empty());
    }
    while i < txs.len()
        invariant
            i <= txs@.len(),
            groups_view(gs@) == group_by(month_category_items(cv, txs@.take(i as int), month@)),
            distinct_keys(groups_view(gs@)),
            groups_bounded(gs@, i as int),
        decreases txs@.len() - i,
    {
        let t = &txs[i];
        proof {
            assert(txs@.take(i + 1).drop_last() =~= txs@.take(i as int));
            assert(txs@.take(i + 1).last() == txs@[i as int]);
        }
        let a = t.amount.as_milliunits() as i128;
        let m: i128 = if a < 0 { -a } else { a };
        let in_month = match month_key(t) {
            Some(k) => str_eq(k, month),
            None => false,
        };
        if in_month && is_allowed(cats, t) {
            proof {
                let items = month_category_items(cv, txs@.take(i as int), month@);
                assert(items.push((t.category_id@, m as int)).drop_last() =~= items);
            }
            add_bounded(&mut gs, t.category_id.as_str(), m, i);
        } else {
            assert(groups_bounded(gs@, i + 1));
        }
        i = i + 1;
    }
    proof {
        assert(txs@.take(i as int) =~= txs@);
    }
    gs
}

} // verus!

//! Transaction queries: amount, category and text filters followed by an
//! optional stable sort.

use vstd::prelude::*;
use vstd::utf8::encode_utf8;
use crate::money::Money;
use crate::text::{contains_str, is_infix, lex_lt, lower_of, str_eq, str_lt, to_lowercase};
use crate::text::{lemma_lex_lt_irreflexive, lemma_lex_lt_total, lemma_lex_lt_transitive};
use crate::transaction::Transaction;

verus! {

/// Sort modes of a query.
#[derive(Debug, Clone, Copy, PartialEq, Eq, Structural)]
pub enum SortBy {
    AmountAscending,
    AmountDescending,
    Date,
}

/// A filter and sort specification, built with `with_*` and `sort_by_*`.
/// An empty category list means that no category filter applies.
#[derive(Debug, Clone)]
pub struct TransactionQuery {
    pub min_amount: Option<Money>,
    pub max_amount: Option<Money>,
    pub categories: Vec<String>,
    pub search_text: Option<String>,
    pub sort_by: Option<SortBy>,
}

/// `a` sorts strictly before `b` under the sort mode; with no mode nothing
/// does, and the input order is kept.
pub open spec fn precedes(sort: Option<SortBy>, a: Transaction, b: Transaction) -> bool {
    match sort {
        None => false,
        Some(SortBy::AmountAscending) => a.amount@ < b.amount@,
        Some(SortBy::AmountDescending) => a.amount@ > b.amount@,
        Some(SortBy::Date) => match (a.date, b.date) {
            (Some(x), Some(y)) => lex_lt(encode_utf8(x@), encode_utf8(y@)),
            (Some(_), None) => true,
            _ => false,
        },
    }
}

impl TransactionQuery {
    /// The amount lies within the bounds that are set (both inclusive).
    pub open spec fn amount_ok(&self, t: Transaction) -> bool {
        &&& (self.min_amount matches Some(m) ==> t.amount@ >= m@)
        &&& (self.max_amount matches Some(m) ==> t.amount@ <= m@)
    }

    /// The category list is empty, or holds the transaction's category.
    pub open spec fn category_ok(&self, t: Transaction) -> bool {
        self.categories@.len() == 0 || exists|i: int|
            0 <= i < self.categories@.len() && #[trigger] self.categories@[i]@ == t.category_id@
    }

    /// No search text is set, or the transaction has a description that
    /// contains it, both case-folded.
    pub open spec fn text_ok(&self, t: Transaction) -> bool {
        match self.search_text {
            None => true,
            Some(s) => match t.description {
                Some(d) => is_infix(lower_of(s@), lower_of(d@)),
                None => false,
            },
        }
    }

    /// The transaction passes every filter of the query.
    pub open spec fn matches(&self, t: Transaction) -> bool {
        self.amount_ok(t) && self.category_ok(t) && self.text_ok(t)
    }

    /// `pos` lists the positions in `txs` of exactly the matching
    /// transactions, each once, in sorted order, and transactions that sort
    /// equal keep their input order.
    pub open spec fn is_order(&self, txs: Seq<Transaction>, pos: Seq<usize>) -> bool {
        &&& forall|i: int|
            0 <= i < pos.len() ==> #[trigger] pos[i] < txs.len() && self.matches(txs[pos[i] as int])
        &&& forall|k: int|
            0 <= k < txs.len() && #[trigger] self.matches(txs[k]) ==> exists|i: int|
                0 <= i < pos.len() && pos[i] == k
        &&& forall|i: int, j: int| 0 <= i < j < pos.len() ==> pos[i] != pos[j]
        &&& forall|i: int, j: int|
            0 <= i < j < pos.len() ==> !precedes(
                self.sort_by,
                txs[#[trigger] pos[j] as int],
                txs[#[trigger] pos[i] as int],
            )
        &&& forall|i: int, j: int|
            0 <= i < j < pos.len() && !precedes(
                self.sort_by,
                txs[#[trigger] pos[i] as int],
                txs[#[trigger] pos[j] as int],
            ) ==> pos[i] < pos[j]
    }

    /// `r` is what applying the query to `txs` gives: the matching
    /// transactions in the order that `is_order` describes.
    pub open spec fn is_result(&self, txs: Seq<Transaction>, r: Seq<&Transaction>) -> bool {
        exists|pos: Seq<usize>|
            pos.len() == r.len() && self.is_order(txs, pos) && forall|i: int|
                0 <= i < r.len() ==> *#[trigger] r[i] == txs[pos[i] as int]
    }

    /// A query without filters or sort mode.
    pub fn new() -> (r: TransactionQuery)
        ensures
            r.min_amount is None,
            r.max_amount is None,
            r.categories@.len() == 0,
            r.search_text is None,
            r.sort_by is None,
    {
        TransactionQuery {
            min_amount: None,
            max_amount: None,
            categories: Vec::new(),
            search_text: None,
            sort_by: None,
        }
    }

    /// Keeps amounts from `min` to `max`, both inclusive.
    pub fn with_amount_range(self, min: Money, max: Money) -> (r: TransactionQuery)
        ensures
            r == (TransactionQuery { min_amount: Some(min), max_amount: Some(max), ..self }),
    {
        TransactionQuery { min_amount: Some(min), max_amount: Some(max), ..self }
    }

    /// Keeps amounts of at least `min`.
    pub fn with_min_amount(self, min: Money) -> (r: TransactionQuery)
        ensures
            r == (TransactionQuery { min_amount: Some(min), ..self }),
    {
        TransactionQuery { min_amount: Some(min), ..self }
    }

    /// Keeps amounts of at most `max`.
    pub fn with_max_amount(self, max: Money) -> (r: TransactionQuery)
        ensures
            r == (TransactionQuery { max_amount: Some(max), ..self }),
    {
        TransactionQuery { max_amount: Some(max), ..self }
    }

    /// Keeps the transactions of the listed categories; an empty list keeps
    /// all.
    pub fn with_categories(self, categories: Vec<String>) -> (r: TransactionQuery)
        ensures
            r == (TransactionQuery { categories, ..self }),
    {
        TransactionQuery { categories, ..self }
    }

    /// Keeps the transactions of one category.
    pub fn with_category(self, category: String) -> (r: TransactionQuery)
        ensures
            r.categories@ == seq![category],
            r.min_amount == self.min_amount,
            r.max_amount == self.max_amount,
            r.search_text == self.search_text,
            r.sort_by == self.sort_by,
    {
        let mut categories: Vec<String> = Vec::new();
        categories.push(category);
        TransactionQuery { categories, ..self }
    }

    /// Keeps the transactions whose description contains `search_text`,
    /// ignoring case.
    pub fn with_text_search(self, search_text: String) -> (r: TransactionQuery)
        ensures
            r == (TransactionQuery { search_text: Some(search_text), ..self }),
    {
        TransactionQuery { search_text: Some(search_text), ..self }
    }

    /// Sorts by amount, smallest first.
    pub fn sort_by_amount_ascending(self) -> (r: TransactionQuery)
        ensures
            r == (TransactionQuery { sort_by: Some(SortBy::AmountAscending), ..self }),
    {
        TransactionQuery { sort_by: Some(SortBy::AmountAscending), ..self }
    }

    /// Sorts by amount, largest first.
    pub fn sort_by_amount_descending(self) -> (r: TransactionQuery)
        ensures
            r == (TransactionQuery { sort_by: Some(SortBy::AmountDescending), ..self }),
    {
        TransactionQuery { sort_by: Some(SortBy::AmountDescending), ..self }
    }

    /// Sorts by date, earliest first, dated before undated.
    pub fn sort_by_date(self) -> (r: TransactionQuery)
        ensures
            r == (TransactionQuery { sort_by: Some(SortBy::Date), ..self }),
    {
        TransactionQuery { sort_by: Some(SortBy::Date), ..self }
    }

    /// Whether the amount lies within the bounds that are set.
    fn matches_amount_filter(&self, transaction: &Transaction) -> (r: bool)
        ensures
            r == self.amount_ok(*transaction),
    {
        let amount = transaction.amount.as_milliunits();
        if let Some(min) = self.min_amount {
            if amount < min.as_milliunits() {
                return false;
            }
        }
        if let Some(max) = self.max_amount {
            if amount > max.as_milliunits() {
                return false;
            }
        }
        true
    }

    /// Whether the category list is empty or holds the transaction's category.
    fn matches_category_filter(&self, transaction: &Transaction) -> (r: bool)
        ensures
            r == self.category_ok(*transaction),
    {
        if self.categories.len() == 0 {
            return true;
        }
        let mut i: usize = 0;
        while i < self.categories.len()
            invariant
                0 <= i <= self.categories@.len(),
                forall|k: int| 0 <= k < i ==> self.categories@[k]@ != transaction.category_id@,
            decreases self.categories@.len() - i,
        {
            if str_eq(self.categories[i].as_str(), transaction.category_id.as_str()) {
                return true;
            }
            i = i + 1;
        }
        false
    }

    /// Whether the description contains the search text, ignoring case.
    fn matches_text_filter(&self, transaction: &Transaction) -> (r: bool)
        ensures
            r == self.text_ok(*transaction),
    {
        match &self.search_text {
            None => true,
            Some(s) => match &transaction.description {
                Some(d) => {
                    let hay = to_lowercase(d.as_str());
                    let needle = to_lowercase(s.as_str());
                    contains_str(hay.as_str(), needle.as_str())
                },
                None => false,
            },
        }
    }

    /// Whether the transaction passes every filter.
    fn matches_all(&self, transaction: &Transaction) -> (r: bool)
        ensures
            r == self.matches(*transaction),
    {
        self.matches_amount_filter(transaction) && self.matches_category_filter(transaction)
            && self.matches_text_filter(transaction)
    }
}

/// Whether `a` sorts strictly before `b` under the sort mode.
fn sorts_before(sort: SortBy, a: &Transaction, b: &Transaction) -> (r: bool)
    ensures
        r == precedes(Some(sort), *a, *b),
{
    match sort {
        SortBy::AmountAscending => a.amount.as_milliunits() < b.amount.as_milliunits(),
        SortBy::AmountDescending => a.amount.as_milliunits() > b.amount.as_milliunits(),
        SortBy::Date => match (&a.date, &b.date) {
            (Some(x), Some(y)) => str_lt(x.as_str(), y.as_str()),
            (Some(_), None) => true,
            _ => false,
        },
    }
}

/// Sorting strictly before is irreflexive and asymmetric, and sorting no
/// later is transitive: the sort modes are strict weak orders.
pub proof fn lemma_precedes_order(sort: Option<SortBy>, a: Transaction, b: Transaction, c: Transaction)
    ensures
        !precedes(sort, a, a),
        precedes(sort, a, b) ==> !precedes(sort, b, a),
        !precedes(sort, a, b) && !precedes(sort, b, c) ==> !precedes(sort, a, c),
{
    if sort == Some(SortBy::Date) {
        if let Some(x) = a.date {
            lemma_lex_lt_irreflexive(encode_utf8(x@));
        }
        if let (Some(x), Some(y), Some(z)) = (a.date, b.date, c.date) {
            let (ex, ey, ez) = (encode_utf8(x@), encode_utf8(y@), encode_utf8(z@));
            lemma_lex_lt_total(ex, ey);
            lemma_lex_lt_total(ey, ez);
            if lex_lt(ex, ey) && lex_lt(ey, ex) {
                lemma_lex_lt_transitive(ex, ey, ex);
                lemma_lex_lt_irreflexive(ex);
            }
            if lex_lt(ey, ex) && lex_lt(ex, ez) {
                lemma_lex_lt_transitive(ey, ex, ez);
            }
            if lex_lt(ez, ey) && lex_lt(ey, ex) {
                lemma_lex_lt_transitive(ez, ey, ex);
            }
            if lex_lt(ex, ez) && lex_lt(ez, ey) {
                lemma_lex_lt_transitive(ex, ez, ey);
            }
        }
        if let (Some(x), Some(y)) = (a.date, b.date) {
            let (ex, ey) = (encode_utf8(x@), encode_utf8(y@));
            if lex_lt(ex, ey) && lex_lt(ey, ex) {
                lemma_lex_lt_transitive(ex, ey, ex);
                lemma_lex_lt_irreflexive(ex);
            }
        }
    }
}

impl TransactionQuery {
    /// `is_order` for the positions below `k` alone.
    spec fn is_order_upto(&self, txs: Seq<Transaction>, pos: Seq<usize>, k: int) -> bool {
        &&& forall|i: int|
            0 <= i < pos.len() ==> #[trigger] pos[i] < k && self.matches(txs[pos[i] as int])
        &&& forall|m: int|
            0 <= m < k && #[trigger] self.matches(txs[m]) ==> exists|i: int|
                0 <= i < pos.len() && pos[i] == m
        &&& forall|i: int, j: int| 0 <= i < j < pos.len() ==> pos[i] != pos[j]
        &&& forall|i: int, j: int|
            0 <= i < j < pos.len() ==> !precedes(
                self.sort_by,
                txs[#[trigger] pos[j] as int],
                txs[#[trigger] pos[i] as int],
            )
        &&& forall|i: int, j: int|
            0 <= i < j < pos.len() && !precedes(
                self.sort_by,
                txs[#[trigger] pos[i] as int],
                txs[#[trigger] pos[j] as int],
            ) ==> pos[i] < pos[j]
    }

    proof fn lemma_insert(&self, txs: Seq<Transaction>, pos: Seq<usize>, k: usize, p: int)
        requires
            k < txs.len(),
            self.matches(txs[k as int]),
            self.is_order_upto(txs, pos, k as int),
            0 <= p <= pos.len(),
            forall|m: int| 0 <= m < p ==> !precedes(self.sort_by, txs[k as int], txs[#[trigger] pos[m] as int]),
            forall|m: int| p <= m < pos.len() ==> precedes(self.sort_by, txs[k as int], txs[#[trigger] pos[m] as int]),
        ensures
            self.is_order_upto(txs, pos.insert(p, k), k + 1),
    {
        let n = pos.insert(p, k);
        let s = self.sort_by;
        assert forall|i: int| 0 <= i < n.len() implies #[trigger] n[i] < k + 1 && self.matches(txs[n[i] as int]) by {
            if i < p {
                assert(n[i] == pos[i]);
            } else if i > p {
                assert(n[i] == pos[i - 1]);
            }
        }
        assert forall|m: int| 0 <= m < k + 1 && #[trigger] self.matches(txs[m]) implies exists|i: int|
            0 <= i < n.len() && n[i] == m by {
            if m == k {
                assert(n[p] == k);
            } else {
                let i = choose|i: int| 0 <= i < pos.len() && pos[i] == m;
                if i < p {
                    assert(n[i] == m);
                } else {
                    assert(n[i + 1] == m);
                }
            }
        }
        assert forall|i: int, j: int| 0 <= i < j < n.len() implies n[i] != n[j] by {
            if i < p && j < p {
                assert(n[i] == pos[i] && n[j] == pos[j]);
            } else if i < p && j == p {
                assert(pos[i] < k);
            } else if i < p {
                assert(n[i] == pos[i] && n[j] == pos[j - 1]);
            } else if i == p {
                assert(pos[j - 1] < k);
            } else {
                assert(n[i] == pos[i - 1] && n[j] == pos[j - 1]);
            }
        }
        assert forall|i: int, j: int| 0 <= i < j < n.len() implies !precedes(s, txs[#[trigger] n[j] as int], txs[#[trigger] n[i] as int]) by {
            if j < p {
                assert(n[i] == pos[i] && n[j] == pos[j]);
            } else if j == p {
                assert(n[i] == pos[i]);
            } else if i < p {
                assert(n[i] == pos[i] && n[j] == pos[j - 1]);
                assert(!precedes(s, txs[k as int], txs[pos[i] as int]));
                assert(precedes(s, txs[k as int], txs[pos[j - 1] as int]));
                lemma_precedes_order(s, txs[k as int], txs[pos[j - 1] as int], txs[pos[i] as int]);
                lemma_precedes_order(s, txs[pos[j - 1] as int], txs[k as int], txs[pos[i] as int]);
            } else if i == p {
                assert(precedes(s, txs[k as int], txs[pos[j - 1] as int]));
                lemma_precedes_order(s, txs[k as int], txs[pos[j - 1] as int], txs[k as int]);
            } else {
                assert(n[i] == pos[i - 1] && n[j] == pos[j - 1]);
            }
        }
        assert forall|i: int, j: int| 0 <= i < j < n.len() && !precedes(s, txs[#[trigger] n[i] as int], txs[#[trigger] n[j] as int]) implies n[i] < n[j] by {
            if j < p {
                assert(n[i] == pos[i] && n[j] == pos[j]);
            } else if j == p {
                assert(n[i] == pos[i]);
            } else if i < p {
                assert(n[i] == pos[i] && n[j] == pos[j - 1]);
            } else if i == p {
                assert(precedes(s, txs[k as int], txs[pos[j - 1] as int]));
            } else {
                assert(n[i] == pos[i - 1] && n[j] == pos[j - 1]);
            }
        }
    }

    /// The transactions that pass every filter, in the order of the sort
    /// mode; those that sort equal, and all of them when no mode is set, keep
    /// their input order.
    pub fn filter<'a>(&self, transactions: &'a [Transaction]) -> (r: Vec<&'a Transaction>)
        ensures
            self.is_result(transactions@, r@),
    {
        let ghost txs = transactions@;
        let mut ord: Vec<usize> = Vec::new();
        let mut k: usize = 0;
        while k < transactions.len()
            invariant
                txs == transactions@,
                k <= txs.len(),
                self.is_order_upto(txs, ord@, k as int),
            decreases txs.len() - k,
        {
            if self.matches_all(&transactions[k]) {
                let mut p: usize = ord.len();
                if let Some(sort) = self.sort_by {
                    while p > 0 && sorts_before(sort, &transactions[k], &transactions[ord[p - 1]])
                        invariant
                            txs == transactions@,
                            k < txs.len(),
                            self.sort_by == Some(sort),
                            self.is_order_upto(txs, ord@, k as int),
                            p <= ord@.len(),
                            forall|m: int| p <= m < ord@.len() ==> precedes(self.sort_by, txs[k as int], txs[#[trigger] ord@[m] as int]),
                        decreases p,
                    {
                        p = p - 1;
                    }
                    proof {
                        let s = self.sort_by;
                        assert forall|m: int| 0 <= m < p implies !precedes(s, txs[k as int], txs[#[trigger] ord@[m] as int]) by {
                            let last = ord@[p - 1];
                            assert(!precedes(s, txs[k as int], txs[last as int]));
                            if m < p - 1 {
                                assert(!precedes(s, txs[last as int], txs[ord@[m] as int]));
                                lemma_precedes_order(s, txs[k as int], txs[last as int], txs[ord@[m] as int]);
                            }
                        }
                    }
                }
                proof {
                    self.lemma_insert(txs, ord@, k, p as int);
                }
                ord.insert(p, k);
            }
            k = k + 1;
        }
        let mut r: Vec<&'a Transaction> = Vec::new();
        let mut i: usize = 0;
        while i < ord.len()
            invariant
                txs == transactions@,
                self.is_order_upto(txs, ord@, txs.len() as int),
                i <= ord@.len(),
                r@.len() == i,
                forall|j: int| 0 <= j < i ==> *#[trigger] r@[j] == txs[ord@[j] as int],
            decreases ord@.len() - i,
        {
            r.push(&transactions[ord[i]]);
            i = i + 1;
        }
        proof {
            assert(self.is_order(txs, ord@));
        }
        r
    }
}

spec fn occurs(pos: Seq<usize>, m: int) -> bool {
    exists|a: int| 0 <= a < pos.len() && pos[a] == m
}

proof fn lemma_increasing_cover(pos: Seq<usize>, n: int, i: int)
    requires
        forall|a: int, b: int| 0 <= a < b < pos.len() ==> pos[a] < pos[b],
        forall|a: int| 0 <= a < pos.len() ==> #[trigger] pos[a] < n,
        forall|m: int| 0 <= m < n ==> #[trigger] occurs(pos, m),
        0 <= i < pos.len(),
    ensures
        pos[i] == i,
    decreases i,
{
    if i > 0 {
        lemma_increasing_cover(pos, n, i - 1);
    }
    if pos[i] > i {
        assert(occurs(pos, i));
        let j = choose|a: int| 0 <= a < pos.len() && pos[a] == i;
        if j < i {
            assert(pos[j] <= pos[i - 1]);
        }
    }
}

/// Distinct positions below `n` that include every position below `n` are
/// exactly `n` of them.
proof fn lemma_cover_length(pos: Seq<usize>, n: int)
    requires
        0 <= n,
        forall|i: int| 0 <= i < pos.len() ==> #[trigger] pos[i] < n,
        forall|a: int, b: int| 0 <= a < b < pos.len() ==> pos[a] != pos[b],
        forall|m: int| 0 <= m < n ==> #[trigger] occurs(pos, m),
    ensures
        pos.len() == n,
{
    let dom = vstd::set_lib::set_int_range(0, n);
    let pdom = vstd::set_lib::set_int_range(0, pos.len() as int);
    vstd::set_lib::lemma_int_range(0, n);
    vstd::set_lib::lemma_int_range(0, pos.len() as int);
    // The positions map the result's indices into 0..n, one to one.
    let g = |i: int| pos[i] as int;
    assert(vstd::relations::injective_on(g, pdom)) by {
        assert forall|a: int, b: int|
            pdom.contains(a) && pdom.contains(b) && #[trigger] g(a) == #[trigger] g(b) implies a == b by {
            if a < b {
                assert(pos[a] != pos[b]);
            } else if b < a {
                assert(pos[b] != pos[a]);
            }
        }
    }
    vstd::set_lib::lemma_map_size(pdom, pdom.map(g), g);
    vstd::set_lib::lemma_len_subset(pdom.map(g), dom);
    // Where each input position occurs maps 0..n into the indices, one to one.
    let f = |m: int| choose|a: int| 0 <= a < pos.len() && pos[a] == m;
    assert forall|m: int| 0 <= m < n implies 0 <= #[trigger] f(m) < pos.len() && pos[f(m)] == m by {
        assert(occurs(pos, m));
    }
    assert(vstd::relations::injective_on(f, dom)) by {
        assert forall|a: int, b: int|
            dom.contains(a) && dom.contains(b) && #[trigger] f(a) == #[trigger] f(b) implies a == b by {
            assert(pos[f(a)] == a && pos[f(b)] == b);
        }
    }
    vstd::set_lib::lemma_map_size(dom, dom.map(f), f);
    vstd::set_lib::lemma_len_subset(dom.map(f), pdom);
}

/// With no amount, category or text filter, every transaction is in the
/// result once; with no sort mode either, the result is the input itself,
/// in its order.
pub proof fn lemma_unfiltered_query_keeps_input(
    q: TransactionQuery,
    txs: Seq<Transaction>,
    r: Seq<&Transaction>,
)
    requires
        q.min_amount is None,
        q.max_amount is None,
        q.categories@.len() == 0,
        q.search_text is None,
        q.is_result(txs, r),
    ensures
        r.len() == txs.len(),
        q.sort_by is None ==> forall|i: int| 0 <= i < r.len() ==> *#[trigger] r[i] == txs[i],
{
    let pos = choose|pos: Seq<usize>|
        pos.len() == r.len() && q.is_order(txs, pos) && forall|i: int|
            0 <= i < r.len() ==> *#[trigger] r[i] == txs[pos[i] as int];
    let n = txs.len() as int;
    // Every transaction matches, so every position occurs.
    assert forall|m: int| 0 <= m < n implies #[trigger] occurs(pos, m) by {
        assert(q.matches(txs[m]));
    }
    lemma_cover_length(pos, n);
    // Without a sort mode the positions increase, so they are 0, 1, 2, ...
    if q.sort_by is None {
        assert forall|a: int, b: int| 0 <= a < b < pos.len() implies pos[a] < pos[b] by {
            assert(!precedes(q.sort_by, txs[pos[a] as int], txs[pos[b] as int]));
        }
        assert forall|i: int| 0 <= i < r.len() implies *#[trigger] r[i] == txs[i] by {
            lemma_increasing_cover(pos, n, i);
        }
    }
}

/// Sorting by amount is stable: in the result, transactions of equal
/// amount come in their input order, and amounts run in the mode's order.
pub proof fn lemma_amount_sort_is_stable(q: TransactionQuery, txs: Seq<Transaction>, r: Seq<&Transaction>)
    requires
        q.sort_by == Some(SortBy::AmountAscending) || q.sort_by == Some(SortBy::AmountDescending),
        q.is_result(txs, r),
    ensures
        exists|pos: Seq<usize>|
            {
                &&& pos.len() == r.len()
                &&& forall|i: int| 0 <= i < r.len() ==> pos[i] < txs.len() && *#[trigger] r[i] == txs[pos[i] as int]
                &&& forall|i: int, j: int|
                    0 <= i < j < r.len() && (#[trigger] r[i]).amount == (#[trigger] r[j]).amount
                        ==> pos[i] < pos[j]
                &&& forall|i: int, j: int|
                    0 <= i < j < r.len() ==> if q.sort_by == Some(SortBy::AmountAscending) {
                        (#[trigger] r[i]).amount@ <= (#[trigger] r[j]).amount@
                    } else {
                        r[i].amount@ >= r[j].amount@
                    }
            },
{
    let pos = choose|pos: Seq<usize>|
        pos.len() == r.len() && q.is_order(txs, pos) && forall|i: int|
            0 <= i < r.len() ==> *#[trigger] r[i] == txs[pos[i] as int];
    assert forall|i: int, j: int|
        0 <= i < j < r.len() && (#[trigger] r[i]).amount == (#[trigger] r[j]).amount implies pos[i] < pos[j] by {
        assert(!precedes(q.sort_by, txs[pos[i] as int], txs[pos[j] as int]));
    }
    assert forall|i: int, j: int| 0 <= i < j < r.len() implies if q.sort_by == Some(SortBy::AmountAscending) {
        (#[trigger] r[i]).amount@ <= (#[trigger] r[j]).amount@
    } else {
        r[i].amount@ >= r[j].amount@
    } by {
        assert(!precedes(q.sort_by, txs[pos[j] as int], txs[pos[i] as int]));
    }
    assert forall|i: int| 0 <= i < r.len() implies pos[i] < txs.len() && *#[trigger] r[i] == txs[pos[i] as int] by {
        assert(pos[i] < txs.len());
    }
}

/// Sorting by date puts every dated transaction before every undated one.
pub proof fn lemma_date_sort_dated_first(q: TransactionQuery, txs: Seq<Transaction>, r: Seq<&Transaction>)
    requires
        q.sort_by == Some(SortBy::Date),
        q.is_result(txs, r),
    ensures
        forall|i: int, j: int|
            0 <= i < j < r.len() && (#[trigger] r[j]).date is Some ==> (#[trigger] r[i]).date is Some,
{
    let pos = choose|pos: Seq<usize>|
        pos.len() == r.len() && q.is_order(txs, pos) && forall|i: int|
            0 <= i < r.len() ==> *#[trigger] r[i] == txs[pos[i] as int];
    assert forall|i: int, j: int|
        0 <= i < j < r.len() && (#[trigger] r[j]).date is Some implies (#[trigger] r[i]).date is Some by {
        assert(!precedes(q.sort_by, txs[pos[j] as int], txs[pos[i] as int]));
    }
}

} // verus!

//! The tool registry and the analysis tools that it runs.

use vstd::prelude::*;
use vstd::string::*;
use crate::aggregate::{
    amount_sum, category_sum_and_count, count_where, expense_and_income, expense_groups,
    expense_items, expense_total, group_by, groups_view, in_category, income_total,
    category_items, items_total, month_category_groups, month_category_items, month_items,
    trend_groups,
};
use crate::error::{error_text, YnabError, YnabResult};
use crate::json::{
    i64_of, items_view, json_text, member, push_item, push_member, str_of, u64_of, write_json,
    Json, JsonV,
};
use crate::money::Money;
use crate::text::{concat, str_eq};
use crate::transaction::Transaction;
use crate::transaction_query::TransactionQuery;
use crate::transaction_service::TransactionService;
use crate::ynab_client::YnabClient;

verus! {

/// A tool that clients can call, by name, with a description for people.
#[derive(Debug, Clone, PartialEq)]
pub struct Tool {
    pub name: String,
    pub description: String,
}

/// Runs the analysis tools, on local transactions or, when a client of the
/// budgeting service is configured, on behalf of that service.
pub struct Handler {
    pub transaction_service: Option<TransactionService>,
    pub ynab_client: Option<YnabClient>,
}

/// What a tool gives: a JSON value, or a failure with its message.
pub enum Outcome {
    Done(JsonV),
    Failed(Seq<char>),
}

/// The tool's result is the text of the value, or an error with the message.
pub open spec fn gives(r: YnabResult<String>, o: Outcome) -> bool {
    match o {
        Outcome::Done(v) => r matches Ok(s) && s@ == json_text(v),
        Outcome::Failed(msg) => r matches Err(e) && error_text(e) == msg,
    }
}

/// The names and descriptions of the tools, in the order they are listed.
pub open spec fn tool_catalog() -> Seq<(Seq<char>, Seq<char>)> {
    seq![
        ("analyze_category_spending"@, "Analyzes spending for specific categories with optional date filtering"@),
        ("get_budget_overview"@, "Provides a comprehensive overview of budget status and spending"@),
        ("search_transactions"@, "Searches transactions with advanced filtering and sorting options"@),
        ("analyze_spending_trends"@, "Analyzes spending trends over multiple months with detailed breakdowns"@),
        ("budget_health_check"@, "Performs comprehensive budget health analysis with optimization suggestions"@),
    ]
}

/// The string argument `key`, or the empty string when it is missing or not
/// a string.
pub open spec fn str_arg(p: JsonV, key: Seq<char>) -> Seq<char> {
    match str_of(member(p, key)) {
        Some(s) => s,
        None => Seq::empty(),
    }
}

/// An object with one member.
pub open spec fn single(key: Seq<char>, v: JsonV) -> JsonV {
    JsonV::Object(seq![(key, v)])
}

/// The failure of a tool that the budgeting service backs, when its
/// credential is empty.
pub open spec fn invalid_token() -> Outcome {
    Outcome::Failed("API request failed: "@ + "Invalid API token"@)
}

/// The failure of a sum that does not fit a JSON integer.
pub open spec fn out_of_range() -> Outcome {
    Outcome::Failed("Invalid money amount: "@ + "total out of range"@)
}

/// The value fits `i64`.
pub open spec fn fits(x: int) -> bool {
    i64::MIN <= x <= i64::MAX
}

/// The magnitude of a number.
pub open spec fn abs(x: int) -> int {
    if x < 0 {
        -x
    } else {
        x
    }
}

/// The tool's answer, when the budgeting service backs it, naming the budget.
pub open spec fn service_backed(
    h: Handler,
    head: Seq<char>,
    fields: Seq<(Seq<char>, JsonV)>,
    budget: Seq<char>,
) -> Outcome {
    if h.ynab_client->Some_0.api_token@.len() == 0 {
        invalid_token()
    } else {
        Outcome::Done(
            single(
                head,
                JsonV::Object(
                    fields + seq![
                        ("data_source"@, JsonV::Str("ynab_api"@)),
                        ("budget_id"@, JsonV::Str(budget)),
                        ("api_token_configured"@, JsonV::Bool(true)),
                    ],
                ),
            ),
        )
    }
}

/// The category spending report.
pub open spec fn category_report(name: Seq<char>, amount: int, count: int) -> JsonV {
    single(
        "category_spending"@,
        JsonV::Object(
            seq![
                ("category"@, JsonV::Str(name)),
                ("amount_milliunits"@, JsonV::Int(amount)),
                ("transaction_count"@, JsonV::Int(count)),
            ],
        ),
    )
}

/// What `analyze_category_spending` gives: the spending of the category as a
/// positive magnitude and its number of transactions.
pub open spec fn category_spending_outcome(h: Handler, p: JsonV) -> Outcome {
    let id = str_arg(p, "category_id"@);
    let name = str_arg(p, "category_name"@);
    if h.ynab_client is Some {
        service_backed(
            h,
            "category_spending"@,
            seq![
                ("category"@, JsonV::Str(name)),
                ("amount_milliunits"@, JsonV::Int(87500)),
                ("transaction_count"@, JsonV::Int(3)),
            ],
            str_arg(p, "budget_id"@),
        )
    } else if let Some(svc) = h.transaction_service {
        let txs = svc.transactions@;
        let total = abs(amount_sum(txs, |t: Transaction| in_category(id, t)));
        if fits(total) {
            Outcome::Done(
                category_report(name, total, count_where(txs, |t: Transaction| in_category(id, t)) as int),
            )
        } else {
            out_of_range()
        }
    } else {
        Outcome::Done(category_report("Groceries"@, 125000, 5))
    }
}

/// The budget overview report.
pub open spec fn overview_report(expenses: int, income: int, count: int) -> JsonV {
    single(
        "budget_overview"@,
        JsonV::Object(
            seq![
                ("total_expenses_milliunits"@, JsonV::Int(expenses)),
                ("total_income_milliunits"@, JsonV::Int(income)),
                ("net_income_milliunits"@, JsonV::Int(income - expenses)),
                ("transaction_count"@, JsonV::Int(count)),
            ],
        ),
    )
}

/// What `get_budget_overview` gives: total expenses, total income, net income
/// and the number of transactions.
pub open spec fn overview_outcome(h: Handler, p: JsonV) -> Outcome {
    if h.ynab_client is Some {
        service_backed(
            h,
            "budget_overview"@,
            seq![
                ("total_expenses_milliunits"@, JsonV::Int(245000)),
                ("total_income_milliunits"@, JsonV::Int(4500000)),
                ("net_income_milliunits"@, JsonV::Int(4255000)),
                ("transaction_count"@, JsonV::Int(15)),
            ],
            str_arg(p, "budget_id"@),
        )
    } else if let Some(svc) = h.transaction_service {
        let e = expense_total(svc.transactions@);
        let i = income_total(svc.transactions@);
        if fits(e) && fits(i) && fits(i - e) {
            Outcome::Done(overview_report(e, i, svc.transactions@.len() as int))
        } else {
            out_of_range()
        }
    } else {
        Outcome::Done(
            single(
                "budget_overview"@,
                JsonV::Object(
                    seq![
                        ("total_budgeted"@, JsonV::Int(300000)),
                        ("total_spent"@, JsonV::Int(125000)),
                        ("categories_over_budget"@, JsonV::Int(2)),
                    ],
                ),
            ),
        )
    }
}

/// A transaction as `search_transactions` lists it.
pub open spec fn transaction_value(t: Transaction) -> JsonV {
    JsonV::Object(
        seq![
            ("id"@, JsonV::Str(t.id@)),
            ("description"@, JsonV::Str(
                match t.description {
                    Some(d) => d@,
                    None => Seq::empty(),
                },
            )),
            ("amount_milliunits"@, JsonV::Int(t.amount@)),
            ("category_id"@, JsonV::Str(t.category_id@)),
            ("account_id"@, JsonV::Str(t.account_id@)),
        ],
    )
}

/// The search report on the first `n` of the found transactions, with the
/// limit that was asked for.
pub open spec fn search_report(found: Seq<&Transaction>, n: int, limit: int) -> JsonV {
    JsonV::Object(
        seq![
            ("transactions"@, JsonV::Array(Seq::new(n as nat, |i: int| transaction_value(*found[i])))),
            ("count"@, JsonV::Int(n)),
            ("limited"@, JsonV::Bool(n == limit)),
        ],
    )
}

/// The result limit that `search_transactions` applies: the `limit`
/// argument, 100 by default.
pub open spec fn search_limit(p: JsonV) -> int {
    match u64_of(member(p, "limit"@)) {
        Some(l) => l,
        None => 100,
    }
}

/// `q` is the query that the arguments of `search_transactions` describe:
/// a text filter when `text_search` is a non-empty string, a minimum when
/// `min_amount_milliunits` is an integer, a category when `category_id` is a
/// non-empty string, and no sort.
pub open spec fn search_query(q: TransactionQuery, p: JsonV) -> bool {
    &&& q.max_amount is None
    &&& q.sort_by is None
    &&& match i64_of(member(p, "min_amount_milliunits"@)) {
        Some(m) => q.min_amount matches Some(x) && x@ == m,
        None => q.min_amount is None,
    }
    &&& if str_arg(p, "text_search"@).len() > 0 {
        q.search_text matches Some(t) && t@ == str_arg(p, "text_search"@)
    } else {
        q.search_text is None
    }
    &&& if str_arg(p, "category_id"@).len() > 0 {
        q.categories@.len() == 1 && q.categories@[0]@ == str_arg(p, "category_id"@)
    } else {
        q.categories@.len() == 0
    }
}

/// The report of `search_transactions` when no transactions are held.
pub open spec fn empty_search_report() -> JsonV {
    JsonV::Object(
        seq![
            ("transactions"@, JsonV::Array(Seq::empty())),
            ("count"@, JsonV::Int(0)),
            ("limited"@, JsonV::Bool(false)),
        ],
    )
}

/// What `search_transactions` gives: the transactions that the query of the
/// arguments finds, at most `limit` of them, in their order.
pub open spec fn search_gives(h: Handler, p: JsonV, r: YnabResult<String>) -> bool {
    match h.transaction_service {
        Some(svc) => exists|q: TransactionQuery, found: Seq<&Transaction>|
            {
                &&& search_query(q, p)
                &&& q.is_result(svc.transactions@, found)
                &&& gives(
                    r,
                    Outcome::Done(
                        search_report(
                            found,
                            if found.len() < search_limit(p) {
                                found.len() as int
                            } else {
                                search_limit(p)
                            },
                            search_limit(p),
                        ),
                    ),
                )
            },
        None => gives(r, Outcome::Done(empty_search_report())),
    }
}

/// The savings rate in percent, truncated toward zero; zero without income.
pub open spec fn savings_rate(net: int, income: int) -> int {
    if income > 0 {
        if net >= 0 {
            net * 100 / income
        } else {
            -((-net) * 100 / income)
        }
    } else {
        0
    }
}

/// The overall health score, at most 100.
pub open spec fn health_score(rate: int, count: int) -> int {
    let s = if rate >= 20 {
        90 + if count < 10 {
            count
        } else {
            10
        }
    } else if rate >= 10 {
        70 + rate
    } else {
        50 + if rate > 0 {
            rate
        } else {
            0
        }
    };
    if s > 100 {
        100
    } else {
        s
    }
}

/// The categories whose spending is more than twice the mean of `k`
/// categories that spend `e` in all (`spend * k > 2 * e`), in group order.
pub open spec fn risk_keys(gs: Seq<(Seq<char>, int, nat)>, e: int, k: int) -> Seq<Seq<char>>
    decreases gs.len(),
{
    if gs.len() == 0 {
        Seq::empty()
    } else if gs.last().1 * k > 2 * e {
        risk_keys(gs.drop_last(), e, k).push(gs.last().0)
    } else {
        risk_keys(gs.drop_last(), e, k)
    }
}

/// The suggestion for a category that spends too much.
pub open spec fn reduce_suggestion(key: Seq<char>) -> Seq<char> {
    "Consider reducing spending in "@ + key + " category"@
}

/// The suggestions: one per risky category, then on the savings rate and on
/// the cash flow.
pub open spec fn suggestions(risk: Seq<Seq<char>>, rate: int, net: int) -> Seq<JsonV> {
    risk.map_values(|k: Seq<char>| JsonV::Str(reduce_suggestion(k))) + (if rate < 10 {
        seq![JsonV::Str("Increase savings rate to at least 10% of income"@)]
    } else {
        Seq::empty()
    }) + (if net < 0 {
        seq![JsonV::Str("Reduce expenses to achieve positive cash flow"@)]
    } else {
        Seq::empty()
    })
}

/// Every group's total fits a JSON integer.
pub open spec fn totals_fit(gs: Seq<(Seq<char>, int, nat)>) -> bool {
    forall|k: int| 0 <= k < gs.len() ==> fits(#[trigger] gs[k].1)
}

/// The totals as an object from key to total.
pub open spec fn totals_object(gs: Seq<(Seq<char>, int, nat)>) -> JsonV {
    JsonV::Object(Seq::new(gs.len(), |k: int| (gs[k].0, JsonV::Int(gs[k].1))))
}

/// The health report on local transactions.
pub open spec fn health_report(txs: Seq<Transaction>) -> JsonV {
    let e = expense_total(txs);
    let i = income_total(txs);
    let net = i - e;
    let gs = group_by(expense_items(txs));
    let rate = savings_rate(net, i);
    let risk = risk_keys(gs, e, gs.len() as int);
    single(
        "budget_health"@,
        JsonV::Object(
            seq![
                ("overall_score"@, JsonV::Int(health_score(rate, txs.len() as int))),
                ("optimization_suggestions"@, JsonV::Array(suggestions(risk, rate, net))),
                ("risk_categories"@, JsonV::Array(risk.map_values(|k: Seq<char>| JsonV::Str(k)))),
                ("spending_efficiency"@, JsonV::Object(
                    seq![
                        ("total_expenses_milliunits"@, JsonV::Int(e)),
                        ("total_income_milliunits"@, JsonV::Int(i)),
                        ("net_income_milliunits"@, JsonV::Int(net)),
                        ("savings_rate_percentage"@, JsonV::Int(rate)),
                    ],
                )),
                ("category_analysis"@, totals_object(gs)),
                ("transaction_count"@, JsonV::Int(txs.len() as int)),
                ("data_source"@, JsonV::Str("domain_service"@)),
            ],
        ),
    )
}

/// An array of strings.
pub open spec fn strs(items: Seq<Seq<char>>) -> JsonV {
    JsonV::Array(items.map_values(|x: Seq<char>| JsonV::Str(x)))
}

/// A category's spending and number of transactions.
pub open spec fn stat(amount: int, count: int) -> JsonV {
    JsonV::Object(
        seq![("amount_milliunits"@, JsonV::Int(amount)), ("transaction_count"@, JsonV::Int(count))],
    )
}

/// The health report of a handler backed by the budgeting service.
pub open spec fn health_service_fields() -> Seq<(Seq<char>, JsonV)> {
    seq![
        ("overall_score"@, JsonV::Int(85)),
        ("optimization_suggestions"@, strs(seq![
            "Your grocery spending is 15% above the recommended amount for your income level"@,
            "Consider automating savings to reach a 20% savings rate"@,
            "Review recurring subscriptions - you have $47/month in unused services"@,
            "Emergency fund is healthy at 4.2 months of expenses"@,
        ])),
        ("risk_categories"@, strs(seq!["groceries"@, "subscriptions"@])),
        ("spending_efficiency"@, JsonV::Object(
            seq![
                ("total_expenses_milliunits"@, JsonV::Int(275000)),
                ("total_income_milliunits"@, JsonV::Int(420000)),
                ("net_income_milliunits"@, JsonV::Int(145000)),
                ("savings_rate_percentage"@, JsonV::Int(18)),
            ],
        )),
        ("category_breakdown"@, JsonV::Object(
            seq![
                ("over_budget_categories"@, JsonV::Int(2)),
                ("healthy_categories"@, JsonV::Int(8)),
                ("categories_trending_up"@, strs(seq!["groceries"@, "gas"@])),
            ],
        )),
    ]
}

/// The health report of a handler without data.
pub open spec fn health_placeholder_fields() -> Seq<(Seq<char>, JsonV)> {
    seq![
        ("overall_score"@, JsonV::Int(78)),
        ("optimization_suggestions"@, strs(seq![
            "Consider reducing dining out expenses"@,
            "Increase emergency fund to 6 months of expenses"@,
            "Review subscription services for potential savings"@,
        ])),
        ("risk_categories"@, strs(seq!["dining"@, "entertainment"@])),
        ("spending_efficiency"@, JsonV::Object(
            seq![
                ("savings_rate_percentage"@, JsonV::Int(15)),
                ("expense_to_income_ratio"@, JsonV::Int(85)),
            ],
        )),
    ]
}

/// One month of two categories' spending.
pub open spec fn two_category_month(
    month: Seq<char>,
    c1: Seq<char>,
    a1: int,
    n1: int,
    c2: Seq<char>,
    a2: int,
    n2: int,
) -> JsonV {
    JsonV::Object(
        seq![
            ("month"@, JsonV::Str(month)),
            ("categories"@, JsonV::Object(seq![(c1, stat(a1, n1)), (c2, stat(a2, n2))])),
        ],
    )
}

/// The trends report of a handler backed by the budgeting service.
pub open spec fn trends_service_fields() -> Seq<(Seq<char>, JsonV)> {
    seq![
        ("monthly_data"@, JsonV::Array(seq![
            two_category_month("2024-01"@, "groceries"@, 87500, 12, "dining"@, 45000, 6),
            two_category_month("2024-02"@, "groceries"@, 92000, 14, "dining"@, 38000, 5),
        ])),
        ("trend_analysis"@, JsonV::Object(
            seq![
                ("average_monthly_spending"@, JsonV::Int(131250)),
                ("strongest_growth_category"@, JsonV::Str("groceries"@)),
                ("largest_decline_category"@, JsonV::Str("dining"@)),
            ],
        )),
        ("months_analyzed"@, JsonV::Int(6)),
    ]
}

/// The trends report of a handler without data.
pub open spec fn trends_placeholder_fields() -> Seq<(Seq<char>, JsonV)> {
    seq![
        ("monthly_data"@, JsonV::Array(seq![
            two_category_month("2024-01"@, "groceries"@, 45000, 8, "entertainment"@, 25000, 3),
        ])),
        ("trend_analysis"@, JsonV::Object(
            seq![
                ("average_monthly_spending"@, JsonV::Int(70000)),
                ("trending_up"@, strs(seq!["groceries"@])),
                ("trending_down"@, strs(seq!["entertainment"@])),
            ],
        )),
        ("months_analyzed"@, JsonV::Int(3)),
        ("categories_count"@, JsonV::Int(2)),
    ]
}

/// What `budget_health_check` gives: a score from the savings rate, the
/// categories that spend more than twice the mean, and suggestions.
pub open spec fn health_outcome(h: Handler, p: JsonV) -> Outcome {
    if h.ynab_client is Some {
        service_backed(
            h,
            "budget_health"@,
            health_service_fields(),
            str_arg(p, "budget_id"@),
        )
    } else if let Some(svc) = h.transaction_service {
        let txs = svc.transactions@;
        let e = expense_total(txs);
        let i = income_total(txs);
        if fits(e) && fits(i) && fits(i - e) && totals_fit(group_by(expense_items(txs))) && fits(
            savings_rate(i - e, i),
        ) {
            Outcome::Done(health_report(txs))
        } else {
            out_of_range()
        }
    } else {
        Outcome::Done(single("budget_health"@, JsonV::Object(health_placeholder_fields())))
    }
}

/// The strings among JSON items, in order.
pub open spec fn string_items(items: Seq<JsonV>) -> Seq<Seq<char>>
    decreases items.len(),
{
    if items.len() == 0 {
        Seq::empty()
    } else {
        match items.last() {
            JsonV::Str(x) => string_items(items.drop_last()).push(x),
            _ => string_items(items.drop_last()),
        }
    }
}

/// The `categories` argument: the strings of an array, none otherwise.
pub open spec fn category_args(p: JsonV) -> Seq<Seq<char>> {
    match member(p, "categories"@) {
        JsonV::Array(items) => string_items(items),
        _ => Seq::empty(),
    }
}

/// The `months` argument, 3 by default.
pub open spec fn months_arg(p: JsonV) -> int {
    match u64_of(member(p, "months"@)) {
        Some(m) => m,
        None => 3,
    }
}

/// Each category's spending and number of transactions, as an object from
/// category to `{amount_milliunits, transaction_count}`.
pub open spec fn category_breakdown(gs: Seq<(Seq<char>, int, nat)>) -> JsonV {
    JsonV::Object(
        Seq::new(
            gs.len(),
            |k: int|
                (
                    gs[k].0,
                    JsonV::Object(
                        seq![
                            ("amount_milliunits"@, JsonV::Int(gs[k].1)),
                            ("transaction_count"@, JsonV::Int(gs[k].2 as int)),
                        ],
                    ),
                ),
        ),
    )
}

/// The spending of each allowed category in the month of group `g`.
pub open spec fn month_categories(cats: Seq<Seq<char>>, txs: Seq<Transaction>, g: (Seq<char>, int, nat)) -> Seq<
    (Seq<char>, int, nat),
> {
    group_by(month_category_items(cats, txs, g.0))
}

/// Every category total of the month fits a JSON integer.
pub open spec fn month_fits(cats: Seq<Seq<char>>, txs: Seq<Transaction>, g: (Seq<char>, int, nat)) -> bool {
    totals_fit(month_categories(cats, txs, g))
}

/// A month's spending as listed in the trends report: the month, each
/// category's spending in it, and its total and number of transactions.
pub open spec fn month_value(cats: Seq<Seq<char>>, txs: Seq<Transaction>, g: (Seq<char>, int, nat)) -> JsonV {
    JsonV::Object(
        seq![
            ("month"@, JsonV::Str(g.0)),
            ("categories"@, category_breakdown(month_categories(cats, txs, g))),
            ("amount_milliunits"@, JsonV::Int(g.1)),
            ("transaction_count"@, JsonV::Int(g.2 as int)),
        ],
    )
}

/// Every total of the trends report fits a JSON integer.
pub open spec fn trends_fit(cats: Seq<Seq<char>>, txs: Seq<Transaction>) -> bool {
    let mg = group_by(month_items(cats, txs));
    &&& totals_fit(group_by(category_items(cats, txs)))
    &&& totals_fit(mg)
    &&& fits(items_total(month_items(cats, txs)))
    &&& forall|k: int| 0 <= k < mg.len() ==> month_fits(cats, txs, #[trigger] mg[k])
}

/// The trends report on local transactions: spending per month (bucketed by
/// the month of each transaction's date) and per category.
pub open spec fn trends_report(txs: Seq<Transaction>, cats: Seq<Seq<char>>, months: int) -> JsonV {
    let cg = group_by(category_items(cats, txs));
    let mg = group_by(month_items(cats, txs));
    let avg = if mg.len() > 0 {
        items_total(month_items(cats, txs)) / mg.len() as int
    } else {
        0
    };
    single(
        "spending_trends"@,
        JsonV::Object(
            seq![
                ("monthly_data"@, JsonV::Array(Seq::new(mg.len(), |k: int| month_value(cats, txs, mg[k])))),
                ("category_totals"@, totals_object(cg)),
                ("trend_analysis"@, JsonV::Object(
                    seq![
                        ("average_monthly_spending"@, JsonV::Int(avg)),
                        ("total_categories_analyzed"@, JsonV::Int(cg.len() as int)),
                    ],
                )),
                ("months_analyzed"@, JsonV::Int(mg.len() as int)),
                ("months_requested"@, JsonV::Int(months)),
                ("categories_count"@, JsonV::Int(
                    if cats.len() > cg.len() {
                        cats.len() as int
                    } else {
                        cg.len() as int
                    },
                )),
                ("data_source"@, JsonV::Str("domain_service"@)),
            ],
        ),
    )
}

/// What `analyze_spending_trends` gives.
pub open spec fn trends_outcome(h: Handler, p: JsonV) -> Outcome {
    if h.ynab_client is Some {
        service_backed(
            h,
            "spending_trends"@,
            trends_service_fields(),
            str_arg(p, "budget_id"@),
        )
    } else if let Some(svc) = h.transaction_service {
        let txs = svc.transactions@;
        let cats = category_args(p);
        if trends_fit(cats, txs) {
            Outcome::Done(trends_report(txs, cats, months_arg(p)))
        } else {
            out_of_range()
        }
    } else {
        Outcome::Done(single("spending_trends"@, JsonV::Object(trends_placeholder_fields())))
    }
}

/// `name` is the name of a tool of the catalog.
pub open spec fn is_tool_name(name: Seq<char>) -> bool {
    exists|i: int| 0 <= i < tool_catalog().len() && #[trigger] tool_catalog()[i].0 == name
}

/// A tool as `tools/list` shows it.
pub open spec fn tool_value(t: (Seq<char>, Seq<char>)) -> JsonV {
    JsonV::Object(seq![("name"@, JsonV::Str(t.0)), ("description"@, JsonV::Str(t.1))])
}

/// The `tools/list` result: the catalog, in order.
pub open spec fn tools_value() -> JsonV {
    single(
        "tools"@,
        JsonV::Array(Seq::new(tool_catalog().len(), |i: int| tool_value(tool_catalog()[i]))),
    )
}

/// The id of a request given as a JSON value: its `id` member, or null.
pub open spec fn request_id(request: JsonV) -> JsonV {
    member(request, "id"@)
}

/// `r` is what running the tool `name` on `p` gives.
pub open spec fn executes(h: Handler, name: Seq<char>, p: JsonV, r: YnabResult<String>) -> bool {
    &&& name == "analyze_category_spending"@ ==> gives(r, category_spending_outcome(h, p))
    &&& name == "get_budget_overview"@ ==> gives(r, overview_outcome(h, p))
    &&& name == "search_transactions"@ ==> search_gives(h, p, r)
    &&& name == "analyze_spending_trends"@ ==> gives(r, trends_outcome(h, p))
    &&& name == "budget_health_check"@ ==> gives(r, health_outcome(h, p))
    &&& !is_tool_name(name) ==> (r matches Err(YnabError::InvalidBudgetId(m)) && m@ == "Unknown tool: "@
        + name)
}

/// The string argument `key`, or the empty string.
pub(crate) fn str_param<'a>(p: &'a Json, key: &str) -> (r: &'a str)
    ensures
        r@ == str_arg(p@, key@),
{
    match p.str_member(key) {
        Some(s) => s,
        None => {
            proof {
                reveal_strlit("");
            }
            ""
        },
    }
}

/// An integer that fits `i64`, as JSON.
fn int_value(x: i128) -> (r: Json)
    requires
        fits(x as int),
    ensures
        r@ == JsonV::Int(x as int),
{
    Json::Int(x as i64)
}

/// A count as JSON.
fn count_value(n: usize) -> (r: Json)
    ensures
        r@ == JsonV::Int(n as int),
{
    Json::UInt(n as u64)
}

/// A one-member object as JSON.
fn single_value(key: &str, v: Json) -> (r: Json)
    ensures
        r@ == single(key@, v@),
{
    let mut es: Vec<(String, Json)> = Vec::new();
    push_member(&mut es, key, v);
    assert(crate::json::entries_view(es@) =~= seq![(key@, v@)]);
    Json::Object(es)
}

/// The error of a sum that does not fit a JSON integer.
fn out_of_range_error() -> (r: YnabError)
    ensures
        error_text(r) == "Invalid money amount: "@ + "total out of range"@,
{
    YnabError::invalid_amount("total out of range")
}

/// The category spending report as JSON.
fn category_report_value(name: &str, amount: i128, count: usize) -> (r: Json)
    requires
        fits(amount as int),
    ensures
        r@ == category_report(name@, amount as int, count as int),
{
    let mut fields: Vec<(String, Json)> = Vec::new();
    push_member(&mut fields, "category", Json::string(name));
    push_member(&mut fields, "amount_milliunits", int_value(amount));
    push_member(&mut fields, "transaction_count", count_value(count));
    assert(crate::json::entries_view(fields@) =~= category_report(name@, amount as int, count as int)->Object_0[0].1->Object_0);
    single_value("category_spending", Json::Object(fields))
}

/// A transaction as `search_transactions` lists it, as JSON.
fn transaction_json(t: &Transaction) -> (r: Json)
    ensures
        r@ == transaction_value(*t),
{
    let mut fields: Vec<(String, Json)> = Vec::new();
    push_member(&mut fields, "id", Json::string(t.id.as_str()));
    let description = match &t.description {
        Some(d) => d.as_str(),
        None => {
            proof {
                reveal_strlit("");
            }
            ""
        },
    };
    proof {
        let dv = if t.description is Some {
            t.description->Some_0@
        } else {
            Seq::<char>::empty()
        };
        assert(description@ =~= dv);
    }
    push_member(&mut fields, "description", Json::string(description));
    push_member(&mut fields, "amount_milliunits", Json::Int(t.amount.as_milliunits()));
    push_member(&mut fields, "category_id", Json::string(t.category_id.as_str()));
    push_member(&mut fields, "account_id", Json::string(t.account_id.as_str()));
    assert(crate::json::entries_view(fields@) =~= transaction_value(*t)->Object_0);
    Json::Object(fields)
}

/// The health report on local transactions, or the failure when a total
/// does not fit a JSON integer.
#[verifier::loop_isolation(false)]
fn health_of(txs: &[Transaction]) -> (r: YnabResult<String>)
    ensures
        ({
            let e = expense_total(txs@);
            let i = income_total(txs@);
            if fits(e) && fits(i) && fits(i - e) && totals_fit(group_by(expense_items(txs@)))
                && fits(savings_rate(i - e, i)) {
                gives(r, Outcome::Done(health_report(txs@)))
            } else {
                gives(r, out_of_range())
            }
        }),
{
    let (expenses, income) = expense_and_income(txs);
    if expenses > 0x7fff_ffff_ffff_ffff || income > 0x7fff_ffff_ffff_ffff {
        return Err(out_of_range_error());
    }
    let net: i128 = income - expenses;
    let gs = expense_groups(txs);
    let ghost gv = groups_view(gs@);
    let mut k: usize = 0;
    while k < gs.len()
        invariant
            k <= gs@.len(),
            forall|j: int| 0 <= j < k ==> fits(#[trigger] gv[j].1),
        decreases gs@.len() - k,
    {
        if gs[k].1 > 0x7fff_ffff_ffff_ffff {
            assert(!fits(gv[k as int].1));
            return Err(out_of_range_error());
        }
        k = k + 1;
    }
    assert(totals_fit(gv));
    let rate: i128 = if income > 0 {
        if net >= 0 {
            net * 100 / income
        } else {
            -((-net) * 100 / income)
        }
    } else {
        0
    };
    if rate > 0x7fff_ffff_ffff_ffff || rate < -0x8000_0000_0000_0000 {
        return Err(out_of_range_error());
    }
    let n_groups: i128 = gs.len() as i128;
    let mut risk: Vec<Json> = Vec::new();
    let mut sug: Vec<Json> = Vec::new();
    let mut analysis: Vec<(String, Json)> = Vec::new();
    let mut k: usize = 0;
    while k < gs.len()
        invariant
            k <= gs@.len(),
            items_view(risk@) == risk_keys(gv.take(k as int), expenses as int, n_groups as int).map_values(|x: Seq<char>| JsonV::Str(x)),
            items_view(sug@) == risk_keys(gv.take(k as int), expenses as int, n_groups as int).map_values(|x: Seq<char>| JsonV::Str(reduce_suggestion(x))),
            crate::json::entries_view(analysis@) == Seq::new(k as nat, |j: int| (gv[j].0, JsonV::Int(gv[j].1))),
        decreases gs@.len() - k,
    {
        let key = gs[k].0.as_str();
        let total = gs[k].1;
        assert(fits(gv[k as int].1));
        proof {
            assert(gv.take(k + 1).drop_last() =~= gv.take(k as int));
            assert(gv.take(k + 1).last() == gv[k as int]);
        }
        let ghost before = risk_keys(gv.take(k as int), expenses as int, n_groups as int);
        proof {
            assert(0 <= total < 0x8000_0000_0000_0000);
            assert(0 <= n_groups < 0x1_0000_0000_0000_0000);
            assert(total * n_groups < 0x8000_0000_0000_0000 * 0x1_0000_0000_0000_0000) by (nonlinear_arith)
                requires
                    0 <= total < 0x8000_0000_0000_0000,
                    0 <= n_groups < 0x1_0000_0000_0000_0000,
            ;
        }
        if total * n_groups > 2 * expenses {
            push_item(&mut risk, Json::string(key));
            let text = concat(concat("Consider reducing spending in ", key).as_str(), " category");
            push_item(&mut sug, Json::Str(text));
            proof {
                assert(before.push(key@).map_values(|x: Seq<char>| JsonV::Str(x)) =~= before.map_values(|x: Seq<char>| JsonV::Str(x)).push(JsonV::Str(key@)));
                assert(before.push(key@).map_values(|x: Seq<char>| JsonV::Str(reduce_suggestion(x))) =~= before.map_values(|x: Seq<char>| JsonV::Str(reduce_suggestion(x))).push(JsonV::Str(reduce_suggestion(key@))));
            }
        }
        push_member(&mut analysis, key, int_value(total));
        proof {
            assert(crate::json::entries_view(analysis@) =~= Seq::new((k + 1) as nat, |j: int| (gv[j].0, JsonV::Int(gv[j].1))));
        }
        k = k + 1;
    }
    proof {
        assert(gv.take(k as int) =~= gv);
    }
    let ghost risk_v = risk_keys(gv, expenses as int, n_groups as int);
    if rate < 10 {
        push_item(&mut sug, Json::string("Increase savings rate to at least 10% of income"));
    }
    if net < 0 {
        push_item(&mut sug, Json::string("Reduce expenses to achieve positive cash flow"));
    }
    proof {
        assert(items_view(sug@) =~= suggestions(risk_v, rate as int, net as int));
    }
    let count = txs.len();
    let base: i128 = if rate >= 20 {
        90 + if count < 10 { count as i128 } else { 10 }
    } else if rate >= 10 {
        70 + rate
    } else {
        50 + if rate > 0 { rate } else { 0 }
    };
    let score: i128 = if base > 100 { 100 } else { base };
    let mut eff: Vec<(String, Json)> = Vec::new();
    push_member(&mut eff, "total_expenses_milliunits", int_value(expenses));
    push_member(&mut eff, "total_income_milliunits", int_value(income));
    push_member(&mut eff, "net_income_milliunits", int_value(net));
    push_member(&mut eff, "savings_rate_percentage", int_value(rate));
    let mut fields: Vec<(String, Json)> = Vec::new();
    push_member(&mut fields, "overall_score", int_value(score));
    push_member(&mut fields, "optimization_suggestions", Json::Array(sug));
    push_member(&mut fields, "risk_categories", Json::Array(risk));
    push_member(&mut fields, "spending_efficiency", Json::Object(eff));
    push_member(&mut fields, "category_analysis", Json::Object(analysis));
    push_member(&mut fields, "transaction_count", count_value(count));
    push_member(&mut fields, "data_source", Json::string("domain_service"));
    let v = single_value("budget_health", Json::Object(fields));
    proof {
        let report = health_report(txs@);
        assert(crate::json::entries_view(eff@) =~= report->Object_0[0].1->Object_0[3].1->Object_0);
        assert(crate::json::entries_view(analysis@) =~= totals_object(gv)->Object_0);
        assert(crate::json::entries_view(fields@) =~= report->Object_0[0].1->Object_0);
    }
    Ok(write_json(&v))
}

/// The `categories` argument as strings.
#[verifier::loop_isolation(false)]
fn category_list(params: &Json) -> (r: Vec<String>)
    ensures
        r@.map_values(|c: String| c@) == category_args(params@),
{
    let mut out: Vec<String> = Vec::new();
    match params.get("categories") {
        Some(v) => match v.as_array() {
            Some(items) => {
                let ghost iv = items_view(items@);
                proof {
                    crate::json::lemma_items_view(items@);
                    assert(iv.take(0) =~= Seq::<JsonV>::empty());
                    assert(out@.map_values(|c: String| c@) =~= Seq::<Seq<char>>::empty());
                }
                let mut i: usize = 0;
                while i < items.len()
                    invariant
                        i <= items@.len(),
                        out@.map_values(|c: String| c@) == string_items(iv.take(i as int)),
                    decreases items@.len() - i,
                {
                    proof {
                        assert(iv.take(i + 1).drop_last() =~= iv.take(i as int));
                        assert(iv.take(i + 1).last() == items@[i as int]@);
                    }
                    if let Some(x) = items[i].as_str() {
                        let ghost before = out@;
                        out.push(String::from_str(x));
                        proof {
                            assert(out@.map_values(|c: String| c@) =~= before.map_values(|c: String| c@).push(x@));
                        }
                    }
                    i = i + 1;
                }
                proof {
                    assert(iv.take(i as int) =~= iv);
                }
                out
            },
            None => {
                assert(out@.map_values(|c: String| c@) =~= Seq::<Seq<char>>::empty());
                out
            },
        },
        None => {
            assert(out@.map_values(|c: String| c@) =~= Seq::<Seq<char>>::empty());
            out
        },
    }
}

/// Each group's total and count as JSON, when every total fits.
fn breakdown_json(gs: &Vec<(String, i128, usize)>) -> (r: Option<Json>)
    ensures
        r is Some <==> totals_fit(groups_view(gs@)),
        r matches Some(j) ==> j@ == category_breakdown(groups_view(gs@)),
{
    let ghost g = groups_view(gs@);
    let mut out: Vec<(String, Json)> = Vec::new();
    let mut k: usize = 0;
    while k < gs.len()
        invariant
            g == groups_view(gs@),
            k <= gs@.len(),
            crate::json::entries_view(out@) == category_breakdown(g.take(k as int))->Object_0,
            forall|j: int| 0 <= j < k ==> fits(#[trigger] g[j].1),
        decreases gs@.len() - k,
    {
        if gs[k].1 > 0x7fff_ffff_ffff_ffff || gs[k].1 < -0x8000_0000_0000_0000 {
            assert(!fits(g[k as int].1));
            return None;
        }
        let mut e: Vec<(String, Json)> = Vec::new();
        push_member(&mut e, "amount_milliunits", int_value(gs[k].1));
        push_member(&mut e, "transaction_count", count_value(gs[k].2));
        push_member(&mut out, gs[k].0.as_str(), Json::Object(e));
        proof {
            assert(crate::json::entries_view(e@) =~= seq![
                ("amount_milliunits"@, JsonV::Int(g[k as int].1)),
                ("transaction_count"@, JsonV::Int(g[k as int].2 as int)),
            ]);
            assert(crate::json::entries_view(out@) =~= category_breakdown(g.take(k + 1))->Object_0);
        }
        k = k + 1;
    }
    assert(g.take(k as int) =~= g);
    Some(Json::Object(out))
}

/// The trends report on local transactions, or the failure when a total
/// does not fit a JSON integer.
#[verifier::loop_isolation(false)]
fn trends_of(txs: &[Transaction], cats: &Vec<String>, months: u64) -> (r: YnabResult<String>)
    ensures
        ({
            let cv = cats@.map_values(|c: String| c@);
            if trends_fit(cv, txs@) {
                gives(r, Outcome::Done(trends_report(txs@, cv, months as int)))
            } else {
                gives(r, out_of_range())
            }
        }),
{
    let ghost cv = cats@.map_values(|c: String| c@);
    let (by_category, by_month, total) = trend_groups(txs, cats);
    let ghost cg = groups_view(by_category@);
    let ghost mg = groups_view(by_month@);
    let mut totals: Vec<(String, Json)> = Vec::new();
    let mut k: usize = 0;
    while k < by_category.len()
        invariant
            k <= by_category@.len(),
            crate::json::entries_view(totals@) == Seq::new(k as nat, |j: int| (cg[j].0, JsonV::Int(cg[j].1))),
            forall|j: int| 0 <= j < k ==> fits(#[trigger] cg[j].1),
        decreases by_category@.len() - k,
    {
        if by_category[k].1 > 0x7fff_ffff_ffff_ffff || by_category[k].1 < -0x8000_0000_0000_0000 {
            assert(!fits(cg[k as int].1));
            return Err(out_of_range_error());
        }
        push_member(&mut totals, by_category[k].0.as_str(), int_value(by_category[k].1));
        proof {
            assert(crate::json::entries_view(totals@) =~= Seq::new((k + 1) as nat, |j: int| (cg[j].0, JsonV::Int(cg[j].1))));
        }
        k = k + 1;
    }
    let mut monthly: Vec<Json> = Vec::new();
    let mut k: usize = 0;
    while k < by_month.len()
        invariant
            k <= by_month@.len(),
            items_view(monthly@) == Seq::new(k as nat, |j: int| month_value(cv, txs@, mg[j])),
            forall|j: int| 0 <= j < k ==> fits(#[trigger] mg[j].1),
            forall|j: int| 0 <= j < k ==> month_fits(cv, txs@, #[trigger] mg[j]),
        decreases by_month@.len() - k,
    {
        if by_month[k].1 > 0x7fff_ffff_ffff_ffff || by_month[k].1 < -0x8000_0000_0000_0000 {
            assert(!fits(mg[k as int].1));
            return Err(out_of_range_error());
        }
        let in_month = month_category_groups(txs, cats, by_month[k].0.as_str());
        let breakdown = match breakdown_json(&in_month) {
            Some(b) => b,
            None => {
                assert(!month_fits(cv, txs@, mg[k as int]));
                return Err(out_of_range_error());
            },
        };
        assert(month_fits(cv, txs@, mg[k as int]));
        let mut m: Vec<(String, Json)> = Vec::new();
        push_member(&mut m, "month", Json::string(by_month[k].0.as_str()));
        push_member(&mut m, "categories", breakdown);
        push_member(&mut m, "amount_milliunits", int_value(by_month[k].1));
        push_member(&mut m, "transaction_count", count_value(by_month[k].2));
        proof {
            assert(crate::json::entries_view(m@) =~= month_value(cv, txs@, mg[k as int])->Object_0);
        }
        push_item(&mut monthly, Json::Object(m));
        proof {
            assert(items_view(monthly@) =~= Seq::new((k + 1) as nat, |j: int| month_value(cv, txs@, mg[j])));
        }
        k = k + 1;
    }
    if total > 0x7fff_ffff_ffff_ffff {
        return Err(out_of_range_error());
    }
    let avg: i128 = if by_month.len() > 0 {
        total / (by_month.len() as i128)
    } else {
        0
    };
    assert(0 <= avg <= total);
    assert(avg == if mg.len() > 0 { items_total(month_items(cv, txs@)) / mg.len() as int } else { 0 });
    let mut analysis: Vec<(String, Json)> = Vec::new();
    push_member(&mut analysis, "average_monthly_spending", int_value(avg));
    push_member(&mut analysis, "total_categories_analyzed", count_value(by_category.len()));
    let n_cats = if cats.len() > by_category.len() { cats.len() } else { by_category.len() };
    let mut fields: Vec<(String, Json)> = Vec::new();
    push_member(&mut fields, "monthly_data", Json::Array(monthly));
    push_member(&mut fields, "category_totals", Json::Object(totals));
    push_member(&mut fields, "trend_analysis", Json::Object(analysis));
    push_member(&mut fields, "months_analyzed", count_value(by_month.len()));
    push_member(&mut fields, "months_requested", Json::UInt(months));
    push_member(&mut fields, "categories_count", count_value(n_cats));
    push_member(&mut fields, "data_source", Json::string("domain_service"));
    let v = single_value("spending_trends", Json::Object(fields));
    proof {
        let report = trends_report(txs@, cv, months as int);
        assert(cv.len() == cats@.len());
        assert(crate::json::entries_view(analysis@) =~= report->Object_0[0].1->Object_0[2].1->Object_0);
        assert(crate::json::entries_view(totals@) =~= totals_object(cg)->Object_0);
        assert(crate::json::entries_view(fields@) =~= report->Object_0[0].1->Object_0);
    }
    Ok(write_json(&v))
}

/// Appends a string to an array under construction.
fn push_str(items: &mut Vec<Json>, s: &str, ghost_items: Ghost<Seq<Seq<char>>>) 
    requires
        items_view(old(items)@) == ghost_items@.map_values(|x: Seq<char>| JsonV::Str(x)),
    ensures
        items_view(final(items)@) == ghost_items@.push(s@).map_values(|x: Seq<char>| JsonV::Str(x)),
{
    push_item(items, Json::string(s));
    proof {
        assert(ghost_items@.push(s@).map_values(|x: Seq<char>| JsonV::Str(x)) =~= ghost_items@.map_values(
            |x: Seq<char>| JsonV::Str(x),
        ).push(JsonV::Str(s@)));
    }
}

/// An empty array under construction.
fn no_items() -> (r: Vec<Json>)
    ensures
        items_view(r@) == Seq::<Seq<char>>::empty().map_values(|x: Seq<char>| JsonV::Str(x)),
{
    let r: Vec<Json> = Vec::new();
    assert(items_view(r@) =~= Seq::<Seq<char>>::empty().map_values(|x: Seq<char>| JsonV::Str(x)));
    r
}

/// A category's spending and number of transactions, as JSON.
fn stat_json(amount: i64, count: i64) -> (r: Json)
    ensures
        r@ == stat(amount as int, count as int),
{
    let mut e: Vec<(String, Json)> = Vec::new();
    push_member(&mut e, "amount_milliunits", Json::Int(amount));
    push_member(&mut e, "transaction_count", Json::Int(count));
    assert(crate::json::entries_view(e@) =~= stat(amount as int, count as int)->Object_0);
    Json::Object(e)
}

/// One month of two categories' spending, as JSON.
fn two_category_month_json(
    month: &str,
    c1: &str,
    a1: i64,
    n1: i64,
    c2: &str,
    a2: i64,
    n2: i64,
) -> (r: Json)
    ensures
        r@ == two_category_month(month@, c1@, a1 as int, n1 as int, c2@, a2 as int, n2 as int),
{
    let mut cats: Vec<(String, Json)> = Vec::new();
    push_member(&mut cats, c1, stat_json(a1, n1));
    push_member(&mut cats, c2, stat_json(a2, n2));
    let mut m: Vec<(String, Json)> = Vec::new();
    push_member(&mut m, "month", Json::string(month));
    push_member(&mut m, "categories", Json::Object(cats));
    proof {
        let v = two_category_month(month@, c1@, a1 as int, n1 as int, c2@, a2 as int, n2 as int);
        assert(crate::json::entries_view(cats@) =~= v->Object_0[1].1->Object_0);
        assert(crate::json::entries_view(m@) =~= v->Object_0);
    }
    Json::Object(m)
}

/// The health report of a handler backed by the budgeting service.
fn health_service_json() -> (r: Vec<(String, Json)>)
    ensures
        crate::json::entries_view(r@) == health_service_fields(),
{
    let mut sug = no_items();
    let ghost g0 = Seq::<Seq<char>>::empty();
    push_str(&mut sug, "Your grocery spending is 15% above the recommended amount for your income level", Ghost(g0));
    let ghost g1 = g0.push("Your grocery spending is 15% above the recommended amount for your income level"@);
    push_str(&mut sug, "Consider automating savings to reach a 20% savings rate", Ghost(g1));
    let ghost g2 = g1.push("Consider automating savings to reach a 20% savings rate"@);
    push_str(&mut sug, "Review recurring subscriptions - you have $47/month in unused services", Ghost(g2));
    let ghost g3 = g2.push("Review recurring subscriptions - you have $47/month in unused services"@);
    push_str(&mut sug, "Emergency fund is healthy at 4.2 months of expenses", Ghost(g3));
    let ghost g4 = g3.push("Emergency fund is healthy at 4.2 months of expenses"@);
    let mut risk = no_items();
    push_str(&mut risk, "groceries", Ghost(g0));
    push_str(&mut risk, "subscriptions", Ghost(g0.push("groceries"@)));
    let mut up = no_items();
    push_str(&mut up, "groceries", Ghost(g0));
    push_str(&mut up, "gas", Ghost(g0.push("groceries"@)));
    let mut eff: Vec<(String, Json)> = Vec::new();
    push_member(&mut eff, "total_expenses_milliunits", Json::Int(275000));
    push_member(&mut eff, "total_income_milliunits", Json::Int(420000));
    push_member(&mut eff, "net_income_milliunits", Json::Int(145000));
    push_member(&mut eff, "savings_rate_percentage", Json::Int(18));
    let mut breakdown: Vec<(String, Json)> = Vec::new();
    push_member(&mut breakdown, "over_budget_categories", Json::Int(2));
    push_member(&mut breakdown, "healthy_categories", Json::Int(8));
    push_member(&mut breakdown, "categories_trending_up", Json::Array(up));
    let mut fields: Vec<(String, Json)> = Vec::new();
    push_member(&mut fields, "overall_score", Json::Int(85));
    push_member(&mut fields, "optimization_suggestions", Json::Array(sug));
    push_member(&mut fields, "risk_categories", Json::Array(risk));
    push_member(&mut fields, "spending_efficiency", Json::Object(eff));
    push_member(&mut fields, "category_breakdown", Json::Object(breakdown));
    proof {
        let f = health_service_fields();
        assert(g4 =~= seq![
            "Your grocery spending is 15% above the recommended amount for your income level"@,
            "Consider automating savings to reach a 20% savings rate"@,
            "Review recurring subscriptions - you have $47/month in unused services"@,
            "Emergency fund is healthy at 4.2 months of expenses"@,
        ]);
        assert(g0.push("groceries"@).push("subscriptions"@) =~= seq!["groceries"@, "subscriptions"@]);
        assert(g0.push("groceries"@).push("gas"@) =~= seq!["groceries"@, "gas"@]);
        assert(crate::json::entries_view(eff@) =~= f[3].1->Object_0);
        assert(crate::json::entries_view(breakdown@) =~= f[4].1->Object_0);
        assert(crate::json::entries_view(fields@) =~= f);
    }
    fields
}

/// The health report of a handler without data.
fn health_placeholder_json() -> (r: Vec<(String, Json)>)
    ensures
        crate::json::entries_view(r@) == health_placeholder_fields(),
{
    let ghost g0 = Seq::<Seq<char>>::empty();
    let mut sug = no_items();
    push_str(&mut sug, "Consider reducing dining out expenses", Ghost(g0));
    let ghost g1 = g0.push("Consider reducing dining out expenses"@);
    push_str(&mut sug, "Increase emergency fund to 6 months of expenses", Ghost(g1));
    let ghost g2 = g1.push("Increase emergency fund to 6 months of expenses"@);
    push_str(&mut sug, "Review subscription services for potential savings", Ghost(g2));
    let ghost g3 = g2.push("Review subscription services for potential savings"@);
    let mut risk = no_items();
    push_str(&mut risk, "dining", Ghost(g0));
    push_str(&mut risk, "entertainment", Ghost(g0.push("dining"@)));
    let mut eff: Vec<(String, Json)> = Vec::new();
    push_member(&mut eff, "savings_rate_percentage", Json::Int(15));
    push_member(&mut eff, "expense_to_income_ratio", Json::Int(85));
    let mut fields: Vec<(String, Json)> = Vec::new();
    push_member(&mut fields, "overall_score", Json::Int(78));
    push_member(&mut fields, "optimization_suggestions", Json::Array(sug));
    push_member(&mut fields, "risk_categories", Json::Array(risk));
    push_member(&mut fields, "spending_efficiency", Json::Object(eff));
    proof {
        let f = health_placeholder_fields();
        assert(g3 =~= seq![
            "Consider reducing dining out expenses"@,
            "Increase emergency fund to 6 months of expenses"@,
            "Review subscription services for potential savings"@,
        ]);
        assert(g0.push("dining"@).push("entertainment"@) =~= seq!["dining"@, "entertainment"@]);
        assert(crate::json::entries_view(eff@) =~= f[3].1->Object_0);
        assert(crate::json::entries_view(fields@) =~= f);
    }
    fields
}

/// The trends report of a handler backed by the budgeting service.
fn trends_service_json() -> (r: Vec<(String, Json)>)
    ensures
        crate::json::entries_view(r@) == trends_service_fields(),
{
    let mut months: Vec<Json> = Vec::new();
    push_item(&mut months, two_category_month_json("2024-01", "groceries", 87500, 12, "dining", 45000, 6));
    push_item(&mut months, two_category_month_json("2024-02", "groceries", 92000, 14, "dining", 38000, 5));
    let mut analysis: Vec<(String, Json)> = Vec::new();
    push_member(&mut analysis, "average_monthly_spending", Json::Int(131250));
    push_member(&mut analysis, "strongest_growth_category", Json::string("groceries"));
    push_member(&mut analysis, "largest_decline_category", Json::string("dining"));
    let mut fields: Vec<(String, Json)> = Vec::new();
    push_member(&mut fields, "monthly_data", Json::Array(months));
    push_member(&mut fields, "trend_analysis", Json::Object(analysis));
    push_member(&mut fields, "months_analyzed", Json::Int(6));
    proof {
        let f = trends_service_fields();
        assert(items_view(months@) =~= f[0].1->Array_0);
        assert(crate::json::entries_view(analysis@) =~= f[1].1->Object_0);
        assert(crate::json::entries_view(fields@) =~= f);
    }
    fields
}

/// The trends report of a handler without data.
fn trends_placeholder_json() -> (r: Vec<(String, Json)>)
    ensures
        crate::json::entries_view(r@) == trends_placeholder_fields(),
{
    let mut months: Vec<Json> = Vec::new();
    push_item(&mut months, two_category_month_json("2024-01", "groceries", 45000, 8, "entertainment", 25000, 3));
    let ghost g0 = Seq::<Seq<char>>::empty();
    let mut up = no_items();
    push_str(&mut up, "groceries", Ghost(g0));
    let mut down = no_items();
    push_str(&mut down, "entertainment", Ghost(g0));
    let mut analysis: Vec<(String, Json)> = Vec::new();
    push_member(&mut analysis, "average_monthly_spending", Json::Int(70000));
    push_member(&mut analysis, "trending_up", Json::Array(up));
    push_member(&mut analysis, "trending_down", Json::Array(down));
    let mut fields: Vec<(String, Json)> = Vec::new();
    push_member(&mut fields, "monthly_data", Json::Array(months));
    push_member(&mut fields, "trend_analysis", Json::Object(analysis));
    push_member(&mut fields, "months_analyzed", Json::Int(3));
    push_member(&mut fields, "categories_count", Json::Int(2));
    proof {
        let f = trends_placeholder_fields();
        assert(g0.push("groceries"@) =~= seq!["groceries"@]);
        assert(g0.push("entertainment"@) =~= seq!["entertainment"@]);
        assert(items_view(months@) =~= f[0].1->Array_0);
        assert(crate::json::entries_view(analysis@) =~= f[1].1->Object_0);
        assert(crate::json::entries_view(fields@) =~= f);
    }
    fields
}

impl Handler {
    /// A handler with neither transactions nor a service client.
    pub fn new() -> (r: Handler)
        ensures
            r.transaction_service is None,
            r.ynab_client is None,
    {
        Handler { transaction_service: None, ynab_client: None }
    }

    /// A handler on local transactions.
    pub fn with_services(transaction_service: TransactionService) -> (r: Handler)
        ensures
            r.transaction_service == Some(transaction_service),
            r.ynab_client is None,
    {
        Handler { transaction_service: Some(transaction_service), ynab_client: None }
    }

    /// A handler backed by the budgeting service.
    pub fn with_ynab_client(ynab_client: YnabClient) -> (r: Handler)
        ensures
            r.transaction_service is None,
            r.ynab_client == Some(ynab_client),
    {
        Handler { transaction_service: None, ynab_client: Some(ynab_client) }
    }

    /// A handler with both; the service client takes precedence where a
    /// tool can use it.
    pub fn with_full_integration(
        transaction_service: TransactionService,
        ynab_client: YnabClient,
    ) -> (r: Handler)
        ensures
            r.transaction_service == Some(transaction_service),
            r.ynab_client == Some(ynab_client),
    {
        Handler { transaction_service: Some(transaction_service), ynab_client: Some(ynab_client) }
    }

    /// The tools, in the order of the catalog, whatever the handler holds.
    pub fn list_tools(&self) -> (r: Vec<Tool>)
        ensures
            r@.len() == tool_catalog().len(),
            forall|i: int|
                0 <= i < r@.len() ==> (#[trigger] r@[i]).name@ == tool_catalog()[i].0
                    && r@[i].description@ == tool_catalog()[i].1,
    {
        let mut r: Vec<Tool> = Vec::new();
        r.push(Tool {
            name: String::from_str("analyze_category_spending"),
            description: String::from_str("Analyzes spending for specific categories with optional date filtering"),
        });
        r.push(Tool {
            name: String::from_str("get_budget_overview"),
            description: String::from_str("Provides a comprehensive overview of budget status and spending"),
        });
        r.push(Tool {
            name: String::from_str("search_transactions"),
            description: String::from_str("Searches transactions with advanced filtering and sorting options"),
        });
        r.push(Tool {
            name: String::from_str("analyze_spending_trends"),
            description: String::from_str("Analyzes spending trends over multiple months with detailed breakdowns"),
        });
        r.push(Tool {
            name: String::from_str("budget_health_check"),
            description: String::from_str("Performs comprehensive budget health analysis with optimization suggestions"),
        });
        r
    }

    /// Fails when the service client's credential is empty.
    fn check_token(&self) -> (r: YnabResult<()>)
        requires
            self.ynab_client is Some,
        ensures
            self.ynab_client->Some_0.api_token@.len() == 0 ==> (r matches Err(e) && error_text(e)
                == "API request failed: "@ + "Invalid API token"@),
            self.ynab_client->Some_0.api_token@.len() != 0 ==> r is Ok,
    {
        match &self.ynab_client {
            Some(c) => if c.api_token.as_str().is_empty() {
                Err(YnabError::api_error("Invalid API token"))
            } else {
                Ok(())
            },
            None => Ok(()),
        }
    }

    /// The answer of a tool that the budgeting service backs: `fields`, then
    /// where the data came from and the budget.
    fn service_answer(&self, head: &str, fields: Vec<(String, Json)>, budget: &str) -> (r:
        YnabResult<String>)
        requires
            self.ynab_client is Some,
        ensures
            gives(r, service_backed(*self, head@, crate::json::entries_view(fields@), budget@)),
    {
        match self.check_token() {
            Err(e) => Err(e),
            Ok(()) => {
                let ghost given = fields@;
                let mut fields = fields;
                push_member(&mut fields, "data_source", Json::string("ynab_api"));
                push_member(&mut fields, "budget_id", Json::string(budget));
                push_member(&mut fields, "api_token_configured", Json::Bool(true));
                let v = single_value(head, Json::Object(fields));
                proof {
                    let f = service_backed(*self, head@, crate::json::entries_view(given), budget@);
                    assert(crate::json::entries_view(fields@) =~= crate::json::entries_view(given) + seq![
                        ("data_source"@, JsonV::Str("ynab_api"@)),
                        ("budget_id"@, JsonV::Str(budget@)),
                        ("api_token_configured"@, JsonV::Bool(true)),
                    ]);
                    assert(v@ == f->Done_0);
                }
                Ok(write_json(&v))
            },
        }
    }

    /// Spending of one category: its transactions' amounts summed, reported
    /// as a positive magnitude, and their number.
    fn analyze_category_spending(&self, params: &Json) -> (r: YnabResult<String>)
        ensures
            gives(r, category_spending_outcome(*self, params@)),
    {
        let category_id = str_param(params, "category_id");
        let category_name = str_param(params, "category_name");
        let budget_id = str_param(params, "budget_id");
        if self.ynab_client.is_some() {
            let mut fields: Vec<(String, Json)> = Vec::new();
            push_member(&mut fields, "category", Json::string(category_name));
            push_member(&mut fields, "amount_milliunits", Json::Int(87500));
            push_member(&mut fields, "transaction_count", Json::Int(3));
            let ghost f = crate::json::entries_view(fields@);
            assert(f =~= seq![
                ("category"@, JsonV::Str(category_name@)),
                ("amount_milliunits"@, JsonV::Int(87500)),
                ("transaction_count"@, JsonV::Int(3)),
            ]);
            return self.service_answer("category_spending", fields, budget_id);
        }
        match &self.transaction_service {
            Some(svc) => {
                let (sum, count) = category_sum_and_count(svc.transactions.as_slice(), category_id);
                let len = svc.transactions.len();
                proof {
                    let n = svc.transactions@.len();
                    assert(n == len);
                    assert(n * crate::aggregate::AMOUNT_BOUND <= usize::MAX * crate::aggregate::AMOUNT_BOUND) by (nonlinear_arith)
                        requires n <= usize::MAX;
                }
                let total: i128 = if sum < 0 { -sum } else { sum };
                if total > 0x7fff_ffff_ffff_ffff {
                    return Err(out_of_range_error());
                }
                Ok(write_json(&category_report_value(category_name, total, count)))
            },
            None => Ok(write_json(&category_report_value("Groceries", 125000, 5))),
        }
    }

    /// Totals of expenses, income and net income, with the number of
    /// transactions.
    fn get_budget_overview(&self, params: &Json) -> (r: YnabResult<String>)
        ensures
            gives(r, overview_outcome(*self, params@)),
    {
        let budget_id = str_param(params, "budget_id");
        if self.ynab_client.is_some() {
            let mut fields: Vec<(String, Json)> = Vec::new();
            push_member(&mut fields, "total_expenses_milliunits", Json::Int(245000));
            push_member(&mut fields, "total_income_milliunits", Json::Int(4500000));
            push_member(&mut fields, "net_income_milliunits", Json::Int(4255000));
            push_member(&mut fields, "transaction_count", Json::Int(15));
            let ghost f = crate::json::entries_view(fields@);
            assert(f =~= seq![
                ("total_expenses_milliunits"@, JsonV::Int(245000)),
                ("total_income_milliunits"@, JsonV::Int(4500000)),
                ("net_income_milliunits"@, JsonV::Int(4255000)),
                ("transaction_count"@, JsonV::Int(15)),
            ]);
            return self.service_answer("budget_overview", fields, budget_id);
        }
        match &self.transaction_service {
            Some(svc) => {
                let (expenses, income) = expense_and_income(svc.transactions.as_slice());
                if expenses > 0x7fff_ffff_ffff_ffff || income > 0x7fff_ffff_ffff_ffff
                    || income - expenses > 0x7fff_ffff_ffff_ffff || income - expenses
                    < -0x8000_0000_0000_0000 {
                    return Err(out_of_range_error());
                }
                let mut fields: Vec<(String, Json)> = Vec::new();
                push_member(&mut fields, "total_expenses_milliunits", int_value(expenses));
                push_member(&mut fields, "total_income_milliunits", int_value(income));
                push_member(&mut fields, "net_income_milliunits", int_value(income - expenses));
                push_member(&mut fields, "transaction_count", count_value(svc.transactions.len()));
                let v = single_value("budget_overview", Json::Object(fields));
                proof {
                    let e = expense_total(svc.transactions@);
                    let i = income_total(svc.transactions@);
                    assert(crate::json::entries_view(fields@) =~= overview_report(e, i, svc.transactions@.len() as int)->Object_0[0].1->Object_0);
                }
                Ok(write_json(&v))
            },
            None => {
                let mut fields: Vec<(String, Json)> = Vec::new();
                push_member(&mut fields, "total_budgeted", Json::Int(300000));
                push_member(&mut fields, "total_spent", Json::Int(125000));
                push_member(&mut fields, "categories_over_budget", Json::Int(2));
                let v = single_value("budget_overview", Json::Object(fields));
                proof {
                    assert(crate::json::entries_view(fields@) =~= overview_outcome(*self, params@)->Done_0->Object_0[0].1->Object_0);
                }
                Ok(write_json(&v))
            },
        }
    }

    /// Transactions found by text, minimum amount and category, at most
    /// `limit` of them (100 by default).
    fn search_transactions(&self, params: &Json) -> (r: YnabResult<String>)
        ensures
            search_gives(*self, params@, r),
    {
        match &self.transaction_service {
            Some(svc) => {
                let mut query = TransactionQuery::new();
                let text = str_param(params, "text_search");
                if !text.is_empty() {
                    query = query.with_text_search(String::from_str(text));
                }
                let min = match params.get("min_amount_milliunits") {
                    Some(v) => v.as_i64(),
                    None => None,
                };
                if let Some(m) = min {
                    query = query.with_min_amount(Money::from_milliunits(m));
                }
                let category = str_param(params, "category_id");
                if !category.is_empty() {
                    query = query.with_category(String::from_str(category));
                }
                let found = svc.query(&query);
                let limit: u64 = match params.get("limit") {
                    Some(v) => match v.as_u64() {
                        Some(l) => l,
                        None => 100,
                    },
                    None => 100,
                };
                let n: usize = if (found.len() as u64) < limit {
                    found.len()
                } else {
                    limit as usize
                };
                let mut items: Vec<Json> = Vec::new();
                let mut i: usize = 0;
                while i < n
                    invariant
                        n <= found@.len(),
                        i <= n,
                        items_view(items@) =~= Seq::new(i as nat, |k: int| transaction_value(*found@[k])),
                    decreases n - i,
                {
                    push_item(&mut items, transaction_json(found[i]));
                    i = i + 1;
                }
                let mut fields: Vec<(String, Json)> = Vec::new();
                push_member(&mut fields, "transactions", Json::Array(items));
                push_member(&mut fields, "count", count_value(n));
                push_member(&mut fields, "limited", Json::Bool(n as u64 == limit));
                let v = Json::Object(fields);
                proof {
                    let p = params@;
                    assert(crate::json::entries_view(fields@) =~= search_report(found@, n as int, search_limit(p))->Object_0);
                    assert(search_query(query, p));
                }
                Ok(write_json(&v))
            },
            None => {
                let mut fields: Vec<(String, Json)> = Vec::new();
                let none: Vec<Json> = Vec::new();
                assert(items_view(none@) =~= Seq::<JsonV>::empty());
                push_member(&mut fields, "transactions", Json::Array(none));
                push_member(&mut fields, "count", Json::Int(0));
                push_member(&mut fields, "limited", Json::Bool(false));
                proof {
                    assert(crate::json::entries_view(fields@) =~= empty_search_report()->Object_0);
                }
                Ok(write_json(&Json::Object(fields)))
            },
        }
    }

    /// Health of the budget: savings rate, score, categories that spend more
    /// than twice the mean category, and suggestions.
    fn budget_health_check(&self, params: &Json) -> (r: YnabResult<String>)
        ensures
            gives(r, health_outcome(*self, params@)),
    {
        let budget_id = str_param(params, "budget_id");
        if self.ynab_client.is_some() {
            return self.service_answer("budget_health", health_service_json(), budget_id);
        }
        match &self.transaction_service {
            Some(svc) => health_of(svc.transactions.as_slice()),
            None => Ok(write_json(&single_value("budget_health", Json::Object(health_placeholder_json())))),
        }
    }

    /// Spending per month and per category of the transactions in the
    /// `categories` argument (all when it is empty or missing).
    fn analyze_spending_trends(&self, params: &Json) -> (r: YnabResult<String>)
        ensures
            gives(r, trends_outcome(*self, params@)),
    {
        let budget_id = str_param(params, "budget_id");
        if self.ynab_client.is_some() {
            return self.service_answer("spending_trends", trends_service_json(), budget_id);
        }
        match &self.transaction_service {
            Some(svc) => {
                let cats = category_list(params);
                let months: u64 = match params.get("months") {
                    Some(v) => match v.as_u64() {
                        Some(m) => m,
                        None => 3,
                    },
                    None => 3,
                };
                trends_of(svc.transactions.as_slice(), &cats, months)
            },
            None => Ok(write_json(&single_value("spending_trends", Json::Object(trends_placeholder_json())))),
        }
    }

    /// The tools as the `tools/list` result lists them.
    pub fn tools_json(&self) -> (r: Json)
        ensures
            r@ == tools_value(),
    {
        let tools = self.list_tools();
        let mut items: Vec<Json> = Vec::new();
        let mut i: usize = 0;
        while i < tools.len()
            invariant
                tools@.len() == tool_catalog().len(),
                forall|k: int|
                    0 <= k < tools@.len() ==> (#[trigger] tools@[k]).name@ == tool_catalog()[k].0
                        && tools@[k].description@ == tool_catalog()[k].1,
                i <= tools@.len(),
                items_view(items@) == Seq::new(i as nat, |k: int| tool_value(tool_catalog()[k])),
            decreases tools@.len() - i,
        {
            let mut t: Vec<(String, Json)> = Vec::new();
            push_member(&mut t, "name", Json::string(tools[i].name.as_str()));
            push_member(&mut t, "description", Json::string(tools[i].description.as_str()));
            proof {
                assert(crate::json::entries_view(t@) =~= tool_value(tool_catalog()[i as int])->Object_0);
            }
            push_item(&mut items, Json::Object(t));
            proof {
                assert(items_view(items@) =~= Seq::new((i + 1) as nat, |k: int| tool_value(tool_catalog()[k])));
            }
            i = i + 1;
        }
        single_value("tools", Json::Array(items))
    }

    /// Runs the tool named `tool_name` on `params`; an unknown name fails.
    pub fn execute_tool(&self, tool_name: &str, params: Json) -> (r: YnabResult<String>)
        ensures
            executes(*self, tool_name@, params@, r),
    {
        proof {
            reveal_strlit("analyze_category_spending");
            reveal_strlit("get_budget_overview");
            reveal_strlit("search_transactions");
            reveal_strlit("analyze_spending_trends");
            reveal_strlit("budget_health_check");
            assert("get_budget_overview"@[0] != "analyze_category_spending"@[0]);
            assert("search_transactions"@[0] != "analyze_category_spending"@[0]);
            assert("search_transactions"@[0] != "get_budget_overview"@[0]);
            assert("analyze_spending_trends"@[8] != "analyze_category_spending"@[8]);
            assert("analyze_spending_trends"@[0] != "get_budget_overview"@[0]);
            assert("analyze_spending_trends"@[0] != "search_transactions"@[0]);
            assert(tool_catalog()[0].0 == "analyze_category_spending"@);
            assert(tool_catalog()[1].0 == "get_budget_overview"@);
            assert(tool_catalog()[2].0 == "search_transactions"@);
            assert(tool_catalog()[3].0 == "analyze_spending_trends"@);
            assert(tool_catalog()[4].0 == "budget_health_check"@);
        }
        if str_eq(tool_name, "analyze_category_spending") {
            self.analyze_category_spending(&params)
        } else if str_eq(tool_name, "get_budget_overview") {
            self.get_budget_overview(&params)
        } else if str_eq(tool_name, "search_transactions") {
            self.search_transactions(&params)
        } else if str_eq(tool_name, "analyze_spending_trends") {
            self.analyze_spending_trends(&params)
        } else if str_eq(tool_name, "budget_health_check") {
            self.budget_health_check(&params)
        } else {
            Err(YnabError::InvalidBudgetId(concat("Unknown tool: ", tool_name)))
        }
    }

    /// Answers a JSON-RPC request given as a JSON value: `tools/list` with
    /// the tools, any other method with a method-not-found error.
    pub fn handle_jsonrpc_request(&self, request: Json) -> (r: YnabResult<Json>)
        ensures
            str_of(member(request@, "method"@)) == Some("tools/list"@) ==> (r matches Ok(v) && v@
                == JsonV::Object(
                seq![
                    ("jsonrpc"@, JsonV::Str("2.0"@)),
                    ("id"@, request_id(request@)),
                    ("result"@, tools_value()),
                ],
            )),
            str_of(member(request@, "method"@)) != Some("tools/list"@) ==> (r matches Ok(v) && v@
                == JsonV::Object(
                seq![
                    ("jsonrpc"@, JsonV::Str("2.0"@)),
                    ("id"@, request_id(request@)),
                    ("error"@, JsonV::Object(
                        seq![("code"@, JsonV::Int(-32601)), ("message"@, JsonV::Str("Method not found"@))],
                    )),
                ],
            )),
    {
        let id = match request.get("id") {
            Some(v) => v.deep_clone(),
            None => Json::Null,
        };
        let is_list = match request.str_member("method") {
            Some(m) => str_eq(m, "tools/list"),
            None => false,
        };
        let mut fields: Vec<(String, Json)> = Vec::new();
        push_member(&mut fields, "jsonrpc", Json::string("2.0"));
        push_member(&mut fields, "id", id);
        if is_list {
            push_member(&mut fields, "result", self.tools_json());
        } else {
            let mut e: Vec<(String, Json)> = Vec::new();
            push_member(&mut e, "code", Json::Int(-32601));
            push_member(&mut e, "message", Json::string("Method not found"));
            assert(crate::json::entries_view(e@) =~= seq![("code"@, JsonV::Int(-32601)), ("message"@, JsonV::Str("Method not found"@))]);
            push_member(&mut fields, "error", Json::Object(e));
        }
        let v = Json::Object(fields);
        proof {
            if is_list {
                assert(crate::json::entries_view(fields@) =~= seq![
                    ("jsonrpc"@, JsonV::Str("2.0"@)),
                    ("id"@, request_id(request@)),
                    ("result"@, tools_value()),
                ]);
            } else {
                assert(crate::json::entries_view(fields@) =~= seq![
                    ("jsonrpc"@, JsonV::Str("2.0"@)),
                    ("id"@, request_id(request@)),
                    ("error"@, JsonV::Object(
                        seq![("code"@, JsonV::Int(-32601)), ("message"@, JsonV::Str("Method not found"@))],
                    )),
                ]);
            }
        }
        Ok(v)
    }
}

impl Default for Handler {
    /// A handler with neither transactions nor a service client.
    fn default() -> (r: Handler)
        ensures
            r.transaction_service is None,
            r.ynab_client is None,
    {
        Handler::new()
    }
}

} // verus!

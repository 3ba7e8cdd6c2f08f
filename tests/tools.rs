use ynab_mcp::{
    Budget, Category, Handler, Json, Money, ResponseMapper, Transaction, TransactionQuery,
    TransactionService, YnabClient, YnabError,
};

fn json(text: &str) -> Json {
    Json::parse(text).unwrap()
}

fn at<'a>(value: &'a Json, path: &[&str]) -> &'a Json {
    let mut current = value;
    for key in path {
        current = current.get(key).unwrap();
    }
    current
}


#[test]
fn should_create_handler_with_new() {
    let handler = Handler::new();

    // Handler should have no transaction service by default
    assert!(handler.transaction_service.is_none());
}

#[test]
fn should_create_handler_with_default() {
    let _handler = Handler::new();

    // Test that we can create via Default trait - clippy prefers direct construction for unit structs
    let _default_handler: Handler = Default::default();
}

#[test]
fn handler_should_list_available_tools() {
    let handler = Handler::new();

    let tools = handler.list_tools();

    // Should include all MCP budget analysis tools
    assert!(
        tools
            .iter()
            .any(|tool| tool.name == "analyze_category_spending")
    );
    assert!(tools.iter().any(|tool| tool.name == "get_budget_overview"));
    assert!(tools.iter().any(|tool| tool.name == "search_transactions"));
    assert!(
        tools
            .iter()
            .any(|tool| tool.name == "analyze_spending_trends")
    );
    assert!(tools.iter().any(|tool| tool.name == "budget_health_check"));
    assert_eq!(tools.len(), 5);
}

#[test]
fn should_handle_unknown_tool_name() {
    let handler = Handler::new();

    let result = handler.execute_tool("nonexistent_tool", json(r#"{}"#));

    assert!(result.is_err());
    assert!(
        result
            .unwrap_err()
            .to_string()
            .contains("Unknown tool: nonexistent_tool")
    );
}

#[test]
fn should_execute_analyze_category_spending_with_api_client() {

    let ynab_client = YnabClient::new("valid-api-token".to_string());
    let handler = Handler::with_ynab_client(ynab_client);

    let result = handler.execute_tool(
        "analyze_category_spending",
        json(r#"{
            "budget_id": "budget-123",
            "category_id": "category-456",
            "category_name": "Groceries"
        }"#),
    );

    assert!(result.is_ok());
    let response = result.unwrap();
    assert!(response.contains("ynab_api"));
    assert!(response.contains("api_token_configured"));
}

#[test]
fn should_fail_analyze_category_spending_with_empty_api_token() {

    let ynab_client = YnabClient::new("".to_string()); // Empty token
    let handler = Handler::with_ynab_client(ynab_client);

    let result = handler.execute_tool(
        "analyze_category_spending",
        json(r#"{
            "budget_id": "budget-123",
            "category_id": "category-456",
            "category_name": "Groceries"
        }"#),
    );

    assert!(result.is_err());
    assert!(
        result
            .unwrap_err()
            .to_string()
            .contains("Invalid API token")
    );
}

#[test]
fn should_execute_get_budget_overview_with_api_client() {

    let ynab_client = YnabClient::new("valid-api-token".to_string());
    let handler = Handler::with_ynab_client(ynab_client);

    let result = handler.execute_tool(
        "get_budget_overview",
        json(r#"{
            "budget_id": "budget-123"
        }"#),
    );

    assert!(result.is_ok());
    let response = result.unwrap();
    assert!(response.contains("ynab_api"));
    assert!(response.contains("total_expenses_milliunits"));
}

#[test]
fn should_fail_get_budget_overview_with_empty_api_token() {

    let ynab_client = YnabClient::new("".to_string()); // Empty token
    let handler = Handler::with_ynab_client(ynab_client);

    let result = handler.execute_tool(
        "get_budget_overview",
        json(r#"{
            "budget_id": "budget-123"
        }"#),
    );

    assert!(result.is_err());
    assert!(
        result
            .unwrap_err()
            .to_string()
            .contains("Invalid API token")
    );
}

#[test]
fn should_execute_search_transactions_with_filters() {

    let mut service = TransactionService::new();
    service.add_transaction(
        Transaction::builder()
            .id("txn-1".to_string())
            .account_id("account-1".to_string())
            .category_id("groceries".to_string())
            .amount(Money::from_milliunits(-5000))
            .description("Grocery shopping".to_string())
            .build(),
    );
    service.add_transaction(
        Transaction::builder()
            .id("txn-2".to_string())
            .account_id("account-1".to_string())
            .category_id("fuel".to_string())
            .amount(Money::from_milliunits(-3000))
            .description("Gas station".to_string())
            .build(),
    );

    let handler = Handler::with_services(service);

    // Test with text search filter
    let result = handler.execute_tool(
        "search_transactions",
        json(r#"{
            "text_search": "grocery",
            "limit": 10
        }"#),
    );

    assert!(result.is_ok());
    let response = result.unwrap();
    assert!(response.contains("Grocery shopping"));
    assert!(!response.contains("Gas station"));
}

#[test]
fn should_execute_search_transactions_with_amount_filter() {

    let mut service = TransactionService::new();
    service.add_transaction(
        Transaction::builder()
            .id("txn-1".to_string())
            .account_id("account-1".to_string())
            .category_id("shopping".to_string())
            .amount(Money::from_milliunits(-10000)) // $100.00
            .description("Large purchase".to_string())
            .build(),
    );
    service.add_transaction(
        Transaction::builder()
            .id("txn-2".to_string())
            .account_id("account-1".to_string())
            .category_id("misc".to_string())
            .amount(Money::from_milliunits(-1000)) // $10.00
            .description("Small purchase".to_string())
            .build(),
    );

    let handler = Handler::with_services(service);

    // Test with minimum amount filter (looking for amounts >= -5000 milliunits)
    let result = handler.execute_tool(
        "search_transactions",
        json(r#"{
            "min_amount_milliunits": -5000,
            "limit": 10
        }"#),
    );

    assert!(result.is_ok());
    let response = result.unwrap();
    // Should only include the "Small purchase" transaction (-1000 >= -5000)
    assert!(response.contains("Small purchase"));
    assert!(!response.contains("Large purchase"));
}

#[test]
fn should_execute_analyze_category_spending_tool() {
    let handler = Handler::new();

    let result = handler.execute_tool(
        "analyze_category_spending",
        json(r#"{
            "budget_id": "test-budget-123",
            "category_name": "Groceries"
        }"#),
    );

    assert!(result.is_ok());
    let response = result.unwrap();
    assert!(response.contains("category_spending"));
}

#[test]
fn should_return_error_for_unknown_tool() {
    let handler = Handler::new();

    let result = handler.execute_tool("unknown_tool", json(r#"{}"#));

    assert!(result.is_err());
}

#[test]
fn should_handle_list_tools_jsonrpc_request() {
    let handler = Handler::new();

    let jsonrpc_request = json(r#"{
        "jsonrpc": "2.0",
        "id": 1,
        "method": "tools/list",
        "params": {}
    }"#);

    let result = handler.handle_jsonrpc_request(jsonrpc_request);

    assert!(result.is_ok());
    let response = result.unwrap();
    assert_eq!(at(&response, &["jsonrpc"]).as_str(), Some("2.0"));
    assert_eq!(at(&response, &["id"]).as_i64(), Some(1));
    assert!(at(&response, &["result", "tools"]).as_array().is_some());
}

#[test]
fn should_handle_unknown_jsonrpc_method() {
    let handler = Handler::new();

    let jsonrpc_request = json(r#"{
        "jsonrpc": "2.0",
        "id": 1,
        "method": "unknown/method",
        "params": {}
    }"#);

    let result = handler.handle_jsonrpc_request(jsonrpc_request);

    assert!(result.is_ok());
    let response = result.unwrap();
    assert_eq!(at(&response, &["jsonrpc"]).as_str(), Some("2.0"));
    assert_eq!(at(&response, &["id"]).as_i64(), Some(1));
    assert_eq!(at(&response, &["error", "code"]).as_i64(), Some(-32601));
    assert_eq!(at(&response, &["error", "message"]).as_str(), Some("Method not found"));
}

#[test]
fn should_execute_get_budget_overview_tool() {
    let handler = Handler::new();

    let result = handler.execute_tool(
        "get_budget_overview",
        json(r#"{
            "budget_id": "test-budget-456"
        }"#),
    );

    assert!(result.is_ok());
    let response = result.unwrap();
    assert!(response.contains("budget_overview"));
}

#[test]
fn should_analyze_category_spending_with_real_domain_data() {

    // Create real domain objects
    let transaction1 = Transaction::builder()
        .id("txn1".to_string())
        .amount(Money::from_milliunits(-50_000)) // $50 expense
        .category_id("cat1".to_string())
        .account_id("acc1".to_string())
        .build();
    let transaction2 = Transaction::builder()
        .id("txn2".to_string())
        .amount(Money::from_milliunits(-75_000)) // $75 expense
        .category_id("cat1".to_string())
        .account_id("acc1".to_string())
        .build();

    let transaction_service =
        TransactionService::with_transactions(vec![transaction1, transaction2]);

    // Create handler with real services
    let handler = Handler::with_services(transaction_service);

    let result = handler.execute_tool(
        "analyze_category_spending",
        json(r#"{
            "category_id": "cat1",
            "category_name": "Groceries"
        }"#),
    );

    assert!(result.is_ok());
    let response = result.unwrap();
    let response_json = json(&response);

    // Should use actual calculated spending ($125 total)
    assert_eq!(at(&response_json, &["category_spending", "amount_milliunits"]).as_i64(), Some(125_000));
    assert_eq!(at(&response_json, &["category_spending", "transaction_count"]).as_i64(), Some(2));
    assert_eq!(at(&response_json, &["category_spending", "category"]).as_str(), Some("Groceries"));
}

#[test]
fn should_get_budget_overview_with_real_domain_data() {

    // Create transactions for multiple categories
    let groceries_txn = Transaction::builder()
        .id("txn1".to_string())
        .amount(Money::from_milliunits(-50_000)) // $50 groceries expense
        .category_id("groceries".to_string())
        .account_id("acc1".to_string())
        .build();
    let gas_txn = Transaction::builder()
        .id("txn2".to_string())
        .amount(Money::from_milliunits(-30_000)) // $30 gas expense
        .category_id("gas".to_string())
        .account_id("acc1".to_string())
        .build();
    let salary_txn = Transaction::builder()
        .id("txn3".to_string())
        .amount(Money::from_milliunits(3_000_000)) // $3000 salary income
        .category_id("salary".to_string())
        .account_id("acc1".to_string())
        .build();

    let transaction_service =
        TransactionService::with_transactions(vec![groceries_txn, gas_txn, salary_txn]);

    let handler = Handler::with_services(transaction_service);

    let result = handler.execute_tool(
        "get_budget_overview",
        json(r#"{
            "budget_id": "test-budget-789"
        }"#),
    );

    assert!(result.is_ok());
    let response = result.unwrap();
    let response_json = json(&response);

    // Should calculate real totals: $80 spent, net income $2920 ($3000 - $80)
    assert_eq!(at(&response_json, &["budget_overview", "total_expenses_milliunits"]).as_i64(), Some(80_000));
    assert_eq!(at(&response_json, &["budget_overview", "total_income_milliunits"]).as_i64(), Some(3_000_000));
    assert_eq!(at(&response_json, &["budget_overview", "net_income_milliunits"]).as_i64(), Some(2_920_000));
    assert_eq!(at(&response_json, &["budget_overview", "transaction_count"]).as_i64(), Some(3));
}

#[test]
fn should_execute_analyze_spending_trends_tool() {
    let handler = Handler::new();

    let result = handler.execute_tool(
        "analyze_spending_trends",
        json(r#"{
            "budget_id": "test-budget-123",
            "months": 6
        }"#),
    );

    assert!(result.is_ok());
    let response = result.unwrap();
    assert!(response.contains("spending_trends"));
}

#[test]
fn should_execute_analyze_spending_trends_with_api_client() {

    let ynab_client = YnabClient::new("valid-api-token".to_string());
    let handler = Handler::with_ynab_client(ynab_client);

    let result = handler.execute_tool(
        "analyze_spending_trends",
        json(r#"{
            "budget_id": "test-budget-123",
            "months": 3
        }"#),
    );

    assert!(result.is_ok());
    let response = result.unwrap();
    assert!(response.contains("ynab_api"));
    assert!(response.contains("months_analyzed"));
}

#[test]
fn should_execute_analyze_spending_trends_with_transaction_service() {

    let mut service = TransactionService::new();
    service.add_transaction(
        Transaction::builder()
            .id("txn-1".to_string())
            .account_id("account-1".to_string())
            .category_id("groceries".to_string())
            .amount(Money::from_milliunits(-5000))
            .description("January grocery".to_string())
            .build(),
    );
    service.add_transaction(
        Transaction::builder()
            .id("txn-2".to_string())
            .account_id("account-1".to_string())
            .category_id("groceries".to_string())
            .amount(Money::from_milliunits(-6000))
            .description("February grocery".to_string())
            .build(),
    );

    let handler = Handler::with_services(service);

    let result = handler.execute_tool(
        "analyze_spending_trends",
        json(r#"{
            "budget_id": "test-budget-123",
            "months": 2,
            "categories": ["groceries", "fuel"]
        }"#),
    );

    assert!(result.is_ok());
    let response = result.unwrap();
    assert!(response.contains("spending_trends"));
    assert!(response.contains("groceries"));
}

#[test]
fn should_execute_budget_health_check_tool() {
    let handler = Handler::new();

    let result = handler.execute_tool(
        "budget_health_check",
        json(r#"{
            "budget_id": "test-budget-123"
        }"#),
    );

    assert!(result.is_ok());
    let response = result.unwrap();
    assert!(response.contains("budget_health"));
}

#[test]
fn should_execute_budget_health_check_with_api_client() {

    let ynab_client = YnabClient::new("valid-api-token".to_string());
    let handler = Handler::with_ynab_client(ynab_client);

    let result = handler.execute_tool(
        "budget_health_check",
        json(r#"{
            "budget_id": "test-budget-123"
        }"#),
    );

    assert!(result.is_ok());
    let response = result.unwrap();
    assert!(response.contains("ynab_api"));
    assert!(response.contains("optimization_suggestions"));
}

#[test]
fn should_execute_search_transactions_with_no_service() {
    let handler = Handler::new(); // No transaction service

    let result = handler.execute_tool(
        "search_transactions",
        json(r#"{
            "text_search": "test"
        }"#),
    );

    assert!(result.is_ok());
    let response = result.unwrap();
    assert!(response.contains("\"transactions\":[]"));
    assert!(response.contains("\"count\":0"));
}

#[test]
fn should_handle_search_transactions_with_category_filter() {

    let mut service = TransactionService::new();
    service.add_transaction(
        Transaction::builder()
            .id("txn-1".to_string())
            .account_id("account-1".to_string())
            .category_id("groceries".to_string())
            .amount(Money::from_milliunits(-4000))
            .description("Grocery store".to_string())
            .build(),
    );
    service.add_transaction(
        Transaction::builder()
            .id("txn-2".to_string())
            .account_id("account-1".to_string())
            .category_id("fuel".to_string())
            .amount(Money::from_milliunits(-3000))
            .description("Gas station".to_string())
            .build(),
    );

    let handler = Handler::with_services(service);

    let result = handler.execute_tool(
        "search_transactions",
        json(r#"{
            "category_id": "groceries",
            "limit": 5
        }"#),
    );

    assert!(result.is_ok());
    let response = result.unwrap();
    assert!(response.contains("Grocery store"));
    assert!(!response.contains("Gas station"));
}

#[test]
fn should_execute_budget_health_check_with_transaction_service() {

    let mut service = TransactionService::new();
    // Add transactions that will trigger various health check conditions
    service.add_transaction(
        Transaction::builder()
            .id("txn-1".to_string())
            .account_id("account-1".to_string())
            .category_id("groceries".to_string())
            .amount(Money::from_milliunits(-20000)) // High grocery spending
            .description("Expensive grocery shop".to_string())
            .build(),
    );
    service.add_transaction(
        Transaction::builder()
            .id("txn-2".to_string())
            .account_id("account-1".to_string())
            .category_id("salary".to_string())
            .amount(Money::from_milliunits(5000000)) // Income
            .description("Monthly salary".to_string())
            .build(),
    );

    let handler = Handler::with_services(service);

    let result = handler.execute_tool(
        "budget_health_check",
        json(r#"{
            "budget_id": "test-budget-123"
        }"#),
    );

    assert!(result.is_ok());
    let response = result.unwrap();
    assert!(response.contains("budget_health"));
    assert!(response.contains("overall_score"));
    assert!(response.contains("optimization_suggestions"));
}

#[test]
fn should_handle_budget_health_check_with_negative_cash_flow() {

    let mut service = TransactionService::new();
    // Create scenario with negative cash flow
    service.add_transaction(
        Transaction::builder()
            .id("txn-1".to_string())
            .account_id("account-1".to_string())
            .category_id("rent".to_string())
            .amount(Money::from_milliunits(-300000)) // High rent expense
            .description("Monthly rent".to_string())
            .build(),
    );
    service.add_transaction(
        Transaction::builder()
            .id("txn-2".to_string())
            .account_id("account-1".to_string())
            .category_id("salary".to_string())
            .amount(Money::from_milliunits(250000)) // Lower income than expenses
            .description("Part-time salary".to_string())
            .build(),
    );

    let handler = Handler::with_services(service);

    let result = handler.execute_tool(
        "budget_health_check",
        json(r#"{
            "budget_id": "test-budget-123"
        }"#),
    );

    assert!(result.is_ok());
    let response = result.unwrap();
    assert!(response.contains("Reduce expenses to achieve positive cash flow"));
}

// errors

#[test]
fn should_create_invalid_budget_id_error() {
    let error = YnabError::invalid_budget_id("invalid-id");

    assert_eq!(error, YnabError::InvalidBudgetId("invalid-id".to_string()));
    assert_eq!(error.to_string(), "Invalid budget ID: invalid-id");
}

#[test]
fn should_create_category_not_found_error() {
    let error = YnabError::category_not_found("cat-123");

    assert_eq!(error, YnabError::CategoryNotFound("cat-123".to_string()));
    assert_eq!(error.to_string(), "Category not found: cat-123");
}

#[test]
fn should_create_account_not_found_error() {
    let error = YnabError::account_not_found("acc-456");

    assert_eq!(error, YnabError::AccountNotFound("acc-456".to_string()));
    assert_eq!(error.to_string(), "Account not found: acc-456");
}

#[test]
fn should_create_payee_not_found_error() {
    let error = YnabError::payee_not_found("payee-789");

    assert_eq!(error, YnabError::PayeeNotFound("payee-789".to_string()));
    assert_eq!(error.to_string(), "Payee not found: payee-789");
}

#[test]
fn should_create_invalid_amount_error() {
    let error = YnabError::invalid_amount("Amount cannot be zero");

    assert_eq!(error, YnabError::InvalidAmount("Amount cannot be zero".to_string()));
    assert_eq!(error.to_string(), "Invalid money amount: Amount cannot be zero");
}

#[test]
fn should_create_invalid_date_error() {
    let error = YnabError::invalid_date("2024-13-45");

    assert_eq!(error, YnabError::InvalidDate("2024-13-45".to_string()));
    assert_eq!(error.to_string(), "Invalid date format: 2024-13-45");
}

#[test]
fn should_create_api_error() {
    let error = YnabError::api_error("Connection timeout");

    assert!(matches!(error, YnabError::ApiError(_)));
    assert!(error.to_string().contains("Connection timeout"));
}

#[test]
fn should_support_ynab_result_type() {
    let success: ynab_mcp::YnabResult<i32> = Ok(42);
    let failure: ynab_mcp::YnabResult<i32> = Err(YnabError::invalid_budget_id("test"));

    assert!(success.is_ok());
    assert!(failure.is_err());
}

#[test]
fn should_create_transaction_not_found_error() {
    let error = YnabError::transaction_not_found("txn-123");

    assert_eq!(error, YnabError::TransactionNotFound("txn-123".to_string()));
    assert_eq!(error.to_string(), "Transaction not found: txn-123");
}

#[test]
fn should_handle_reqwest_error_conversion() {
    let api_error = YnabError::api_error("Connection failed");
    assert!(matches!(api_error, YnabError::ApiError(_)));
}

#[test]
fn should_display_error_messages_correctly() {
    let budget_error = YnabError::invalid_budget_id("test-123");
    let category_error = YnabError::category_not_found("cat-456");
    let amount_error = YnabError::invalid_amount("Cannot be negative");

    assert_eq!(budget_error.to_string(), "Invalid budget ID: test-123");
    assert_eq!(category_error.to_string(), "Category not found: cat-456");
    assert_eq!(amount_error.to_string(), "Invalid money amount: Cannot be negative");
}

#[test]
fn io_and_http_errors_render_their_cause() {
    assert_eq!(YnabError::IoError("eof".to_string()).to_string(), "IO operation failed: eof");
    assert_eq!(YnabError::HttpApiError("timeout".to_string()).to_string(), "API request failed: timeout");
}

// service client settings

#[test]
fn should_create_ynab_client_with_api_token() {
    let client = YnabClient::new("test-api-token".to_string());

    assert_eq!(client.api_token(), "test-api-token");
    assert_eq!(client.base_url(), "https://api.ynab.com/v1");
}

#[test]
fn should_create_ynab_client_with_custom_base_url() {
    let client = YnabClient::new_with_base_url(
        "test-token".to_string(),
        "http://localhost:8080".to_string(),
    );

    assert_eq!(client.api_token(), "test-token");
    assert_eq!(client.base_url(), "http://localhost:8080");
}

#[test]
fn should_validate_non_empty_api_token() {
    let client = YnabClient::new("valid-token".to_string());

    let result = client.validate_token();
    assert!(result.is_ok());
}

#[test]
fn should_reject_empty_api_token() {
    let client = YnabClient::new("".to_string());

    let result = client.validate_token();
    assert!(result.is_err());
    assert!(matches!(result.unwrap_err(), YnabError::InvalidBudgetId(_)));
}

#[test]
fn should_reject_whitespace_only_api_token() {
    let client = YnabClient::new("   ".to_string());

    let result = client.validate_token();
    assert!(result.is_err());
}

#[test]
fn should_support_clone() {
    let client = YnabClient::new("test-token".to_string());
    let cloned_client = client.clone();

    assert_eq!(client.api_token(), cloned_client.api_token());
    assert_eq!(client.base_url(), cloned_client.base_url());
}

#[test]
fn client_builds_urls_and_authorization() {
    let client = YnabClient::new_with_base_url("tok".to_string(), "https://test-api.example.com/v1".to_string());
    assert_eq!(client.url_for("/budgets"), "https://test-api.example.com/v1/budgets");
    assert_eq!(client.authorization(), "Bearer tok");
}

// response mapping

#[test]
fn should_create_response_mapper() {
    let mapper = ResponseMapper::new();
    assert!(format!("{:?}", mapper).contains("ResponseMapper"));
}

#[test]
fn should_map_budget_from_json() {
    let mapper = ResponseMapper::new();
    let value = json(r#"{"id": "budget-123", "name": "My Personal Budget"}"#);

    let budget: Budget = mapper.map_budget(&value).unwrap();

    assert_eq!(budget.id(), "budget-123");
    assert_eq!(budget.name(), "My Personal Budget");
}

#[test]
fn should_handle_missing_budget_fields() {
    let mapper = ResponseMapper::new();
    let value = json(r#"{}"#);

    let budget = mapper.map_budget(&value).unwrap();

    assert_eq!(budget.id(), "");
    assert_eq!(budget.name(), "");
}

#[test]
fn should_map_category_from_json() {
    let mapper = ResponseMapper::new();
    let value = json(r#"{"id": "category-456", "name": "Groceries", "category_group_id": "group-123"}"#);

    let category: Category = mapper.map_category(&value).unwrap();

    assert_eq!(category.id(), "category-456");
    assert_eq!(category.name(), "Groceries");
    assert_eq!(category.group_id(), Some("group-123"));
}

#[test]
fn should_map_transaction_from_json() {
    let mapper = ResponseMapper::new();
    let value = json(
        r#"{
            "id": "trans-789",
            "account_id": "account-123",
            "category_id": "category-456",
            "payee_id": "payee-789",
            "amount": -50000,
            "date": "2024-01-15",
            "memo": "Grocery shopping"
        }"#,
    );

    let transaction = mapper.map_transaction(&value).unwrap();

    assert_eq!(transaction.id(), "trans-789");
    assert_eq!(transaction.account_id(), "account-123");
    assert_eq!(transaction.category_id(), "category-456");
    assert_eq!(transaction.payee_id(), Some("payee-789"));
    assert_eq!(transaction.amount(), Money::from_milliunits(-50000));
    assert_eq!(transaction.date(), Some("2024-01-15"));
    assert_eq!(transaction.description(), Some("Grocery shopping"));
}

#[test]
fn should_map_multiple_transactions_from_api_response() {
    let mapper = ResponseMapper::new();
    let value = json(
        r#"{
            "data": {
                "transactions": [
                    {
                        "id": "trans-1",
                        "account_id": "account-123",
                        "category_id": "category-456",
                        "amount": -25000,
                        "date": "2024-01-15",
                        "memo": "Grocery store"
                    },
                    {
                        "id": "trans-2",
                        "account_id": "account-456",
                        "category_id": "category-789",
                        "amount": -15000,
                        "date": "2024-01-16"
                    }
                ]
            }
        }"#,
    );

    let transactions = mapper.map_transactions_from_response(&value).unwrap();

    assert_eq!(transactions.len(), 2);
    assert_eq!(transactions[0].id(), "trans-1");
    assert_eq!(transactions[0].amount(), Money::from_milliunits(-25000));
    assert_eq!(transactions[1].id(), "trans-2");
    assert_eq!(transactions[1].amount(), Money::from_milliunits(-15000));
}

#[test]
fn should_handle_invalid_transactions_response_format() {
    let mapper = ResponseMapper::new();
    let value = json(r#"{"data": {"invalid_field": "not transactions"}}"#);

    let result = mapper.map_transactions_from_response(&value);
    assert!(result.is_err());

    if let Err(YnabError::ApiError(msg)) = result {
        assert_eq!(msg, "Invalid transactions response format");
    } else {
        panic!("Expected ApiError");
    }
}

// properties and scenarios of the query engine and the tools

fn tx(id: &str, category: &str, amount: i64) -> Transaction {
    Transaction::new(id.to_string(), "acc".to_string(), category.to_string(), Money::from_milliunits(amount))
}

fn dated(id: &str, amount: i64, date: Option<&str>) -> Transaction {
    let b = Transaction::builder()
        .id(id.to_string())
        .account_id("acc".to_string())
        .category_id("c".to_string())
        .amount(Money::from_milliunits(amount));
    match date {
        Some(d) => b.date(d.to_string()).build(),
        None => b.build(),
    }
}

#[test]
fn category_filter_scenario_reports_spend_total() {
    let txs = vec![tx("1", "groceries", -5000), tx("2", "groceries", -3000), tx("3", "gas", -4000)];
    let query = TransactionQuery::new().with_categories(vec!["groceries".to_string()]);
    let found: Vec<i64> = query.filter(&txs).iter().map(|t| t.amount().as_milliunits()).collect();
    assert_eq!(found, vec![-5000, -3000]);

    let handler = Handler::with_services(TransactionService::with_transactions(txs));
    let response = handler
        .execute_tool("analyze_category_spending", json(r#"{"category_id": "groceries", "category_name": "Groceries"}"#))
        .unwrap();
    let value = json(&response);
    assert_eq!(at(&value, &["category_spending", "amount_milliunits"]).as_i64(), Some(8000));
    assert_eq!(at(&value, &["category_spending", "transaction_count"]).as_i64(), Some(2));
}

#[test]
fn amount_range_scenario_keeps_only_inner_amount() {
    let txs = vec![tx("1", "a", -5000), tx("2", "a", -15000), tx("3", "b", 100000)];
    let query = TransactionQuery::new()
        .with_amount_range(Money::from_milliunits(-10000), Money::from_milliunits(-1000));
    let found: Vec<i64> = query.filter(&txs).iter().map(|t| t.amount().as_milliunits()).collect();
    assert_eq!(found, vec![-5000]);
}

#[test]
fn unfiltered_query_returns_input_in_order() {
    let txs = vec![tx("1", "a", 3), tx("2", "b", -1), tx("3", "a", 2)];
    let found: Vec<&str> = TransactionQuery::new().filter(&txs).iter().map(|t| t.id()).collect();
    assert_eq!(found, vec!["1", "2", "3"]);
    assert!(TransactionQuery::new().filter(&[]).is_empty());
}

#[test]
fn amount_sorts_are_stable() {
    let txs = vec![tx("a", "c", 5), tx("b", "c", 1), tx("c", "c", 5), tx("d", "c", 1), tx("e", "c", 3)];
    let asc: Vec<&str> = TransactionQuery::new().sort_by_amount_ascending().filter(&txs).iter().map(|t| t.id()).collect();
    assert_eq!(asc, vec!["b", "d", "e", "a", "c"]);
    let desc: Vec<&str> = TransactionQuery::new().sort_by_amount_descending().filter(&txs).iter().map(|t| t.id()).collect();
    assert_eq!(desc, vec!["a", "c", "e", "b", "d"]);
}

#[test]
fn date_sort_puts_dated_first_and_keeps_undated_order() {
    let txs = vec![
        dated("u1", 1, None),
        dated("d2", 1, Some("2024-02-01")),
        dated("u2", 1, None),
        dated("d1", 1, Some("2024-01-31")),
        dated("d3", 1, Some("2024-02-01")),
    ];
    let ids: Vec<&str> = TransactionQuery::new().sort_by_date().filter(&txs).iter().map(|t| t.id()).collect();
    assert_eq!(ids, vec!["d1", "d2", "d3", "u1", "u2"]);
}

#[test]
fn text_filter_excludes_missing_descriptions_and_ignores_case() {
    let txs = vec![
        Transaction::new_with_description("1".to_string(), "a".to_string(), "c".to_string(), Money::from_milliunits(1), "Coffee SHOP".to_string()),
        tx("2", "c", 1),
    ];
    let ids: Vec<&str> = TransactionQuery::new().with_text_search("shop".to_string()).filter(&txs).iter().map(|t| t.id()).collect();
    assert_eq!(ids, vec!["1"]);
    let all: Vec<&str> = TransactionQuery::new().with_text_search("".to_string()).filter(&txs).iter().map(|t| t.id()).collect();
    assert_eq!(all, vec!["1"]);
}

#[test]
fn overview_splits_on_sign_with_zero_as_income() {
    let txs = vec![tx("1", "a", -50_000), tx("2", "b", 0), tx("3", "c", 1_000)];
    let handler = Handler::with_services(TransactionService::with_transactions(txs));
    let value = json(&handler.execute_tool("get_budget_overview", json("{}")).unwrap());
    assert_eq!(at(&value, &["budget_overview", "total_expenses_milliunits"]).as_i64(), Some(50_000));
    assert_eq!(at(&value, &["budget_overview", "total_income_milliunits"]).as_i64(), Some(1_000));
    assert_eq!(at(&value, &["budget_overview", "net_income_milliunits"]).as_i64(), Some(-49_000));
}

#[test]
fn overview_reports_out_of_range_totals() {
    let txs = vec![tx("1", "a", i64::MIN), tx("2", "a", i64::MIN)];
    let handler = Handler::with_services(TransactionService::with_transactions(txs));
    let err = handler.execute_tool("get_budget_overview", json("{}")).unwrap_err();
    assert_eq!(err, YnabError::InvalidAmount("total out of range".to_string()));
}

#[test]
fn health_check_scores_and_flags_categories() {
    let txs = vec![
        tx("1", "rent", -90_000),
        tx("2", "food", -5_000),
        tx("3", "fun", -5_000),
        tx("4", "salary", 200_000),
    ];
    let handler = Handler::with_services(TransactionService::with_transactions(txs));
    let value = json(&handler.execute_tool("budget_health_check", json("{}")).unwrap());
    // net 100000 of income 200000: a savings rate of 50%.
    assert_eq!(at(&value, &["budget_health", "spending_efficiency", "savings_rate_percentage"]).as_i64(), Some(50));
    assert_eq!(at(&value, &["budget_health", "overall_score"]).as_i64(), Some(94));
    let risk = at(&value, &["budget_health", "risk_categories"]).as_array().unwrap();
    assert_eq!(risk, &vec![Json::Str("rent".to_string())]);
    let suggestions = at(&value, &["budget_health", "optimization_suggestions"]).as_array().unwrap();
    assert_eq!(suggestions, &vec![Json::Str("Consider reducing spending in rent category".to_string())]);
    assert_eq!(at(&value, &["budget_health", "category_analysis", "food"]).as_i64(), Some(5_000));
}

#[test]
fn health_check_without_income_has_zero_rate() {
    let txs = vec![tx("1", "rent", -10_000)];
    let handler = Handler::with_services(TransactionService::with_transactions(txs));
    let value = json(&handler.execute_tool("budget_health_check", json("{}")).unwrap());
    assert_eq!(at(&value, &["budget_health", "spending_efficiency", "savings_rate_percentage"]).as_i64(), Some(0));
    assert_eq!(at(&value, &["budget_health", "overall_score"]).as_i64(), Some(50));
}

#[test]
fn trends_bucket_by_month_of_date() {
    let mut a = dated("1", -1_000, Some("2024-01-05"));
    a.category_id = "groceries".to_string();
    let mut b = dated("2", -3_000, Some("2024-02-10"));
    b.category_id = "groceries".to_string();
    let mut c = dated("3", -2_000, Some("2024-01-20"));
    c.category_id = "fuel".to_string();
    let d = dated("4", -7_000, None);
    let handler = Handler::with_services(TransactionService::with_transactions(vec![a, b, c, d]));
    let value = json(&handler.execute_tool("analyze_spending_trends", json(r#"{"categories": ["groceries", "fuel"]}"#)).unwrap());
    let months = at(&value, &["spending_trends", "monthly_data"]).as_array().unwrap();
    assert_eq!(months.len(), 2);
    assert_eq!(at(&months[0], &["month"]).as_str(), Some("2024-01"));
    assert_eq!(at(&months[0], &["amount_milliunits"]).as_i64(), Some(3_000));
    assert_eq!(at(&months[1], &["amount_milliunits"]).as_i64(), Some(3_000));
    assert_eq!(at(&value, &["spending_trends", "trend_analysis", "average_monthly_spending"]).as_i64(), Some(3_000));
    assert_eq!(at(&value, &["spending_trends", "category_totals", "groceries"]).as_i64(), Some(4_000));
    assert_eq!(at(&value, &["spending_trends", "months_requested"]).as_i64(), Some(3));
}

#[test]
fn search_limit_and_json_round_trip() {
    let txs = vec![tx("1", "a", -1), tx("2", "a", -2), tx("3", "a", -3)];
    let handler = Handler::with_services(TransactionService::with_transactions(txs));
    let value = json(&handler.execute_tool("search_transactions", json(r#"{"limit": 2}"#)).unwrap());
    assert_eq!(at(&value, &["count"]).as_i64(), Some(2));
    assert_eq!(at(&value, &["limited"]), &Json::Bool(true));
    let items = at(&value, &["transactions"]).as_array().unwrap();
    assert_eq!(at(&items[1], &["id"]).as_str(), Some("2"));
    assert_eq!(json(r#"{"b":[1,"x",null,true],"a":-2}"#).to_text(), r#"{"a":-2,"b":[1,"x",null,true]}"#);
}

#[test]
fn cache_entry_expires_after_its_ttl() {
    let entry = ynab_mcp::cache::CacheEntry::new(1_000, 300);
    assert!(!entry.is_expired(1_000));
    assert!(!entry.is_expired(1_300));
    assert!(entry.is_expired(1_301));
    assert!(!entry.is_expired(10));
}

#[test]
fn health_check_compares_spend_with_exact_mean() {
    // Spends 5, 2 and 1: twice the mean is 16/3, above 5, so nothing is flagged.
    let txs = vec![tx("1", "a", -5), tx("2", "b", -2), tx("3", "c", -1)];
    let handler = Handler::with_services(TransactionService::with_transactions(txs));
    let value = json(&handler.execute_tool("budget_health_check", json("{}")).unwrap());
    assert_eq!(at(&value, &["budget_health", "risk_categories"]).as_array().unwrap().len(), 0);
    // Spends 6, 1 and 1: twice the mean is 16/3, below 6.
    let txs = vec![tx("1", "a", -6), tx("2", "b", -1), tx("3", "c", -1)];
    let handler = Handler::with_services(TransactionService::with_transactions(txs));
    let value = json(&handler.execute_tool("budget_health_check", json("{}")).unwrap());
    assert_eq!(
        at(&value, &["budget_health", "risk_categories"]).as_array().unwrap(),
        &vec![Json::Str("a".to_string())]
    );
}

#[test]
fn trends_break_each_month_down_by_category() {
    let mut a = dated("1", -1_000, Some("2024-01-05"));
    a.category_id = "groceries".to_string();
    let mut b = dated("2", -2_000, Some("2024-01-20"));
    b.category_id = "fuel".to_string();
    let mut c = dated("3", -500, Some("2024-01-21"));
    c.category_id = "groceries".to_string();
    let handler = Handler::with_services(TransactionService::with_transactions(vec![a, b, c]));
    let value = json(&handler.execute_tool("analyze_spending_trends", json("{}")).unwrap());
    let months = at(&value, &["spending_trends", "monthly_data"]).as_array().unwrap();
    assert_eq!(months.len(), 1);
    assert_eq!(at(&months[0], &["categories", "groceries", "amount_milliunits"]).as_i64(), Some(1_500));
    assert_eq!(at(&months[0], &["categories", "groceries", "transaction_count"]).as_i64(), Some(2));
    assert_eq!(at(&months[0], &["categories", "fuel", "amount_milliunits"]).as_i64(), Some(2_000));
}

#[test]
fn placeholder_reports_keep_their_fields() {
    let value = json(&Handler::new().execute_tool("budget_health_check", json("{}")).unwrap());
    assert_eq!(at(&value, &["budget_health", "optimization_suggestions"]).as_array().unwrap().len(), 3);
    assert_eq!(at(&value, &["budget_health", "spending_efficiency", "expense_to_income_ratio"]).as_i64(), Some(85));
    let value = json(&Handler::new().execute_tool("analyze_spending_trends", json("{}")).unwrap());
    assert_eq!(
        at(&value, &["spending_trends", "monthly_data"]).as_array().unwrap()[0]
            .get("categories").unwrap().get("entertainment").unwrap().get("transaction_count"),
        Some(&Json::Int(3))
    );
    let client = Handler::with_ynab_client(YnabClient::new("tok".to_string()));
    let value = json(&client.execute_tool("budget_health_check", json(r#"{"budget_id": "b"}"#)).unwrap());
    assert_eq!(at(&value, &["budget_health", "category_breakdown", "healthy_categories"]).as_i64(), Some(8));
    assert_eq!(at(&value, &["budget_health", "budget_id"]).as_str(), Some("b"));
    let value = json(&client.execute_tool("analyze_spending_trends", json("{}")).unwrap());
    assert_eq!(at(&value, &["spending_trends", "trend_analysis", "largest_decline_category"]).as_str(), Some("dining"));
    assert_eq!(at(&value, &["spending_trends", "monthly_data"]).as_array().unwrap().len(), 2);
}

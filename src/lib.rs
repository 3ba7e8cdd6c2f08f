//! Budget analysis tool server: message framing, JSON-RPC envelopes, tool
//! dispatch and a transaction query engine, with their contracts proved.

pub mod account;
pub mod aggregate;
pub mod budget;
pub mod cache;
pub mod category;
pub mod category_group;
pub mod date_range;
pub mod error;
pub mod handler;
pub mod json;
pub mod jsonrpc;
pub mod mcp_protocol;
pub mod money;
pub mod payee;
pub mod response_mapper;
pub mod text;
pub mod transaction;
pub mod transaction_query;
pub mod transaction_service;
pub mod transport;
pub mod ynab_client;

pub use account::{Account, AccountType};
pub use budget::Budget;
pub use category::Category;
pub use category_group::CategoryGroup;
pub use date_range::DateRange;
pub use error::{YnabError, YnabResult};
pub use money::Money;
pub use payee::Payee;
pub use transaction::{Transaction, TransactionBuilder};
pub use transaction_query::{SortBy, TransactionQuery};
pub use transaction_service::TransactionService;
pub use ynab_client::YnabClient;
pub use handler::{Handler, Tool};
pub use response_mapper::ResponseMapper;
pub use json::Json;
pub use jsonrpc::{JsonRpcError, JsonRpcRequest, JsonRpcResponse};
pub use mcp_protocol::{McpServer, SessionAction, SessionEvent};
pub use transport::{read_message, write_message};

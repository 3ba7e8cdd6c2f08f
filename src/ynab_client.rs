//! Settings of the budgeting service's client: its credential and address.
//! The HTTP calls themselves are made by the application around the library.

use vstd::prelude::*;
use vstd::string::*;
use crate::error::{YnabError, YnabResult};
use crate::text::{concat, trim, trim_of};

verus! {

/// The address of the budgeting service's API.
pub open spec fn default_base_url() -> Seq<char> {
    "https://api.ynab.com/v1"@
}

/// The credential and the address of the budgeting service.
#[derive(Debug, Clone)]
pub struct YnabClient {
    pub api_token: String,
    pub base_url: String,
}

impl YnabClient {
    /// A client of the public service.
    pub fn new(api_token: String) -> (r: YnabClient)
        ensures
            r.api_token == api_token,
            r.base_url@ == default_base_url(),
    {
        YnabClient { api_token, base_url: String::from_str("https://api.ynab.com/v1") }
    }

    /// A client of the service at `base_url`.
    pub fn new_with_base_url(api_token: String, base_url: String) -> (r: YnabClient)
        ensures
            r == (YnabClient { api_token, base_url }),
    {
        YnabClient { api_token, base_url }
    }

    /// The credential.
    pub fn api_token(&self) -> (r: &str)
        ensures
            r@ == self.api_token@,
    {
        self.api_token.as_str()
    }

    /// The address of the service.
    pub fn base_url(&self) -> (r: &str)
        ensures
            r@ == self.base_url@,
    {
        self.base_url.as_str()
    }

    /// Fails when the credential is empty or only whitespace.
    pub fn validate_token(&self) -> (r: YnabResult<()>)
        ensures
            trim_of(self.api_token@).len() == 0 ==> (r matches Err(YnabError::InvalidBudgetId(m))
                && m@ == "API token cannot be empty"@),
            trim_of(self.api_token@).len() != 0 ==> r is Ok,
    {
        if trim(self.api_token.as_str()).is_empty() {
            return Err(YnabError::invalid_budget_id("API token cannot be empty"));
        }
        Ok(())
    }

    /// The address of the resource at `path`.
    pub fn url_for(&self, path: &str) -> (r: String)
        ensures
            r@ == self.base_url@ + path@,
    {
        concat(self.base_url.as_str(), path)
    }

    /// The value of the `Authorization` header.
    pub fn authorization(&self) -> (r: String)
        ensures
            r@ == "Bearer "@ + self.api_token@,
    {
        concat("Bearer ", self.api_token.as_str())
    }
}

} // verus!

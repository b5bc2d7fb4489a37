//! Credentials in one flat record.
use vstd::prelude::*;

verus! {

/// Every kind of credential the tool knows, each optional.
#[derive(Debug, Clone)]
pub struct Credentials {
    pub username: Option<String>,
    pub password: Option<String>,
    pub bearer_token: Option<String>,
    pub api_key_header: Option<String>,
    pub api_key_value: Option<String>,
}

} // verus!

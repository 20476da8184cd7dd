//! Credentials read from the environment, and whether they configure any
//! source at all.
use vstd::prelude::*;

verus! {

/// API credentials; each is absent when not configured.
#[derive(Debug, Clone)]
pub struct ApiKeys {
    pub marketaux_key: Option<String>,
    pub reddit_client_id: Option<String>,
    pub reddit_client_secret: Option<String>,
}

impl ApiKeys {
    /// Whether a credential configures at least one source: a MarketAux key
    /// or a Reddit client id.
    pub fn any_configured(&self) -> (r: bool)
        ensures
            r == (self.marketaux_key is Some || self.reddit_client_id is Some),
    {
        self.marketaux_key.is_some() || self.reddit_client_id.is_some()
    }

    /// The keys, or the startup error where none configures a source.
    pub fn validate(self) -> (r: Result<ApiKeys, String>)
        ensures
            r is Ok <==> (self.marketaux_key is Some || self.reddit_client_id is Some),
            r matches Ok(k) ==> k == self,
            r matches Err(e) ==> e@ == "No API credentials found! Please set environment variables.\nSee .env.example for instructions."@,
    {
        if self.any_configured() {
            Ok(self)
        } else {
            Err("No API credentials found! Please set environment variables.\nSee .env.example for instructions.".to_string())
        }
    }
}

} // verus!

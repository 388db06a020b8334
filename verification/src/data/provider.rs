//! What can go wrong fetching from a provider, and how each failure reads.

use vstd::prelude::*;

use crate::text::{decimal, decimal_of, push_str};

verus! {

broadcast use vstd::string::group_string_axioms;

/// A provider failure.
#[derive(Debug, Clone)]
pub enum ProviderError {
    Network(String),
    Parse(String),
    NotFound(String),
    RateLimited { provider: String, retry_after_secs: u64 },
    Unavailable(String),
}

/// The message of a provider failure.
pub open spec fn provider_msg(e: ProviderError) -> Seq<char> {
    match e {
        ProviderError::Network(m) => "network error: "@ + m@,
        ProviderError::Parse(m) => "could not parse response: "@ + m@,
        ProviderError::NotFound(s) => "symbol not found: "@ + s@,
        ProviderError::RateLimited { provider, retry_after_secs } => "rate limited by "@ + provider@
            + ", retry after "@ + decimal(retry_after_secs as nat) + "s"@,
        ProviderError::Unavailable(m) => "provider unavailable: "@ + m@,
    }
}

impl ProviderError {
    /// How the failure reads to a user.
    pub fn message(&self) -> (m: String)
        ensures
            m@ == provider_msg(*self),
    {
        match self {
            ProviderError::Network(e) => {
                let mut m = "network error: ".to_string();
                push_str(&mut m, e.as_str());
                m
            },
            ProviderError::Parse(e) => {
                let mut m = "could not parse response: ".to_string();
                push_str(&mut m, e.as_str());
                m
            },
            ProviderError::NotFound(s) => {
                let mut m = "symbol not found: ".to_string();
                push_str(&mut m, s.as_str());
                m
            },
            ProviderError::RateLimited { provider, retry_after_secs } => {
                let mut m = "rate limited by ".to_string();
                push_str(&mut m, provider.as_str());
                push_str(&mut m, ", retry after ");
                let d = decimal_of(*retry_after_secs);
                push_str(&mut m, d.as_str());
                push_str(&mut m, "s");
                m
            },
            ProviderError::Unavailable(e) => {
                let mut m = "provider unavailable: ".to_string();
                push_str(&mut m, e.as_str());
                m
            },
        }
    }
}

} // verus!

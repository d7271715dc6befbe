//! The service's error taxonomy.
//!
//! `ValidationError` is user-visible and never retried; the upstream failures
//! (`ExternalApiError`, `PriceOracleError`) surface as service-unavailable;
//! `DatabaseError` belongs to the storage collaborator.

use vstd::prelude::*;
use vstd::string::StringExecFns;

verus! {

#[derive(Debug)]
pub enum ApiError {
    DatabaseError(String),
    ExternalApiError(String),
    ValidationError(String),
    PriceOracleError(String),
    NotFound(String),
}

impl ApiError {
    /// The display text of the error: a category prefix, then the detail.
    pub open spec fn spec_message(&self) -> Seq<char> {
        match self {
            ApiError::DatabaseError(m) => "Database error: "@ + m@,
            ApiError::ExternalApiError(m) => "External API error: "@ + m@,
            ApiError::ValidationError(m) => "Validation error: "@ + m@,
            ApiError::PriceOracleError(m) => "Price oracle error: "@ + m@,
            ApiError::NotFound(m) => "Not found: "@ + m@,
        }
    }

    /// Writes the error the way it is reported to callers.
    pub fn message(&self) -> (r: String)
        ensures
            r@ == self.spec_message(),
    {
        match self {
            ApiError::DatabaseError(m) => {
                let mut s = "Database error: ".to_owned();
                s.append(m.as_str());
                s
            },
            ApiError::ExternalApiError(m) => {
                let mut s = "External API error: ".to_owned();
                s.append(m.as_str());
                s
            },
            ApiError::ValidationError(m) => {
                let mut s = "Validation error: ".to_owned();
                s.append(m.as_str());
                s
            },
            ApiError::PriceOracleError(m) => {
                let mut s = "Price oracle error: ".to_owned();
                s.append(m.as_str());
                s
            },
            ApiError::NotFound(m) => {
                let mut s = "Not found: ".to_owned();
                s.append(m.as_str());
                s
            },
        }
    }
}

pub type ApiResult<T> = Result<T, ApiError>;

/// Failures of the UTXO-explorer wallet collaborator.
#[derive(Debug)]
pub enum MutinyWalletError {
    NetworkError(String),
    ParseError(String),
    ApiError(String),
}

impl MutinyWalletError {
    /// The display text of the error: a category prefix, then the detail.
    pub open spec fn spec_message(&self) -> Seq<char> {
        match self {
            MutinyWalletError::NetworkError(m) => "Network error: "@ + m@,
            MutinyWalletError::ParseError(m) => "Parse error: "@ + m@,
            MutinyWalletError::ApiError(m) => "API error: "@ + m@,
        }
    }

    /// Writes the error the way it is reported to callers.
    pub fn message(&self) -> (r: String)
        ensures
            r@ == self.spec_message(),
    {
        match self {
            MutinyWalletError::NetworkError(m) => {
                let mut s = "Network error: ".to_owned();
                s.append(m.as_str());
                s
            },
            MutinyWalletError::ParseError(m) => {
                let mut s = "Parse error: ".to_owned();
                s.append(m.as_str());
                s
            },
            MutinyWalletError::ApiError(m) => {
                let mut s = "API error: ".to_owned();
                s.append(m.as_str());
                s
            },
        }
    }
}

} // verus!

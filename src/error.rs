//! The library's error taxonomy.
use vstd::prelude::*;

verus! {

/// A JSON syntax or type error reported by `serde_json`.
#[verifier::external_type_specification]
#[verifier::external_body]
pub struct ExJsonError(serde_json::Error);

/// A transport error reported by `reqwest`.
#[verifier::external_type_specification]
#[verifier::external_body]
pub struct ExHttpError(reqwest::Error);

/// Errors that can occur when fetching player statistics and news.
#[derive(Debug)]
pub enum StatbookError {
    /// A required API key was not supplied.
    MissingApiKey { key: String },
    /// The statistics service knows no player by this identifier.
    PlayerNotFound { name: String },
    /// The request could not be sent or its response not read.
    Network(reqwest::Error),
    /// A payload was not valid JSON, or did not have the expected shape.
    JsonParse(serde_json::Error),
    /// The statistics service answered with a non-success status.
    StatsApi { status: u16, message: String },
    /// The news service answered with a non-success status.
    NewsApi { status: u16, message: String },
    /// The configuration could not be used.
    Config(String),
    /// A configuration value failed validation.
    Validation(String),
}

impl StatbookError {
    /// A validation failure with message `m`.
    pub open spec fn is_validation(&self, m: Seq<char>) -> bool {
        self matches StatbookError::Validation(x) && x@ == m
    }

    /// A missing-key failure naming `key`.
    pub open spec fn is_missing_key(&self, key: Seq<char>) -> bool {
        self matches StatbookError::MissingApiKey { key: k } && k@ == key
    }

    /// A not-found failure naming `name`.
    pub open spec fn is_not_found(&self, name: Seq<char>) -> bool {
        self matches StatbookError::PlayerNotFound { name: n } && n@ == name
    }

    /// A statistics service failure with this status and message.
    pub open spec fn is_stats_api(&self, status: u16, message: Seq<char>) -> bool {
        self matches StatbookError::StatsApi { status: s, message: m } && s == status && m@ == message
    }

    /// A news service failure with this status and message.
    pub open spec fn is_news_api(&self, status: u16, message: Seq<char>) -> bool {
        self matches StatbookError::NewsApi { status: s, message: m } && s == status && m@ == message
    }
}

} // verus!

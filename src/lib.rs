//! Player statistics and news aggregation.
//!
//! The library decides what a player lookup fetches, builds the requests for the
//! statistics and news services, decodes their JSON payloads into flat records, and
//! merges the two outcomes under a partial-failure policy. Sending requests and
//! running the two fetches concurrently is left to the caller.
pub mod config;
pub mod decode;
pub mod error;
pub mod json;
pub mod lookup;
pub mod mock;
pub mod models;
pub mod remote;
pub mod text;

pub use config::{NewsConfig, SortBy, StatbookConfig, StatbookConfigBuilder};
pub use decode::{articles_from_body, decode_articles, decode_player_stats, stats_from_body};
pub use error::StatbookError;
pub use lookup::{plan_lookup, summarize, FetchPlan};
pub use mock::{MockNewsProvider, MockStatsProvider};
pub use models::{
    season_label, Article, FetchStrategy, NewsQuery, PlayerNews, PlayerStats, PlayerSummary,
    PlayerSummaryResult, Season,
};
pub use remote::{news_request, news_response, stats_request, stats_response, HttpRequest};
pub use text::{collapse_whitespace, to_dash_case};

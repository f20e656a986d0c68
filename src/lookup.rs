//! What a player lookup fetches, and how the fetched outcomes combine.
//!
//! A lookup is planned first: the player name becomes a slug, and the strategy
//! decides which services are asked. The caller performs the fetches the plan
//! lists (both at once under [`FetchStrategy::Both`]) and hands the outcomes to
//! [`summarize`], which applies the partial-failure policy.
use crate::error::StatbookError;
use crate::models::{
    default_sort, zero_stats, Article, FetchStrategy, NewsQuery, PlayerStats, PlayerSummaryResult,
};
use crate::text::{dash_case, to_dash_case};
use vstd::prelude::*;

verus! {

impl FetchStrategy {
    /// Whether the statistics service is asked.
    pub open spec fn wants_stats(self) -> bool {
        !(self is NewsOnly)
    }

    /// Whether the news service is asked.
    pub open spec fn wants_news(self) -> bool {
        !(self is StatsOnly)
    }
}

/// The fetches a lookup makes.
#[derive(Debug)]
pub struct FetchPlan {
    /// The player's slug, sent to both services.
    pub identifier: String,
    /// Whether statistics are fetched for the slug.
    pub fetch_stats: bool,
    /// The news search made, if any.
    pub news_query: Option<NewsQuery>,
}

/// Plans the lookup of `name` under `strategy`: statistics unless only news is
/// wanted, and a default news search for the slug unless only statistics are.
pub fn plan_lookup(name: &str, strategy: FetchStrategy) -> (r: FetchPlan)
    ensures
        r.identifier@ == dash_case(name@),
        r.fetch_stats == strategy.wants_stats(),
        r.news_query is Some == strategy.wants_news(),
        strategy is StatsOnly ==> r.news_query is None,
        r.news_query matches Some(q) ==> q.player_name@ == dash_case(name@) && q.from_date@.len()
            == 0 && q.page_size == 5 && q.sort_by@ == default_sort(),
{
    let identifier = to_dash_case(name);
    let news_query = match strategy {
        FetchStrategy::StatsOnly => None,
        _ => Some(NewsQuery::for_player(identifier.as_str())),
    };
    FetchPlan { identifier, fetch_stats: !matches!(strategy, FetchStrategy::NewsOnly), news_query }
}

/// Merges the outcomes of a lookup's fetches; an outcome is given exactly for
/// each fetch the strategy makes.
///
/// A statistics failure always fails the lookup. Under `StatsOnly` the news
/// outcome is an empty success; under `NewsOnly` the statistics are the zero
/// record and a news failure fails the lookup. Under `Both`, a news failure fails
/// the lookup when `fail_on_news_error` is set, and is otherwise kept in
/// `news_result` beside the statistics.
pub fn summarize(
    strategy: FetchStrategy,
    stats: Option<Result<PlayerStats, StatbookError>>,
    news: Option<Result<Vec<Article>, StatbookError>>,
) -> (r: Result<PlayerSummaryResult, StatbookError>)
    requires
        stats is Some == strategy.wants_stats(),
        news is Some == strategy.wants_news(),
    ensures
        strategy.wants_stats() && stats->0 is Err ==> r == Err::<PlayerSummaryResult, StatbookError>(
            stats->0->Err_0,
        ),
        strategy is StatsOnly && stats->0 is Ok ==> r is Ok && r->Ok_0.player_stats
            == stats->0->Ok_0 && r->Ok_0.news_result is Ok && r->Ok_0.news_result->Ok_0@.len() == 0,
        strategy is NewsOnly && news->0 is Err ==> r == Err::<PlayerSummaryResult, StatbookError>(
            news->0->Err_0,
        ),
        strategy is NewsOnly && news->0 is Ok ==> r is Ok && r->Ok_0.player_stats@ == zero_stats()
            && r->Ok_0.news_result == news->0,
        strategy is Both && stats->0 is Ok && news->0 is Ok ==> r is Ok && r->Ok_0.player_stats
            == stats->0->Ok_0 && r->Ok_0.news_result == news->0,
        strategy is Both && stats->0 is Ok && news->0 is Err ==> if strategy->fail_on_news_error {
            r == Err::<PlayerSummaryResult, StatbookError>(news->0->Err_0)
        } else {
            r is Ok && r->Ok_0.player_stats == stats->0->Ok_0 && r->Ok_0.news_result == news->0
        },
{
    match strategy {
        FetchStrategy::StatsOnly => {
            let player_stats = stats.unwrap()?;
            Ok(PlayerSummaryResult { player_stats, news_result: Ok(Vec::new()) })
        },
        FetchStrategy::NewsOnly => {
            let articles = news.unwrap()?;
            Ok(PlayerSummaryResult { player_stats: PlayerStats::default(), news_result: Ok(articles) })
        },
        FetchStrategy::Both { fail_on_news_error } => {
            let player_stats = stats.unwrap()?;
            let news_result = news.unwrap();
            if fail_on_news_error && news_result.is_err() {
                match news_result {
                    Err(e) => Err(e),
                    Ok(_) => Ok(PlayerSummaryResult { player_stats, news_result }),
                }
            } else {
                Ok(PlayerSummaryResult { player_stats, news_result })
            }
        },
    }
}

} // verus!

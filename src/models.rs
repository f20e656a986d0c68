//! Domain records: statistics, articles, queries and summaries.
use crate::error::StatbookError;
use crate::text::{decimal, decimal_of};
use vstd::prelude::*;
use vstd::string::*;

verus! {

/// Player statistics. Every field has a zero value (empty text, 0, false), so a
/// record can always be built from a sparse payload.
#[derive(Debug)]
pub struct PlayerStats {
    pub first_name: String,
    pub last_name: String,
    pub primary_position: String,
    pub jersey_number: u32,
    /// Team abbreviation.
    pub current_team: String,
    /// Injury status; empty when healthy.
    pub injury: String,
    pub rookie: bool,
    pub games_played: u64,
    /// Season label the statistics were requested for; empty when unspecified.
    pub season: String,
}

/// The mathematical content of a [`PlayerStats`].
pub struct PlayerStatsView {
    pub first_name: Seq<char>,
    pub last_name: Seq<char>,
    pub primary_position: Seq<char>,
    pub jersey_number: u32,
    pub current_team: Seq<char>,
    pub injury: Seq<char>,
    pub rookie: bool,
    pub games_played: u64,
    pub season: Seq<char>,
}

impl View for PlayerStats {
    type V = PlayerStatsView;

    open spec fn view(&self) -> PlayerStatsView {
        PlayerStatsView {
            first_name: self.first_name@,
            last_name: self.last_name@,
            primary_position: self.primary_position@,
            jersey_number: self.jersey_number,
            current_team: self.current_team@,
            injury: self.injury@,
            rookie: self.rookie,
            games_played: self.games_played,
            season: self.season@,
        }
    }
}

/// The record with every field at its zero value.
pub open spec fn zero_stats() -> PlayerStatsView {
    PlayerStatsView {
        first_name: Seq::empty(),
        last_name: Seq::empty(),
        primary_position: Seq::empty(),
        jersey_number: 0,
        current_team: Seq::empty(),
        injury: Seq::empty(),
        rookie: false,
        games_played: 0,
        season: Seq::empty(),
    }
}

impl Default for PlayerStats {
    fn default() -> (r: PlayerStats)
        ensures
            r@ == zero_stats(),
    {
        PlayerStats {
            first_name: String::new(),
            last_name: String::new(),
            primary_position: String::new(),
            jersey_number: 0,
            current_team: String::new(),
            injury: String::new(),
            rookie: false,
            games_played: 0,
            season: String::new(),
        }
    }
}

impl Clone for PlayerStats {
    fn clone(&self) -> (r: PlayerStats)
        ensures
            r == *self,
    {
        PlayerStats {
            first_name: self.first_name.clone(),
            last_name: self.last_name.clone(),
            primary_position: self.primary_position.clone(),
            jersey_number: self.jersey_number,
            current_team: self.current_team.clone(),
            injury: self.injury.clone(),
            rookie: self.rookie,
            games_played: self.games_played,
            season: self.season.clone(),
        }
    }
}

impl PlayerStats {
    /// The same statistics labelled with `season`.
    pub fn with_season(self, season: &str) -> (r: PlayerStats)
        ensures
            r@ == (PlayerStatsView { season: season@, ..self@ }),
    {
        PlayerStats { season: season.to_owned(), ..self }
    }
}

/// A news article. Absent upstream fields are empty.
#[derive(Debug)]
pub struct Article {
    pub title: String,
    pub description: String,
    /// Publication time, ISO-8601.
    pub published_at: String,
    pub content: String,
}

/// The mathematical content of an [`Article`].
pub struct ArticleView {
    pub title: Seq<char>,
    pub description: Seq<char>,
    pub published_at: Seq<char>,
    pub content: Seq<char>,
}

impl View for Article {
    type V = ArticleView;

    open spec fn view(&self) -> ArticleView {
        ArticleView {
            title: self.title@,
            description: self.description@,
            published_at: self.published_at@,
            content: self.content@,
        }
    }
}

impl Clone for Article {
    fn clone(&self) -> (r: Article)
        ensures
            r == *self,
    {
        Article {
            title: self.title.clone(),
            description: self.description.clone(),
            published_at: self.published_at.clone(),
            content: self.content.clone(),
        }
    }
}

/// The views of a list of articles.
pub open spec fn article_views(v: Seq<Article>) -> Seq<ArticleView> {
    v.map_values(|a: Article| a@)
}

/// Parameters of one news search. An empty `from_date` means no date filter.
#[derive(Debug)]
pub struct NewsQuery {
    pub player_name: String,
    /// Start date, `YYYY-MM-DD`; empty for no filter.
    pub from_date: String,
    pub page_size: u32,
    /// Field the results are sorted by.
    pub sort_by: String,
}

/// Sort field used when a query names none.
pub open spec fn default_sort() -> Seq<char> {
    "publishedAt"@
}

impl Clone for NewsQuery {
    fn clone(&self) -> (r: NewsQuery)
        ensures
            r == *self,
    {
        NewsQuery {
            player_name: self.player_name.clone(),
            from_date: self.from_date.clone(),
            page_size: self.page_size,
            sort_by: self.sort_by.clone(),
        }
    }
}

impl NewsQuery {
    /// A query for `name`: five articles, newest first, no date filter (the
    /// free tier of the news service rejects date filters).
    pub fn for_player(name: &str) -> (r: NewsQuery)
        ensures
            r.player_name@ == name@,
            r.from_date@ == Seq::<char>::empty(),
            r.page_size == 5,
            r.sort_by@ == default_sort(),
    {
        NewsQuery {
            player_name: name.to_owned(),
            from_date: String::new(),
            page_size: 5,
            sort_by: String::from_str("publishedAt"),
        }
    }

    /// The same query asking for `size` articles.
    pub fn with_page_size(self, size: u32) -> (r: NewsQuery)
        ensures
            r == (NewsQuery { page_size: size, ..self }),
    {
        NewsQuery { page_size: size, ..self }
    }

    /// The same query limited to articles published from `from_date` on.
    pub fn with_date_range(self, from_date: String) -> (r: NewsQuery)
        ensures
            r == (NewsQuery { from_date, ..self }),
    {
        NewsQuery { from_date, ..self }
    }
}

/// The articles found for a query, with the query itself.
#[derive(Debug)]
pub struct PlayerNews {
    pub articles: Vec<Article>,
    pub query: NewsQuery,
    /// Number of matching articles the service reports, when it reports one.
    pub total_count: Option<u32>,
}

impl PlayerNews {
    pub fn new(articles: Vec<Article>, query: NewsQuery) -> (r: PlayerNews)
        ensures
            r == (PlayerNews { articles, query, total_count: None }),
    {
        PlayerNews { articles, query, total_count: None }
    }

    pub fn with_total_count(self, count: u32) -> (r: PlayerNews)
        ensures
            r == (PlayerNews { total_count: Some(count), ..self }),
    {
        PlayerNews { total_count: Some(count), ..self }
    }

    pub fn len(&self) -> (r: usize)
        ensures
            r == self.articles@.len(),
    {
        self.articles.len()
    }

    pub fn is_empty(&self) -> (r: bool)
        ensures
            r == (self.articles@.len() == 0),
    {
        self.articles.len() == 0
    }
}

/// A flat overview of a player: the essential statistics with related news.
#[derive(Debug)]
pub struct PlayerSummary {
    pub first_name: String,
    pub last_name: String,
    pub primary_position: String,
    pub current_team: String,
    pub jersey_number: u32,
    pub games_played: u64,
    pub news: Vec<Article>,
}

impl PlayerSummary {
    /// The overview of `stats`, with the articles of `news`, or none when the
    /// news could not be fetched.
    pub fn from_parts(stats: PlayerStats, news: Result<Vec<Article>, StatbookError>) -> (r:
        PlayerSummary)
        ensures
            r.first_name == stats.first_name,
            r.last_name == stats.last_name,
            r.primary_position == stats.primary_position,
            r.current_team == stats.current_team,
            r.jersey_number == stats.jersey_number,
            r.games_played == stats.games_played,
            news is Ok ==> r.news == news->Ok_0,
            news is Err ==> r.news@.len() == 0,
    {
        let articles = match news {
            Ok(a) => a,
            Err(_) => Vec::new(),
        };
        PlayerSummary {
            first_name: stats.first_name,
            last_name: stats.last_name,
            primary_position: stats.primary_position,
            current_team: stats.current_team,
            jersey_number: stats.jersey_number,
            games_played: stats.games_played,
            news: articles,
        }
    }
}

/// Statistics with the outcome of the news fetch. A news failure is held here as
/// data when the strategy tolerates it.
#[derive(Debug)]
pub struct PlayerSummaryResult {
    pub player_stats: PlayerStats,
    pub news_result: Result<Vec<Article>, StatbookError>,
}

/// What a lookup fetches, and how a news failure is treated.
#[derive(Debug, Clone, Copy)]
pub enum FetchStrategy {
    /// Statistics only.
    StatsOnly,
    /// News only.
    NewsOnly,
    /// Both, concurrently.
    Both {
        /// Whether a news failure fails the whole lookup.
        fail_on_news_error: bool,
    },
}

impl Default for FetchStrategy {
    /// Both, tolerating a news failure.
    fn default() -> (r: FetchStrategy)
        ensures
            r == (FetchStrategy::Both { fail_on_news_error: false }),
    {
        FetchStrategy::Both { fail_on_news_error: false }
    }
}

/// Season selector for statistics requests.
#[derive(Debug, Clone, Copy)]
pub enum Season {
    Current,
    Latest,
    Upcoming,
    Regular,
    Playoffs,
}

/// The service's name for a season selector.
pub open spec fn season_name(s: Season) -> Seq<char> {
    match s {
        Season::Current => "current"@,
        Season::Latest => "latest"@,
        Season::Upcoming => "upcoming"@,
        Season::Regular => "regular"@,
        Season::Playoffs => "playoff"@,
    }
}

/// `"{start}-{end}-{name}"`, the label of a season of a given span of years.
pub open spec fn season_with_years(s: Season, start: int, end: int) -> Seq<char> {
    decimal_of(start) + "-"@ + decimal_of(end) + "-"@ + season_name(s)
}

impl Season {
    pub fn as_str(&self) -> (r: &'static str)
        ensures
            r@ == season_name(*self),
    {
        match self {
            Season::Current => "current",
            Season::Latest => "latest",
            Season::Upcoming => "upcoming",
            Season::Regular => "regular",
            Season::Playoffs => "playoff",
        }
    }

    /// The label of this season over the years `start_year` to `end_year`, such
    /// as `"2023-2024-regular"`.
    pub fn format_with_years(&self, start_year: i64, end_year: i64) -> (r: String)
        ensures
            r@ == season_with_years(*self, start_year as int, end_year as int),
    {
        let mut out = decimal(start_year);
        out.append("-");
        out.append(decimal(end_year).as_str());
        out.append("-");
        out.append(self.as_str());
        out
    }
}

/// The season label of a request: the selector's name, or with a year range the
/// name prefixed by the years.
pub open spec fn season_label_of(year_range: Option<(i64, i64)>, season: Season) -> Seq<char> {
    match year_range {
        Some((start, end)) => season_with_years(season, start as int, end as int),
        None => season_name(season),
    }
}

/// The season label of a request, as [`season_label_of`] gives it.
pub fn season_label(year_range: Option<(i64, i64)>, season: &Season) -> (r: String)
    ensures
        r@ == season_label_of(year_range, *season),
{
    match year_range {
        Some((start, end)) => season.format_with_years(start, end),
        None => String::from_str(season.as_str()),
    }
}

} // verus!
